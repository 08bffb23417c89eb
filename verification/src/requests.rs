pub mod tk_request;
pub mod tk_request_checker;
pub mod tk_request_validator;
