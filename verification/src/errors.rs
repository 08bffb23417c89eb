pub mod api_error;
pub mod rq_errors;
pub mod tk_errors;
pub mod ws_errors;
pub mod yf_error;
