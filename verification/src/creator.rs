pub mod tk_creator;
