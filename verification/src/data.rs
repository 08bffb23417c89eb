pub mod ticker_data;
pub mod window_laws;
pub mod yfinance_data;
