//! Session logic of a streaming market-data gateway: request validation,
//! windowed retrieval of daily price bars, paced delivery and the decisions of
//! one connection's life, each stated and proved over plain values.

pub mod app;
pub mod configs;
pub mod creator;
pub mod data;
pub mod dates;
pub mod errors;
pub mod json;
pub mod requests;
pub mod websocket;
