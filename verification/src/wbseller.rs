pub mod client;
pub mod error;
pub mod models;
