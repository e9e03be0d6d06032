pub mod cost;
pub mod supply;
