pub mod error;
pub mod session;
