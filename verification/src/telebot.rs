pub mod bot;
pub mod types;
