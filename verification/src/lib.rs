//! Session lifecycle and tracking-and-diff engine for a supply portal watcher.
//!
//! The crate holds the decisions of the watcher: what a browser session is
//! launched with, which steps bring a page to a ready state, how an identity is
//! built from what the browser hands out, which requests go to the remote API,
//! and how the ledger of known costs moves from one poll to the next. Waiting,
//! sending and receiving are left to the caller.

pub mod browser;
pub mod config;
pub mod number;
pub mod telebot;
pub mod tracking;
pub mod wbseller;
