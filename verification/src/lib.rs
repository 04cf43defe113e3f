//! A small greeter service, stated as pure functions over plain values.
//!
//! The crate holds what the service decides and computes: the payload it
//! exchanges, the three request handlers, its configuration, its two-state
//! lifecycle and the records it logs. Sockets, signals and the wire encoding
//! are left to the program that embeds it.

pub mod text;
pub mod payload;
pub mod handlers;
pub mod config;
pub mod lifecycle;
pub mod logging;
pub mod client;
