//! The local channel: which methods there are, what each request leads to,
//! and how lines of text become messages.

pub mod handler;
pub mod laws;
pub mod protocol;
pub mod rules;
pub mod server;
