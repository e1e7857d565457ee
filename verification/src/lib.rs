//! Backend core of a desktop client for a federated microblogging service:
//! the message envelope, the request router, the session manager and the
//! rules of the account table, each with a machine-checked contract.

pub mod api;
pub mod cache;
pub mod clock;
pub mod crypto;
pub mod ids;
pub mod ipc;
pub mod json;
pub mod logger;
pub mod models;
pub mod streaming;
pub mod text;
