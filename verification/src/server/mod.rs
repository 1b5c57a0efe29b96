//! The server.
pub mod execute;
