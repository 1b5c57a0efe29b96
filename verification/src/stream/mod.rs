//! The streams of one connection: their two ends, the routes of the messages that arrive for
//! them, and the streams that are opened through a forwarded port.
pub mod connecter;
pub mod link;
pub mod listener;
pub mod recv_router;
pub mod sink;
pub mod source;
