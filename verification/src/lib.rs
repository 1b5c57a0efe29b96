pub mod error;
pub mod execute;
pub mod message;
pub mod net;
pub mod parse;
pub mod protocol;
pub mod server;
pub mod sink;
pub mod source;
pub mod stream;
pub mod terminal;
pub mod text;
