//! Client server messages with an action, a success flag and a body, on
//! top of packets.
pub mod message;
pub mod error;
pub mod encdec;
pub mod server;
pub mod util;
pub mod request;
