//! Basic client server messages: a packet with an action.
pub mod message;
