pub mod varint;
pub mod fixed_bytes;
pub mod protobuf;
pub mod packet;
pub mod basic;
pub mod api;
pub mod handler;
pub mod error;
pub mod client;
pub mod stream;
pub mod derive_input;
pub mod handshake;

pub use vstd::view::DeepView;
