//! Packets: a fixed size header followed by a body whose length the header
//! gives.
pub mod bytes;
pub mod packet;
pub mod builder;

use vstd::prelude::*;

verus! {

#[derive(Debug)]
pub enum PacketError {
    Header(String),
    Body(String),
    /// Returns the size that should have been sent
    BodyLimitReached(usize),
}

pub type Result<T> = core::result::Result<T, PacketError>;

} // verus!
