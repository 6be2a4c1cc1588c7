//! The errors of connections, requests and streams.
use crate::packet::PacketError;

use vstd::prelude::*;

verus! {

#[verifier::external_type_specification]
#[verifier::external_body]
pub struct ExIoError(std::io::Error);

#[verifier::external_type_specification]
#[verifier::external_body]
pub struct ExJoinError(tokio::task::JoinError);

/// Why the task that runs a connection ended.
#[derive(Debug)]
#[non_exhaustive]
pub enum TaskError {
    Join(tokio::task::JoinError),
    Io(std::io::Error),
    /// Reading a packet failed
    Packet(PacketError),
    /// gets returned if a packet with an id was received which is unknown
    /// This means a hard error and the connection should be closed
    UnknownId(u32),
    ExistingId(u32),
    WrongPacketKind(&'static str),
    /// The other side's signature over the key exchange did not verify
    IncorrectSignature,
}

#[derive(Debug)]
#[non_exhaustive]
pub enum RequestError {
    /// If the connection was already closed when you called request
    ///
    /// Depending on ReconnectStrat you might wan't to call request again
    ConnectionAlreadyClosed,
    /// Only get's returned if something wen't wrong and we won't be able
    /// to get an better error, probably means the connection closed
    TaskFailed,
    /// The other side responded with no response. This means the other side
    /// didn't bother to send a response.
    NoResponse,
    /// If the request you sent could not be parsed successfully by the server
    MalformedRequest,
    /// The error that originated while parsing the response
    ResponsePacket(PacketError),
}

#[derive(Debug)]
#[non_exhaustive]
pub enum ResponseError {
    ConnectionClosed,
}

/// Returned from a StreamSender or StreamReceiver
#[derive(Debug)]
#[non_exhaustive]
pub enum StreamError {
    StreamAlreadyClosed,
}

} // verus!
