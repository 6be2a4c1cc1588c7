//! The bookkeeping of a connection: which ids wait for what, and what to do
//! with a packet that arrives or a channel that has something to send.
//! The channels themselves live with the code that runs the connection.
pub mod client;
pub mod server;

use crate::packet::bytes::PacketBytes;
use crate::packet::packet::{Flags, Kind, Packet, PacketHeader, kind_num, flags_kind};

use vstd::prelude::*;

verus! {

/// What a request that was sent waits for.
#[derive(Debug, Clone, Copy, PartialEq, Eq)]
pub enum ResponseKind {
    /// one response
    Request,
    // a request to receive a receiving stream
    Receiver,
}

/// What happened on a channel that a packet is waited for on.
#[derive(Debug, Clone, Copy, PartialEq, Eq)]
pub enum ChannelEvent {
    /// a packet is ready to be sent
    Item,
    /// the channel was closed (or the response dropped)
    Closed,
}

/// The packet kind for what a response channel gave, and whether the id
/// stops waiting.
pub open spec fn spec_outgoing(resp: ResponseKind, event: ChannelEvent) -> (Kind, bool) {
    match (resp, event) {
        (ResponseKind::Request, ChannelEvent::Item) => (Kind::Response, true),
        (ResponseKind::Request, ChannelEvent::Closed) => (Kind::NoResponse, true),
        (ResponseKind::Receiver, ChannelEvent::Item) => (Kind::Stream, false),
        (ResponseKind::Receiver, ChannelEvent::Closed) => (Kind::StreamClosed, true),
    }
}

pub fn outgoing(resp: ResponseKind, event: ChannelEvent) -> (r: (Kind, bool))
    ensures
        r == spec_outgoing(resp, event),
{
    match (resp, event) {
        (ResponseKind::Request, ChannelEvent::Item) => (Kind::Response, true),
        (ResponseKind::Request, ChannelEvent::Closed) => (Kind::NoResponse, true),
        (ResponseKind::Receiver, ChannelEvent::Item) => (Kind::Stream, false),
        (ResponseKind::Receiver, ChannelEvent::Closed) => (Kind::StreamClosed, true),
    }
}

/// Marks `packet` as a packet of kind `kind` with id `id`.
pub fn stamp<B: PacketBytes, P: Packet<B>>(packet: &mut P, kind: Kind, id: u32)
    requires
        kind != Kind::Unknown,
    ensures
        flags_kind(final(packet).spec_header().spec_flags()@) == kind,
        final(packet).spec_header().spec_flags()@ == kind_num(kind) * 16,
        final(packet).spec_header().spec_id() == id,
        final(packet).spec_header().spec_body_len() == old(packet).spec_header().spec_body_len(),
        final(packet).spec_wf() == old(packet).spec_wf(),
{
    let flags = Flags::new(kind);
    packet.header_mut().set_flags(flags);
    packet.header_mut().set_id(id);
}

/// An empty packet of kind `kind` with id `id`.
pub fn kind_packet<B: PacketBytes, P: Packet<B>>(kind: Kind, id: u32) -> (p: P)
    requires
        kind != Kind::Unknown,
    ensures
        flags_kind(p.spec_header().spec_flags()@) == kind,
        p.spec_header().spec_id() == id,
        p.spec_header().spec_body_len() == 0,
        p.spec_wf(),
{
    let mut p = P::empty();
    stamp(&mut p, kind, id);
    p
}

/// Creates a new ping packet (its id is that of an empty packet).
pub fn ping_packet<B: PacketBytes, P: Packet<B>>() -> (p: P)
    ensures
        flags_kind(p.spec_header().spec_flags()@) == Kind::Ping,
        p.spec_header().spec_body_len() == 0,
        p.spec_wf(),
{
    let mut p = P::empty();
    let flags = Flags::new(Kind::Ping);
    p.header_mut().set_flags(flags);
    p
}

/// A packet telling the other side that the stream `id` is closed.
pub fn stream_close_packet<B: PacketBytes, P: Packet<B>>(id: u32) -> (p: P)
    ensures
        flags_kind(p.spec_header().spec_flags()@) == Kind::StreamClosed,
        p.spec_header().spec_id() == id,
        p.spec_header().spec_body_len() == 0,
        p.spec_wf(),
{
    kind_packet(Kind::StreamClosed, id)
}

/// A packet telling the other side that the connection closes.
pub fn close_packet<B: PacketBytes, P: Packet<B>>() -> (p: P)
    ensures
        flags_kind(p.spec_header().spec_flags()@) == Kind::Close,
        p.spec_header().spec_body_len() == 0,
        p.spec_wf(),
{
    let mut p = P::empty();
    let flags = Flags::new(Kind::Close);
    p.header_mut().set_flags(flags);
    p
}

/// The message of the error for a packet kind that a side does not take:
/// the kind's name followed by " not supported".
pub fn not_supported(kind: Kind) -> (r: String)
    ensures
        r@ == kind_name(kind) + " not supported"@,
{
    let s = match kind {
        Kind::Request => "Request not supported",
        Kind::Response => "Response not supported",
        Kind::NoResponse => "NoResponse not supported",
        Kind::Stream => "Stream not supported",
        Kind::NewStream => "NewStream not supported",
        Kind::NewSenderStream => "NewSenderStream not supported",
        Kind::StreamClosed => "StreamClosed not supported",
        Kind::Close => "Close not supported",
        Kind::Ping => "Ping not supported",
        Kind::Unknown => "Unknown not supported",
    };
    proof {
        reveal_strlit("Request not supported");
        reveal_strlit("Response not supported");
        reveal_strlit("NoResponse not supported");
        reveal_strlit("Stream not supported");
        reveal_strlit("NewStream not supported");
        reveal_strlit("NewSenderStream not supported");
        reveal_strlit("StreamClosed not supported");
        reveal_strlit("Close not supported");
        reveal_strlit("Ping not supported");
        reveal_strlit("Unknown not supported");
        reveal_strlit(" not supported");
        reveal_strlit("Request");
        reveal_strlit("Response");
        reveal_strlit("NoResponse");
        reveal_strlit("Stream");
        reveal_strlit("NewStream");
        reveal_strlit("NewSenderStream");
        reveal_strlit("StreamClosed");
        reveal_strlit("Close");
        reveal_strlit("Ping");
        reveal_strlit("Unknown");
    }
    let r = s.to_owned();
    assert(r@ =~= kind_name(kind) + " not supported"@);
    r
}

/// The name of a kind, as it is printed.
pub open spec fn kind_name(kind: Kind) -> Seq<char> {
    match kind {
        Kind::Request => "Request"@,
        Kind::Response => "Response"@,
        Kind::NoResponse => "NoResponse"@,
        Kind::Stream => "Stream"@,
        Kind::NewStream => "NewStream"@,
        Kind::NewSenderStream => "NewSenderStream"@,
        Kind::StreamClosed => "StreamClosed"@,
        Kind::Close => "Close"@,
        Kind::Ping => "Ping"@,
        Kind::Unknown => "Unknown"@,
    }
}

} // verus!
