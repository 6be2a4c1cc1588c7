//! The server side: the client picks the ids, the server answers under
//! them.
use super::{ResponseKind, ChannelEvent, not_supported, kind_name, outgoing, spec_outgoing};
use crate::packet::PacketError;
use crate::packet::packet::Kind;

use std::collections::HashMap;
use std::collections::HashSet;

use vstd::prelude::*;

verus! {

broadcast use vstd::std_specs::hash::group_hash_axioms;

/// What to do with a packet from the client.
#[derive(Debug)]
pub enum ServerAction {
    /// Hand the packet to the server as a request; its response is waited
    /// for under the id.
    Request,
    /// Hand the packet to the server as a request for a stream the server
    /// sends; the stream is waited for under the id.
    OpenStream,
    /// Hand the packet to the server with a stream the client sends under
    /// the id.
    CreateStream,
    /// Hand the packet to the stream listening under the id; if nobody
    /// listens anymore, send a stream closed packet for the id.
    ToStream,
    /// Nobody listens under the id: answer with a stream closed packet
    /// (the client can send several packets before it learns that).
    SendStreamClosed,
    /// Close what the server sends under the id.
    CloseStream,
    /// The client closes the connection.
    Close,
    /// Nothing to do.
    Ignore,
    Error(PacketError),
}

/// A request the client sent under `id` is answered once: the first
/// answer of the server goes out as the response (or, when the server drops
/// it, as no response) and the id stops waiting; a stream the server sends
/// under `id` goes on until it closes.
pub proof fn law_server_answers(waiting: Map<u32, ResponseKind>, id: u32)
    ensures
        ({
            let w = waiting.insert(id, ResponseKind::Request);
            &&& spec_outgoing(w[id], ChannelEvent::Item) == (Kind::Response, true)
            &&& spec_outgoing(w[id], ChannelEvent::Closed) == (Kind::NoResponse, true)
            &&& !w.remove(id).contains_key(id)
        }),
        ({
            let w = waiting.insert(id, ResponseKind::Receiver);
            &&& spec_outgoing(w[id], ChannelEvent::Item) == (Kind::Stream, false)
            &&& spec_outgoing(w[id], ChannelEvent::Closed) == (Kind::StreamClosed, true)
        }),
{
}

/// The ids the client waits on and the ids of streams the client sends.
pub struct ServerState {
    waiting_on_server: HashMap<u32, ResponseKind>,
    waiting_on_client: HashSet<u32>,
}

impl ServerState {
    pub closed spec fn waiting_on_server(&self) -> Map<u32, ResponseKind> {
        self.waiting_on_server@
    }

    pub closed spec fn waiting_on_client(&self) -> Set<u32> {
        self.waiting_on_client@
    }

    pub fn new() -> (r: Self)
        ensures
            r.waiting_on_server() == Map::<u32, ResponseKind>::empty(),
            r.waiting_on_client() == Set::<u32>::empty(),
    {
        ServerState { waiting_on_server: HashMap::new(), waiting_on_client: HashSet::new() }
    }

    /// Should be called with the kind and id of a packet from the client.
    pub fn on_packet(&mut self, kind: Kind, id: u32) -> (r: ServerAction)
        ensures
            match kind {
                Kind::Request => {
                    &&& final(self).waiting_on_server() == old(self).waiting_on_server().insert(
                        id,
                        ResponseKind::Request,
                    )
                    &&& final(self).waiting_on_client() == old(self).waiting_on_client()
                    &&& r is Request
                },
                Kind::NewStream => {
                    &&& final(self).waiting_on_server() == old(self).waiting_on_server().insert(
                        id,
                        ResponseKind::Receiver,
                    )
                    &&& final(self).waiting_on_client() == old(self).waiting_on_client()
                    &&& r is OpenStream
                },
                Kind::NewSenderStream => {
                    &&& final(self).waiting_on_server() == old(self).waiting_on_server()
                    &&& final(self).waiting_on_client() == old(self).waiting_on_client().insert(id)
                    &&& r is CreateStream
                },
                Kind::Stream => {
                    &&& final(self).waiting_on_server() == old(self).waiting_on_server()
                    &&& final(self).waiting_on_client() == old(self).waiting_on_client()
                    &&& if old(self).waiting_on_client().contains(id) {
                        r is ToStream
                    } else {
                        r is SendStreamClosed
                    }
                },
                Kind::StreamClosed => {
                    &&& final(self).waiting_on_server() == old(self).waiting_on_server()
                    &&& final(self).waiting_on_client() == old(self).waiting_on_client().remove(id)
                    &&& r is CloseStream
                },
                Kind::Close => {
                    &&& final(self).waiting_on_server() == old(self).waiting_on_server()
                    &&& final(self).waiting_on_client() == old(self).waiting_on_client()
                    &&& r is Close
                },
                Kind::Ping => {
                    &&& final(self).waiting_on_server() == old(self).waiting_on_server()
                    &&& final(self).waiting_on_client() == old(self).waiting_on_client()
                    &&& r is Ignore
                },
                _ => {
                    &&& final(self).waiting_on_server() == old(self).waiting_on_server()
                    &&& final(self).waiting_on_client() == old(self).waiting_on_client()
                    &&& r matches ServerAction::Error(PacketError::Header(s)) && s@ == kind_name(kind)
                        + " not supported"@
                },
            },
    {
        match kind {
            Kind::Request => {
                self.waiting_on_server.insert(id, ResponseKind::Request);
                ServerAction::Request
            },
            Kind::NewStream => {
                self.waiting_on_server.insert(id, ResponseKind::Receiver);
                ServerAction::OpenStream
            },
            Kind::NewSenderStream => {
                self.waiting_on_client.insert(id);
                ServerAction::CreateStream
            },
            Kind::Stream => {
                if self.waiting_on_client.contains(&id) {
                    ServerAction::ToStream
                } else {
                    // since the client could send multiple streams
                    // before we can send him a streamclosed
                    // we cannot return an error
                    ServerAction::SendStreamClosed
                }
            },
            Kind::StreamClosed => {
                let _ = self.waiting_on_client.remove(&id);
                ServerAction::CloseStream
            },
            Kind::Close => ServerAction::Close,
            Kind::Ping => ServerAction::Ignore,
            k => ServerAction::Error(PacketError::Header(not_supported(k))),
        }
    }

    /// What the server gave for the id `id` became ready: the kind to send
    /// the packet with and whether the id stops waiting, or `None` if
    /// nothing waits under the id. An id whose answer is complete stops
    /// waiting.
    pub fn on_outgoing(&mut self, id: u32, event: ChannelEvent) -> (r: Option<(Kind, bool)>)
        ensures
            final(self).waiting_on_client() == old(self).waiting_on_client(),
            !old(self).waiting_on_server().contains_key(id) ==> r is None && final(self).waiting_on_server()
                == old(self).waiting_on_server(),
            old(self).waiting_on_server().contains_key(id) ==> {
                let (kind, done) = spec_outgoing(old(self).waiting_on_server()[id], event);
                &&& r == Some((kind, done))
                &&& final(self).waiting_on_server() == if done {
                    old(self).waiting_on_server().remove(id)
                } else {
                    old(self).waiting_on_server()
                }
            },
    {
        let resp = match self.waiting_on_server.get(&id) {
            Some(resp) => *resp,
            None => return None,
        };
        let (kind, done) = outgoing(resp, event);
        if done {
            self.waiting_on_server.remove(&id);
        }
        Some((kind, done))
    }
}

} // verus!
