//! The client side: it gives every request a new id and waits for the
//! server to answer under that id.
use super::{ResponseKind, ChannelEvent, not_supported, kind_name};
use crate::packet::PacketError;
use crate::packet::packet::Kind;

use std::collections::HashMap;
use std::collections::HashSet;

use vstd::prelude::*;

verus! {

broadcast use vstd::std_specs::hash::group_hash_axioms;

/// What the client sends to the server.
#[derive(Debug, Clone, Copy, PartialEq, Eq)]
pub enum MessageKind {
    /// a request waiting for one response
    Request,
    // a request to receive a receiving stream
    OpenStream,
    // a request to receive a sender stream
    CreateStream,
}

/// What to do with a packet from the server.
#[derive(Debug)]
pub enum ClientAction {
    /// Hand the packet to the request waiting under its id; the id does not
    /// wait anymore.
    Respond,
    /// Hand the packet to the stream listening under its id; if nobody
    /// listens anymore, send a stream closed packet for the id.
    ToStream,
    /// Nobody listens under the id: answer with a stream closed packet
    /// (the server can send several packets before it learns that).
    SendStreamClosed,
    /// Close the stream the client sends under the id.
    CloseSenderStream,
    /// The server closes the connection.
    Close,
    /// Nothing to do.
    Ignore,
    Error(PacketError),
}

/// What the client does with a packet, as far as its bookkeeping shows.
#[derive(Debug, Clone, Copy, PartialEq, Eq)]
pub enum ClientStep {
    Respond,
    ToStream,
    SendStreamClosed,
    CloseSenderStream,
    Close,
    Ignore,
    /// the id does not wait for a packet of this kind
    HandlerNotFound,
    /// the client takes no packet of this kind
    NotSupported,
}

/// A packet of kind `kind` for `id` arrives while `waiting` says what the
/// ids wait for: what waits afterwards, and what the client does.
pub open spec fn client_step(waiting: Map<u32, ResponseKind>, kind: Kind, id: u32) -> (
    Map<u32, ResponseKind>,
    ClientStep,
) {
    match kind {
        Kind::Response => (
            waiting.remove(id),
            if waiting.contains_key(id) && waiting[id] == ResponseKind::Request {
                ClientStep::Respond
            } else {
                ClientStep::HandlerNotFound
            },
        ),
        Kind::NoResponse => (waiting.remove(id), ClientStep::Ignore),
        Kind::Stream => (
            waiting,
            if !waiting.contains_key(id) {
                ClientStep::SendStreamClosed
            } else if waiting[id] == ResponseKind::Receiver {
                ClientStep::ToStream
            } else {
                ClientStep::HandlerNotFound
            },
        ),
        Kind::StreamClosed => (waiting.remove(id), ClientStep::CloseSenderStream),
        Kind::Close => (waiting, ClientStep::Close),
        Kind::Ping => (waiting, ClientStep::Ignore),
        _ => (waiting, ClientStep::NotSupported),
    }
}

/// The action the client answers a packet of kind `kind` with, for a step.
pub open spec fn client_action_is(r: ClientAction, step: ClientStep, kind: Kind) -> bool {
    match step {
        ClientStep::Respond => r is Respond,
        ClientStep::ToStream => r is ToStream,
        ClientStep::SendStreamClosed => r is SendStreamClosed,
        ClientStep::CloseSenderStream => r is CloseSenderStream,
        ClientStep::Close => r is Close,
        ClientStep::Ignore => r is Ignore,
        ClientStep::HandlerNotFound => r matches ClientAction::Error(PacketError::Header(s)) && s@
            == "Handler not found"@,
        ClientStep::NotSupported => r matches ClientAction::Error(PacketError::Header(s)) && s@
            == kind_name(kind) + " not supported"@,
    }
}

/// A request waiting under `id` is answered by the first response with its
/// id, which ends the wait; another response with the id finds no handler.
pub proof fn law_response_answers_request_once(waiting: Map<u32, ResponseKind>, id: u32)
    ensures
        ({
            let w = waiting.insert(id, ResponseKind::Request);
            let (after, step) = client_step(w, Kind::Response, id);
            &&& step == ClientStep::Respond
            &&& after == waiting.remove(id)
            &&& client_step(after, Kind::Response, id).1 == ClientStep::HandlerNotFound
        }),
{
    assert(waiting.insert(id, ResponseKind::Request).remove(id) =~= waiting.remove(id));
}

/// A stream the client opened under `id` gets every stream packet with its
/// id until the server closes it; after that a stream packet with the id is
/// answered with a stream closed packet.
pub proof fn law_stream_packets_until_closed(waiting: Map<u32, ResponseKind>, id: u32)
    ensures
        ({
            let w = waiting.insert(id, ResponseKind::Receiver);
            &&& client_step(w, Kind::Stream, id) == (w, ClientStep::ToStream)
            &&& client_step(w, Kind::StreamClosed, id).0 == waiting.remove(id)
            &&& client_step(waiting.remove(id), Kind::Stream, id).1 == ClientStep::SendStreamClosed
        }),
{
    assert(waiting.insert(id, ResponseKind::Receiver).remove(id) =~= waiting.remove(id));
}

/// A response, a no response or a closed stream ends the wait of its id:
/// afterwards the id no longer waits on the server and every other id
/// waits as before. Packets of the other kinds change no wait, and a no
/// response is taken without an answer.
pub proof fn law_answers_end_the_wait(waiting: Map<u32, ResponseKind>, kind: Kind, id: u32)
    ensures
        (kind is Response || kind is NoResponse || kind is StreamClosed) ==> {
            &&& !client_step(waiting, kind, id).0.contains_key(id)
            &&& forall|other: u32|
                other != id ==> (#[trigger] client_step(waiting, kind, id).0.contains_key(other)
                    <==> waiting.contains_key(other)) && (waiting.contains_key(other)
                    ==> client_step(waiting, kind, id).0[other] == waiting[other])
        },
        !(kind is Response || kind is NoResponse || kind is StreamClosed) ==> client_step(
            waiting,
            kind,
            id,
        ).0 == waiting,
        kind is NoResponse ==> client_step(waiting, kind, id).1 == ClientStep::Ignore,
{
}

/// A request that the server answers with no response stops waiting: a
/// response with its id afterwards finds no handler.
pub proof fn law_no_response_ends_request(waiting: Map<u32, ResponseKind>, id: u32)
    ensures
        ({
            let w = waiting.insert(id, ResponseKind::Request);
            let (after, step) = client_step(w, Kind::NoResponse, id);
            &&& step == ClientStep::Ignore
            &&& !after.contains_key(id)
            &&& client_step(after, Kind::Response, id).1 == ClientStep::HandlerNotFound
        }),
{
}

/// The ids that wait on the server and the ids of streams the client
/// sends.
pub struct ClientState {
    waiting_on_server: HashMap<u32, ResponseKind>,
    waiting_on_client: HashSet<u32>,
    counter: u32,
}

pub open spec fn kind_of_message(m: MessageKind) -> Kind {
    match m {
        MessageKind::Request => Kind::Request,
        MessageKind::OpenStream => Kind::NewStream,
        MessageKind::CreateStream => Kind::NewSenderStream,
    }
}

impl ClientState {
    /// Every id that waits on the server was handed out since the counter
    /// last started over.
    #[verifier::type_invariant]
    spec fn ids_handed_out(&self) -> bool {
        forall|k: u32| #[trigger] self.waiting_on_server@.contains_key(k) ==> 0 < k <= self.counter
    }

    pub closed spec fn waiting_on_server(&self) -> Map<u32, ResponseKind> {
        self.waiting_on_server@
    }

    pub closed spec fn waiting_on_client(&self) -> Set<u32> {
        self.waiting_on_client@
    }

    pub closed spec fn counter(&self) -> u32 {
        self.counter
    }

    /// Takes the ids that wait on the server out, leaving none.
    fn take_waiting_on_server(&mut self) -> (m: HashMap<u32, ResponseKind>)
        ensures
            m@ == old(self).waiting_on_server@,
            final(self).waiting_on_server@ == Map::<u32, ResponseKind>::empty(),
            final(self).waiting_on_client@ == old(self).waiting_on_client@,
            final(self).counter == old(self).counter,
    {
        let mut m = HashMap::new();
        std::mem::swap(&mut m, &mut self.waiting_on_server);
        m
    }

    /// Puts back the ids that wait on the server.
    fn put_waiting_on_server(&mut self, m: HashMap<u32, ResponseKind>)
        requires
            forall|k: u32| #[trigger] m@.contains_key(k) ==> 0 < k <= old(self).counter,
        ensures
            final(self).waiting_on_server@ == m@,
            final(self).waiting_on_client@ == old(self).waiting_on_client@,
            final(self).counter == old(self).counter,
    {
        let mut m = m;
        std::mem::swap(&mut m, &mut self.waiting_on_server);
    }

    /// Takes the ids of the streams the client sends out, leaving none.
    fn take_waiting_on_client(&mut self) -> (m: HashSet<u32>)
        ensures
            m@ == old(self).waiting_on_client@,
            final(self).waiting_on_client@ == Set::<u32>::empty(),
            final(self).waiting_on_server@ == old(self).waiting_on_server@,
            final(self).counter == old(self).counter,
    {
        proof {
            use_type_invariant(&*self);
        }
        let mut m = HashSet::new();
        std::mem::swap(&mut m, &mut self.waiting_on_client);
        m
    }

    /// Puts back the ids of the streams the client sends.
    fn put_waiting_on_client(&mut self, m: HashSet<u32>)
        ensures
            final(self).waiting_on_client@ == m@,
            final(self).waiting_on_server@ == old(self).waiting_on_server@,
            final(self).counter == old(self).counter,
    {
        proof {
            use_type_invariant(&*self);
        }
        let mut m = m;
        std::mem::swap(&mut m, &mut self.waiting_on_client);
    }

    pub fn new() -> (r: Self)
        ensures
            r.waiting_on_server() == Map::<u32, ResponseKind>::empty(),
            r.waiting_on_client() == Set::<u32>::empty(),
            r.counter() == 0,
    {
        ClientState { waiting_on_server: HashMap::new(), waiting_on_client: HashSet::new(), counter: 0 }
    }

    /// returns a new id.
    ///
    /// If the counter is full we sent u32::max messages None is returned
    pub fn next_id(&mut self) -> (r: Option<u32>)
        ensures
            old(self).counter() < u32::MAX ==> r == Some((old(self).counter() + 1) as u32)
                && final(self).counter() == old(self).counter() + 1,
            old(self).counter() == u32::MAX ==> r is None && final(self).counter() == old(self).counter(),
            final(self).waiting_on_server() == old(self).waiting_on_server(),
            final(self).waiting_on_client() == old(self).waiting_on_client(),
    {
        proof {
            use_type_invariant(&*self);
        }
        match self.counter.checked_add(1) {
            Some(c) => {
                self.counter = c;
                Some(c)
            },
            None => None,
        }
    }

    /// Gives a message from the client a new id and records what it waits
    /// for; returns the id and the kind to send the packet with, or `None`
    /// when no id is left.
    pub fn register(&mut self, msg: MessageKind) -> (r: Option<(u32, Kind)>)
        ensures
            old(self).counter() == u32::MAX ==> {
                &&& r is None
                &&& final(self).counter() == old(self).counter()
                &&& final(self).waiting_on_server() == old(self).waiting_on_server()
                &&& final(self).waiting_on_client() == old(self).waiting_on_client()
            },
            old(self).counter() < u32::MAX ==> {
                let id = (old(self).counter() + 1) as u32;
                &&& r == Some((id, kind_of_message(msg)))
                &&& !old(self).waiting_on_server().contains_key(id)
                &&& final(self).counter() == id
                &&& final(self).waiting_on_server() == match msg {
                    MessageKind::Request => old(self).waiting_on_server().insert(
                        id,
                        ResponseKind::Request,
                    ),
                    MessageKind::OpenStream => old(self).waiting_on_server().insert(
                        id,
                        ResponseKind::Receiver,
                    ),
                    MessageKind::CreateStream => old(self).waiting_on_server(),
                }
                &&& final(self).waiting_on_client() == match msg {
                    MessageKind::CreateStream => old(self).waiting_on_client().insert(id),
                    _ => old(self).waiting_on_client(),
                }
            },
    {
        proof {
            use_type_invariant(&*self);
        }
        let id = match self.next_id() {
            Some(id) => id,
            None => return None,
        };
        let kind = match msg {
            MessageKind::Request => {
                let mut m = self.take_waiting_on_server();
                m.insert(id, ResponseKind::Request);
                self.put_waiting_on_server(m);
                Kind::Request
            },
            MessageKind::OpenStream => {
                let mut m = self.take_waiting_on_server();
                m.insert(id, ResponseKind::Receiver);
                self.put_waiting_on_server(m);
                Kind::NewStream
            },
            MessageKind::CreateStream => {
                let mut m = self.take_waiting_on_client();
                m.insert(id);
                self.put_waiting_on_client(m);
                Kind::NewSenderStream
            },
        };
        Some((id, kind))
    }

    /// Should be called with the kind and id of a packet from the server.
    pub fn on_packet(&mut self, kind: Kind, id: u32) -> (r: ClientAction)
        ensures
            final(self).counter() == old(self).counter(),
            final(self).waiting_on_client() == old(self).waiting_on_client(),
            final(self).waiting_on_server() == client_step(old(self).waiting_on_server(), kind, id).0,
            client_action_is(r, client_step(old(self).waiting_on_server(), kind, id).1, kind),
    {
        proof {
            use_type_invariant(&*self);
        }
        match kind {
            Kind::Response => {
                let mut m = self.take_waiting_on_server();
                let removed = m.remove(&id);
                self.put_waiting_on_server(m);
                match removed {
                    Some(ResponseKind::Request) => ClientAction::Respond,
                    _ => ClientAction::Error(PacketError::Header("Handler not found".to_owned())),
                }
            },
            Kind::NoResponse => {
                let mut m = self.take_waiting_on_server();
                m.remove(&id);
                self.put_waiting_on_server(m);
                ClientAction::Ignore
            },
            Kind::Stream => {
                match self.waiting_on_server.get(&id) {
                    Some(ResponseKind::Receiver) => ClientAction::ToStream,
                    Some(_) => ClientAction::Error(PacketError::Header("Handler not found".to_owned())),
                    // since the server could send multiple streams
                    // before we can send him a stream closed
                    // we just respond to every stream message
                    None => ClientAction::SendStreamClosed,
                }
            },
            Kind::StreamClosed => {
                let mut m = self.take_waiting_on_server();
                let _ = m.remove(&id);
                self.put_waiting_on_server(m);
                ClientAction::CloseSenderStream
            },
            Kind::Close => ClientAction::Close,
            Kind::Ping => ClientAction::Ignore,
            k => ClientAction::Error(PacketError::Header(not_supported(k))),
        }
    }

    /// A stream the client sends under `id` had something happen: the kind
    /// to send the packet with; a closed stream stops being recorded.
    pub fn on_sender_stream(&mut self, id: u32, event: ChannelEvent) -> (r: Kind)
        ensures
            event == ChannelEvent::Item ==> r == Kind::Stream && final(self).waiting_on_client()
                == old(self).waiting_on_client(),
            event == ChannelEvent::Closed ==> r == Kind::StreamClosed && final(self).waiting_on_client() == old(self).waiting_on_client().remove(id),
            final(self).waiting_on_server() == old(self).waiting_on_server(),
            final(self).counter() == old(self).counter(),
    {
        match event {
            ChannelEvent::Item => Kind::Stream,
            ChannelEvent::Closed => {
                let mut m = self.take_waiting_on_client();
                m.remove(&id);
                self.put_waiting_on_client(m);
                Kind::StreamClosed
            },
        }
    }

    /// close all started requests
    ///
    /// this should be called when a connection get's reset
    pub fn close_all_started(&mut self)
        ensures
            final(self).waiting_on_server() == Map::<u32, ResponseKind>::empty(),
            final(self).waiting_on_client() == old(self).waiting_on_client(),
            final(self).counter() == 0,
    {
        self.waiting_on_server = HashMap::new();
        // reset counter
        self.counter = 0;
    }
}

} // verus!
