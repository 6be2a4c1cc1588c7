//! What a server is set up with, and what it does with a request.
use super::message::{Action, Header, MaybeAction, Message};
use crate::packet::bytes::PacketBytes;
use crate::packet::packet::Packet;

use vstd::prelude::*;

verus! {

#[derive(Debug, Default)]
#[non_exhaustive]
pub struct ServerConfig {
    pub log_errors: bool,
}

/// What a server does with something that comes in on a connection.
pub enum Dispatch<A> {
    /// Not a request (streams are not served): nothing is done.
    Skip,
    /// A request without an action: it is dropped.
    NoAction,
    /// A request for the handler of this action.
    Handle(A),
}

/// What a server does with `request`, `None` when what came in is no
/// request.
pub fn dispatch<A: Action, B: PacketBytes>(request: Option<&Message<A, B>>) -> (r: Dispatch<A>)
    ensures
        request is None ==> r is Skip,
        request matches Some(msg) ==> match msg.spec_header().spec_action() {
            MaybeAction::Action(a) => r == Dispatch::Handle(a),
            _ => r is NoAction,
        },
{
    match request {
        None => Dispatch::Skip,
        Some(msg) => match msg.action() {
            Some(a) => Dispatch::Handle(*a),
            None => Dispatch::NoAction,
        },
    }
}

/// The answer to a request for `action`: the message the handler returned,
/// with that action.
pub fn answer<A: Action, B: PacketBytes>(response: Message<A, B>, action: A) -> (r: Message<A, B>)
    ensures
        r.spec_body() == response.spec_body(),
        r.spec_header() == Header::<A>::spec_new(
            response.spec_header().spec_body_len32(),
            response.spec_header().spec_flags_of(),
            response.spec_header().spec_msg_flags(),
            response.spec_header().spec_id_of(),
            MaybeAction::Action(action),
        ),
{
    let mut msg = response;
    msg.header_mut().set_action(action);
    msg
}

} // verus!
