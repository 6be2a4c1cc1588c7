//! Turning values into message bodies and back, in the protobuf wire format.
use super::error::MessageError;
use super::message::{Action, Message, Header, MaybeAction, MessageFlags};
use crate::packet::bytes::PacketBytes;
use crate::packet::packet::{Packet, flags_from_u8};
use crate::protobuf::decode::{DecodeMessage, KindModel};
use crate::protobuf::encode::EncodeMessage;
use crate::protobuf::to_bytes_writer;

use vstd::prelude::*;

verus! {

/// A new message whose body is `value` written as a protobuf message.
pub fn encode<T, A, B>(value: T) -> (r: Result<Message<A, B>, MessageError>) where
    T: EncodeMessage,
    A: Action,
    B: PacketBytes,

    requires
        value.spec_encoding(None).len() <= u64::MAX,
    ensures
        r is Ok <==> value.spec_encodable(),
        r matches Err(e) ==> e is EncodeError,
        r matches Ok(m) ==> {
            &&& m.spec_body() == value.spec_encoding(None)
            &&& m.spec_header() == Header::<A>::spec_new(
                0,
                flags_from_u8(0),
                MessageFlags::spec_from_u8(1),
                0,
                MaybeAction::NoAction,
            )
            &&& m.spec_wf()
        },
{
    let mut msg = Message::new();
    let mut body: Vec<u8> = Vec::new();
    match to_bytes_writer(&value, &mut body) {
        Ok(()) => {},
        Err(e) => return Err(MessageError::EncodeError(e)),
    }
    assert(body@ =~= Seq::<u8>::empty() + value.spec_encoding(None));
    msg.write_body(body.as_slice());
    assert(msg.spec_body() =~= value.spec_encoding(None));
    Ok(msg)
}

/// Reads the body of `msg` as a protobuf message.
pub fn decode<'a, A, B, T>(msg: &'a Message<A, B>) -> (r: Result<T, MessageError>) where
    A: Action,
    B: PacketBytes,
    T: DecodeMessage<'a>,

    ensures
        match T::spec_merge(T::spec_decode_default(), KindModel::Len(msg.spec_body()), false) {
            (v, Ok(())) => r matches Ok(x) && x.deep_view() == v,
            (_, Err(e)) => r matches Err(MessageError::DecodeError(d)) && d == e,
        },
{
    match T::parse_from_bytes(msg.body()) {
        Ok(v) => Ok(v),
        Err(e) => Err(MessageError::DecodeError(e)),
    }
}

} // verus!
