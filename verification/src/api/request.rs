//! Requests: a value sent as a message with its action, answered by a
//! message that holds either the response or the error.
use super::error::{ApiError, MessageError};
use super::message::{Action, Message, IntoMessage, FromMessage, Header, success_bit};
use crate::packet::bytes::PacketBytes;
use crate::packet::packet::Packet;

use vstd::prelude::*;

verus! {

/// Basic request definition.
pub trait Request {
    type Action: Action;

    type Response;

    type Error: ApiError;

    const ACTION: Self::Action;
}

/// The message a request is sent as: the request turned into a message,
/// with the request's action.
pub fn request_message<R, B>(req: R) -> (r: Result<Message<R::Action, B>, R::Error>) where
    R: Request + IntoMessage<R::Action, B>,
    B: PacketBytes,

    ensures
        exists|res: Result<Message<R::Action, B>, MessageError>|
            #[trigger] call_ensures(R::into_message, (req,), res) && match res {
                Ok(m) => r matches Ok(rm) && rm.spec_body() == m.spec_body() && rm.spec_header()
                    == Header::<R::Action>::spec_new(
                    m.spec_header().spec_body_len32(),
                    m.spec_header().spec_flags_of(),
                    m.spec_header().spec_msg_flags(),
                    m.spec_header().spec_id_of(),
                    super::message::MaybeAction::Action(R::ACTION),
                ),
                Err(e) => r matches Err(x) && call_ensures(R::Error::from_message_error, (e,), x),
            },
{
    let ghost given = req;
    let res = req.into_message();
    let ghost made = res;
    let mut msg = match res {
        Ok(m) => m,
        Err(e) => {
            let err = R::Error::from_message_error(e);
            assert(call_ensures(R::into_message, (given,), made));
            return Err(err);
        },
    };
    let ghost before = msg;
    msg.header_mut().set_action(R::ACTION);
    assert(call_ensures(R::into_message, (given,), made));
    Ok(msg)
}

/// The result of a request from the message the other side answered with:
/// a message marked as a success holds the response, any other the error.
pub fn response_result<R, B>(res: Message<R::Action, B>) -> (r: Result<R::Response, R::Error>) where
    R: Request,
    R::Response: FromMessage<R::Action, B>,
    R::Error: FromMessage<R::Action, B>,
    B: PacketBytes,

    ensures
        success_bit(res.spec_header().spec_msg_flags()@) ==> exists|x: Result<
            R::Response,
            MessageError,
        >|
            #[trigger] call_ensures(R::Response::from_message, (res,), x) && match x {
                Ok(v) => r matches Ok(rv) && rv == v,
                Err(e) => r matches Err(y) && call_ensures(R::Error::from_message_error, (e,), y),
            },
        !success_bit(res.spec_header().spec_msg_flags()@) ==> exists|x: Result<
            R::Error,
            MessageError,
        >|
            #[trigger] call_ensures(R::Error::from_message, (res,), x) && match x {
                Ok(e) => r matches Err(y) && y == e,
                Err(e) => r matches Err(y) && call_ensures(R::Error::from_message_error, (e,), y),
            },
{
    let ghost given = res;
    // now deserialize the response
    if res.is_success() {
        let parsed = R::Response::from_message(res);
        let ghost made = parsed;
        let r = match parsed {
            Ok(v) => Ok(v),
            Err(e) => Err(R::Error::from_message_error(e)),
        };
        assert(call_ensures(R::Response::from_message, (given,), made));
        r
    } else {
        let parsed = R::Error::from_message(res);
        let ghost made = parsed;
        let r = match parsed {
            Ok(e) => Err(e),
            Err(e) => Err(R::Error::from_message_error(e)),
        };
        assert(call_ensures(R::Error::from_message, (given,), made));
        r
    }
}

} // verus!
