use crate::protobuf::encode::EncodeError;
use crate::protobuf::decode::DecodeError;
use crate::error::RequestError;
use serde_json::Error as JsonError;

use vstd::prelude::*;

verus! {

#[verifier::external_type_specification]
#[verifier::external_body]
pub struct ExJsonError(JsonError);

/// Why a value could not be turned into a message or back.
#[derive(Debug)]
#[non_exhaustive]
pub enum MessageError {
    Json(JsonError),
    EncodeError(EncodeError),
    DecodeError(DecodeError),
    Other(String),
}

#[derive(Debug)]
#[non_exhaustive]
pub enum Error {
    MessageError(MessageError),
}

impl From<MessageError> for Error {
    fn from(e: MessageError) -> (r: Self) {
        Self::MessageError(e)
    }
}

impl vstd::std_specs::convert::FromSpecImpl<MessageError> for Error {
    open spec fn obeys_from_spec() -> bool {
        true
    }

    open spec fn from_spec(e: MessageError) -> Self {
        Error::MessageError(e)
    }
}

/// The error that is sent if something goes wrong while responding
/// to a request.
pub trait ApiError: Sized {
    fn from_request_error(e: RequestError) -> Self;

    fn from_message_error(e: MessageError) -> Self;
}

} // verus!
