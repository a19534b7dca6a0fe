use vstd::prelude::*;
use crate::error::ExportError;

verus! {

/// The application status that means success.
pub const SUCCESS_CODE: i16 = 200;

/// A decoded response: the payload, or the status and message of a refusal.
#[derive(Debug, Clone)]
pub enum Envelope<T> {
    Success(T),
    Failure { status: i16, message: String },
}

/// What came back from one call to the service.
#[derive(Debug, Clone)]
pub enum Reply<T> {
    /// The request did not get through.
    Transport { message: String },
    /// A response arrived that could not be decoded.
    Undecodable { reason: String, body: String },
    /// A response arrived and was decoded.
    Decoded(Envelope<T>),
}

/// The envelope made of the three parts of a response.
pub open spec fn spec_envelope<T>(status: i16, message: String, payload: T) -> Envelope<T> {
    if status == SUCCESS_CODE {
        Envelope::Success(payload)
    } else {
        Envelope::Failure { status, message }
    }
}

/// Sorts a response by its status: the one success value gives the payload,
/// every other value a refusal with that status and the message.
pub fn envelope<T>(status: i16, message: String, payload: T) -> (e: Envelope<T>)
    ensures
        e == spec_envelope(status, message, payload),
{
    if status == SUCCESS_CODE {
        Envelope::Success(payload)
    } else {
        Envelope::Failure { status, message }
    }
}

/// The payload of a reply, or the failure that the reply stands for.
pub open spec fn spec_settle<T>(reply: Reply<T>) -> Result<T, ExportError> {
    match reply {
        Reply::Transport { message } => Err(ExportError::Transport { message }),
        Reply::Undecodable { reason, body } => Err(ExportError::Parse { reason, body }),
        Reply::Decoded(Envelope::Failure { status, message }) => Err(
            ExportError::Remote { status, message },
        ),
        Reply::Decoded(Envelope::Success(payload)) => Ok(payload),
    }
}

/// Unwraps a reply. The payload comes out only of a decoded success; a
/// refusal keeps its status and message, an undecodable response its body.
pub fn settle<T>(reply: Reply<T>) -> (r: Result<T, ExportError>)
    ensures
        r == spec_settle(reply),
{
    match reply {
        Reply::Transport { message } => Err(ExportError::Transport { message }),
        Reply::Undecodable { reason, body } => Err(ExportError::Parse { reason, body }),
        Reply::Decoded(Envelope::Failure { status, message }) => Err(
            ExportError::Remote { status, message },
        ),
        Reply::Decoded(Envelope::Success(payload)) => Ok(payload),
    }
}

} // verus!
