//! Outcomes of one fetch against a remote service.
//!
//! A fetch is either unary (one request, one message) or takes the first
//! element of a streamed response and lets the rest go. Either way the
//! caller of an accessor always gets a record: where the fetch brought no
//! message, the record is the default one. The reason is kept as a
//! [`FetchError`] up to that last step, so that whoever drives the fetch
//! can log it.

use vstd::prelude::*;

verus! {

/// Why a fetch brought no message.
#[derive(Clone, Copy, Debug, PartialEq, Eq, Structural)]
pub enum FetchError {
    /// The call itself failed: the transport gave an error, or the response
    /// could not be decoded.
    CallFailed,
    /// The call went through, but reading the first element of its stream
    /// failed.
    ReadFailed,
    /// The stream ended before its first element.
    NoElement,
}

/// What a unary call came back with.
pub enum UnaryReply<M> {
    /// The response message.
    Message(M),
    /// A transport-level error in place of a response.
    Failed,
}

/// What a streaming call came back with, as far as its first element.
pub enum StreamReply<M> {
    /// The first element of the stream. Later elements are not read.
    First(M),
    /// The stream ended without any element.
    Ended,
    /// Reading the first element failed.
    ReadFailed,
    /// The call that should have opened the stream failed.
    CallFailed,
}

/// The outcome of a unary fetch.
pub open spec fn spec_unary_outcome<M>(reply: UnaryReply<M>) -> Result<M, FetchError> {
    match reply {
        UnaryReply::Message(message) => Ok(message),
        UnaryReply::Failed => Err(FetchError::CallFailed),
    }
}

/// The outcome of a fetch that takes the first element of a stream.
pub open spec fn spec_first_element<M>(reply: StreamReply<M>) -> Result<M, FetchError> {
    match reply {
        StreamReply::First(message) => Ok(message),
        StreamReply::Ended => Err(FetchError::NoElement),
        StreamReply::ReadFailed => Err(FetchError::ReadFailed),
        StreamReply::CallFailed => Err(FetchError::CallFailed),
    }
}

/// Turns the reply to a unary call into the message or the reason there is
/// none.
#[verifier::when_used_as_spec(spec_unary_outcome)]
pub fn unary_outcome<M>(reply: UnaryReply<M>) -> (outcome: Result<M, FetchError>)
    ensures
        outcome == spec_unary_outcome(reply),
        outcome is Ok <==> reply is Message,
{
    match reply {
        UnaryReply::Message(message) => Ok(message),
        UnaryReply::Failed => Err(FetchError::CallFailed),
    }
}

/// Turns the reply to a streaming call into its first element or the reason
/// there is none.
#[verifier::when_used_as_spec(spec_first_element)]
pub fn first_element<M>(reply: StreamReply<M>) -> (outcome: Result<M, FetchError>)
    ensures
        outcome == spec_first_element(reply),
        outcome is Ok <==> reply is First,
{
    match reply {
        StreamReply::First(message) => Ok(message),
        StreamReply::Ended => Err(FetchError::NoElement),
        StreamReply::ReadFailed => Err(FetchError::ReadFailed),
        StreamReply::CallFailed => Err(FetchError::CallFailed),
    }
}

} // verus!
