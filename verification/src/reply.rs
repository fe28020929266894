//! Replies: what the transport brings back, and what the library makes of it.
//!
//! A reply is read in three steps, and the first that fails decides the
//! error: the transport must have brought an answer with a status from 200 to
//! 299, its body must be a JSON document, and the document must have the shape
//! of the record that was asked for.

use crate::decode::Decode;
use crate::error::{DecodeError, DecodeFault, Error, ErrorView, NetworkError, NetworkFault};
use crate::json::{json_document, Json};
use vstd::prelude::*;

verus! {

/// What the transport made of one request.
#[derive(Debug)]
pub enum Reply {
    /// The service answered.
    Answer { status: u16, body: String },
    /// No answer came; the text is the transport's own account of it.
    Failure { diagnostic: String },
}

/// The view of a [`Reply`].
pub enum ReplyView {
    Answer { status: u16, body: Seq<char> },
    Failure { diagnostic: Seq<char> },
}

impl View for Reply {
    type V = ReplyView;

    open spec fn view(&self) -> ReplyView {
        match self {
            Reply::Answer { status, body } => ReplyView::Answer { status: *status, body: body@ },
            Reply::Failure { diagnostic } => ReplyView::Failure { diagnostic: diagnostic@ },
        }
    }
}

/// Whether a status says that the request succeeded.
pub open spec fn is_success(status: u16) -> bool {
    200 <= status <= 299
}

impl ReplyView {
    /// The body of an answer that reports success, or the way in which the
    /// transport failed.
    pub open spec fn body(self) -> Result<Seq<char>, NetworkFault> {
        match self {
            ReplyView::Answer { status, body } => if is_success(status) {
                Ok(body)
            } else {
                Err(NetworkFault::Status(status))
            },
            ReplyView::Failure { diagnostic } => Err(NetworkFault::Transport(diagnostic)),
        }
    }
}

/// What a body decodes to as a `T`: the view of the record, or what is wrong
/// with the body.
pub open spec fn decoded_text<T: Decode>(body: Seq<char>) -> Result<T::V, DecodeFault> {
    match json_document(body) {
        None => Err(DecodeFault::Syntax),
        Some(document) => match T::decoded(document) {
            Ok(model) => Ok(model),
            Err(mismatch) => Err(DecodeFault::Shape(mismatch)),
        },
    }
}

/// What a reply decodes to as a `T`: the view of the record, or the first
/// thing that went wrong.
pub open spec fn decoded_reply<T: Decode>(reply: ReplyView) -> Result<T::V, ErrorView> {
    match reply.body() {
        Err(fault) => Err(ErrorView::Network(fault)),
        Ok(body) => match decoded_text::<T>(body) {
            Ok(model) => Ok(model),
            Err(fault) => Err(ErrorView::ParseResponse(fault)),
        },
    }
}

/// Whether the outcome of a call is the one that was due: the record whose
/// view was due, or the error.
pub open spec fn answers<T: DeepView>(got: Result<T, Error>, due: Result<T::V, ErrorView>) -> bool {
    match (got, due) {
        (Ok(record), Ok(model)) => record.deep_view() == model,
        (Err(error), Err(fault)) => error@ == fault,
        _ => false,
    }
}

impl Reply {
    /// The body of an answer that reports success.
    pub fn body(&self) -> (got: Result<&str, NetworkError>)
        ensures
            match (got, self@.body()) {
                (Ok(body), Ok(text)) => body@ == text,
                (Err(error), Err(fault)) => error@ == fault,
                _ => false,
            },
    {
        match self {
            Reply::Answer { status, body } => {
                if 200 <= *status && *status <= 299 {
                    Ok(body.as_str())
                } else {
                    Err(NetworkError::Status(*status))
                }
            },
            Reply::Failure { diagnostic } => Err(NetworkError::Transport(diagnostic.clone())),
        }
    }

    /// Reads the record that the reply brings.
    pub fn decode<T: Decode>(&self) -> (got: Result<T, Error>)
        ensures
            answers(got, decoded_reply::<T>(self@)),
    {
        match self.body() {
            Err(error) => Err(Error::from(error)),
            Ok(body) => match decode_text::<T>(body) {
                Ok(record) => Ok(record),
                Err(error) => Err(Error::from(error)),
            },
        }
    }
}

/// Reads a record from the text of a JSON document.
pub fn decode_text<T: Decode>(body: &str) -> (got: Result<T, DecodeError>)
    ensures
        match (got, decoded_text::<T>(body@)) {
            (Ok(record), Ok(model)) => record.deep_view() == model,
            (Err(error), Err(fault)) => error@ == fault,
            _ => false,
        },
{
    match Json::parse(body) {
        Err(error) => Err(DecodeError::Syntax(error)),
        Ok(document) => match T::from_json(&document) {
            Ok(record) => Ok(record),
            Err(mismatch) => Err(DecodeError::Shape(mismatch)),
        },
    }
}

/// An answer with a status outside 200 to 299 is a network error, whatever
/// its body holds and whatever record was asked for: the body is not looked
/// at.
pub proof fn law_failed_status_is_a_network_error<T: Decode>(status: u16, body: Seq<char>)
    requires
        !is_success(status),
    ensures
        decoded_reply::<T>(ReplyView::Answer { status, body }) == Err::<T::V, ErrorView>(
            ErrorView::Network(NetworkFault::Status(status)),
        ),
{
}

/// Once the transport has brought a body, nothing that is wrong with the
/// body is a network error: a reply that reports success fails, if it fails,
/// as an error of the response.
pub proof fn law_bad_body_is_no_network_error<T: Decode>(reply: ReplyView)
    requires
        reply.body() is Ok,
    ensures
        decoded_reply::<T>(reply) matches Err(fault) ==> fault is ParseResponse,
{
}

} // verus!
