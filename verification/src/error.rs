//! The three ways in which a call of the service fails: the transport did
//! not bring an answer, the target is no URL, or the answer is not the
//! document that was asked for.

use crate::decode::Mismatch;
use crate::json::SyntaxError;
use crate::target::TargetError;
use vstd::prelude::*;

verus! {

/// The transport did not complete the request.
#[derive(Debug)]
pub enum NetworkError {
    /// The service answered with a status outside 200 to 299.
    Status(u16),
    /// No answer came; the text is the transport's own account of it.
    Transport(String),
}

/// The view of a [`NetworkError`].
pub enum NetworkFault {
    Status(u16),
    Transport(Seq<char>),
}

impl View for NetworkError {
    type V = NetworkFault;

    open spec fn view(&self) -> NetworkFault {
        match self {
            NetworkError::Status(status) => NetworkFault::Status(*status),
            NetworkError::Transport(diagnostic) => NetworkFault::Transport(diagnostic@),
        }
    }
}

/// The body of an answer is not the document that was asked for.
#[derive(Debug)]
pub enum DecodeError {
    /// The body is no JSON document.
    Syntax(SyntaxError),
    /// The body is a JSON document of another shape.
    Shape(Mismatch),
}

/// The view of a [`DecodeError`]: the parser's words are left out.
pub enum DecodeFault {
    Syntax,
    Shape(Mismatch),
}

impl View for DecodeError {
    type V = DecodeFault;

    open spec fn view(&self) -> DecodeFault {
        match self {
            DecodeError::Syntax(_) => DecodeFault::Syntax,
            DecodeError::Shape(mismatch) => DecodeFault::Shape(*mismatch),
        }
    }
}

/// Why a call of the service failed.
#[derive(Debug)]
pub enum Error {
    Network(NetworkError),
    ParseResponse(DecodeError),
    Parseurl(TargetError),
}

/// The view of an [`Error`].
pub enum ErrorView {
    Network(NetworkFault),
    ParseResponse(DecodeFault),
    Parseurl(TargetError),
}

impl View for Error {
    type V = ErrorView;

    open spec fn view(&self) -> ErrorView {
        match self {
            Error::Network(error) => ErrorView::Network(error@),
            Error::ParseResponse(error) => ErrorView::ParseResponse(error@),
            Error::Parseurl(error) => ErrorView::Parseurl(*error),
        }
    }
}

/// A failure of the transport is a network error.
impl From<NetworkError> for Error {
    fn from(error: NetworkError) -> (made: Error) {
        Error::Network(error)
    }
}

impl vstd::std_specs::convert::FromSpecImpl<NetworkError> for Error {
    open spec fn obeys_from_spec() -> bool {
        true
    }

    open spec fn from_spec(error: NetworkError) -> Error {
        Error::Network(error)
    }
}

/// A body of the wrong kind is an error of the response.
impl From<DecodeError> for Error {
    fn from(error: DecodeError) -> (made: Error) {
        Error::ParseResponse(error)
    }
}

impl vstd::std_specs::convert::FromSpecImpl<DecodeError> for Error {
    open spec fn obeys_from_spec() -> bool {
        true
    }

    open spec fn from_spec(error: DecodeError) -> Error {
        Error::ParseResponse(error)
    }
}

/// A target that could not be built is an error of the URL.
impl From<TargetError> for Error {
    fn from(error: TargetError) -> (made: Error) {
        Error::Parseurl(error)
    }
}

impl vstd::std_specs::convert::FromSpecImpl<TargetError> for Error {
    open spec fn obeys_from_spec() -> bool {
        true
    }

    open spec fn from_spec(error: TargetError) -> Error {
        Error::Parseurl(error)
    }
}

} // verus!
