//! Everything that can go wrong with a request to the server.
//!
//! The kinds are kept disjoint: a transport failure, a response body that
//! is not JSON, a response that is JSON but not a well-formed two-field
//! envelope, a success payload that does not match the requested type, and
//! a failure reported by the server itself.

use vstd::prelude::*;
use crate::json::JsonView;

verus! {

/// A response that was JSON but not a well-formed envelope.
///
/// The envelope must be an object holding exactly the keys `error` and
/// `result`, and the value under `error` must be null or a string; each
/// way of breaking that contract gets its own variant, in the order the
/// decoder discovers them.
#[derive(Debug, PartialEq, Eq)]
pub enum StructuralError {
    /// The root of the response was not a JSON object.
    NotAnObject,
    /// A required key (`error` or `result`) was absent; the field's name
    /// is carried.
    MissingField(String),
    /// A key other than `error` and `result` was present; the first such
    /// key in document order is carried.
    UnknownField(String),
    /// The value under `error` was neither null nor a string.
    InvalidErrorValue,
}

/// The mathematical value of a [`StructuralError`].
pub enum StructuralErrorView {
    NotAnObject,
    MissingField(Seq<char>),
    UnknownField(Seq<char>),
    InvalidErrorValue,
}

impl DeepView for StructuralError {
    type V = StructuralErrorView;

    open spec fn deep_view(&self) -> StructuralErrorView {
        match self {
            StructuralError::NotAnObject => StructuralErrorView::NotAnObject,
            StructuralError::MissingField(f) => StructuralErrorView::MissingField(f@),
            StructuralError::UnknownField(f) => StructuralErrorView::UnknownField(f@),
            StructuralError::InvalidErrorValue => StructuralErrorView::InvalidErrorValue,
        }
    }
}

impl StructuralError {
    /// A human-readable description of the error.
    pub fn message(&self) -> (r: String)
        ensures
            r@ == self.message_view(),
    {
        match self {
            StructuralError::NotAnObject => String::from_str("expected a JSON object"),
            StructuralError::MissingField(f) => String::from_str("missing field: ").concat(
                f.as_str(),
            ),
            StructuralError::UnknownField(f) => String::from_str("unknown field: ").concat(
                f.as_str(),
            ),
            StructuralError::InvalidErrorValue => String::from_str(
                "the error field must be null or a string",
            ),
        }
    }

    /// What [`StructuralError::message`] returns.
    pub open spec fn message_view(&self) -> Seq<char> {
        match self {
            StructuralError::NotAnObject => "expected a JSON object"@,
            StructuralError::MissingField(f) => "missing field: "@ + f@,
            StructuralError::UnknownField(f) => "unknown field: "@ + f@,
            StructuralError::InvalidErrorValue => "the error field must be null or a string"@,
        }
    }
}

/// Everything that can go wrong with an invocation.
#[derive(Debug, PartialEq, Eq)]
pub enum Error {
    /// The HTTP request itself failed; the transport's description is
    /// carried.
    Request(String),
    /// The response body was not JSON at all.
    Parse(String),
    /// The response body was JSON but not a well-formed envelope.
    Envelope(StructuralError),
    /// The success payload did not match the type the caller asked for.
    Deserialize(String),
    /// The envelope was well-formed and the server reported a failure;
    /// the server's message is carried.
    Normal(String),
}

/// The mathematical value of an [`Error`].
pub enum ErrorView {
    Request(Seq<char>),
    Parse(Seq<char>),
    Envelope(StructuralErrorView),
    Deserialize(Seq<char>),
    Normal(Seq<char>),
}

impl DeepView for Error {
    type V = ErrorView;

    open spec fn deep_view(&self) -> ErrorView {
        match self {
            Error::Request(m) => ErrorView::Request(m@),
            Error::Parse(m) => ErrorView::Parse(m@),
            Error::Envelope(e) => ErrorView::Envelope(e.deep_view()),
            Error::Deserialize(m) => ErrorView::Deserialize(m@),
            Error::Normal(m) => ErrorView::Normal(m@),
        }
    }
}

impl Error {
    /// A human-readable description of the error.
    pub fn message(&self) -> (r: String)
        ensures
            r@ == self.message_view(),
    {
        match self {
            Error::Request(m) => String::from_str("error making request: ").concat(m.as_str()),
            Error::Parse(m) => String::from_str("error parsing response: ").concat(m.as_str()),
            Error::Envelope(e) => String::from_str("error decoding response envelope: ").concat(
                e.message().as_str(),
            ),
            Error::Deserialize(m) => String::from_str("error deserializing response: ").concat(
                m.as_str(),
            ),
            Error::Normal(m) => String::from_str("got error response: ").concat(m.as_str()),
        }
    }

    /// What [`Error::message`] returns.
    pub open spec fn message_view(&self) -> Seq<char> {
        match self {
            Error::Request(m) => "error making request: "@ + m@,
            Error::Parse(m) => "error parsing response: "@ + m@,
            Error::Envelope(e) => "error decoding response envelope: "@ + e.message_view(),
            Error::Deserialize(m) => "error deserializing response: "@ + m@,
            Error::Normal(m) => "got error response: "@ + m@,
        }
    }
}

} // verus!
