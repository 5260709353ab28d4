//! Errors produced when serializing or processing observability events.

use serde_json::Error as JsonError;

use vstd::prelude::*;

verus! {

/// `serde_json::Error`, carried through without looking inside.
#[verifier::external_type_specification]
#[verifier::external_body]
pub struct ExJsonError(JsonError);

/// Errors produced when serializing or processing observability events.
#[derive(Debug)]
#[non_exhaustive]
pub enum Error {
    /// JSON serialization of an event payload failed.
    Serialize(JsonError),
}

impl From<JsonError> for Error {
    fn from(error: JsonError) -> (out: Self) {
        Error::Serialize(error)
    }
}

impl vstd::std_specs::convert::FromSpecImpl<JsonError> for Error {
    open spec fn obeys_from_spec() -> bool {
        true
    }

    open spec fn from_spec(error: JsonError) -> Self {
        Error::Serialize(error)
    }
}

impl Error {
    /// Returns a short, stable identifier for the error variant. Useful for
    /// structured logging without leaking the underlying message.
    pub fn kind(&self) -> (kind: &'static str)
        ensures
            kind@ == (match self {
                Error::Serialize(_) => "serialize"@,
            }),
    {
        match self {
            Error::Serialize(_) => "serialize",
        }
    }
}

} // verus!
