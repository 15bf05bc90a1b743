//! The single error channel shared by the host-facing router and every backend.

use vstd::prelude::*;

verus! {

/// The closed set of failure kinds, without any diagnostic payload.
#[derive(Clone, Copy, Debug, PartialEq, Eq, Structural)]
pub enum ErrorKind {
    ValidationError,
    BackendUnavailable,
    NativeCallFailure,
    SerializationFailure,
}

/// A failed command or a failed initialization.
#[derive(Clone, Debug, PartialEq, Eq)]
pub enum Error {
    /// A payload field is missing or malformed.
    ValidationError,
    /// No backend could be resolved for this platform.
    BackendUnavailable,
    /// The platform call failed; the text is the native side's own diagnostic,
    /// kept exactly as it was reported.
    NativeCallFailure(String),
    /// The host payload could not be decoded, or a response could not be encoded.
    SerializationFailure,
}

impl Error {
    /// The kind of this error.
    pub open spec fn kind_of(self) -> ErrorKind {
        match self {
            Error::ValidationError => ErrorKind::ValidationError,
            Error::BackendUnavailable => ErrorKind::BackendUnavailable,
            Error::NativeCallFailure(_) => ErrorKind::NativeCallFailure,
            Error::SerializationFailure => ErrorKind::SerializationFailure,
        }
    }

    /// The native diagnostic carried by this error, if it carries one.
    pub open spec fn diagnostic_of(self) -> Option<Seq<char>> {
        match self {
            Error::NativeCallFailure(text) => Some(text@),
            _ => None,
        }
    }

    pub fn kind(&self) -> (k: ErrorKind)
        ensures
            k == self.kind_of(),
    {
        match self {
            Error::ValidationError => ErrorKind::ValidationError,
            Error::BackendUnavailable => ErrorKind::BackendUnavailable,
            Error::NativeCallFailure(_) => ErrorKind::NativeCallFailure,
            Error::SerializationFailure => ErrorKind::SerializationFailure,
        }
    }

    /// The diagnostic text of a native failure, untouched.
    pub fn diagnostic(&self) -> (d: Option<&String>)
        ensures
            match d {
                Some(text) => *self == Error::NativeCallFailure(*text),
                None => !(self is NativeCallFailure),
            },
    {
        match self {
            Error::NativeCallFailure(text) => Some(text),
            _ => None,
        }
    }

    /// The outcome of a native call as the host sees it: success stays
    /// success, and a failure becomes a `NativeCallFailure` that carries the
    /// native side's text unchanged.
    pub fn from_native(outcome: Result<(), String>) -> (r: Result<(), Error>)
        ensures
            outcome is Ok ==> r == Ok::<(), Error>(()),
            outcome matches Err(text) ==> r == Err::<(), Error>(Error::NativeCallFailure(text)),
    {
        match outcome {
            Ok(_) => Ok(()),
            Err(text) => Err(Error::NativeCallFailure(text)),
        }
    }

    /// Whether the error ends initialization for good. Only a missing backend
    /// does; every other kind is handed back to the host as a value.
    pub fn is_fatal(&self) -> (fatal: bool)
        ensures
            fatal == (self.kind_of() == ErrorKind::BackendUnavailable),
    {
        match self {
            Error::BackendUnavailable => true,
            _ => false,
        }
    }
}

} // verus!
