//! The error every provider and the engine report: a kind and a message.

use vstd::prelude::*;
use vstd::string::*;

verus! {

/// Why a tick could not be produced.
#[derive(Clone, Copy, Debug, PartialEq, Eq, Structural)]
pub enum ErrorKind {
    /// A resource behind a provider (a file, a device) could not be read.
    ResourceUnavailable,
    /// A resource was read, but its content does not have the expected shape.
    MalformedData,
    /// A record could not be encoded for the wire.
    SerializationFailure,
}

/// A failure with its kind and a human-readable cause.
#[derive(Clone, Debug, PartialEq, Eq)]
pub struct BarError {
    pub kind: ErrorKind,
    pub message: String,
}

/// The mathematical value of an [`BarError`].
pub struct BarErrorView {
    pub kind: ErrorKind,
    pub message: Seq<char>,
}

impl View for BarError {
    type V = BarErrorView;

    open spec fn view(&self) -> BarErrorView {
        BarErrorView { kind: self.kind, message: self.message@ }
    }
}

/// The words that stand for a kind in a diagnostic.
pub open spec fn kind_label(kind: ErrorKind) -> Seq<char> {
    match kind {
        ErrorKind::ResourceUnavailable => "resource unavailable"@,
        ErrorKind::MalformedData => "malformed data"@,
        ErrorKind::SerializationFailure => "serialization failure"@,
    }
}

/// The one-line diagnostic of an error: the kind's label, a colon and a
/// space, then the message.
pub open spec fn diagnostic(e: BarErrorView) -> Seq<char> {
    kind_label(e.kind) + ": "@ + e.message
}

impl ErrorKind {
    /// The words that stand for this kind in a diagnostic.
    pub fn label(&self) -> (r: &'static str)
        ensures
            r@ == kind_label(*self),
    {
        match self {
            ErrorKind::ResourceUnavailable => "resource unavailable",
            ErrorKind::MalformedData => "malformed data",
            ErrorKind::SerializationFailure => "serialization failure",
        }
    }
}

impl BarError {
    /// An error of the given kind with the given message.
    pub fn new(kind: ErrorKind, message: &str) -> (r: BarError)
        ensures
            r@ == (BarErrorView { kind, message: message@ }),
    {
        BarError { kind, message: String::from_str(message) }
    }

    /// The one-line diagnostic of this error.
    pub fn describe(&self) -> (r: String)
        ensures
            r@ == diagnostic(self@),
    {
        let mut out = String::from_str(self.kind.label());
        out.append(": ");
        out.append(self.message.as_str());
        out
    }
}

} // verus!
