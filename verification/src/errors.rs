//! Failure taxonomy of the access layer.
//!
//! Every operation of this layer that can fail reports one of these
//! conditions. Failures from the wrapped core are passed through with their
//! message kept; the layer itself never retries.

use vstd::prelude::*;

verus! {

/// The machine-readable category of a failure.
#[derive(Clone, Copy, Debug, PartialEq, Eq, Structural)]
pub enum ErrorKind {
    /// The account id is not present in the registry.
    AccountNotFound,
    /// A referenced object (chat, message, contact) is absent.
    NotFound,
    /// A caller-supplied value was malformed (bad email address, bad index).
    InvalidInput,
    /// An accessor was asked past the end of a wrapped collection.
    IndexOutOfRange,
    /// An accessor of one element kind was asked of a collection of another.
    TypeMismatch,
    /// An operation was asked of a handle that was already released.
    /// Double release reports this same condition: release of a released
    /// handle is a hard failure here, never a silent no-op.
    UseAfterRelease,
    /// A configuration key outside the reserved UI namespace that is not in
    /// the fixed set of known configuration names.
    UnknownConfigKey,
    /// The wrapped core reported failure; the message is kept verbatim.
    CoreOperationFailed,
    /// The caller asked the ongoing operation to stop, and it did.
    Cancelled,
}

/// A structured failure: a category plus human-readable text.
///
/// The text is either a fixed description owned by this layer or the wrapped
/// core's error message, passed through verbatim.
#[derive(Debug)]
pub struct Failure {
    pub kind: ErrorKind,
    pub message: String,
}

impl Failure {
    /// A failure with a category and no text.
    pub fn of_kind(kind: ErrorKind) -> (r: Failure)
        ensures
            r.kind == kind,
            r.message@ == Seq::<char>::empty(),
    {
        Failure { kind, message: String::new() }
    }

    /// A failure that keeps the given text, e.g. the core's error message.
    pub fn with_message(kind: ErrorKind, message: String) -> (r: Failure)
        ensures
            r.kind == kind,
            r.message == message,
    {
        Failure { kind, message }
    }
}

/// The failure of a batch configuration write: the first key that failed,
/// kept verbatim as context, and why it failed. Keys before it were already
/// applied and stay applied; keys after it were not touched.
#[derive(Debug)]
pub struct BatchKeyFailure {
    pub key: String,
    pub kind: ErrorKind,
}

} // verus!
