//! The failures that the retrieval pipeline reports.

use vstd::prelude::*;
use vstd::string::StringExecFns;

verus! {

/// The kind of a failure.
#[derive(Clone, Copy, Debug, PartialEq, Eq, Structural)]
pub enum ErrorKind {
    /// A required setting is missing.
    Config,
    /// A request could not be sent or was rejected.
    Network,
    /// A response does not have the expected shape.
    Protocol,
    /// The archive container is malformed.
    Format,
    /// The requested artifact is not in the listing, or the listing is empty.
    NotFound,
    /// A local filesystem operation failed.
    Io,
}

/// A failure: its kind and a message for the user.
#[derive(Clone, Debug, PartialEq, Eq)]
pub struct UpdateError {
    pub kind: ErrorKind,
    pub message: String,
}

/// The message of a failure that names what was attempted and why it failed.
pub open spec fn caused(context: Seq<char>, cause: Seq<char>) -> Seq<char> {
    context + ": "@ + cause
}

impl UpdateError {
    /// A failure of the given kind with the given message.
    pub fn new(kind: ErrorKind, message: &str) -> (e: UpdateError)
        ensures
            e.kind == kind,
            e.message@ == message@,
    {
        UpdateError { kind, message: message.to_owned() }
    }

    /// A failure of the given kind whose message keeps the underlying cause:
    /// the context, a colon and a space, then the cause.
    pub fn with_cause(kind: ErrorKind, context: &str, cause: &str) -> (e: UpdateError)
        ensures
            e.kind == kind,
            e.message@ == caused(context@, cause@),
    {
        let mut message = context.to_owned();
        message.append(": ");
        message.append(cause);
        UpdateError { kind, message }
    }

    /// The message of this failure.
    pub fn message(&self) -> (m: String)
        ensures
            m@ == self.message@,
    {
        self.message.clone()
    }
}

} // verus!
