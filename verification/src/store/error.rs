//! What can go wrong in the repository.

use vstd::prelude::*;

verus! {

/// The kinds of failure of the repository.
#[derive(Clone, Copy, Debug, PartialEq, Eq, Structural)]
pub enum StoreErrorKind {
    /// The store could not be reached, or refused the credentials.
    Connection,
    /// A step of the schema migration failed.
    Migration,
    /// The caller handed in a malformed id or payload.
    Validation,
    /// No row exists for the id.
    NotFound,
    /// The engine failed during a read or a write.
    Query,
    /// The id of a new entry is already taken.
    Conflict,
}

/// A failure of the repository: its kind and a message for the caller.
#[derive(Debug)]
pub struct StoreError {
    kind: StoreErrorKind,
    message: String,
}

impl StoreError {
    /// The kind of the failure.
    pub closed spec fn spec_kind(&self) -> StoreErrorKind {
        self.kind
    }

    /// The message of the failure.
    pub closed spec fn spec_message(&self) -> Seq<char> {
        self.message@
    }

    /// A failure of the engine with the given message.
    pub fn new(message: &str) -> (error: Self)
        ensures
            error.spec_kind() == StoreErrorKind::Query,
            error.spec_message() == message@,
    {
        StoreError { kind: StoreErrorKind::Query, message: message.to_owned() }
    }

    /// A failure of the given kind with the given message.
    pub fn with_kind(kind: StoreErrorKind, message: &str) -> (error: Self)
        ensures
            error.spec_kind() == kind,
            error.spec_message() == message@,
    {
        StoreError { kind, message: message.to_owned() }
    }

    /// The kind of the failure.
    pub fn kind(&self) -> (kind: StoreErrorKind)
        ensures
            kind == self.spec_kind(),
    {
        self.kind
    }

    /// The message of the failure.
    pub fn message(&self) -> (message: &str)
        ensures
            message@ == self.spec_message(),
    {
        self.message.as_str()
    }

    /// The failure as the text shown to a person: its message.
    pub fn to_text(&self) -> (text: String)
        ensures
            text@ == self.spec_message(),
    {
        self.message.clone()
    }
}

} // verus!
