//! What can go wrong while the service starts.

use vstd::prelude::*;

verus! {

/// A failure of the service, with a message for the operator.
#[derive(Debug)]
pub struct ServerError {
    message: String,
}

impl ServerError {
    /// The message of the failure.
    pub closed spec fn spec_message(&self) -> Seq<char> {
        self.message@
    }

    /// A failure with the given message.
    pub fn new(message: &str) -> (error: Self)
        ensures
            error.spec_message() == message@,
    {
        ServerError { message: message.to_owned() }
    }

    /// The message of the failure.
    pub fn message(&self) -> (message: &str)
        ensures
            message@ == self.spec_message(),
    {
        self.message.as_str()
    }

    /// The failure as the text shown to a person: its message.
    pub fn to_text(&self) -> (text: String)
        ensures
            text@ == self.spec_message(),
    {
        self.message.clone()
    }
}

} // verus!
