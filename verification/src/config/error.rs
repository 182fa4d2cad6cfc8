//! What can go wrong while the configuration is read.

use vstd::prelude::*;

verus! {

/// A failure to build the configuration, with a message for the operator.
#[derive(Debug)]
pub struct ConfigError {
    message: String,
}

impl ConfigError {
    /// The message of the failure.
    pub closed spec fn spec_message(&self) -> Seq<char> {
        self.message@
    }

    /// A failure with the given message.
    pub fn new(message: &str) -> (error: Self)
        ensures
            error.spec_message() == message@,
    {
        ConfigError { message: message.to_owned() }
    }

    /// The message of the failure.
    pub fn message(&self) -> (message: &str)
        ensures
            message@ == self.spec_message(),
    {
        self.message.as_str()
    }

    /// The failure as the text shown to a person: its message.
    pub fn to_text(&self) -> (text: String)
        ensures
            text@ == self.spec_message(),
    {
        self.message.clone()
    }
}

} // verus!
