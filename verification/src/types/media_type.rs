//! The kind of carrier of a media entry.

use vstd::prelude::*;
use vstd::std_specs::convert::TryFromSpecImpl;
use crate::text::joined;
use crate::text::same_text;

verus! {

/// The kind of carrier.
#[derive(Clone, Copy, Debug, PartialEq, Eq, Structural)]
pub enum MediaType {
    Vinyl,
    Tape,
    Cd,
}

/// The message for a name that names no kind; the name follows.
pub const UNKNOWN_MEDIA_TYPE: &'static str = "Unknown media type: ";

/// The refusal of a name that names no kind of carrier.
#[derive(Debug)]
pub struct UnknownMediaType {
    /// The name that was refused, as it was handed in.
    pub name: String,
}

impl UnknownMediaType {
    /// The refusal as the text shown to a person: a fixed message, then the
    /// refused name.
    pub fn to_text(&self) -> (text: String)
        ensures
            text@ == UNKNOWN_MEDIA_TYPE@ + self.name@,
    {
        joined(UNKNOWN_MEDIA_TYPE, self.name.as_str())
    }
}

/// The lower-case form of a text, as `str::to_lowercase` gives it.
pub uninterp spec fn lowercase_text(text: Seq<char>) -> Seq<char>;

/// Turns a text into lower case with `str::to_lowercase`.
///
/// The contract claims only that the result depends on the text alone.
#[verifier::external_body]
fn lowercase(text: &str) -> (lower: String)
    ensures
        lower@ == lowercase_text(text@),
{
    text.to_lowercase()
}

impl MediaType {
    /// The kind that a lower-case name stands for, if it stands for one.
    pub open spec fn spec_parse_lowercase(name: Seq<char>) -> Option<MediaType> {
        if name == "vinyl"@ {
            Some(MediaType::Vinyl)
        } else if name == "tape"@ {
            Some(MediaType::Tape)
        } else if name == "cd"@ {
            Some(MediaType::Cd)
        } else {
            None
        }
    }

    /// The kind that a name stands for, whatever its case, if it stands for one.
    pub open spec fn spec_parse(name: Seq<char>) -> Option<MediaType> {
        Self::spec_parse_lowercase(lowercase_text(name))
    }

    /// Reads a name that is already in lower case: `vinyl`, `tape` or `cd`.
    pub fn parse_lowercase(name: &str) -> (kind: Option<MediaType>)
        ensures
            kind == Self::spec_parse_lowercase(name@),
    {
        if same_text(name, "vinyl") {
            Some(MediaType::Vinyl)
        } else if same_text(name, "tape") {
            Some(MediaType::Tape)
        } else if same_text(name, "cd") {
            Some(MediaType::Cd)
        } else {
            None
        }
    }

    /// Reads a name in any case, and refuses one that names no kind.
    pub fn parse(name: &str) -> (kind: Option<MediaType>)
        ensures
            kind == Self::spec_parse(name@),
    {
        let lower = lowercase(name);
        Self::parse_lowercase(lower.as_str())
    }

    /// The name of the kind, in lower case.
    pub fn name(self) -> (name: String)
        ensures
            Self::spec_parse_lowercase(name@) == Some(self),
    {
        proof {
            reveal_strlit("vinyl");
            reveal_strlit("tape");
            reveal_strlit("cd");
            assert("vinyl"@.len() == 5 && "tape"@.len() == 4 && "cd"@.len() == 2);
        }
        match self {
            MediaType::Vinyl => String::from_str("vinyl"),
            MediaType::Tape => String::from_str("tape"),
            MediaType::Cd => String::from_str("cd"),
        }
    }
}

impl TryFromSpecImpl<String> for MediaType {
    open spec fn obeys_try_from_spec() -> bool {
        true
    }

    open spec fn try_from_spec(input: String) -> Result<MediaType, UnknownMediaType> {
        match MediaType::spec_parse(input@) {
            Some(kind) => Ok(kind),
            None => Err(UnknownMediaType { name: input }),
        }
    }
}

impl TryFrom<String> for MediaType {
    type Error = UnknownMediaType;

    /// Reads a name in any case. A name that names no kind is refused, and the
    /// refusal carries the name: no name is taken for a kind it does not name.
    fn try_from(input: String) -> (kind: Result<MediaType, UnknownMediaType>) {
        match MediaType::parse(input.as_str()) {
            Some(kind) => Ok(kind),
            None => Err(UnknownMediaType { name: input }),
        }
    }
}

} // verus!
