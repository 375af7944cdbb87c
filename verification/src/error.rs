//! The two ways in which parsing fails.

use vstd::prelude::*;

verus! {

/// Why a text was refused.
#[derive(Clone, Copy, Debug, PartialEq, Eq, Structural)]
pub enum ParseError {
    /// The text is no timecode.
    InvalidTimeCode,
    /// The block holds no well-formed timing line.
    MalformedCue,
}

impl ParseError {
    /// The words that say what went wrong.
    pub open spec fn spec_message(self) -> Seq<char> {
        match self {
            ParseError::InvalidTimeCode => "invalid timecode"@,
            ParseError::MalformedCue => "not a valid cue"@,
        }
    }

    /// The words that say what went wrong.
    pub fn message(&self) -> (words: String)
        ensures
            words@ == self.spec_message(),
    {
        match self {
            ParseError::InvalidTimeCode => "invalid timecode".to_owned(),
            ParseError::MalformedCue => "not a valid cue".to_owned(),
        }
    }
}

} // verus!
