//! Errors reported when a note cannot be built from its textual parts.

use vstd::prelude::*;

verus! {

/// What went wrong while building a note.
#[derive(Debug, Clone, PartialEq, Eq)]
pub enum Error {
    /// Indicates that the note letter is missing.
    MissingLetter,
    /// Indicates that the note octave is missing.
    MissingOctave,
    /// Indicates that the note letter is invalid.
    InvalidLetter(String),
}

impl Error {
    /// The text that describes the error.
    pub open spec fn message(self) -> Seq<char> {
        match self {
            Error::MissingLetter => "note letter is missing"@,
            Error::MissingOctave => "note octave is missing"@,
            Error::InvalidLetter(letter) => "invalid note letter: "@ + letter@,
        }
    }

    /// Describes the error in words.
    pub fn to_string(&self) -> (text: String)
        ensures
            text@ == self.message(),
    {
        match self {
            Error::MissingLetter => String::from_str("note letter is missing"),
            Error::MissingOctave => String::from_str("note octave is missing"),
            Error::InvalidLetter(letter) => {
                let mut text = String::from_str("invalid note letter: ");
                text.append(letter.as_str());
                text
            },
        }
    }
}

} // verus!
