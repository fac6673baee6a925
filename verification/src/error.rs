//! The ways in which a conversion can fail.

use vstd::prelude::*;

verus! {

/// Why a document could not be classified or tokenized. Every failure is
/// final: nothing is retried and no partial result is handed out.
#[derive(Clone, Copy, Debug, PartialEq, Eq, Structural)]
pub enum OcrError {
    /// The document shows none of the three dialect signatures.
    UnknownFormat,
    /// A word holds a character entity that is malformed or unknown.
    EntityDecode,
    /// The pattern engine refused one of the built-in patterns, or reported a
    /// match that has no word text or that begins outside the document. Not
    /// expected to happen; it is reported rather than trusted not to.
    Engine,
}

impl OcrError {
    /// The message of each failure, as a sequence of characters.
    pub open spec fn message(self) -> Seq<char> {
        match self {
            OcrError::UnknownFormat => "Unknown format!"@,
            OcrError::EntityDecode => "Malformed character entity!"@,
            OcrError::Engine => "Pattern engine failure!"@,
        }
    }

    /// A short message for the user.
    pub fn describe(self) -> (text: &'static str)
        ensures
            text@ == self.message(),
    {
        match self {
            OcrError::UnknownFormat => "Unknown format!",
            OcrError::EntityDecode => "Malformed character entity!",
            OcrError::Engine => "Pattern engine failure!",
        }
    }
}

} // verus!
