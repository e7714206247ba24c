//! The error taxonomy of the library. Every failure of the bridge protocol,
//! the audio validator or the loaders is one of these kinds, with a
//! human-readable message; all are terminal for the operation that raised
//! them.

use vstd::prelude::*;

verus! {

/// Which layer rejected the operation.
#[derive(Clone, Copy, Debug, PartialEq, Eq, Structural)]
pub enum SpeechErrorKind {
    /// Bad audio format, missing file, or a path with an embedded null byte.
    Validation,
    /// Unsupported operating system or one below the minimum version.
    Platform,
    /// Library not found, a missing symbol, or a null handle from create.
    Load,
    /// Schema mismatch, a malformed envelope, or a missing data/error field.
    Protocol,
    /// A structured code+message reported by the foreign side.
    Native,
    /// A call before load or after unload.
    State,
}

/// An error of this library: a kind and a message.
#[derive(Clone, Debug, PartialEq)]
pub struct SpeechError {
    pub kind: SpeechErrorKind,
    pub message: String,
}

/// The mathematical content of a `SpeechError`.
pub struct SpeechErrorModel {
    pub kind: SpeechErrorKind,
    pub message: Seq<char>,
}

impl View for SpeechError {
    type V = SpeechErrorModel;

    open spec fn view(&self) -> SpeechErrorModel {
        SpeechErrorModel { kind: self.kind, message: self.message@ }
    }
}

impl SpeechError {
    pub open spec fn model(kind: SpeechErrorKind, message: Seq<char>) -> SpeechErrorModel {
        SpeechErrorModel { kind, message }
    }

    pub fn new(kind: SpeechErrorKind, message: String) -> (r: SpeechError)
        ensures
            r@ == SpeechError::model(kind, message@),
    {
        SpeechError { kind, message }
    }

    /// The message, for display by a caller.
    pub fn message(&self) -> (r: &str)
        ensures
            r@ == self.message@,
    {
        self.message.as_str()
    }
}

} // verus!
