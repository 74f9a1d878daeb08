//! The failures that an operation of the binding can report.

use crate::text::decode;
use crate::text::spec_decode;
use core::str::Utf8Error;
use vstd::prelude::*;
use vstd::string::*;

verus! {

/// Why an operation failed.
#[derive(Debug, PartialEq, Eq)]
pub enum LevelDBError {
    /// The engine reported a failure; the text is its own diagnostic.
    Raw(String),
    /// Bytes that were to be read as text are not UTF-8.
    Utf8(Utf8Error),
    /// The path holds a zero byte, so it cannot be handed to the engine.
    InvalidPath,
}

/// A failure as contracts speak of it: the kind, for an engine failure the
/// characters of its diagnostic, and for bytes that are not text the
/// decoding error.
pub enum Failure {
    Raw(Seq<char>),
    Utf8(Utf8Error),
    InvalidPath,
}

impl Failure {
    /// What a diagnostic of the engine means. Its bytes are read as text
    /// and become the engine's failure with these words. A diagnostic that
    /// is not text is a failure too: the decoding error of its bytes.
    pub open spec fn of_diagnostic(bytes: Seq<u8>) -> Failure {
        match spec_decode(bytes) {
            Ok(text) => Failure::Raw(text),
            Err(e) => Failure::Utf8(e),
        }
    }
}

impl View for LevelDBError {
    type V = Failure;

    open spec fn view(&self) -> Failure {
        match self {
            LevelDBError::Raw(message) => Failure::Raw(message@),
            LevelDBError::Utf8(e) => Failure::Utf8(*e),
            LevelDBError::InvalidPath => Failure::InvalidPath,
        }
    }
}

impl LevelDBError {
    /// Turns the diagnostic that the engine left behind into an error value.
    /// `data` holds the bytes of the engine's string, without the zero byte
    /// that ends it. Text becomes `Raw` with the engine's words. Bytes that
    /// are not text become `Utf8` with their decoding error, so that every
    /// diagnostic reaches the caller as a failure.
    pub fn new_from_char(data: &[u8]) -> (error: Self)
        ensures
            error@ == Failure::of_diagnostic(data@),
    {
        match decode(data) {
            Ok(message) => LevelDBError::Raw(message),
            Err(e) => LevelDBError::Utf8(e),
        }
    }

    /// The failure in words, for a person to read.
    pub fn message(&self) -> (text: String)
        ensures
            self.spec_message(text@),
    {
        match self {
            LevelDBError::Raw(message) => {
                String::from_str("LevelDB error: ").concat(message.as_str())
            },
            LevelDBError::Utf8(e) => {
                let detail = e.to_string();
                String::from_str("UTF-8 error: ").concat(detail.as_str())
            },
            LevelDBError::InvalidPath => String::from_str("invalid path: it contains a NUL byte"),
        }
    }

    /// Whether `text` puts this failure in words: a heading that names the
    /// kind, followed by the engine's diagnostic or by what the standard
    /// library prints for the decoding error.
    pub open spec fn spec_message(&self, text: Seq<char>) -> bool {
        match self {
            LevelDBError::Raw(message) => text == "LevelDB error: "@ + message@,
            LevelDBError::Utf8(e) => exists|detail: String|
                to_string_from_display_ensures::<Utf8Error>(e, detail) && text
                    == "UTF-8 error: "@ + #[trigger] detail@,
            LevelDBError::InvalidPath => text == "invalid path: it contains a NUL byte"@,
        }
    }
}

} // verus!
