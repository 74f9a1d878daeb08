//! What the engine hands back from a call, copied out of its buffers: the
//! bytes of its diagnostic where it left one, and the bytes of the value
//! where it found one. An absent value is a key that is not stored; a value
//! of no bytes is a stored value that is empty.

use crate::error::Failure;
use crate::handle::handle_view;
use crate::handle::Handle;
use crate::text::spec_decode;
use vstd::prelude::*;

verus! {

/// Optional bytes as contracts speak of them.
pub open spec fn bytes_view(bytes: Option<Vec<u8>>) -> Option<Seq<u8>> {
    match bytes {
        Some(b) => Some(b@),
        None => None,
    }
}

/// What an optional diagnostic means: the failure that the diagnostic
/// stands for, or no failure.
pub open spec fn failure_of(error: Option<Seq<u8>>) -> Option<Failure> {
    match error {
        Some(bytes) => Some(Failure::of_diagnostic(bytes)),
        None => None,
    }
}

/// The engine's answer to an `OpenCall`.
#[derive(Debug)]
pub struct OpenReply {
    /// The database that the engine handed back, where it handed one
    /// back.
    pub handle: Option<Handle>,
    pub error: Option<Vec<u8>>,
}

/// An `OpenReply` as contracts speak of it.
pub struct OpenReplyView {
    pub handle: Option<usize>,
    pub error: Option<Seq<u8>>,
}

impl View for OpenReply {
    type V = OpenReplyView;

    open spec fn view(&self) -> OpenReplyView {
        OpenReplyView { handle: handle_view(self.handle), error: bytes_view(self.error) }
    }
}

impl OpenReplyView {
    /// The handle that no facade will hold: one that came together with a
    /// diagnostic.
    pub open spec fn unheld(self) -> Option<usize> {
        if self.error is Some {
            self.handle
        } else {
            None
        }
    }

    /// The answer without the handle that no facade will hold.
    pub open spec fn without_unheld(self) -> OpenReplyView {
        if self.error is Some {
            OpenReplyView { handle: None, ..self }
        } else {
            self
        }
    }
}

impl OpenReply {
    /// Takes out of the answer a handle that came together with a
    /// diagnostic. Opening fails on such an answer, so no facade will hold
    /// that database, and it is to be given back to the engine now. An
    /// answer without a diagnostic keeps its handle.
    pub fn take_unheld(&mut self) -> (unheld: Option<Handle>)
        ensures
            handle_view(unheld) == old(self)@.unheld(),
            final(self)@ == old(self)@.without_unheld(),
    {
        if self.error.is_some() {
            self.handle.take()
        } else {
            None
        }
    }
}

/// The engine's answer to a `PutCall`.
#[derive(Debug)]
pub struct PutReply {
    pub error: Option<Vec<u8>>,
}

/// A `PutReply` as contracts speak of it.
pub struct PutReplyView {
    pub error: Option<Seq<u8>>,
}

impl View for PutReply {
    type V = PutReplyView;

    open spec fn view(&self) -> PutReplyView {
        PutReplyView { error: bytes_view(self.error) }
    }
}

impl PutReplyView {
    /// What the answer means to the caller: the engine's failure where it
    /// left a diagnostic, success where it left none.
    pub open spec fn outcome(self) -> Result<(), Failure> {
        match failure_of(self.error) {
            Some(failure) => Err(failure),
            None => Ok(()),
        }
    }
}

/// The engine's answer to a `GetCall`.
#[derive(Debug)]
pub struct GetReply {
    /// The stored bytes; absent where the key is not stored.
    pub value: Option<Vec<u8>>,
    pub error: Option<Vec<u8>>,
}

/// A `GetReply` as contracts speak of it.
pub struct GetReplyView {
    pub value: Option<Seq<u8>>,
    pub error: Option<Seq<u8>>,
}

impl View for GetReply {
    type V = GetReplyView;

    open spec fn view(&self) -> GetReplyView {
        GetReplyView { value: bytes_view(self.value), error: bytes_view(self.error) }
    }
}

impl GetReplyView {
    /// What the answer means to a caller who asked for bytes. A diagnostic
    /// comes before anything else that the engine handed back. Without one,
    /// the caller gets the value, or learns that there is none.
    pub open spec fn raw(self) -> Result<Option<Seq<u8>>, Failure> {
        match failure_of(self.error) {
            Some(failure) => Err(failure),
            None => Ok(self.value),
        }
    }

    /// What the answer means to a caller who asked for text. A key that is
    /// not stored reads as the empty text; stored bytes read as the text
    /// they spell, and fail as `Utf8` with their decoding error where they
    /// spell none.
    pub open spec fn text(self) -> Result<Seq<char>, Failure> {
        match self.raw() {
            Err(failure) => Err(failure),
            Ok(None) => Ok(Seq::<char>::empty()),
            Ok(Some(bytes)) => match spec_decode(bytes) {
                Ok(text) => Ok(text),
                Err(e) => Err(Failure::Utf8(e)),
            },
        }
    }
}

} // verus!
