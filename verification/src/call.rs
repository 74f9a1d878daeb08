//! What is handed to the engine with each of its entry points. A call holds
//! the settings and bytes in the form in which they cross: settings as
//! bytes, a path with the zero byte that ends it, keys and values as plain
//! byte strings with their own length.

use crate::handle::Handle;
use crate::options::ReadOption;
use vstd::prelude::*;

verus! {

/// A call of the engine's entry point that opens a database.
#[derive(Debug)]
pub struct OpenCall {
    /// The byte to set on the engine's open options, where the setting was
    /// made.
    pub create_if_missing: Option<u8>,
    /// The path's bytes, ending in a zero byte and holding no other.
    pub path: Vec<u8>,
}

/// An `OpenCall` as contracts speak of it.
pub struct OpenCallView {
    pub create_if_missing: Option<u8>,
    pub path: Seq<u8>,
}

impl View for OpenCall {
    type V = OpenCallView;

    open spec fn view(&self) -> OpenCallView {
        OpenCallView { create_if_missing: self.create_if_missing, path: self.path@ }
    }
}

/// A call of the engine's entry point that stores a value under a key.
#[derive(Debug)]
pub struct PutCall<'a> {
    /// The database to write to, lent by the facade for the call.
    pub db: &'a Handle,
    /// The byte to set on the engine's write options, where the setting was
    /// made.
    pub sync: Option<u8>,
    pub key: &'a [u8],
    pub value: &'a [u8],
}

/// A `PutCall` as contracts speak of it.
pub struct PutCallView {
    pub db: usize,
    pub sync: Option<u8>,
    pub key: Seq<u8>,
    pub value: Seq<u8>,
}

impl<'a> View for PutCall<'a> {
    type V = PutCallView;

    open spec fn view(&self) -> PutCallView {
        PutCallView { db: self.db@, sync: self.sync, key: self.key@, value: self.value@ }
    }
}

/// A call of the engine's entry point that looks a key up.
#[derive(Debug)]
pub struct GetCall<'a> {
    /// The database to read from, lent by the facade for the call.
    pub db: &'a Handle,
    /// The bytes to set on the engine's read options, each where its
    /// setting was made.
    pub verify_checksums: Option<u8>,
    pub fill_cache: Option<u8>,
    pub snapshot: Option<u8>,
    pub key: &'a [u8],
}

/// A `GetCall` as contracts speak of it.
pub struct GetCallView {
    pub db: usize,
    pub verify_checksums: Option<u8>,
    pub fill_cache: Option<u8>,
    pub snapshot: Option<u8>,
    pub key: Seq<u8>,
}

impl GetCallView {
    /// The byte that the call carries for the named read setting.
    pub open spec fn setting(self, option: ReadOption) -> Option<u8> {
        match option {
            ReadOption::VerifyChecksums => self.verify_checksums,
            ReadOption::FillCache => self.fill_cache,
            ReadOption::Snapshot => self.snapshot,
        }
    }
}

impl<'a> View for GetCall<'a> {
    type V = GetCallView;

    open spec fn view(&self) -> GetCallView {
        GetCallView {
            db: self.db@,
            verify_checksums: self.verify_checksums,
            fill_cache: self.fill_cache,
            snapshot: self.snapshot,
            key: self.key@,
        }
    }
}

} // verus!
