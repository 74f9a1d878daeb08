//! The settings that the engine takes with a call. Each stands for one of
//! the engine's option objects. A setting is absent until the caller makes
//! it; an absent setting is left as the engine created it.

use vstd::prelude::*;

verus! {

/// Settings for opening a database.
#[derive(Clone, Copy, Debug, PartialEq, Eq)]
pub struct Options {
    pub create_if_missing: Option<bool>,
}

/// Settings for reading.
#[derive(Clone, Copy, Debug, PartialEq, Eq)]
pub struct ReadOptions {
    pub verify_checksums: Option<bool>,
    pub fill_cache: Option<bool>,
    pub snapshot: Option<bool>,
}

/// Settings for writing.
#[derive(Clone, Copy, Debug, PartialEq, Eq)]
pub struct WriteOptions {
    pub sync: Option<bool>,
}

/// Names one of the settings for reading.
#[derive(Clone, Copy, Debug, PartialEq, Eq)]
pub enum ReadOption {
    VerifyChecksums,
    FillCache,
    Snapshot,
}

impl ReadOptions {
    /// The named setting.
    pub open spec fn spec_get(self, option: ReadOption) -> Option<bool> {
        match option {
            ReadOption::VerifyChecksums => self.verify_checksums,
            ReadOption::FillCache => self.fill_cache,
            ReadOption::Snapshot => self.snapshot,
        }
    }

    /// These settings with the named one made, and the other two as they
    /// were.
    pub open spec fn spec_set(self, option: ReadOption, value: bool) -> ReadOptions {
        match option {
            ReadOption::VerifyChecksums => ReadOptions { verify_checksums: Some(value), ..self },
            ReadOption::FillCache => ReadOptions { fill_cache: Some(value), ..self },
            ReadOption::Snapshot => ReadOptions { snapshot: Some(value), ..self },
        }
    }

    /// Makes the named setting and leaves the other two as they were.
    pub fn set(self, option: ReadOption, value: bool) -> (r: ReadOptions)
        ensures
            r == self.spec_set(option, value),
    {
        match option {
            ReadOption::VerifyChecksums => ReadOptions { verify_checksums: Some(value), ..self },
            ReadOption::FillCache => ReadOptions { fill_cache: Some(value), ..self },
            ReadOption::Snapshot => ReadOptions { snapshot: Some(value), ..self },
        }
    }
}

} // verus!
