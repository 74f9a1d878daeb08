//! The facade: the settings that the caller has made, and the database of
//! the engine that is open behind them, where one is.
//!
//! Each operation of the engine is taken in two steps. The first says what
//! is to be handed to the engine; the second takes the engine's answer and
//! says what it means. Between the two, the caller of this library makes the
//! call.

use crate::call::GetCall;
use crate::call::GetCallView;
use crate::call::OpenCall;
use crate::call::OpenCallView;
use crate::call::PutCall;
use crate::call::PutCallView;
use crate::error::Failure;
use crate::error::LevelDBError;
use crate::handle::handle_view;
use crate::handle::Handle;
use crate::marshal::c_path;
use crate::marshal::flag;
use crate::marshal::spec_c_path;
use crate::marshal::spec_flag;
use crate::options::Options;
use crate::options::ReadOption;
use crate::options::ReadOptions;
use crate::options::WriteOptions;
use crate::reply::bytes_view;
use crate::reply::failure_of;
use crate::reply::GetReply;
use crate::reply::OpenReply;
use crate::reply::OpenReplyView;
use crate::reply::PutReply;
use crate::text::decode;
use vstd::prelude::*;
use vstd::string::*;

verus! {

/// The facade over one database of the engine.
#[derive(Debug)]
pub struct Database {
    options: Options,
    leveldb: Option<Handle>,
    read_options: ReadOptions,
    write_options: WriteOptions,
}

/// A `Database` as contracts speak of it.
pub struct DatabaseView {
    pub options: Options,
    pub read_options: ReadOptions,
    pub write_options: WriteOptions,
    /// The address of the open database that the facade holds, where it
    /// holds one.
    pub handle: Option<usize>,
}

impl View for Database {
    type V = DatabaseView;

    closed spec fn view(&self) -> DatabaseView {
        DatabaseView {
            options: self.options,
            read_options: self.read_options,
            write_options: self.write_options,
            handle: handle_view(self.leveldb),
        }
    }
}

impl DatabaseView {
    /// Whether the facade holds an open database.
    pub open spec fn is_open(self) -> bool {
        self.handle is Some
    }

    /// A facade on which no setting was made and nothing is open.
    pub open spec fn new() -> DatabaseView {
        DatabaseView {
            options: Options { create_if_missing: None },
            read_options: ReadOptions { verify_checksums: None, fill_cache: None, snapshot: None },
            write_options: WriteOptions { sync: None },
            handle: None,
        }
    }

    pub open spec fn create_if_missing(self, value: bool) -> DatabaseView {
        DatabaseView { options: Options { create_if_missing: Some(value) }, ..self }
    }

    pub open spec fn write_sync(self, value: bool) -> DatabaseView {
        DatabaseView { write_options: WriteOptions { sync: Some(value) }, ..self }
    }

    pub open spec fn set_read_option(self, option: ReadOption, value: bool) -> DatabaseView {
        DatabaseView { read_options: self.read_options.spec_set(option, value), ..self }
    }

    pub open spec fn verify_checksums(self, value: bool) -> DatabaseView {
        self.set_read_option(ReadOption::VerifyChecksums, value)
    }

    pub open spec fn fill_cache(self, value: bool) -> DatabaseView {
        self.set_read_option(ReadOption::FillCache, value)
    }

    pub open spec fn snapshot(self, value: bool) -> DatabaseView {
        self.set_read_option(ReadOption::Snapshot, value)
    }

    /// The call that opens the database at `name`, or the refusal of a path
    /// that cannot be handed to the engine.
    pub open spec fn open_call(self, name: Seq<char>) -> Result<OpenCallView, Failure> {
        match spec_c_path(name) {
            Some(path) => Ok(
                OpenCallView { create_if_missing: spec_flag(self.options.create_if_missing), path },
            ),
            None => Err(Failure::InvalidPath),
        }
    }

    /// The words of the failure when the engine answers an `OpenCall` with
    /// neither a database nor a diagnostic.
    pub open spec fn no_database() -> Seq<char> {
        "the engine returned no database and no diagnostic"@
    }

    /// The facade after the engine has answered an `OpenCall`. A diagnostic
    /// comes before the handle: with one, the call has failed and no facade
    /// is left. Without one, opening has succeeded exactly if the engine
    /// handed back a database, which the facade then holds. An answer with
    /// neither is a failure of the engine too, in this library's words.
    pub open spec fn open(self, reply: OpenReplyView) -> Result<DatabaseView, Failure> {
        match failure_of(reply.error) {
            Some(failure) => Err(failure),
            None => match reply.handle {
                Some(handle) => Ok(DatabaseView { handle: Some(handle), ..self }),
                None => Err(Failure::Raw(Self::no_database())),
            },
        }
    }

    /// The call that stores `value` under `key` in the open database.
    pub open spec fn put_call(self, key: Seq<u8>, value: Seq<u8>) -> PutCallView
        recommends
            self.is_open(),
    {
        PutCallView { db: self.handle->0, sync: spec_flag(self.write_options.sync), key, value }
    }

    /// The call that looks `key` up in the open database.
    pub open spec fn get_call(self, key: Seq<u8>) -> GetCallView
        recommends
            self.is_open(),
    {
        GetCallView {
            db: self.handle->0,
            verify_checksums: spec_flag(self.read_options.verify_checksums),
            fill_cache: spec_flag(self.read_options.fill_cache),
            snapshot: spec_flag(self.read_options.snapshot),
            key,
        }
    }

    /// The facade after it has let go of its database.
    pub open spec fn close(self) -> DatabaseView {
        DatabaseView { handle: None, ..self }
    }
}

impl Database {
    /// A facade on which no setting was made and nothing is open.
    pub fn new() -> (db: Self)
        ensures
            db@ == DatabaseView::new(),
    {
        Database {
            options: Options { create_if_missing: None },
            leveldb: None,
            read_options: ReadOptions { verify_checksums: None, fill_cache: None, snapshot: None },
            write_options: WriteOptions { sync: None },
        }
    }

    /// Says whether a missing database is to be created when it is opened.
    pub fn create_if_missing(self, value: bool) -> (db: Self)
        ensures
            db@ == self@.create_if_missing(value),
    {
        Database { options: Options { create_if_missing: Some(value) }, ..self }
    }

    /// Says whether a write is to reach the disk before the engine answers.
    pub fn write_sync(self, value: bool) -> (db: Self)
        ensures
            db@ == self@.write_sync(value),
    {
        Database { write_options: WriteOptions { sync: Some(value) }, ..self }
    }

    /// Says whether data that is read is to be checked against its
    /// checksums.
    pub fn verify_checksums(self, value: bool) -> (db: Self)
        ensures
            db@ == self@.verify_checksums(value),
    {
        self.set_read_option(ReadOption::VerifyChecksums, value)
    }

    /// Says whether data that is read is to be kept in the engine's cache.
    pub fn fill_cache(self, value: bool) -> (db: Self)
        ensures
            db@ == self@.fill_cache(value),
    {
        self.set_read_option(ReadOption::FillCache, value)
    }

    /// Says whether reads are to go to a snapshot.
    pub fn snapshot(self, value: bool) -> (db: Self)
        ensures
            db@ == self@.snapshot(value),
    {
        self.set_read_option(ReadOption::Snapshot, value)
    }

    fn set_read_option(self, option: ReadOption, value: bool) -> (db: Self)
        ensures
            db@ == self@.set_read_option(option, value),
    {
        Database { read_options: self.read_options.set(option, value), ..self }
    }

    /// Whether the facade holds an open database.
    pub fn is_open(&self) -> (open: bool)
        ensures
            open == self@.is_open(),
    {
        self.leveldb.is_some()
    }

    /// First step of opening: the call to make, with the path in its
    /// zero-terminated form and the open setting as made so far. A path that
    /// holds a zero byte is refused as `InvalidPath`, and there is then no
    /// call to make.
    pub fn open_call(&self, name: &str) -> (r: Result<OpenCall, LevelDBError>)
        requires
            !self@.is_open(),
        ensures
            match r {
                Ok(call) => self@.open_call(name@) == Ok::<OpenCallView, Failure>(call@),
                Err(e) => self@.open_call(name@) == Err::<OpenCallView, Failure>(e@),
            },
    {
        match c_path(name) {
            Ok(path) => Ok(OpenCall { create_if_missing: flag(self.options.create_if_missing), path }),
            Err(e) => Err(e),
        }
    }

    /// Second step of opening: takes the engine's answer. With a
    /// diagnostic, opening has failed with the engine's words, whatever
    /// else the engine handed back. Without one, opening has succeeded
    /// exactly if the engine handed back a database: the facade comes back
    /// open, with its settings unchanged, and holds that database. An answer
    /// with neither a diagnostic nor a database fails as `Raw` with this
    /// library's own words.
    pub fn open(self, reply: OpenReply) -> (r: Result<Self, LevelDBError>)
        requires
            !self@.is_open(),
        ensures
            match r {
                Ok(db) => self@.open(reply@) == Ok::<DatabaseView, Failure>(db@),
                Err(e) => self@.open(reply@) == Err::<DatabaseView, Failure>(e@),
            },
    {
        match reply.error {
            Some(diagnostic) => Err(LevelDBError::new_from_char(diagnostic.as_slice())),
            None => match reply.handle {
                Some(handle) => Ok(Database { leveldb: Some(handle), ..self }),
                None => Err(
                    LevelDBError::Raw(
                        String::from_str("the engine returned no database and no diagnostic"),
                    ),
                ),
            },
        }
    }

    /// First step of a write: the call to make, with the key and value as
    /// given and the write setting as made so far.
    pub fn put_call<'a>(&'a self, key: &'a [u8], value: &'a [u8]) -> (call: PutCall<'a>)
        requires
            self@.is_open(),
        ensures
            call@ == self@.put_call(key@, value@),
    {
        match &self.leveldb {
            Some(db) => PutCall { db, sync: flag(self.write_options.sync), key, value },
            None => vstd::pervasive::unreached(),
        }
    }

    /// Second step of a write: takes the engine's answer. The write has
    /// failed exactly if the engine left a diagnostic.
    pub fn put(&self, reply: PutReply) -> (r: Result<(), LevelDBError>)
        requires
            self@.is_open(),
        ensures
            match r {
                Ok(done) => reply@.outcome() == Ok::<(), Failure>(done),
                Err(e) => reply@.outcome() == Err::<(), Failure>(e@),
            },
    {
        match reply.error {
            Some(diagnostic) => Err(LevelDBError::new_from_char(diagnostic.as_slice())),
            None => Ok(()),
        }
    }

    /// First step of a read: the call to make, with the key as given and
    /// the read settings as made so far.
    pub fn get_call<'a>(&'a self, key: &'a [u8]) -> (call: GetCall<'a>)
        requires
            self@.is_open(),
        ensures
            call@ == self@.get_call(key@),
    {
        match &self.leveldb {
            Some(db) => GetCall {
                db,
                verify_checksums: flag(self.read_options.verify_checksums),
                fill_cache: flag(self.read_options.fill_cache),
                snapshot: flag(self.read_options.snapshot),
                key,
            },
            None => vstd::pervasive::unreached(),
        }
    }

    /// Second step of a read for bytes: takes the engine's answer. With a
    /// diagnostic the read has failed. Without one the stored bytes come
    /// back, or `None` where the key is not stored: an empty value is
    /// `Some` of no bytes.
    pub fn get_raw(&self, reply: GetReply) -> (r: Result<Option<Vec<u8>>, LevelDBError>)
        requires
            self@.is_open(),
        ensures
            match r {
                Ok(value) => reply@.raw() == Ok::<Option<Seq<u8>>, Failure>(bytes_view(value)),
                Err(e) => reply@.raw() == Err::<Option<Seq<u8>>, Failure>(e@),
            },
    {
        match reply.error {
            Some(diagnostic) => Err(LevelDBError::new_from_char(diagnostic.as_slice())),
            None => Ok(reply.value),
        }
    }

    /// Second step of a read for text: takes the engine's answer as
    /// `get_raw` does and reads the bytes as UTF-8. A key that is not
    /// stored reads as the empty text. Stored bytes that are not UTF-8 fail
    /// as `Utf8` with the decoding error of these bytes.
    pub fn get_string(&self, reply: GetReply) -> (r: Result<String, LevelDBError>)
        requires
            self@.is_open(),
        ensures
            match r {
                Ok(text) => reply@.text() == Ok::<Seq<char>, Failure>(text@),
                Err(e) => reply@.text() == Err::<Seq<char>, Failure>(e@),
            },
    {
        match self.get_raw(reply)? {
            Some(bytes) => match decode(bytes.as_slice()) {
                Ok(text) => Ok(text),
                Err(e) => Err(LevelDBError::Utf8(e)),
            },
            None => Ok(String::new()),
        }
    }

    /// Lets go of the database. Hands out the handle that the facade held,
    /// which is now to be given back to the engine, or `None` where it held
    /// none. After the call the facade holds none, so a second call hands
    /// out nothing.
    pub fn close(&mut self) -> (released: Option<Handle>)
        ensures
            handle_view(released) == old(self)@.handle,
            final(self)@ == old(self)@.close(),
    {
        self.leveldb.take()
    }
}

} // verus!
