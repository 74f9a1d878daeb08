//! What crosses to the engine, and in which form.

use levelrs::handle::Handle;
use levelrs::marshal::bool_as_u8;
use levelrs::marshal::c_path;
use levelrs::marshal::flag;
use levelrs::options::ReadOption;
use levelrs::options::ReadOptions;
use levelrs::reply::OpenReply;
use levelrs::Database;
use levelrs::LevelDBError;

fn opened(db: Database, address: usize) -> Database {
    db.open(OpenReply { handle: Handle::from_address(address), error: None }).unwrap()
}

#[test]
fn booleans_cross_as_zero_and_one() {
    assert_eq!(bool_as_u8(true), 1);
    assert_eq!(bool_as_u8(false), 0);
}

#[test]
fn unset_flag_stays_absent() {
    assert_eq!(flag(None), None);
    assert_eq!(flag(Some(true)), Some(1));
    assert_eq!(flag(Some(false)), Some(0));
}

#[test]
fn path_gets_its_zero_byte() {
    assert_eq!(c_path("test/db"), Ok(b"test/db\0".to_vec()));
    assert_eq!(c_path(""), Ok(vec![0]));
}

#[test]
fn path_with_longer_characters_keeps_its_bytes() {
    let path = c_path("d\u{e9}p\u{f4}t/\u{2713}").unwrap();
    assert_eq!(path, vec![b'd', 0xc3, 0xa9, b'p', 0xc3, 0xb4, b't', b'/', 0xe2, 0x9c, 0x93, 0]);
}

#[test]
fn path_with_zero_byte_is_refused() {
    assert_eq!(c_path("a\0b"), Err(LevelDBError::InvalidPath));
    assert_eq!(c_path("\0"), Err(LevelDBError::InvalidPath));
    assert_eq!(c_path("ab\0"), Err(LevelDBError::InvalidPath));
    assert_eq!(c_path("\0ab"), Err(LevelDBError::InvalidPath));
}

#[test]
fn open_call_carries_path_and_setting() {
    let call = Database::new().open_call("test/db").unwrap();
    assert_eq!(call.path, b"test/db\0".to_vec());
    assert_eq!(call.create_if_missing, None);

    let call = Database::new().create_if_missing(true).open_call("test/db").unwrap();
    assert_eq!(call.create_if_missing, Some(1));

    let call = Database::new().create_if_missing(false).open_call("x").unwrap();
    assert_eq!(call.create_if_missing, Some(0));
    assert_eq!(call.path, vec![b'x', 0]);
}

#[test]
fn open_call_refuses_zero_byte() {
    let result = Database::new().create_if_missing(true).open_call("a\0b");
    assert!(matches!(result, Err(LevelDBError::InvalidPath)));
}

#[test]
fn fresh_facade_has_no_settings() {
    let db = opened(Database::new(), 8);
    let read = db.get_call(b"k");
    assert_eq!((read.verify_checksums, read.fill_cache, read.snapshot), (None, None, None));
    assert_eq!(db.put_call(b"k", b"v").sync, None);
}

#[test]
fn chained_read_settings_are_all_kept() {
    let db = opened(Database::new().verify_checksums(true).fill_cache(false), 8);
    let call = db.get_call(b"key");
    assert_eq!(call.verify_checksums, Some(1));
    assert_eq!(call.fill_cache, Some(0));
    assert_eq!(call.snapshot, None);
    assert_eq!(call.key, b"key");
    assert_eq!(call.db.address(), 8);
}

#[test]
fn read_settings_in_either_order() {
    let one = opened(Database::new().fill_cache(false).snapshot(true).verify_checksums(true), 8);
    let two = opened(Database::new().verify_checksums(true).fill_cache(false).snapshot(true), 8);
    let a = one.get_call(b"k");
    let b = two.get_call(b"k");
    assert_eq!((a.verify_checksums, a.fill_cache, a.snapshot), (Some(1), Some(0), Some(1)));
    assert_eq!((b.verify_checksums, b.fill_cache, b.snapshot), (Some(1), Some(0), Some(1)));
}

#[test]
fn later_value_of_one_setting_stands() {
    let db = opened(Database::new().fill_cache(true).fill_cache(false), 8);
    assert_eq!(db.get_call(b"k").fill_cache, Some(0));
}

#[test]
fn settings_made_after_opening_count() {
    let db = opened(Database::new(), 24).write_sync(true).snapshot(false);
    assert!(db.is_open());
    let write = db.put_call(b"hello", b"world");
    assert_eq!(write.sync, Some(1));
    assert_eq!(write.key, b"hello");
    assert_eq!(write.value, b"world");
    assert_eq!(write.db.address(), 24);
    assert_eq!(db.get_call(b"hello").snapshot, Some(0));
}

#[test]
fn write_setting_leaves_read_settings_alone() {
    let db = opened(Database::new().verify_checksums(true).write_sync(true), 8);
    let read = db.get_call(b"k");
    assert_eq!((read.verify_checksums, read.fill_cache, read.snapshot), (Some(1), None, None));
    assert_eq!(db.put_call(b"k", b"v").sync, Some(1));
}

#[test]
fn read_options_set_one_field() {
    let start = ReadOptions { verify_checksums: None, fill_cache: Some(true), snapshot: None };
    assert_eq!(
        start.set(ReadOption::VerifyChecksums, false),
        ReadOptions { verify_checksums: Some(false), fill_cache: Some(true), snapshot: None }
    );
    assert_eq!(
        start.set(ReadOption::FillCache, false),
        ReadOptions { verify_checksums: None, fill_cache: Some(false), snapshot: None }
    );
    assert_eq!(
        start.set(ReadOption::Snapshot, true),
        ReadOptions { verify_checksums: None, fill_cache: Some(true), snapshot: Some(true) }
    );
}

#[test]
fn zero_address_is_no_handle() {
    assert!(Handle::from_address(0).is_none());
    let handle = Handle::from_address(4096).unwrap();
    assert_eq!(handle.address(), 4096);
    assert_eq!(Handle::from_address(usize::MAX).unwrap().address(), usize::MAX);
}
