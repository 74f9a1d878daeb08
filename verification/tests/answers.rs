//! What an answer of the engine means to the caller.

use levelrs::handle::Handle;
use levelrs::reply::GetReply;
use levelrs::reply::OpenReply;
use levelrs::reply::PutReply;
use levelrs::text::decode;
use levelrs::Database;
use levelrs::LevelDBError;

fn opened() -> Database {
    Database::new().open(OpenReply { handle: Handle::from_address(64), error: None }).unwrap()
}

#[test]
fn open_without_diagnostic_holds_the_handle() {
    let mut db = Database::new()
        .open(OpenReply { handle: Handle::from_address(64), error: None })
        .unwrap();
    assert!(db.is_open());
    assert_eq!(db.close().map(|h| h.address()), Some(64));
}

#[test]
fn open_with_diagnostic_fails_with_it() {
    let reply = OpenReply {
        handle: None,
        error: Some(b"IO error: test/file/LOCK: Not a directory".to_vec()),
    };
    match Database::new().open(reply) {
        Err(LevelDBError::Raw(message)) => {
            assert_eq!(message, "IO error: test/file/LOCK: Not a directory")
        }
        other => panic!("{:?}", other.map(|db| db.is_open())),
    }
}

#[test]
fn diagnostic_comes_before_the_handle() {
    let reply = OpenReply { handle: Handle::from_address(64), error: Some(b"Corruption: bad".to_vec()) };
    let result = Database::new().open(reply);
    assert_eq!(result.err(), Some(LevelDBError::Raw("Corruption: bad".to_string())));
}

#[test]
fn open_without_handle_and_diagnostic_fails() {
    let result = Database::new().write_sync(true).open(OpenReply { handle: None, error: None });
    match result {
        Err(LevelDBError::Raw(message)) => {
            assert_eq!(message, "the engine returned no database and no diagnostic")
        }
        other => panic!("{:?}", other.map(|db| db.is_open())),
    }
}

#[test]
fn open_is_ok_only_with_a_handle() {
    let with = Database::new().open(OpenReply { handle: Handle::from_address(8), error: None });
    assert!(with.unwrap().is_open());
    let without = Database::new().open(OpenReply { handle: Handle::from_address(0), error: None });
    assert!(without.is_err());
}

#[test]
fn diagnostic_that_is_not_text_is_a_failure_too() {
    let bytes: [u8; 3] = [b'I', b'O', 0xff];
    let expected = std::str::from_utf8(&bytes).unwrap_err();
    assert_eq!(LevelDBError::new_from_char(&bytes), LevelDBError::Utf8(expected));

    let db = opened();
    assert_eq!(
        Database::new().open(OpenReply { handle: None, error: Some(bytes.to_vec()) }).err(),
        Some(LevelDBError::Utf8(expected))
    );
    assert_eq!(db.put(PutReply { error: Some(bytes.to_vec()) }), Err(LevelDBError::Utf8(expected)));
    assert_eq!(
        db.get_raw(GetReply { value: Some(b"v".to_vec()), error: Some(bytes.to_vec()) }),
        Err(LevelDBError::Utf8(expected))
    );
    assert_eq!(
        db.get_string(GetReply { value: None, error: Some(bytes.to_vec()) }),
        Err(LevelDBError::Utf8(expected))
    );
}

#[test]
fn handle_beside_a_diagnostic_is_set_aside() {
    let mut reply = OpenReply { handle: Handle::from_address(64), error: Some(b"Corruption: bad".to_vec()) };
    assert_eq!(reply.take_unheld().map(|h| h.address()), Some(64));
    assert!(reply.handle.is_none());
    assert_eq!(reply.error, Some(b"Corruption: bad".to_vec()));
    assert!(reply.take_unheld().is_none());
    assert_eq!(
        Database::new().open(reply).err(),
        Some(LevelDBError::Raw("Corruption: bad".to_string()))
    );
}

#[test]
fn handle_without_diagnostic_stays_in_the_answer() {
    let mut reply = OpenReply { handle: Handle::from_address(64), error: None };
    assert!(reply.take_unheld().is_none());
    assert_eq!(reply.handle.as_ref().map(|h| h.address()), Some(64));
    assert!(Database::new().open(reply).unwrap().is_open());

    let mut reply = OpenReply { handle: None, error: Some(b"IO error".to_vec()) };
    assert!(reply.take_unheld().is_none());
    assert_eq!(reply.error, Some(b"IO error".to_vec()));
}

#[test]
fn put_outcomes() {
    let db = opened();
    assert_eq!(db.put(PutReply { error: None }), Ok(()));
    assert_eq!(
        db.put(PutReply { error: Some(b"IO error: disk full".to_vec()) }),
        Err(LevelDBError::Raw("IO error: disk full".to_string()))
    );
    assert_eq!(db.put(PutReply { error: Some(Vec::new()) }), Err(LevelDBError::Raw(String::new())));
}

#[test]
fn get_raw_outcomes() {
    let db = opened();
    assert_eq!(db.get_raw(GetReply { value: None, error: None }), Ok(None));
    assert_eq!(db.get_raw(GetReply { value: Some(Vec::new()), error: None }), Ok(Some(Vec::new())));
    assert_eq!(
        db.get_raw(GetReply { value: Some(vec![1, 2, 3]), error: None }),
        Ok(Some(vec![1, 2, 3]))
    );
    assert_eq!(
        db.get_raw(GetReply { value: None, error: Some(b"Corruption: block checksum mismatch".to_vec()) }),
        Err(LevelDBError::Raw("Corruption: block checksum mismatch".to_string()))
    );
}

#[test]
fn diagnostic_comes_before_the_value() {
    let db = opened();
    let reply = GetReply { value: Some(b"world".to_vec()), error: Some(b"IO error".to_vec()) };
    assert_eq!(db.get_raw(reply), Err(LevelDBError::Raw("IO error".to_string())));
    let reply = GetReply { value: Some(vec![0xff]), error: Some(b"IO error".to_vec()) };
    assert_eq!(db.get_string(reply), Err(LevelDBError::Raw("IO error".to_string())));
}

#[test]
fn get_string_outcomes() {
    let db = opened();
    assert_eq!(db.get_string(GetReply { value: Some(b"world".to_vec()), error: None }), Ok("world".to_string()));
    assert_eq!(db.get_string(GetReply { value: Some(Vec::new()), error: None }), Ok(String::new()));
    assert_eq!(db.get_string(GetReply { value: None, error: None }), Ok(String::new()));
    assert_eq!(
        db.get_string(GetReply { value: Some(vec![0xe2, 0x9c, 0x93]), error: None }),
        Ok("\u{2713}".to_string())
    );
}

#[test]
fn get_string_refuses_bytes_that_are_not_text() {
    let db = opened();
    match db.get_string(GetReply { value: Some(vec![b'o', b'k', 0xe2, 0x9c]), error: None }) {
        Err(LevelDBError::Utf8(e)) => {
            assert_eq!(e.valid_up_to(), 2);
            assert_eq!(e.error_len(), None);
            assert_eq!(e, std::str::from_utf8(&[b'o', b'k', 0xe2, 0x9c]).unwrap_err());
        }
        other => panic!("{:?}", other),
    }
    match db.get_string(GetReply { value: Some(vec![0xc0, 0x80]), error: None }) {
        Err(LevelDBError::Utf8(e)) => assert_eq!(e.valid_up_to(), 0),
        other => panic!("{:?}", other),
    }
}

#[test]
fn new_from_char_keeps_the_engines_words() {
    assert_eq!(
        LevelDBError::new_from_char(b"NotFound: k"),
        LevelDBError::Raw("NotFound: k".to_string())
    );
    assert_eq!(LevelDBError::new_from_char(b""), LevelDBError::Raw(String::new()));
    assert_eq!(
        LevelDBError::new_from_char(&[0xc3, 0xa9, b'!']),
        LevelDBError::Raw("\u{e9}!".to_string())
    );
}

#[test]
fn messages_name_the_kind() {
    assert_eq!(LevelDBError::Raw("IO error: x".to_string()).message(), "LevelDB error: IO error: x");
    assert_eq!(LevelDBError::Raw(String::new()).message(), "LevelDB error: ");
    assert_eq!(LevelDBError::InvalidPath.message(), "invalid path: it contains a NUL byte");
    let e = decode(&[b'a', 0xff]).unwrap_err();
    assert_eq!(
        LevelDBError::Utf8(e).message(),
        "UTF-8 error: invalid utf-8 sequence of 1 bytes from index 1"
    );
}

#[test]
fn decode_reads_utf8_only() {
    assert_eq!(decode(b"world"), Ok("world".to_string()));
    assert_eq!(decode(b""), Ok(String::new()));
    assert_eq!(decode(&[0xf0, 0x9f, 0x98, 0x80]), Ok("\u{1f600}".to_string()));
    assert_eq!(decode(&[0x80]), Err(std::str::from_utf8(&[0x80]).unwrap_err()));
    assert_eq!(decode(&[b'a', 0xc3]).map_err(|e| e.valid_up_to()), Err(1));
    assert!(decode(&[0xed, 0xa0, 0x80]).is_err());
    assert!(decode(&[0xf4, 0x90, 0x80, 0x80]).is_err());
}

#[test]
fn close_hands_the_handle_out_once() {
    let mut db = opened().write_sync(true);
    let first = db.close();
    assert_eq!(first.map(|h| h.address()), Some(64));
    assert!(db.close().is_none());
    assert!(!db.is_open());
}
