//! What holds of the binding as a whole, whatever the settings, paths, keys
//! and values: each law relates several of its operations.

use crate::call::OpenCallView;
use crate::database::DatabaseView;
use crate::error::Failure;
use crate::marshal::spec_bool_as_u8;
use crate::marshal::spec_c_path;
use crate::marshal::spec_flag;
use crate::options::ReadOption;
use crate::reply::GetReplyView;
use crate::reply::OpenReplyView;
use crate::reply::PutReplyView;
use crate::text::utf8_error_of;
use vstd::prelude::*;
use vstd::utf8::*;

verus! {

/// A character's encoding holds a zero byte only where the character is
/// the one with code zero.
proof fn lemma_scalar_zero_byte(c: char)
    ensures
        encode_scalar(c as u32).contains(0u8) <==> c == '\0',
{
    let v = c as u32;
    let bytes = encode_scalar(v);
    assert(v <= 0x7F ==> ((v & 0x7F) as u8 == 0u8 <==> v == 0)) by (bit_vector);
    assert((0xC0u8 | ((v >> 6) & 0x1F) as u8) != 0u8) by (bit_vector);
    assert((0xE0u8 | ((v >> 12) & 0x0F) as u8) != 0u8) by (bit_vector);
    assert((0xF0u8 | ((v >> 18) & 0x7) as u8) != 0u8) by (bit_vector);
    assert((0x80u8 | (v & 0x3F) as u8) != 0u8) by (bit_vector);
    assert((0x80u8 | ((v >> 6) & 0x3F) as u8) != 0u8) by (bit_vector);
    assert((0x80u8 | ((v >> 12) & 0x3F) as u8) != 0u8) by (bit_vector);
    if c == '\0' {
        assert(bytes[0] == 0u8);
    }
}

/// The bytes of a text hold a zero byte exactly where the text holds the
/// character with code zero.
pub proof fn lemma_zero_byte_iff_nul_char(text: Seq<char>)
    ensures
        encode_utf8(text).contains(0u8) <==> text.contains('\0'),
    decreases text.len(),
{
    if text.len() > 0 {
        let head = encode_scalar(text[0] as u32);
        let rest = text.drop_first();
        let tail = encode_utf8(rest);
        lemma_scalar_zero_byte(text[0]);
        lemma_zero_byte_iff_nul_char(rest);
        if (head + tail).contains(0u8) {
            let i = choose|i: int| 0 <= i < (head + tail).len() && (head + tail)[i] == 0u8;
            if i < head.len() {
                assert(head[i] == 0u8);
            } else {
                assert(tail[i - head.len()] == 0u8);
            }
        }
        if head.contains(0u8) {
            let i = choose|i: int| 0 <= i < head.len() && head[i] == 0u8;
            assert((head + tail)[i] == 0u8);
        }
        if tail.contains(0u8) {
            let i = choose|i: int| 0 <= i < tail.len() && tail[i] == 0u8;
            assert((head + tail)[i + head.len()] == 0u8);
        }
        if text.contains('\0') {
            let i = choose|i: int| 0 <= i < text.len() && text[i] == '\0';
            if i > 0 {
                assert(rest[i - 1] == '\0');
            }
        }
        if rest.contains('\0') {
            let i = choose|i: int| 0 <= i < rest.len() && rest[i] == '\0';
            assert(text[i + 1] == '\0');
        }
        if text[0] == '\0' {
            assert(text.contains('\0'));
        }
    }
}

/// A path is refused exactly where it holds the character with code zero;
/// every other path is handed to the engine, whatever the settings.
pub proof fn lemma_path_refused_iff_nul_char(db: DatabaseView, name: Seq<char>)
    ensures
        name.contains('\0') <==> db.open_call(name) == Err::<OpenCallView, Failure>(
            Failure::InvalidPath,
        ),
        !name.contains('\0') <==> db.open_call(name) is Ok,
{
    lemma_zero_byte_iff_nul_char(name);
}

/// A path that is handed to the engine ends in a zero byte and holds no
/// other, so the engine, which reads up to the first zero byte, reads the
/// bytes of the whole path and nothing more.
pub proof fn lemma_path_read_whole(name: Seq<char>)
    requires
        !name.contains('\0'),
    ensures
        spec_c_path(name) is Some,
        ({
            let path = spec_c_path(name)->0;
            &&& path.len() == encode_utf8(name).len() + 1
            &&& path.last() == 0u8
            &&& forall|i: int| 0 <= i < path.len() - 1 ==> path[i] != 0u8
            &&& decode_utf8(path.drop_last()) == name
        }),
{
    lemma_zero_byte_iff_nul_char(name);
    let bytes = encode_utf8(name);
    let path = bytes.push(0u8);
    assert(path.drop_last() == bytes);
    encode_utf8_decode_utf8(name);
    assert forall|i: int| 0 <= i < path.len() - 1 implies path[i] != 0u8 by {
        assert(bytes.contains(bytes[i]));
    }
}

/// A boolean crosses to the engine as 0 or 1, and the two booleans as two
/// different bytes.
pub proof fn lemma_bool_byte(a: bool, b: bool)
    ensures
        spec_bool_as_u8(a) == 0 || spec_bool_as_u8(a) == 1,
        spec_bool_as_u8(a) == spec_bool_as_u8(b) <==> a == b,
        spec_flag(Some(a)) == spec_flag(Some(b)) <==> a == b,
        spec_flag(Some(a)) != spec_flag(None),
{
}

/// A read setting, once made, is what every later read carries for it, and
/// making it changes nothing else: not the other read settings, not the
/// settings for opening and writing, and not the database that is open.
pub proof fn lemma_read_setting_kept(
    db: DatabaseView,
    option: ReadOption,
    value: bool,
    other: ReadOption,
    key: Seq<u8>,
)
    ensures
        db.set_read_option(option, value).get_call(key).setting(option) == Some(
            spec_bool_as_u8(value),
        ),
        other != option ==> db.set_read_option(option, value).get_call(key).setting(other)
            == db.get_call(key).setting(other),
        db.set_read_option(option, value).get_call(key).db == db.get_call(key).db,
        db.set_read_option(option, value).get_call(key).key == key,
        db.set_read_option(option, value).options == db.options,
        db.set_read_option(option, value).write_options == db.write_options,
        db.set_read_option(option, value).handle == db.handle,
{
}

/// Read settings that are made one after the other all reach the read: a
/// later one does not undo an earlier one. With checksums set first and the
/// cache second, the call carries both, and the third setting as it stood.
pub proof fn lemma_read_settings_chain(db: DatabaseView, checksums: bool, cache: bool, key: Seq<u8>)
    ensures
        ({
            let call = db.verify_checksums(checksums).fill_cache(cache).get_call(key);
            &&& call.verify_checksums == Some(spec_bool_as_u8(checksums))
            &&& call.fill_cache == Some(spec_bool_as_u8(cache))
            &&& call.snapshot == db.get_call(key).snapshot
        }),
        db.verify_checksums(checksums).fill_cache(cache) == db.fill_cache(cache).verify_checksums(
            checksums,
        ),
{
}

/// Two different read settings can be made in either order, and of two
/// values given to one setting the later one stands.
pub proof fn lemma_read_settings_order(
    db: DatabaseView,
    first: ReadOption,
    a: bool,
    second: ReadOption,
    b: bool,
)
    ensures
        first != second ==> db.set_read_option(first, a).set_read_option(second, b)
            == db.set_read_option(second, b).set_read_option(first, a),
        db.set_read_option(first, a).set_read_option(first, b) == db.set_read_option(first, b),
{
}

/// The write setting made last is the one that a write carries, and the
/// read settings do not touch it.
pub proof fn lemma_write_setting_kept(
    db: DatabaseView,
    sync: bool,
    option: ReadOption,
    value: bool,
    key: Seq<u8>,
    bytes: Seq<u8>,
)
    ensures
        db.write_sync(sync).put_call(key, bytes).sync == Some(spec_bool_as_u8(sync)),
        db.write_sync(sync).set_read_option(option, value).put_call(key, bytes)
            == db.write_sync(sync).put_call(key, bytes),
        db.write_sync(sync).create_if_missing(value).put_call(key, bytes) == db.write_sync(
            sync,
        ).put_call(key, bytes),
        db.write_sync(sync).get_call(key) == db.get_call(key),
{
}

/// Opening changes no setting: what was set before the database was opened
/// is what the calls on the open database carry, to the database that the
/// engine handed back.
pub proof fn lemma_open_keeps_settings(
    db: DatabaseView,
    handle: usize,
    key: Seq<u8>,
    value: Seq<u8>,
)
    ensures
        ({
            let opened = db.open(OpenReplyView { handle: Some(handle), error: None });
            &&& opened is Ok
            &&& opened->Ok_0.is_open()
            &&& opened->Ok_0.put_call(key, value).db == handle
            &&& opened->Ok_0.put_call(key, value).sync == spec_flag(db.write_options.sync)
            &&& opened->Ok_0.get_call(key).db == handle
            &&& opened->Ok_0.get_call(key).setting(ReadOption::VerifyChecksums) == spec_flag(
                db.read_options.verify_checksums,
            )
            &&& opened->Ok_0.get_call(key).setting(ReadOption::FillCache) == spec_flag(
                db.read_options.fill_cache,
            )
            &&& opened->Ok_0.get_call(key).setting(ReadOption::Snapshot) == spec_flag(
                db.read_options.snapshot,
            )
        }),
{
}

/// Text that is written reads back as the same text. The write hands the
/// engine the text's bytes under the key; where the engine answers a read
/// with the bytes it was given, the text that is read is the text that was
/// written, character for character.
pub proof fn lemma_text_round_trip(db: DatabaseView, key: Seq<u8>, text: Seq<char>)
    requires
        db.is_open(),
    ensures
        ({
            let written = db.put_call(key, encode_utf8(text));
            let read = db.get_call(key);
            let answer = GetReplyView { value: Some(written.value), error: None };
            &&& written.db == read.db
            &&& written.key == read.key
            &&& answer.raw() == Ok::<Option<Seq<u8>>, Failure>(Some(encode_utf8(text)))
            &&& answer.text() == Ok::<Seq<char>, Failure>(text)
        }),
{
    encode_utf8_valid_utf8(text);
    encode_utf8_decode_utf8(text);
}

/// Among answers without a diagnostic, what a read for bytes returns tells
/// what the engine handed back. So a key that is not stored never reads
/// like a key that is stored with an empty value.
pub proof fn lemma_missing_is_not_empty(a: GetReplyView, b: GetReplyView)
    requires
        a.error is None,
        b.error is None,
    ensures
        a.raw() == b.raw() <==> a.value == b.value,
        a.value is None <==> a.raw() == Ok::<Option<Seq<u8>>, Failure>(None),
        a.value is None && b.value == Some(Seq::<u8>::empty()) ==> a.raw() != b.raw(),
{
}

/// A diagnostic comes before everything else in an answer. Whatever handle
/// or value the engine handed back with it, the operation fails with the
/// failure that the diagnostic stands for, and every diagnostic stands for
/// one: there is none on which an operation does not answer.
pub proof fn lemma_diagnostic_comes_first(
    db: DatabaseView,
    diagnostic: Seq<u8>,
    handle: Option<usize>,
    value: Option<Seq<u8>>,
)
    ensures
        ({
            let failure = Failure::of_diagnostic(diagnostic);
            let opened = OpenReplyView { handle, error: Some(diagnostic) };
            let written = PutReplyView { error: Some(diagnostic) };
            let read = GetReplyView { value, error: Some(diagnostic) };
            &&& db.open(opened) == Err::<DatabaseView, Failure>(failure)
            &&& written.outcome() == Err::<(), Failure>(failure)
            &&& read.raw() == Err::<Option<Seq<u8>>, Failure>(failure)
            &&& read.text() == Err::<Seq<char>, Failure>(failure)
        }),
{
}

/// A diagnostic that is text reaches the caller as the engine's failure
/// with the engine's words, byte for byte: the message is empty only where
/// the diagnostic is. One that is not text reaches the caller as the
/// decoding error of its bytes.
pub proof fn lemma_diagnostic_kept(diagnostic: Seq<u8>)
    ensures
        valid_utf8(diagnostic) ==> {
            &&& Failure::of_diagnostic(diagnostic) == Failure::Raw(decode_utf8(diagnostic))
            &&& encode_utf8(decode_utf8(diagnostic)) == diagnostic
            &&& (decode_utf8(diagnostic).len() == 0 <==> diagnostic.len() == 0)
        },
        !valid_utf8(diagnostic) ==> Failure::of_diagnostic(diagnostic) == Failure::Utf8(
            utf8_error_of(diagnostic),
        ),
{
    if valid_utf8(diagnostic) {
        decode_utf8_encode_utf8(diagnostic);
        if diagnostic.len() == 0 {
            assert(decode_utf8(diagnostic).len() == 0);
        }
        if decode_utf8(diagnostic).len() == 0 {
            assert(encode_utf8(decode_utf8(diagnostic)).len() == 0);
        }
    }
}

/// Opening succeeds only with a database. The facade comes back exactly
/// where the engine left no diagnostic and handed back a database; it is
/// then open and holds that database, with every setting as it was. An
/// answer with neither is a failure with words of its own, which are not
/// empty.
pub proof fn lemma_open_only_with_database(db: DatabaseView, reply: OpenReplyView)
    ensures
        db.open(reply) is Ok <==> reply.error is None && reply.handle is Some,
        db.open(reply) is Ok ==> {
            &&& db.open(reply)->Ok_0.is_open()
            &&& db.open(reply)->Ok_0.handle == reply.handle
            &&& db.open(reply)->Ok_0.options == db.options
            &&& db.open(reply)->Ok_0.read_options == db.read_options
            &&& db.open(reply)->Ok_0.write_options == db.write_options
        },
        reply.error is None && reply.handle is None ==> db.open(reply) == Err::<
            DatabaseView,
            Failure,
        >(Failure::Raw(DatabaseView::no_database())),
        DatabaseView::no_database().len() > 0,
{
    reveal_strlit("the engine returned no database and no diagnostic");
}

/// No database is lost on opening. A handle in the engine's answer ends in
/// exactly one place: held by the facade that comes back, or set aside as
/// unheld to be given back at once. Setting it aside does not change what
/// opening answers.
pub proof fn lemma_no_handle_lost(db: DatabaseView, reply: OpenReplyView)
    ensures
        db.open(reply.without_unheld()) == db.open(reply),
        reply.without_unheld().unheld() is None,
        reply.handle is Some ==> (reply.unheld() == reply.handle) != (db.open(reply) is Ok
            && db.open(reply)->Ok_0.handle == reply.handle),
        reply.handle is None ==> reply.unheld() is None,
{
}

/// Stored bytes that are not text fail a read for text with the decoding
/// error of these very bytes, and still come back whole from a read for
/// bytes.
pub proof fn lemma_not_text_fails(bytes: Seq<u8>)
    requires
        !valid_utf8(bytes),
    ensures
        ({
            let answer = GetReplyView { value: Some(bytes), error: None };
            &&& answer.text() == Err::<Seq<char>, Failure>(Failure::Utf8(utf8_error_of(bytes)))
            &&& answer.raw() == Ok::<Option<Seq<u8>>, Failure>(Some(bytes))
        }),
{
}

/// The database is given back to the engine once. Letting go leaves the
/// facade without a database, so letting go again finds nothing to give
/// back, and every setting stays as it was.
pub proof fn lemma_close_once(db: DatabaseView)
    ensures
        !db.close().is_open(),
        db.close().handle is None,
        db.close().close() == db.close(),
        db.close().options == db.options,
        db.close().read_options == db.read_options,
        db.close().write_options == db.write_options,
{
}

} // verus!
