//! Text and the bytes that spell it.
//!
//! The engine stores and reports bytes. Where the caller asks for text, the
//! bytes are read as UTF-8, and nothing else is accepted as text.

use core::str::Utf8Error;
use vstd::prelude::*;
use vstd::utf8::*;

verus! {

/// The error value of `core::str::from_utf8`. It is carried to the caller as
/// it came; nothing in this library reads what it holds.
#[verifier::external_type_specification]
#[verifier::external_body]
pub struct ExUtf8Error(core::str::Utf8Error);

/// The error with which `core::str::from_utf8` refuses bytes that are not
/// well-formed UTF-8. It says where the bytes stop being well-formed, and
/// is the same for the same bytes. Of bytes that are well-formed it says
/// nothing.
pub uninterp spec fn utf8_error_of(bytes: Seq<u8>) -> Utf8Error;

/// `core::str::from_utf8` is believed to accept exactly the byte strings
/// that are well-formed UTF-8, and to hand back the very bytes it was given,
/// now typed as text. Where it refuses, its error depends on the bytes
/// alone.
pub assume_specification[ core::str::from_utf8 ](v: &[u8]) -> (r: Result<&str, Utf8Error>)
    ensures
        r is Ok <==> valid_utf8(v@),
        r is Ok ==> encode_utf8(r->Ok_0@) == v@,
        r is Err ==> r->Err_0 == utf8_error_of(v@),
;

/// What a byte string spells: its characters where it is well-formed UTF-8,
/// and otherwise the error that says where it is not.
pub open spec fn spec_decode(bytes: Seq<u8>) -> Result<Seq<char>, Utf8Error> {
    if valid_utf8(bytes) {
        Ok(decode_utf8(bytes))
    } else {
        Err(utf8_error_of(bytes))
    }
}

/// Reads bytes as text. Succeeds exactly on well-formed UTF-8, with the
/// characters that the bytes spell, and fails on all other bytes with the
/// decoding error of these very bytes.
pub fn decode(bytes: &[u8]) -> (r: Result<String, Utf8Error>)
    ensures
        match r {
            Ok(text) => spec_decode(bytes@) == Ok::<Seq<char>, Utf8Error>(text@),
            Err(e) => spec_decode(bytes@) == Err::<Seq<char>, Utf8Error>(e),
        },
{
    match core::str::from_utf8(bytes) {
        Ok(text) => {
            proof {
                encode_utf8_decode_utf8(text@);
            }
            Ok(text.to_owned())
        },
        Err(e) => Err(e),
    }
}

} // verus!
