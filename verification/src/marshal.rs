//! The forms in which values cross to the engine: one byte for a boolean,
//! and a path as bytes that end in a zero byte.

use crate::error::Failure;
use crate::error::LevelDBError;
use vstd::prelude::*;
use vstd::utf8::*;

verus! {

/// The byte that stands for a boolean at the engine's interface.
pub open spec fn spec_bool_as_u8(value: bool) -> u8 {
    if value {
        1u8
    } else {
        0u8
    }
}

/// Encodes a boolean as the one byte that the engine reads: 1 for `true`,
/// 0 for `false`.
pub fn bool_as_u8(value: bool) -> (byte: u8)
    ensures
        byte == spec_bool_as_u8(value),
{
    if value {
        1
    } else {
        0
    }
}

/// How an optional setting crosses to the engine: a setting that was never
/// made stays absent, one that was made becomes its byte.
pub open spec fn spec_flag(setting: Option<bool>) -> Option<u8> {
    match setting {
        Some(value) => Some(spec_bool_as_u8(value)),
        None => None,
    }
}

/// Encodes an optional setting for the engine.
pub fn flag(setting: Option<bool>) -> (byte: Option<u8>)
    ensures
        byte == spec_flag(setting),
{
    match setting {
        Some(value) => Some(bool_as_u8(value)),
        None => None,
    }
}

/// The form in which a path is handed to the engine: its UTF-8 bytes with a
/// zero byte behind them. A path whose bytes already hold a zero byte has no
/// such form, since the engine would read it only up to that byte.
pub open spec fn spec_c_path(name: Seq<char>) -> Option<Seq<u8>> {
    let bytes = encode_utf8(name);
    if bytes.contains(0u8) {
        None
    } else {
        Some(bytes.push(0u8))
    }
}

/// Converts a path to the zero-terminated bytes that the engine reads, or
/// refuses it as `InvalidPath` where its bytes hold a zero byte.
pub fn c_path(name: &str) -> (r: Result<Vec<u8>, LevelDBError>)
    ensures
        match r {
            Ok(path) => spec_c_path(name@) == Some(path@),
            Err(e) => spec_c_path(name@) is None && e@ == Failure::InvalidPath,
        },
{
    let bytes = name.as_bytes();
    let mut path: Vec<u8> = Vec::new();
    let mut i: usize = 0;
    while i < bytes.len()
        invariant
            i <= bytes.len(),
            bytes@ == encode_utf8(name@),
            path@ == bytes@.subrange(0, i as int),
            !path@.contains(0u8),
        decreases bytes.len() - i,
    {
        let byte = bytes[i];
        if byte == 0 {
            assert(bytes@[i as int] == 0u8);
            return Err(LevelDBError::InvalidPath);
        }
        let ghost before = path@;
        path.push(byte);
        assert(path@ == bytes@.subrange(0, i + 1));
        assert forall|j: int| 0 <= j < path@.len() implies path@[j] != 0u8 by {
            if j < before.len() {
                assert(before.contains(before[j]));
            }
        }
        i += 1;
    }
    assert(path@ == bytes@);
    path.push(0);
    Ok(path)
}

} // verus!
