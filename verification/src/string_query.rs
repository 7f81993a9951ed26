//! The decisions of the FMOD string queries.
//!
//! FMOD writes strings into buffers that the caller provides. The bindings
//! either ask for the length first and then fetch into a buffer of that
//! size, or grow a buffer until the string fits. The calls into FMOD stay
//! with the caller; these functions decide what to do with each answer.

use vstd::prelude::*;
use vstd::utf8::*;

use crate::bytes::{find_nul, no_nul};
use crate::cstr::until_nul;
use crate::cstring::{string_from_utf8, Utf8CString};

verus! {

/// FMOD's result code for success.
pub const FMOD_OK: u32 = 0;

/// FMOD's result code for a string that did not fit in the given buffer.
pub const FMOD_ERR_TRUNCATED: u32 = 65;

/// The string of bytes known to be valid UTF-8.
fn string_of_utf8(v: Vec<u8>) -> (res: String)
    requires
        valid_utf8(v@),
    ensures
        res@ == decode_utf8(v@),
{
    string_from_utf8(v).unwrap()
}

/// After asking FMOD for a string's length (nul included): an error other
/// than "truncated" is passed on; otherwise the buffer to fetch into has
/// that length.
pub fn length_query_outcome(result: u32, string_len: i32) -> (res: Result<usize, u32>)
    requires
        result == FMOD_OK || result == FMOD_ERR_TRUNCATED ==> string_len >= 0,
    ensures
        result != FMOD_OK && result != FMOD_ERR_TRUNCATED ==> res == Err::<usize, u32>(result),
        result == FMOD_OK || result == FMOD_ERR_TRUNCATED ==> res == Ok::<usize, u32>(
            string_len as usize,
        ),
{
    if result != FMOD_OK && result != FMOD_ERR_TRUNCATED {
        Err(result)
    } else {
        Ok(string_len as usize)
    }
}

/// The bytes of a buffer before its first nul (all of them where there is
/// none).
fn text_before_nul(buffer: Vec<u8>) -> (res: Vec<u8>)
    ensures
        res@ == until_nul(buffer@),
{
    let mut buffer = buffer;
    let ghost given = buffer@;
    match find_nul(buffer.as_slice()) {
        Some(p) => {
            buffer.truncate(p);
        },
        None => {
            assert(given.subrange(0, given.len() as int) =~= given);
        },
    }
    buffer
}

/// After FMOD filled a buffer of the length it asked for: its error, or the
/// string it wrote, the bytes before the nul terminator. FMOD's strings are
/// UTF-8.
pub fn string_from_buffer(result: u32, buffer: Vec<u8>) -> (res: Result<String, u32>)
    requires
        result == FMOD_OK ==> valid_utf8(until_nul(buffer@)),
    ensures
        result != FMOD_OK ==> res == Err::<String, u32>(result),
        result == FMOD_OK ==> (res matches Ok(s) && s@ == decode_utf8(until_nul(buffer@))),
{
    if result != FMOD_OK {
        Err(result)
    } else {
        Ok(string_of_utf8(text_before_nul(buffer)))
    }
}

/// What to do after FMOD answered a command-string request.
pub enum CommandStringStep {
    /// The string did not fit: ask again with a buffer of this length.
    Retry { buffer_len: usize },
    /// The answer: FMOD's error, or the command's text.
    Done(Result<String, u32>),
}

/// After FMOD answered a command-string request into `buffer`: where the
/// string was truncated, ask again with a buffer 32 bytes longer; otherwise
/// FMOD's error, or the command's text: the bytes before the first nul (the
/// nul padding left out).
pub fn command_string_step(result: u32, buffer: Vec<u8>) -> (res: CommandStringStep)
    requires
        result == FMOD_ERR_TRUNCATED ==> buffer@.len() + 32 <= usize::MAX,
        result == FMOD_OK ==> valid_utf8(until_nul(buffer@)),
    ensures
        result == FMOD_ERR_TRUNCATED ==> (res matches CommandStringStep::Retry { buffer_len }
            && buffer_len == buffer@.len() + 32),
        result != FMOD_ERR_TRUNCATED && result != FMOD_OK ==> (res matches CommandStringStep::Done(
            r,
        ) && r == Err::<String, u32>(result)),
        result == FMOD_OK ==> (res matches CommandStringStep::Done(Ok(s)) && s@ == decode_utf8(
            until_nul(buffer@),
        )),
{
    if result == FMOD_ERR_TRUNCATED {
        CommandStringStep::Retry { buffer_len: buffer.len() + 32 }
    } else if result != FMOD_OK {
        CommandStringStep::Done(Err(result))
    } else {
        CommandStringStep::Done(Ok(string_of_utf8(text_before_nul(buffer))))
    }
}

/// The name that FMOD wrote into a fixed-size buffer: the bytes before the
/// first nul (all of them where there is none), as a UTF-8 C string.
pub fn name_from_buffer(buffer: &[u8]) -> (res: Utf8CString)
    requires
        valid_utf8(until_nul(buffer@)),
    ensures
        res@ == until_nul(buffer@),
{
    let end = match find_nul(buffer) {
        Some(p) => p,
        None => buffer.len(),
    };
    let name = buffer.split_at(end).0;
    proof {
        if no_nul(buffer@) {
            assert(buffer@.subrange(0, buffer@.len() as int) =~= buffer@);
        }
    }
    Utf8CString::from_utf8_unchecked(vstd::slice::slice_to_vec(name))
}

} // verus!
