//! Owned UTF-8 C strings.

use std::string::FromUtf8Error;
use vstd::prelude::*;
use vstd::std_specs::cmp::PartialEqSpec;
use vstd::string::StringSliceAdditionalSpecFns;
use vstd::utf8::*;

use crate::bytes::{
    bytes_eq, find_nul, first_nul, is_c_string, is_utf8_c_string, lemma_utf8_push_nul, no_nul,
};
use crate::cstr::{check_with_nul, with_nul_check, FromBytesWithNulError, Utf8CStr};

verus! {

#[verifier::external_type_specification]
#[verifier::external_body]
pub struct ExFromUtf8Error(FromUtf8Error);

/// The error that `String::from_utf8` gives for the bytes (where they are
/// not valid UTF-8): it holds those bytes and their `Utf8Error`.
pub uninterp spec fn from_utf8_error_of(bytes: Seq<u8>) -> FromUtf8Error;

/// `String::from_utf8`: succeeds exactly on valid UTF-8, and then holds the
/// chars that the bytes encode; its error is a function of the bytes.
#[verifier::external_body]
pub(crate) fn string_from_utf8(v: Vec<u8>) -> (res: Result<String, FromUtf8Error>)
    ensures
        res is Ok <==> valid_utf8(v@),
        res matches Ok(s) ==> s@ == decode_utf8(v@),
        res matches Err(e) ==> e == from_utf8_error_of(v@),
{
    String::from_utf8(v)
}

/// `FromUtf8Error::clone` (derived in std): the copy holds the same bytes
/// and the same `Utf8Error`, so it is the same error.
pub assume_specification[ <FromUtf8Error as Clone>::clone ](e: &FromUtf8Error) -> (res: FromUtf8Error)
    ensures
        res == *e,
;

/// `String::into_bytes`: the UTF-8 encoding of the string's chars.
#[verifier::external_body]
fn string_into_bytes(s: String) -> (res: Vec<u8>)
    ensures
        res@ == encode_utf8(s@),
{
    s.into_bytes()
}

/// The given string held a nul byte; the first is at `position`.
///
/// Holds the bytes that were given, so that a caller can have them back.
#[derive(Debug, PartialEq, Eq, Clone)]
pub struct NulError {
    position: usize,
    bytes: Vec<u8>,
}

impl NulError {
    /// Where the first nul byte is.
    pub closed spec fn spec_position(&self) -> usize {
        self.position
    }

    /// The bytes that were given.
    pub closed spec fn spec_bytes(&self) -> Seq<u8> {
        self.bytes@
    }

    /// The position of the first nul byte in the given bytes.
    pub fn nul_position(&self) -> (res: usize)
        ensures
            res == self.spec_position(),
    {
        self.position
    }

    /// Gives back the bytes that held the nul.
    pub fn into_vec(self) -> (res: Vec<u8>)
        ensures
            res@ == self.spec_bytes(),
    {
        self.bytes
    }
}

/// The given bytes were not a C string ending at their last byte.
///
/// Holds the bytes that were given, so that a caller can have them back.
#[derive(Debug, PartialEq, Eq, Clone)]
pub struct FromVecWithNulError {
    error_kind: FromBytesWithNulError,
    bytes: Vec<u8>,
}

impl FromVecWithNulError {
    /// What was wrong with the bytes.
    pub closed spec fn spec_kind(&self) -> FromBytesWithNulError {
        self.error_kind
    }

    /// The bytes that were given.
    pub closed spec fn spec_bytes(&self) -> Seq<u8> {
        self.bytes@
    }

    /// What was wrong with the bytes.
    pub fn kind(&self) -> (res: FromBytesWithNulError)
        ensures
            res == self.spec_kind(),
    {
        self.error_kind
    }

    /// The bytes that were given.
    pub fn as_bytes(&self) -> (res: &[u8])
        ensures
            res@ == self.spec_bytes(),
    {
        self.bytes.as_slice()
    }

    /// Gives back the bytes that were given.
    pub fn into_bytes(self) -> (res: Vec<u8>)
        ensures
            res@ == self.spec_bytes(),
    {
        self.bytes
    }
}

/// Why a byte vector is not a UTF-8 C string that ends at its last byte.
#[derive(Debug, PartialEq, Eq, Clone)]
pub enum FromOwnedUtf8WithNul {
    /// The bytes are not valid UTF-8 (checked first).
    Utf8(FromUtf8Error),
    /// The bytes are not a C string.
    CString(FromVecWithNulError),
}

/// An owned, nul-terminated string whose bytes before the nul are valid
/// UTF-8 and hold no nul.
///
/// Its view is the bytes before the nul terminator.
#[derive(Debug, Hash, Eq, PartialOrd, Ord)]
pub struct Utf8CString {
    inner: Vec<u8>,
}

impl Utf8CString {
    #[verifier::type_invariant]
    spec fn well_formed(self) -> bool {
        is_utf8_c_string(self.inner@)
    }
}

impl View for Utf8CString {
    type V = Seq<u8>;

    closed spec fn view(&self) -> Seq<u8> {
        self.inner@.drop_last()
    }
}

impl Utf8CString {
    /// The string's bytes together with the nul terminator.
    pub open spec fn with_nul(self) -> Seq<u8> {
        self@.push(0)
    }

    /// Makes a C string of `string` by appending a nul terminator.
    ///
    /// Fails where `string` holds a nul byte; the error names the first.
    pub fn new(string: &str) -> (res: Result<Utf8CString, NulError>)
        ensures
            res is Ok <==> no_nul(string.spec_bytes()),
            res matches Ok(c) ==> c@ == string.spec_bytes(),
            res matches Err(e) ==> first_nul(string.spec_bytes()) == Some(e.spec_position() as int)
                && e.spec_bytes() == string.spec_bytes(),
    {
        let bytes = string.as_bytes();
        match find_nul(bytes) {
            Some(p) => Err(NulError { position: p, bytes: vstd::slice::slice_to_vec(bytes) }),
            None => {
                let mut v = vstd::slice::slice_to_vec(bytes);
                proof {
                    encode_utf8_valid_utf8(string@);
                }
                v.push(0);
                assert(v@.drop_last() =~= bytes@);
                Ok(Utf8CString { inner: v })
            },
        }
    }

    /// Makes a C string of a string whose only nul byte is its last.
    pub fn from_string_with_nul(string: &str) -> (res: Result<Utf8CString, FromVecWithNulError>)
        ensures
            res is Ok <==> is_c_string(string.spec_bytes()),
            res matches Ok(c) ==> c.with_nul() == string.spec_bytes(),
            res matches Err(e) ==> with_nul_check(string.spec_bytes()) == Err::<
                (),
                FromBytesWithNulError,
            >(e.spec_kind()) && e.spec_bytes() == string.spec_bytes(),
    {
        proof {
            encode_utf8_valid_utf8(string@);
        }
        Self::from_vec_with_nul(vstd::slice::slice_to_vec(string.as_bytes()))
    }

    /// Makes a C string of valid UTF-8 bytes whose only nul is the last.
    fn from_vec_with_nul(v: Vec<u8>) -> (res: Result<Utf8CString, FromVecWithNulError>)
        requires
            valid_utf8(v@),
        ensures
            res is Ok <==> is_c_string(v@),
            res matches Ok(c) ==> c.with_nul() == v@,
            res matches Err(e) ==> with_nul_check(v@) == Err::<(), FromBytesWithNulError>(
                e.spec_kind(),
            ) && e.spec_bytes() == v@,
    {
        match check_with_nul(v.as_slice()) {
            Err(kind) => Err(FromVecWithNulError { error_kind: kind, bytes: v }),
            Ok(()) => {
                proof {
                    crate::bytes::lemma_utf8_split_at_nul(v@, v@.len() - 1);
                    assert(v@.subrange(0, v@.len() - 1) =~= v@.drop_last());
                }
                let c = Utf8CString { inner: v };
                assert(c@.push(0) =~= c.inner@);
                Ok(c)
            },
        }
    }

    /// Makes a C string of a byte vector that must be valid UTF-8 whose only
    /// nul byte is the last one.
    ///
    /// UTF-8 is checked first, then the place of the nul.
    pub fn from_utf8_with_nul(v: Vec<u8>) -> (res: Result<Utf8CString, FromOwnedUtf8WithNul>)
        ensures
            res is Ok <==> valid_utf8(v@) && is_c_string(v@),
            res matches Ok(c) ==> c.with_nul() == v@,
            res matches Err(FromOwnedUtf8WithNul::Utf8(e)) ==> !valid_utf8(v@) && e
                == from_utf8_error_of(v@),
            res matches Err(FromOwnedUtf8WithNul::CString(e)) ==> valid_utf8(v@)
                && with_nul_check(v@) == Err::<(), FromBytesWithNulError>(e.spec_kind())
                && e.spec_bytes() == v@,
    {
        let ghost given = v@;
        match string_from_utf8(v) {
            Err(e) => Err(FromOwnedUtf8WithNul::Utf8(e)),
            Ok(s) => {
                let bytes = string_into_bytes(s);
                proof {
                    decode_utf8_encode_utf8(given);
                }
                match Self::from_vec_with_nul(bytes) {
                    Ok(c) => Ok(c),
                    Err(e) => Err(FromOwnedUtf8WithNul::CString(e)),
                }
            },
        }
    }

    /// Makes a C string of bytes known to be valid UTF-8 with no nul, by
    /// appending the nul terminator.
    pub fn from_utf8_unchecked(v: Vec<u8>) -> (res: Utf8CString)
        requires
            valid_utf8(v@),
            no_nul(v@),
        ensures
            res@ == v@,
    {
        let mut v = v;
        let ghost given = v@;
        v.push(0);
        assert(v@.drop_last() =~= given);
        Utf8CString { inner: v }
    }

    /// Takes bytes known to be valid UTF-8 whose only nul is the last one.
    pub fn from_utf8_with_nul_unchecked(v: Vec<u8>) -> (res: Utf8CString)
        requires
            is_utf8_c_string(v@),
        ensures
            res.with_nul() == v@,
    {
        let c = Utf8CString { inner: v };
        assert(c@.push(0) =~= c.inner@);
        c
    }

    /// Borrows the string as a `Utf8CStr`.
    pub fn as_utf8_cstr(&self) -> (res: Utf8CStr<'_>)
        ensures
            res@ == self@,
    {
        proof {
            use_type_invariant(self);
        }
        Utf8CStr::from_utf8_with_nul_unchecked(self.inner.as_slice())
    }

    /// The string before the nul terminator.
    pub fn into_string(self) -> (res: String)
        ensures
            res@ == decode_utf8(self@),
    {
        proof {
            use_type_invariant(&self);
        }
        let ghost content = self@;
        let mut v = self.inner;
        v.pop();
        assert(v@ =~= content);
        string_from_utf8(v).unwrap()
    }

    /// The string, nul terminator included.
    pub fn into_string_with_nul(self) -> (res: String)
        ensures
            res@ == decode_utf8(self.with_nul()),
    {
        proof {
            use_type_invariant(&self);
            lemma_utf8_push_nul(self@);
            assert(self@.push(0) =~= self.inner@);
        }
        string_from_utf8(self.inner).unwrap()
    }

    /// The bytes before the nul terminator.
    pub fn into_bytes(self) -> (res: Vec<u8>)
        ensures
            res@ == self@,
            no_nul(res@),
            valid_utf8(res@),
    {
        proof {
            use_type_invariant(&self);
        }
        let ghost content = self@;
        let mut v = self.inner;
        v.pop();
        assert(v@ =~= content);
        v
    }

    /// The bytes, nul terminator included.
    pub fn into_bytes_with_nul(self) -> (res: Vec<u8>)
        ensures
            res@ == self.with_nul(),
            is_utf8_c_string(res@),
    {
        proof {
            use_type_invariant(&self);
        }
        assert(self@.push(0) =~= self.inner@);
        self.inner
    }
}


impl Clone for Utf8CString {
    fn clone(&self) -> (res: Self)
        ensures
            res@ == self@,
    {
        proof {
            use_type_invariant(self);
        }
        Utf8CString { inner: vstd::slice::slice_to_vec(self.inner.as_slice()) }
    }
}

impl PartialEq for Utf8CString {
    fn eq(&self, other: &Self) -> (res: bool)
        ensures
            res <==> self@ == other@,
    {
        proof {
            use_type_invariant(self);
            use_type_invariant(other);
            assert(self.inner@ =~= self@.push(0));
            assert(other.inner@ =~= other@.push(0));
            if self@ == other@ {
                assert(self.inner@ == other.inner@);
            }
        }
        bytes_eq(self.inner.as_slice(), other.inner.as_slice())
    }
}

impl vstd::std_specs::cmp::PartialEqSpecImpl for Utf8CString {
    open spec fn obeys_eq_spec() -> bool {
        true
    }

    open spec fn eq_spec(&self, other: &Self) -> bool {
        self@ == other@
    }
}

impl<'s> PartialEq<&'s str> for Utf8CString {
    fn eq(&self, other: &&'s str) -> (res: bool)
        ensures
            res <==> self@ == other.spec_bytes(),
    {
        bytes_eq(self.as_utf8_cstr().as_bytes(), other.as_bytes())
    }
}

impl<'s> vstd::std_specs::cmp::PartialEqSpecImpl<&'s str> for Utf8CString {
    open spec fn obeys_eq_spec() -> bool {
        true
    }

    open spec fn eq_spec(&self, other: &&'s str) -> bool {
        self@ == other.spec_bytes()
    }
}

impl PartialEq<String> for Utf8CString {
    fn eq(&self, other: &String) -> (res: bool)
        ensures
            res <==> self@ == encode_utf8(other@),
    {
        bytes_eq(self.as_utf8_cstr().as_bytes(), other.as_str().as_bytes())
    }
}

impl vstd::std_specs::cmp::PartialEqSpecImpl<String> for Utf8CString {
    open spec fn obeys_eq_spec() -> bool {
        true
    }

    open spec fn eq_spec(&self, other: &String) -> bool {
        self@ == encode_utf8(other@)
    }
}

/// Law: two owned C strings compare equal exactly when their contents are
/// the same bytes, so strings of different lengths never compare equal; an
/// owned C string equals a `str` or `String` exactly when its content is
/// that string's UTF-8 encoding.
pub proof fn law_cstring_equality<'s>(a: Utf8CString, b: Utf8CString, t: &'s str, u: String)
    ensures
        <Utf8CString as PartialEqSpec>::obeys_eq_spec(),
        a.eq_spec(&b) <==> a@ == b@,
        a@.len() != b@.len() ==> !a.eq_spec(&b),
        <Utf8CString as PartialEqSpec<&'s str>>::obeys_eq_spec(),
        a.eq_spec(&t) <==> a@ == encode_utf8(t@),
        <Utf8CString as PartialEqSpec<String>>::obeys_eq_spec(),
        a.eq_spec(&u) <==> a@ == encode_utf8(u@),
{
}

impl Default for Utf8CString {
    fn default() -> (res: Self)
        ensures
            res@ == Seq::<u8>::empty(),
    {
        Utf8CStr::default().to_cstring()
    }
}

} // verus!
