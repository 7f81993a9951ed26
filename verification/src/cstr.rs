//! Borrowed UTF-8 C strings.

use core::str::Utf8Error;
use vstd::prelude::*;
use vstd::std_specs::cmp::PartialEqSpec;
use vstd::string::StringSliceAdditionalSpecFns;
use vstd::utf8::*;

use crate::bytes::{
    bytes_eq, find_nul, first_nul, is_c_string, is_utf8_c_string, law_until_nul_stops_at_terminator,
    lemma_first_nul_none, lemma_first_nul_some, lemma_utf8_push_nul, lemma_utf8_split_at_nul,
    no_nul,
};
use crate::cstring::Utf8CString;

verus! {

#[verifier::external_type_specification]
#[verifier::external_body]
pub struct ExUtf8Error(Utf8Error);

/// The error that `core::str::from_utf8` gives for the bytes (where they are
/// not valid UTF-8): where valid UTF-8 ends, and how long the invalid
/// sequence is.
pub uninterp spec fn utf8_error_of(bytes: Seq<u8>) -> Utf8Error;

/// `core::str::from_utf8`: succeeds exactly on valid UTF-8, and then the
/// string's bytes are the given ones; its error is a function of the bytes.
#[verifier::external_body]
fn str_from_utf8<'a>(bytes: &'a [u8]) -> (res: Result<&'a str, Utf8Error>)
    ensures
        res is Ok <==> valid_utf8(bytes@),
        res matches Ok(s) ==> s.spec_bytes() == bytes@,
        res matches Err(e) ==> e == utf8_error_of(bytes@),
{
    core::str::from_utf8(bytes)
}

/// Why bytes are not a UTF-8 C string that ends at the last byte, under the
/// name that the FMOD bindings give it.
pub type Utf8CStrError = FromUtf8WithNul;

/// Why a byte sequence is not a C string that ends at its last byte.
#[derive(Debug, PartialEq, Eq, Clone, Copy)]
pub enum FromBytesWithNulError {
    /// A nul byte was found before the last byte, at `position`.
    InteriorNul { position: usize },
    /// The bytes hold no nul byte at all.
    NotNulTerminated,
}

/// The bytes hold no nul byte, so no C string can be read from their start.
#[derive(Debug, PartialEq, Eq, Clone, Copy)]
pub struct FromBytesUntilNulError;

/// Why bytes are not a UTF-8 C string that ends at the last byte.
#[derive(Debug, PartialEq, Eq, Clone, Copy)]
pub enum FromUtf8WithNul {
    /// The bytes before the nul are not valid UTF-8.
    Utf8(Utf8Error),
    /// The bytes are not a C string.
    CStr(FromBytesWithNulError),
}

/// Why no UTF-8 C string can be read from the start of some bytes.
#[derive(Debug, PartialEq, Eq, Clone, Copy)]
pub enum FromUtf8UntilNul {
    /// The bytes before the first nul are not valid UTF-8.
    Utf8(Utf8Error),
    /// The bytes hold no nul byte.
    CStr(FromBytesUntilNulError),
}

/// What checking `bytes` for a single nul at its end gives.
pub open spec fn with_nul_check(bytes: Seq<u8>) -> Result<(), FromBytesWithNulError> {
    match first_nul(bytes) {
        Some(p) => if p + 1 == bytes.len() {
            Ok(())
        } else {
            Err(FromBytesWithNulError::InteriorNul { position: p as usize })
        },
        None => Err(FromBytesWithNulError::NotNulTerminated),
    }
}

/// The bytes of `bytes` before its first nul (all of them where there is none).
pub open spec fn until_nul(bytes: Seq<u8>) -> Seq<u8> {
    match first_nul(bytes) {
        Some(p) => bytes.subrange(0, p),
        None => bytes,
    }
}

/// Law: reading up to the first nul gives the bytes before it, which hold
/// no nul and start the given bytes; for a C string's content followed by
/// its terminator and anything after, that is exactly the content; bytes
/// without a nul are read whole.
pub proof fn law_until_nul(bytes: Seq<u8>, content: Seq<u8>, rest: Seq<u8>)
    ensures
        no_nul(until_nul(bytes)),
        until_nul(bytes).is_prefix_of(bytes),
        until_nul(bytes).len() < bytes.len() ==> bytes[until_nul(bytes).len() as int] == 0,
        no_nul(content) ==> until_nul(content.push(0) + rest) == content,
        no_nul(content) ==> until_nul(content) == content,
{
    if no_nul(bytes) {
        lemma_first_nul_none(bytes);
        assert(bytes.subrange(0, bytes.len() as int) =~= bytes);
    } else {
        lemma_first_nul_some(bytes);
    }
    if no_nul(content) {
        law_until_nul_stops_at_terminator(content, rest);
        lemma_first_nul_none(content);
    }
}

/// The check for a single nul at the end passes exactly on C strings.
pub proof fn lemma_with_nul_check(bytes: Seq<u8>)
    requires
        bytes.len() <= usize::MAX,
    ensures
        with_nul_check(bytes) is Ok <==> is_c_string(bytes),
{
    if no_nul(bytes) {
        lemma_first_nul_none(bytes);
        if bytes.len() > 0 {
            assert(bytes[bytes.len() - 1] != 0);
        }
    } else {
        lemma_first_nul_some(bytes);
        let p = first_nul(bytes)->0;
        if p + 1 == bytes.len() {
            assert(bytes.drop_last() =~= bytes.subrange(0, p));
        } else {
            if is_c_string(bytes) {
                assert(bytes.drop_last()[p] == 0);
            }
        }
    }
}

/// Law: a string's bytes are valid UTF-8, so reading them as a UTF-8 C
/// string fails only where they are not a C string: `from_str_with_nul`
/// accepts exactly what `from_utf8_with_nul` accepts of the same bytes.
pub proof fn law_str_needs_only_nul_check(chars: Seq<char>)
    ensures
        is_utf8_c_string(encode_utf8(chars)) <==> is_c_string(encode_utf8(chars)),
{
    let b = encode_utf8(chars);
    encode_utf8_valid_utf8(chars);
    if is_c_string(b) {
        lemma_utf8_split_at_nul(b, b.len() - 1);
        assert(b.subrange(0, b.len() - 1) =~= b.drop_last());
    }
}

/// Law: the bytes of a string before its first nul are valid UTF-8, so
/// `from_str_until_nul` fails only where the string holds no nul, and
/// `from_utf8_until_nul` on the same bytes gives the same string.
pub proof fn law_str_until_nul_is_utf8(chars: Seq<char>)
    requires
        !no_nul(encode_utf8(chars)),
    ensures
        valid_utf8(until_nul(encode_utf8(chars))),
{
    let b = encode_utf8(chars);
    encode_utf8_valid_utf8(chars);
    lemma_first_nul_some(b);
    let p = first_nul(b)->0;
    lemma_utf8_split_at_nul(b, p);
}

/// Checks that `bytes` holds one nul byte, at its end, as C strings do.
pub fn check_with_nul(bytes: &[u8]) -> (res: Result<(), FromBytesWithNulError>)
    ensures
        res == with_nul_check(bytes@),
        res is Ok <==> is_c_string(bytes@),
{
    let found = find_nul(bytes);
    proof {
        assert(bytes@.len() == bytes.len());
        lemma_with_nul_check(bytes@);
    }
    match found {
        Some(p) => {
            if p + 1 == bytes.len() {
                Ok(())
            } else {
                Err(FromBytesWithNulError::InteriorNul { position: p })
            }
        },
        None => Err(FromBytesWithNulError::NotNulTerminated),
    }
}

/// A borrowed, nul-terminated string whose bytes before the nul are valid
/// UTF-8 and hold no nul.
///
/// Its view is the bytes before the nul terminator.
#[derive(Debug, Clone, Copy, Hash, Eq, PartialOrd, Ord)]
pub struct Utf8CStr<'a> {
    bytes: &'a [u8],
}

impl<'a> Utf8CStr<'a> {
    #[verifier::type_invariant]
    spec fn well_formed(self) -> bool {
        is_utf8_c_string(self.bytes@)
    }
}

impl<'a> View for Utf8CStr<'a> {
    type V = Seq<u8>;

    closed spec fn view(&self) -> Seq<u8> {
        self.bytes@.drop_last()
    }
}

/// The chars that valid UTF-8 bytes stand for.
pub open spec fn chars_of(bytes: Seq<u8>) -> Seq<char> {
    decode_utf8(bytes)
}

impl<'a> Utf8CStr<'a> {
    /// The string's bytes together with the nul terminator.
    pub open spec fn with_nul(self) -> Seq<u8> {
        self@.push(0)
    }

    /// Reads `slice` as a UTF-8 C string that ends at its last byte.
    ///
    /// Fails with `CStr` where the slice is not one nul-terminated C string
    /// (the nul check comes first), and with `Utf8` where the bytes before
    /// the nul are not valid UTF-8.
    pub fn from_utf8_with_nul(slice: &'a [u8]) -> (res: Result<Utf8CStr<'a>, FromUtf8WithNul>)
        ensures
            res is Ok <==> is_utf8_c_string(slice@),
            res matches Ok(c) ==> c.with_nul() == slice@ && no_nul(c@) && valid_utf8(c@),
            res matches Err(FromUtf8WithNul::CStr(e)) ==> !is_c_string(slice@) && with_nul_check(
                slice@,
            ) == Err::<(), FromBytesWithNulError>(e),
            res matches Err(FromUtf8WithNul::Utf8(e)) ==> is_c_string(slice@) && !valid_utf8(
                slice@.drop_last(),
            ) && e == utf8_error_of(slice@.drop_last()),
    {
        match check_with_nul(slice) {
            Err(e) => Err(FromUtf8WithNul::CStr(e)),
            Ok(()) => {
                let content = slice.split_at(slice.len() - 1).0;
                assert(content@ == slice@.drop_last());
                match str_from_utf8(content) {
                    Err(e) => Err(FromUtf8WithNul::Utf8(e)),
                    Ok(_) => {
                        let c = Utf8CStr { bytes: slice };
                        assert(c@.push(0) =~= slice@);
                        Ok(c)
                    },
                }
            },
        }
    }

    /// Reads the UTF-8 C string at the start of `slice`: up to and
    /// including its first nul byte.
    ///
    /// Fails with `CStr` where the slice holds no nul, and with `Utf8` where
    /// the bytes before the first nul are not valid UTF-8.
    pub fn from_utf8_until_nul(slice: &'a [u8]) -> (res: Result<Utf8CStr<'a>, FromUtf8UntilNul>)
        ensures
            res is Ok <==> !no_nul(slice@) && valid_utf8(until_nul(slice@)),
            res matches Ok(c) ==> c@ == until_nul(slice@) && no_nul(c@) && valid_utf8(c@),
            res matches Err(FromUtf8UntilNul::CStr(_)) ==> no_nul(slice@),
            res matches Err(FromUtf8UntilNul::Utf8(e)) ==> !no_nul(slice@) && !valid_utf8(
                until_nul(slice@),
            ) && e == utf8_error_of(until_nul(slice@)),
    {
        match find_nul(slice) {
            None => Err(FromUtf8UntilNul::CStr(FromBytesUntilNulError)),
            Some(p) => {
                proof {
                    assert(slice@.len() == slice.len());
                }
                let with_nul = slice.split_at(p + 1).0;
                let content = slice.split_at(p).0;
                match str_from_utf8(content) {
                    Err(e) => Err(FromUtf8UntilNul::Utf8(e)),
                    Ok(_) => {
                        assert(with_nul@.drop_last() =~= content@);
                        let c = Utf8CStr { bytes: with_nul };
                        Ok(c)
                    },
                }
            },
        }
    }

    /// Reads a string that ends with its only nul as a UTF-8 C string.
    pub fn from_str_with_nul(s: &'a str) -> (res: Result<Utf8CStr<'a>, FromBytesWithNulError>)
        ensures
            res is Ok <==> is_c_string(s.spec_bytes()),
            res matches Ok(c) ==> c.with_nul() == s.spec_bytes() && no_nul(c@) && valid_utf8(c@),
            res matches Err(e) ==> with_nul_check(s.spec_bytes()) == Err::<(), FromBytesWithNulError>(e),
    {
        let bytes = s.as_bytes();
        match check_with_nul(bytes) {
            Err(e) => Err(e),
            Ok(()) => {
                proof {
                    encode_utf8_valid_utf8(s@);
                    lemma_utf8_split_at_nul(bytes@, bytes@.len() - 1);
                    assert(bytes@.subrange(0, bytes@.len() - 1) =~= bytes@.drop_last());
                }
                let c = Utf8CStr { bytes: bytes };
                assert(c@.push(0) =~= bytes@);
                Ok(c)
            },
        }
    }

    /// Reads the start of a string, up to and including its first nul, as a
    /// UTF-8 C string.
    pub fn from_str_until_nul(s: &'a str) -> (res: Result<Utf8CStr<'a>, FromBytesUntilNulError>)
        ensures
            res is Ok <==> !no_nul(s.spec_bytes()),
            res matches Ok(c) ==> c@ == until_nul(s.spec_bytes()) && no_nul(c@) && valid_utf8(c@),
    {
        let bytes = s.as_bytes();
        match find_nul(bytes) {
            None => Err(FromBytesUntilNulError),
            Some(p) => {
                proof {
                    assert(bytes@.len() == bytes.len());
                    encode_utf8_valid_utf8(s@);
                    lemma_utf8_split_at_nul(bytes@, p as int);
                }
                let with_nul = bytes.split_at(p + 1).0;
                assert(with_nul@.drop_last() =~= bytes@.subrange(0, p as int));
                Ok(Utf8CStr { bytes: with_nul })
            },
        }
    }

    /// Wraps bytes that are known to be a UTF-8 C string ending at the last
    /// byte, without checking again.
    pub fn from_utf8_with_nul_unchecked(slice: &'a [u8]) -> (res: Utf8CStr<'a>)
        requires
            is_utf8_c_string(slice@),
        ensures
            res.with_nul() == slice@,
    {
        let c = Utf8CStr { bytes: slice };
        assert(c@.push(0) =~= slice@);
        c
    }

    /// The bytes before the nul terminator.
    pub fn as_bytes(&self) -> (res: &'a [u8])
        ensures
            res@ == self@,
            no_nul(res@),
            valid_utf8(res@),
    {
        proof {
            use_type_invariant(self);
        }
        self.bytes.split_at(self.bytes.len() - 1).0
    }

    /// The bytes, nul terminator included.
    pub fn as_bytes_with_nul(&self) -> (res: &'a [u8])
        ensures
            res@ == self.with_nul(),
            is_utf8_c_string(res@),
    {
        proof {
            use_type_invariant(self);
        }
        assert(self@.push(0) =~= self.bytes@);
        self.bytes
    }

    /// The string before the nul terminator.
    pub fn as_str(&self) -> (res: &'a str)
        ensures
            res.spec_bytes() == self@,
            res@ == chars_of(self@),
    {
        let bytes = self.as_bytes();
        let r = str_from_utf8(bytes);
        let s = r.unwrap();
        proof {
            encode_utf8_decode_utf8(s@);
        }
        s
    }

    /// The string, nul terminator included.
    pub fn as_str_with_nul(&self) -> (res: &'a str)
        ensures
            res.spec_bytes() == self.with_nul(),
            res@ == chars_of(self.with_nul()),
    {
        proof {
            use_type_invariant(self);
            lemma_utf8_push_nul(self@);
        }
        let bytes = self.as_bytes_with_nul();
        let r = str_from_utf8(bytes);
        let s = r.unwrap();
        proof {
            encode_utf8_decode_utf8(s@);
        }
        s
    }

    /// Copies the string into an owned `Utf8CString`.
    pub fn to_cstring(&self) -> (res: Utf8CString)
        ensures
            res@ == self@,
    {
        proof {
            use_type_invariant(self);
        }
        Utf8CString::from_utf8_with_nul_unchecked(vstd::slice::slice_to_vec(self.bytes))
    }

    /// The length in bytes, without the nul terminator.
    pub fn len(&self) -> (res: usize)
        ensures
            res == self@.len(),
    {
        proof {
            use_type_invariant(self);
            assert(self.bytes@.len() == self.bytes.len());
        }
        self.as_str().len()
    }

    /// The length in bytes, nul terminator included.
    pub fn len_with_nul(&self) -> (res: usize)
        ensures
            res == self@.len() + 1,
    {
        proof {
            use_type_invariant(self);
            assert(self.bytes@.len() == self.bytes.len());
        }
        self.as_str_with_nul().len()
    }

    /// Whether the string holds no byte before its nul terminator.
    pub fn is_empty(&self) -> (res: bool)
        ensures
            res == (self@.len() == 0),
    {
        let s = self.as_str();
        proof {
            if self@.len() > 0 {
                use_type_invariant(self);
                assert(decode_utf8(self@).len() > 0);
            }
        }
        s.is_empty()
    }
}


impl<'a, 'b> PartialEq<Utf8CStr<'b>> for Utf8CStr<'a> {
    fn eq(&self, other: &Utf8CStr<'b>) -> (res: bool)
        ensures
            res <==> self@ == other@,
    {
        bytes_eq(self.as_bytes(), other.as_bytes())
    }
}

impl<'a, 'b> vstd::std_specs::cmp::PartialEqSpecImpl<Utf8CStr<'b>> for Utf8CStr<'a> {
    open spec fn obeys_eq_spec() -> bool {
        true
    }

    open spec fn eq_spec(&self, other: &Utf8CStr<'b>) -> bool {
        self@ == other@
    }
}

impl<'a, 's> PartialEq<&'s str> for Utf8CStr<'a> {
    fn eq(&self, other: &&'s str) -> (res: bool)
        ensures
            res <==> self@ == other.spec_bytes(),
    {
        bytes_eq(self.as_bytes(), other.as_bytes())
    }
}

impl<'a, 's> vstd::std_specs::cmp::PartialEqSpecImpl<&'s str> for Utf8CStr<'a> {
    open spec fn obeys_eq_spec() -> bool {
        true
    }

    open spec fn eq_spec(&self, other: &&'s str) -> bool {
        self@ == other.spec_bytes()
    }
}

impl<'a> PartialEq<String> for Utf8CStr<'a> {
    fn eq(&self, other: &String) -> (res: bool)
        ensures
            res <==> self@ == encode_utf8(other@),
    {
        bytes_eq(self.as_bytes(), other.as_str().as_bytes())
    }
}

impl<'a> vstd::std_specs::cmp::PartialEqSpecImpl<String> for Utf8CStr<'a> {
    open spec fn obeys_eq_spec() -> bool {
        true
    }

    open spec fn eq_spec(&self, other: &String) -> bool {
        self@ == encode_utf8(other@)
    }
}

/// Law: two C strings compare equal exactly when their contents are the
/// same bytes, so strings of different lengths never compare equal; a C
/// string equals a `str` or `String` exactly when its content is that
/// string's UTF-8 encoding.
pub proof fn law_cstr_equality<'a, 'b, 's>(a: Utf8CStr<'a>, b: Utf8CStr<'b>, t: &'s str, u: String)
    ensures
        <Utf8CStr<'a> as PartialEqSpec<Utf8CStr<'b>>>::obeys_eq_spec(),
        a.eq_spec(&b) <==> a@ == b@,
        a@.len() != b@.len() ==> !a.eq_spec(&b),
        <Utf8CStr<'a> as PartialEqSpec<&'s str>>::obeys_eq_spec(),
        a.eq_spec(&t) <==> a@ == encode_utf8(t@),
        <Utf8CStr<'a> as PartialEqSpec<String>>::obeys_eq_spec(),
        a.eq_spec(&u) <==> a@ == encode_utf8(u@),
{
}

impl<'a> core::ops::Deref for Utf8CStr<'a> {
    type Target = str;

    fn deref(&self) -> (res: &str)
        ensures
            res.spec_bytes() == self@,
    {
        self.as_str()
    }
}

impl Default for Utf8CStr<'static> {
    fn default() -> (res: Self)
        ensures
            res@ == Seq::<u8>::empty(),
    {
        let bytes: &'static [u8] = &[0u8];
        let c = Utf8CStr { bytes: bytes };
        assert(c.bytes@.drop_last() =~= Seq::<u8>::empty());
        c
    }
}

} // verus!
