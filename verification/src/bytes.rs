//! Facts about nul bytes and UTF-8 in byte sequences.

use vstd::prelude::*;
use vstd::utf8::*;

verus! {

/// Whether `bytes` holds no nul byte.
pub open spec fn no_nul(bytes: Seq<u8>) -> bool {
    forall|i: int| 0 <= i < bytes.len() ==> bytes[i] != 0
}

/// Whether `bytes` is a C string: one nul byte, at its end, and no other.
pub open spec fn is_c_string(bytes: Seq<u8>) -> bool {
    &&& bytes.len() > 0
    &&& bytes.last() == 0
    &&& no_nul(bytes.drop_last())
}

/// Whether `bytes` is a C string whose content (all but the nul) is valid UTF-8.
pub open spec fn is_utf8_c_string(bytes: Seq<u8>) -> bool {
    &&& is_c_string(bytes)
    &&& valid_utf8(bytes.drop_last())
}

/// The index of the first nul byte in `bytes`, where there is one.
#[verifier::opaque]
pub open spec fn first_nul(bytes: Seq<u8>) -> Option<int> {
    if no_nul(bytes) {
        None
    } else {
        Some(choose|i: int| 0 <= i < bytes.len() && bytes[i] == 0 && no_nul(bytes.subrange(0, i)))
    }
}

/// A valid UTF-8 sequence may be cut at any nul byte: both sides stay valid.
pub proof fn lemma_utf8_split_at_nul(b: Seq<u8>, k: int)
    requires
        valid_utf8(b),
        0 <= k < b.len(),
        b[k] == 0,
    ensures
        valid_utf8(b.subrange(0, k)),
        valid_utf8(b.subrange(k, b.len() as int)),
    decreases b.len(),
{
    if k == 0 {
        assert(b.subrange(0, 0).len() == 0);
        assert(b.subrange(0, b.len() as int) =~= b);
    } else {
        let m = length_of_first_scalar(b);
        assert(1 <= m <= 4);
        assert(k >= m);
        let r = pop_first_scalar(b);
        assert(r =~= b.subrange(m, b.len() as int));
        assert(r[k - m] == 0);
        lemma_utf8_split_at_nul(r, k - m);
        assert(r.subrange(k - m, r.len() as int) =~= b.subrange(k, b.len() as int));
        let p = b.subrange(0, k);
        assert(p[0] == b[0]);
        assert(m >= 2 ==> p[1] == b[1]);
        assert(m >= 3 ==> p[2] == b[2]);
        assert(m >= 4 ==> p[3] == b[3]);
        assert(valid_first_scalar(p));
        assert(length_of_first_scalar(p) == m);
        assert(pop_first_scalar(p) =~= r.subrange(0, k - m));
    }
}

/// Appending a nul byte to valid UTF-8 keeps it valid.
pub proof fn lemma_utf8_push_nul(b: Seq<u8>)
    requires
        valid_utf8(b),
    ensures
        valid_utf8(b.push(0)),
{
    let z: Seq<u8> = seq![0u8];
    assert((0u8 & 0x7Fu8) == 0u8) by (bit_vector);
    assert(decode_first_codepoint(z) == 0);
    assert(valid_first_scalar(z));
    assert(pop_first_scalar(z) =~= Seq::<u8>::empty());
    assert(valid_utf8(pop_first_scalar(z)));
    assert(valid_utf8(z));
    valid_utf8_concat(b, z);
    assert(b + z =~= b.push(0));
}

/// A first nul byte is the only one that `first_nul` can name.
pub proof fn lemma_first_nul_is(b: Seq<u8>, i: int)
    requires
        0 <= i < b.len(),
        b[i] == 0,
        no_nul(b.subrange(0, i)),
    ensures
        first_nul(b) == Some(i),
{
    reveal(first_nul);
    assert(!no_nul(b));
    let c = choose|j: int| 0 <= j < b.len() && b[j] == 0 && no_nul(b.subrange(0, j));
    assert(0 <= c < b.len() && b[c] == 0 && no_nul(b.subrange(0, c)));
    if c < i {
        assert(b.subrange(0, i)[c] == b[c]);
    } else if c > i {
        assert(b.subrange(0, c)[i] == b[i]);
    }
}

/// Where there is no nul byte at all, `first_nul` names none.
pub proof fn lemma_first_nul_none(b: Seq<u8>)
    requires
        no_nul(b),
    ensures
        first_nul(b) is None,
{
    reveal(first_nul);
}

/// A named first nul is a nul with none before it.
pub proof fn lemma_first_nul_some(b: Seq<u8>)
    requires
        !no_nul(b),
    ensures
        first_nul(b) matches Some(i) && 0 <= i < b.len() && b[i] == 0 && no_nul(b.subrange(0, i)),
{
    reveal(first_nul);
    let w = choose|j: int| 0 <= j < b.len() && b[j] == 0;
    assert(exists|j: int| 0 <= j < b.len() && b[j] == 0 && no_nul(b.subrange(0, j))) by {
        lemma_least_nul(b, w);
    }
}

proof fn lemma_least_nul(b: Seq<u8>, w: int)
    requires
        0 <= w < b.len(),
        b[w] == 0,
    ensures
        exists|j: int| 0 <= j <= w && b[j] == 0 && no_nul(b.subrange(0, j)),
    decreases w,
{
    if no_nul(b.subrange(0, w)) {
        assert(0 <= w <= w && b[w] == 0 && no_nul(b.subrange(0, w)));
    } else {
        let v = choose|j: int| 0 <= j < w && b.subrange(0, w)[j] == 0;
        assert(b[v] == 0);
        lemma_least_nul(b, v);
    }
}

/// Law: the bytes of a UTF-8 C string, with its nul terminator, form a
/// UTF-8 C string again whose content is the same; so reading back what
/// `as_bytes_with_nul` or `into_bytes_with_nul` gave, with
/// `from_utf8_with_nul`, always succeeds and gives the same string.
pub proof fn law_with_nul_round_trip(content: Seq<u8>)
    requires
        no_nul(content),
        valid_utf8(content),
    ensures
        is_utf8_c_string(content.push(0)),
        content.push(0).drop_last() == content,
        first_nul(content.push(0)) == Some(content.len() as int),
{
    lemma_utf8_push_nul(content);
    assert(content.push(0).drop_last() =~= content);
    assert(content.push(0).subrange(0, content.len() as int) =~= content);
    lemma_first_nul_is(content.push(0), content.len() as int);
}

/// Law: whatever follows the nul terminator of a C string, reading up to the
/// first nul gives back exactly the string's content.
pub proof fn law_until_nul_stops_at_terminator(content: Seq<u8>, rest: Seq<u8>)
    requires
        no_nul(content),
    ensures
        first_nul(content.push(0) + rest) == Some(content.len() as int),
        (content.push(0) + rest).subrange(0, content.len() as int) == content,
{
    let b = content.push(0) + rest;
    assert(b.subrange(0, content.len() as int) =~= content);
    assert(b[content.len() as int] == 0);
    lemma_first_nul_is(b, content.len() as int);
}

/// Finds the first nul byte of `bytes`, as `memchr` would.
pub fn find_nul(bytes: &[u8]) -> (res: Option<usize>)
    ensures
        match res {
            Some(i) => {
                &&& i < bytes@.len()
                &&& first_nul(bytes@) == Some(i as int)
                &&& bytes@[i as int] == 0
                &&& no_nul(bytes@.subrange(0, i as int))
                &&& !no_nul(bytes@)
            },
            None => first_nul(bytes@) is None && no_nul(bytes@),
        },
{
    let mut i: usize = 0;
    while i < bytes.len()
        invariant
            0 <= i <= bytes.len(),
            no_nul(bytes@.subrange(0, i as int)),
        decreases bytes.len() - i,
    {
        if bytes[i] == 0 {
            proof {
                lemma_first_nul_is(bytes@, i as int);
            }
            return Some(i);
        }
        assert(bytes@.subrange(0, i + 1) =~= bytes@.subrange(0, i as int).push(bytes@[i as int]));
        i = i + 1;
    }
    assert(bytes@.subrange(0, i as int) =~= bytes@);
    proof {
        lemma_first_nul_none(bytes@);
    }
    None
}

/// Whether two byte slices hold the same bytes.
pub fn bytes_eq(a: &[u8], b: &[u8]) -> (res: bool)
    ensures
        res == (a@ == b@),
{
    if a.len() != b.len() {
        return false;
    }
    let mut i: usize = 0;
    while i < a.len()
        invariant
            a@.len() == b@.len(),
            0 <= i <= a.len(),
            forall|j: int| 0 <= j < i ==> a@[j] == b@[j],
        decreases a.len() - i,
    {
        if a[i] != b[i] {
            return false;
        }
        i = i + 1;
    }
    assert(a@ =~= b@);
    true
}

} // verus!
