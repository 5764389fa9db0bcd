//! The order in which the table keeps its ids.
//!
//! Ids are texts. The table orders them as a database orders text under its
//! binary collation: by the bytes of their UTF-8 encoding, byte by byte, a text
//! before every longer text that starts with it.

use vstd::prelude::*;
use vstd::utf8::{decode_utf8, encode_utf8, encode_utf8_decode_utf8};

verus! {

/// `a` stands before `b`, read from position `from` on: `a` ends first, or has
/// the smaller byte at the first position where the two differ.
pub open spec fn bytes_before_from(a: Seq<u8>, b: Seq<u8>, from: int) -> bool
    decreases b.len() - from,
{
    if from >= b.len() {
        false
    } else if from >= a.len() {
        true
    } else if a[from] != b[from] {
        a[from] < b[from]
    } else {
        bytes_before_from(a, b, from + 1)
    }
}

/// `a` stands before `b` in the order of byte strings.
pub open spec fn bytes_before(a: Seq<u8>, b: Seq<u8>) -> bool {
    bytes_before_from(a, b, 0)
}

/// The id `a` stands before the id `b`.
pub open spec fn id_before(a: Seq<char>, b: Seq<char>) -> bool {
    bytes_before(encode_utf8(a), encode_utf8(b))
}

/// Two byte strings that agree up to `from` and of which neither stands before
/// the other from there on are the same.
proof fn lemma_bytes_neither_before(a: Seq<u8>, b: Seq<u8>, from: int)
    requires
        0 <= from <= a.len(),
        from <= b.len(),
        forall|i: int| 0 <= i < from ==> a[i] == b[i],
        !bytes_before_from(a, b, from),
        !bytes_before_from(b, a, from),
    ensures
        a == b,
    decreases a.len() + b.len() - from,
{
    if from >= a.len() || from >= b.len() {
        assert(a =~= b);
    } else {
        lemma_bytes_neither_before(a, b, from + 1);
    }
}

/// Byte strings that agree up to `from` keep their order along a chain.
proof fn lemma_bytes_chain(a: Seq<u8>, b: Seq<u8>, c: Seq<u8>, from: int)
    requires
        0 <= from,
        bytes_before_from(a, b, from),
        bytes_before_from(b, c, from),
    ensures
        bytes_before_from(a, c, from),
    decreases c.len() - from,
{
    if from < a.len() && from < b.len() && from < c.len() && a[from] == b[from] && b[from]
        == c[from] {
        lemma_bytes_chain(a, b, c, from + 1);
    }
}

/// No byte string stands before itself.
proof fn lemma_bytes_not_before_itself(a: Seq<u8>, from: int)
    requires
        0 <= from,
    ensures
        !bytes_before_from(a, a, from),
    decreases a.len() - from,
{
    if from < a.len() {
        lemma_bytes_not_before_itself(a, from + 1);
    }
}

/// Of two byte strings at most one stands before the other.
proof fn lemma_bytes_one_way(a: Seq<u8>, b: Seq<u8>, from: int)
    requires
        0 <= from,
        bytes_before_from(a, b, from),
    ensures
        !bytes_before_from(b, a, from),
    decreases b.len() - from,
{
    if from < a.len() && from < b.len() && a[from] == b[from] {
        lemma_bytes_one_way(a, b, from + 1);
    }
}

/// No id stands before itself.
pub proof fn lemma_id_not_before_itself(a: Seq<char>)
    ensures
        !id_before(a, a),
{
    lemma_bytes_not_before_itself(encode_utf8(a), 0);
}

/// Of two ids at most one stands before the other.
pub proof fn lemma_id_one_way(a: Seq<char>, b: Seq<char>)
    requires
        id_before(a, b),
    ensures
        !id_before(b, a),
        a != b,
{
    lemma_bytes_one_way(encode_utf8(a), encode_utf8(b), 0);
    lemma_id_not_before_itself(a);
}

/// The order of ids carries along a chain.
pub proof fn lemma_id_chain(a: Seq<char>, b: Seq<char>, c: Seq<char>)
    requires
        id_before(a, b),
        id_before(b, c),
    ensures
        id_before(a, c),
{
    lemma_bytes_chain(encode_utf8(a), encode_utf8(b), encode_utf8(c), 0);
}

/// Any two different ids are ordered, one way or the other.
pub proof fn lemma_id_total(a: Seq<char>, b: Seq<char>)
    ensures
        a == b || id_before(a, b) || id_before(b, a),
{
    if !id_before(a, b) && !id_before(b, a) {
        lemma_bytes_neither_before(encode_utf8(a), encode_utf8(b), 0);
        encode_utf8_decode_utf8(a);
        encode_utf8_decode_utf8(b);
        assert(decode_utf8(encode_utf8(a)) == decode_utf8(encode_utf8(b)));
    }
}

/// Whether the id `a` stands before the id `b`.
pub fn comes_before(a: &str, b: &str) -> (before: bool)
    ensures
        before == id_before(a@, b@),
{
    let x = a.as_bytes();
    let y = b.as_bytes();
    let mut i: usize = 0;
    while i < x.len() && i < y.len()
        invariant
            x@ == encode_utf8(a@),
            y@ == encode_utf8(b@),
            i <= x@.len(),
            i <= y@.len(),
            id_before(a@, b@) == bytes_before_from(x@, y@, i as int),
        decreases x@.len() - i,
    {
        if x[i] != y[i] {
            return x[i] < y[i];
        }
        i += 1;
    }
    i < y.len()
}

} // verus!
