//! The order of keys: byte by byte, and the same before and after encoding.

use crate::key::{encode_spec, encoded_byte, lemma_encoding_holds_raw_bytes, lemma_encoding_is_injective};
use vstd::prelude::*;

verus! {

/// Whether `a` and `b` agree on their first `i` bytes and `a` comes first by
/// what follows: `a` ends there and `b` goes on, or the next byte of `a` is
/// the smaller.
pub open spec fn precedes_at(a: Seq<u8>, b: Seq<u8>, i: int) -> bool {
    &&& 0 <= i <= a.len()
    &&& i < b.len()
    &&& forall|k: int| 0 <= k < i ==> a[k] == b[k]
    &&& i < a.len() ==> a[i] < b[i]
}

/// Whether `a` comes before `b` in the order of byte strings.
pub open spec fn precedes(a: Seq<u8>, b: Seq<u8>) -> bool {
    exists|i: int| precedes_at(a, b, i)
}

proof fn lemma_compare_from(a: Seq<u8>, b: Seq<u8>, i: int)
    requires
        0 <= i <= a.len(),
        i <= b.len(),
        forall|k: int| 0 <= k < i ==> a[k] == b[k],
    ensures
        a == b || precedes(a, b) || precedes(b, a),
    decreases a.len() - i,
{
    if i == a.len() {
        if i == b.len() {
            assert(a =~= b);
        } else {
            assert(precedes_at(a, b, i));
        }
    } else if i == b.len() {
        assert(precedes_at(b, a, i));
    } else if a[i] < b[i] {
        assert(precedes_at(a, b, i));
    } else if b[i] < a[i] {
        assert(precedes_at(b, a, i));
    } else {
        lemma_compare_from(a, b, i + 1);
    }
}

/// Of two byte strings, one comes before the other, or they are equal.
pub proof fn lemma_precedes_is_total(a: Seq<u8>, b: Seq<u8>)
    ensures
        a == b || precedes(a, b) || precedes(b, a),
{
    lemma_compare_from(a, b, 0);
}

/// A byte string that comes before another is not equal to it, and does not
/// come after it.
pub proof fn lemma_precedes_is_asymmetric(a: Seq<u8>, b: Seq<u8>)
    requires
        precedes(a, b),
    ensures
        a != b,
        !precedes(b, a),
{
    let i = choose|i: int| precedes_at(a, b, i);
    if a == b {
        assert(i < a.len());
    }
    if precedes(b, a) {
        let j = choose|j: int| precedes_at(b, a, j);
        if i < j {
            assert(a[i] == b[i]);
        } else if j < i {
            assert(a[j] == b[j]);
        }
    }
}

/// Two raw byte strings that agree before raw position `i`, and are both at
/// least that long, have encodings that agree before the position where the
/// byte of raw position `i` stands.
proof fn lemma_encodings_agree_before(a: Seq<u8>, b: Seq<u8>, i: int)
    requires
        0 <= i <= a.len(),
        i <= b.len(),
        forall|k: int| 0 <= k < i ==> a[k] == b[k],
    ensures
        forall|p: int|
            0 <= p < 9 * (i / 8) + i % 8 ==> (#[trigger] encode_spec(a)[p]) == encode_spec(b)[p],
        9 * (i / 8) + i % 8 < encode_spec(a).len(),
        9 * (i / 8) + i % 8 < encode_spec(b).len(),
{
    assert forall|p: int| 0 <= p < 9 * (i / 8) + i % 8 implies (#[trigger] encode_spec(a)[p])
        == encode_spec(b)[p] by {
        let group = p / 9;
        let offset = p % 9;
        assert(encode_spec(a)[p] == encoded_byte(a, p));
        assert(encode_spec(b)[p] == encoded_byte(b, p));
        if offset < 8 {
            assert(8 * group + offset < i);
        } else {
            assert(group < i / 8);
        }
    }
}

/// Where `a` is the beginning of a longer `b`, and the encodings agree up
/// to place `offset` of the last group of `a`, the encoding of `a` comes
/// first: its padding and its marker are smaller than what `b` has there.
proof fn lemma_prefix_loses_in_last_group(a: Seq<u8>, b: Seq<u8>, offset: int)
    requires
        a.len() < b.len(),
        forall|k: int| 0 <= k < a.len() ==> a[k] == b[k],
        a.len() % 8 <= offset <= 8,
        forall|p: int|
            0 <= p < 9 * (a.len() / 8) + offset ==> (#[trigger] encode_spec(a)[p]) == encode_spec(
                b,
            )[p],
    ensures
        precedes(encode_spec(a), encode_spec(b)),
    decreases 8 - offset,
{
    let group = (a.len() / 8) as int;
    let p = 9 * group + offset;
    assert(p / 9 == group && p % 9 == offset);
    assert(encode_spec(a)[p] == encoded_byte(a, p));
    assert(encode_spec(b)[p] == encoded_byte(b, p));
    if offset == 8 {
        assert(encode_spec(a)[p] < encode_spec(b)[p]);
        assert(precedes_at(encode_spec(a), encode_spec(b), p));
    } else {
        assert(encode_spec(a)[p] == 0);
        if encode_spec(b)[p] > 0 {
            assert(precedes_at(encode_spec(a), encode_spec(b), p));
        } else {
            lemma_prefix_loses_in_last_group(a, b, offset + 1);
        }
    }
}

/// Encoding keeps raw byte strings in their order: where one comes before
/// another, so does its encoding.
pub proof fn lemma_encoding_is_monotonic(a: Seq<u8>, b: Seq<u8>)
    requires
        precedes(a, b),
    ensures
        precedes(encode_spec(a), encode_spec(b)),
{
    let i = choose|i: int| precedes_at(a, b, i);
    lemma_encodings_agree_before(a, b, i);
    if i < a.len() {
        let p = 9 * (i / 8) + i % 8;
        lemma_encoding_holds_raw_bytes(a, i);
        lemma_encoding_holds_raw_bytes(b, i);
        assert(precedes_at(encode_spec(a), encode_spec(b), p));
    } else {
        lemma_prefix_loses_in_last_group(a, b, (a.len() % 8) as int);
    }
}

/// The order of encoded keys is the order of the raw byte strings they were
/// made from.
pub proof fn lemma_encoding_keeps_order(a: Seq<u8>, b: Seq<u8>)
    ensures
        precedes(encode_spec(a), encode_spec(b)) <==> precedes(a, b),
        encode_spec(a) == encode_spec(b) <==> a == b,
{
    if encode_spec(a) == encode_spec(b) {
        lemma_encoding_is_injective(a, b);
    }
    if precedes(a, b) {
        lemma_encoding_is_monotonic(a, b);
    }
    if precedes(encode_spec(a), encode_spec(b)) {
        lemma_precedes_is_asymmetric(encode_spec(a), encode_spec(b));
        lemma_precedes_is_total(a, b);
        if precedes(b, a) {
            lemma_encoding_is_monotonic(b, a);
        }
    }
}

} // verus!
