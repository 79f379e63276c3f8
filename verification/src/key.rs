//! Keys in their encoded, order-preserving form.

use vstd::prelude::*;

verus! {

/// The number of raw bytes in one group of an encoded key.
pub const ENC_GROUP_SIZE: usize = 8;

/// The marker that closes a group holding `ENC_GROUP_SIZE` raw bytes. A group
/// that was padded with `p` zero bytes is closed by `ENC_MARKER - p`.
pub const ENC_MARKER: u8 = 0xFF;

/// The length of the encoding of `n` raw bytes: one group of nine bytes for
/// every eight raw bytes, and one more that closes the key.
pub open spec fn encoded_len(n: nat) -> nat {
    (n / 8 + 1) * 9
}

/// The byte at position `j` of the encoding of `raw`.
///
/// Position `j` lies in group `j / 9`. The first eight bytes of a group are
/// raw bytes, or zero once the raw bytes have run out. The ninth is the
/// marker: `0xFF` after a full group that is not the last, and `0xFF` less the
/// number of padding bytes in the last group.
pub open spec fn encoded_byte(raw: Seq<u8>, j: int) -> u8 {
    let group = j / 9;
    let offset = j % 9;
    if offset < 8 {
        if 8 * group + offset < raw.len() {
            raw[8 * group + offset]
        } else {
            0u8
        }
    } else if group < raw.len() / 8 {
        0xFFu8
    } else {
        (0xFF - (8 - raw.len() % 8)) as u8
    }
}

/// The memory-comparable encoding of `raw`.
pub open spec fn encode_spec(raw: Seq<u8>) -> Seq<u8> {
    Seq::new(encoded_len(raw.len()), |j: int| encoded_byte(raw, j))
}

/// Encodes `raw` group by group.
pub fn encode_bytes(raw: &[u8]) -> (out: Vec<u8>)
    ensures
        out@ == encode_spec(raw@),
        out@.len() == encoded_len(raw@.len()),
{
    let len: usize = raw.len();
    let groups: usize = len / ENC_GROUP_SIZE;
    let mut out: Vec<u8> = Vec::new();
    let mut group: usize = 0;
    while group <= groups
        invariant
            len == raw@.len(),
            groups == len / 8,
            group <= groups + 1,
            out@.len() == 9 * group,
            forall|j: int| 0 <= j < out@.len() ==> out@[j] == encoded_byte(raw@, j),
        decreases groups + 1 - group,
    {
        let base: usize = group * ENC_GROUP_SIZE;
        let remain: usize = len - base;
        let mut offset: usize = 0;
        while offset < ENC_GROUP_SIZE
            invariant
                len == raw@.len(),
                groups == len / 8,
                group <= groups,
                base == 8 * group,
                remain == len - base,
                offset <= 8,
                out@.len() == 9 * group + offset,
                forall|j: int| 0 <= j < out@.len() ==> out@[j] == encoded_byte(raw@, j),
            decreases 8 - offset,
        {
            let byte: u8 = if offset < remain {
                raw[base + offset]
            } else {
                0u8
            };
            proof {
                let j: int = 9 * group + offset;
                assert(j / 9 == group && j % 9 == offset);
            }
            out.push(byte);
            offset = offset + 1;
        }
        let marker: u8 = if remain >= ENC_GROUP_SIZE {
            ENC_MARKER
        } else {
            ENC_MARKER - ((ENC_GROUP_SIZE - remain) as u8)
        };
        proof {
            let j: int = 9 * group + 8;
            assert(j / 9 == group && j % 9 == 8);
            assert(remain >= 8 <==> group < groups);
            if remain < 8 {
                assert(remain == len % 8);
            }
        }
        out.push(marker);
        group = group + 1;
    }
    assert(out@ =~= encode_spec(raw@));
    out
}

/// A raw byte stands in the encoding where its group and its place in the
/// group say.
pub proof fn lemma_encoding_holds_raw_bytes(raw: Seq<u8>, i: int)
    requires
        0 <= i < raw.len(),
    ensures
        9 * (i / 8) + i % 8 < encode_spec(raw).len(),
        encode_spec(raw)[9 * (i / 8) + i % 8] == raw[i],
{
    let j = 9 * (i / 8) + i % 8;
    assert(j / 9 == i / 8 && j % 9 == i % 8);
    assert(8 * (j / 9) + j % 9 == i);
}

/// The last byte of the encoding tells how many raw bytes the last group
/// holds.
pub proof fn lemma_encoding_ends_with_marker(raw: Seq<u8>)
    ensures
        encode_spec(raw).len() == 9 * (raw.len() / 8) + 9,
        encode_spec(raw).last() == 0xF7 + raw.len() % 8,
{
    let j = 9 * (raw.len() / 8) + 8;
    assert(j / 9 == raw.len() / 8 && j % 9 == 8);
}

/// No two sequences of raw bytes have the same encoding.
pub proof fn lemma_encoding_is_injective(a: Seq<u8>, b: Seq<u8>)
    requires
        encode_spec(a) == encode_spec(b),
    ensures
        a == b,
{
    lemma_encoding_ends_with_marker(a);
    lemma_encoding_ends_with_marker(b);
    assert(a.len() / 8 == b.len() / 8);
    assert(a.len() % 8 == b.len() % 8);
    assert(a.len() == b.len());
    assert forall|i: int| 0 <= i < a.len() implies a[i] == b[i] by {
        lemma_encoding_holds_raw_bytes(a, i);
        lemma_encoding_holds_raw_bytes(b, i);
    }
    assert(a =~= b);
}

/// A key as the storage engine orders it: a sequence of bytes in encoded
/// form. Two keys are equal when their bytes are, and one comes before the
/// other when its bytes do.
#[derive(Debug, PartialEq, Eq, PartialOrd, Ord, Hash)]
pub struct Key(pub Vec<u8>);

impl View for Key {
    type V = Seq<u8>;

    open spec fn view(&self) -> Seq<u8> {
        self.0@
    }
}

impl Clone for Key {
    fn clone(&self) -> (key: Key)
        ensures
            key@ == self@,
    {
        let bytes: Vec<u8> = self.0.clone();
        assert(bytes@ =~= self.0@);
        Key(bytes)
    }
}

impl Key {
    /// The key that a user's raw bytes name.
    pub fn from_raw(raw: &[u8]) -> (key: Key)
        ensures
            key@ == encode_spec(raw@),
    {
        Key(encode_bytes(raw))
    }

    /// The key whose encoded form is `encoded`.
    pub fn from_encoded(encoded: Vec<u8>) -> (key: Key)
        ensures
            key@ == encoded@,
    {
        Key(encoded)
    }

    /// The encoded form.
    pub fn as_encoded(&self) -> (encoded: &Vec<u8>)
        ensures
            encoded@ == self@,
    {
        &self.0
    }
}

} // verus!
