//! Binary vector codec.
//!
//! A vector of `n` 32-bit components is serialized to exactly `4 * n`
//! bytes, each component in little-endian byte order, with no header,
//! length prefix, or padding. Components are carried as the 32-bit
//! patterns of the stored floating-point values, which makes the
//! round trip exact, bit for bit.

use vstd::prelude::*;

verus! {

/// The four little-endian bytes of one 32-bit component.
pub open spec fn le_bytes_of_u32(x: u32) -> Seq<u8> {
    seq![
        (x % 256) as u8,
        ((x / 256) % 256) as u8,
        ((x / 65536) % 256) as u8,
        ((x / 16777216) % 256) as u8,
    ]
}

/// The 32-bit component read back from four little-endian bytes.
pub open spec fn u32_of_le_bytes(b0: u8, b1: u8, b2: u8, b3: u8) -> u32 {
    (b0 + b1 * 256 + b2 * 65536 + b3 * 16777216) as u32
}

/// The serialized form of a whole vector: the components' bytes, in order.
pub open spec fn spec_encode(v: Seq<u32>) -> Seq<u8>
    decreases v.len(),
{
    if v.len() == 0 {
        Seq::empty()
    } else {
        spec_encode(v.drop_last()) + le_bytes_of_u32(v.last())
    }
}

/// The vector read back from a byte string; trailing bytes short of a
/// full component are ignored, as the decoder reads whole groups of four.
pub open spec fn spec_decode(b: Seq<u8>) -> Seq<u32> {
    Seq::new((b.len() / 4) as nat, |i: int| u32_of_le_bytes(b[4 * i], b[4 * i + 1], b[4 * i + 2], b[4 * i + 3]))
}

proof fn lemma_encode_len(v: Seq<u32>)
    ensures
        spec_encode(v).len() == 4 * v.len(),
    decreases v.len(),
{
    if v.len() > 0 {
        lemma_encode_len(v.drop_last());
    }
}

proof fn lemma_encode_index(v: Seq<u32>, i: int)
    requires
        0 <= i < v.len(),
    ensures
        spec_encode(v).len() == 4 * v.len(),
        spec_encode(v).subrange(4 * i, 4 * i + 4) =~= le_bytes_of_u32(v[i]),
    decreases v.len(),
{
    lemma_encode_len(v);
    if v.len() > 0 {
        lemma_encode_len(v.drop_last());
        if i < v.len() - 1 {
            lemma_encode_index(v.drop_last(), i);
            assert(spec_encode(v).subrange(4 * i, 4 * i + 4) =~= spec_encode(v.drop_last()).subrange(4 * i, 4 * i + 4));
        } else {
            assert(spec_encode(v).subrange(4 * i, 4 * i + 4) =~= le_bytes_of_u32(v.last()));
        }
    }
}

proof fn lemma_u32_le_round_trip(x: u32)
    ensures
        u32_of_le_bytes(
            (x % 256) as u8,
            ((x / 256) % 256) as u8,
            ((x / 65536) % 256) as u8,
            ((x / 16777216) % 256) as u8,
        ) == x,
{
    assert(x % 256 + ((x / 256) % 256) * 256 + ((x / 65536) % 256) * 65536 + ((x / 16777216) % 256)
        * 16777216 == x) by (bit_vector);
}

/// Law: decoding an encoded vector gives the vector back exactly.
pub proof fn lemma_codec_round_trip(v: Seq<u32>)
    ensures
        spec_decode(spec_encode(v)) =~= v,
{
    lemma_encode_len(v);
    assert forall|i: int| 0 <= i < v.len() implies spec_decode(spec_encode(v))[i] == v[i] by {
        lemma_encode_index(v, i);
        let b = spec_encode(v);
        let w = b.subrange(4 * i, 4 * i + 4);
        assert(b[4 * i] == w[0] && b[4 * i + 1] == w[1] && b[4 * i + 2] == w[2] && b[4 * i + 3] == w[3]);
        lemma_u32_le_round_trip(v[i]);
    }
}

/// Law: encoding a decoded byte string of whole components gives the
/// bytes back exactly.
pub proof fn lemma_codec_round_trip_bytes(b: Seq<u8>)
    requires
        b.len() % 4 == 0,
    ensures
        spec_encode(spec_decode(b)) =~= b,
{
    let v = spec_decode(b);
    lemma_encode_len(v);
    assert forall|j: int| 0 <= j < b.len() implies spec_encode(v)[j] == b[j] by {
        let i = j / 4;
        assert(0 <= i < v.len());
        lemma_encode_index(v, i);
        let w = spec_encode(v).subrange(4 * i, 4 * i + 4);
        assert(spec_encode(v)[j] == w[j - 4 * i]);
        let b0 = b[4 * i];
        let b1 = b[4 * i + 1];
        let b2 = b[4 * i + 2];
        let b3 = b[4 * i + 3];
        let x = u32_of_le_bytes(b0, b1, b2, b3);
        assert(x == b0 + b1 * 256 + b2 * 65536 + b3 * 16777216) by (bit_vector)
            requires x == ((b0 + b1 * 256 + b2 * 65536 + b3 * 16777216) as u32);
        assert((x % 256) as u8 == b0 && ((x / 256) % 256) as u8 == b1 && ((x / 65536) % 256) as u8
            == b2 && ((x / 16777216) % 256) as u8 == b3) by (bit_vector)
            requires x == b0 + b1 * 256 + b2 * 65536 + b3 * 16777216;
        assert(j == 4 * i || j == 4 * i + 1 || j == 4 * i + 2 || j == 4 * i + 3);
    }
}

/// Serialize a vector of 32-bit components to its little-endian bytes.
pub fn vector_to_bytes(vector: &Vec<u32>) -> (r: Vec<u8>)
    requires
        vector@.len() * 4 <= usize::MAX,
    ensures
        r@ == spec_encode(vector@),
        r@.len() == 4 * vector@.len(),
{
    let mut bytes: Vec<u8> = Vec::new();
    let mut i: usize = 0;
    while i < vector.len()
        invariant
            i <= vector@.len(),
            bytes@ == spec_encode(vector@.take(i as int)),
            bytes@.len() == 4 * i,
        decreases vector@.len() - i,
    {
        let x = vector[i];
        bytes.push((x % 256) as u8);
        bytes.push(((x / 256) % 256) as u8);
        bytes.push(((x / 65536) % 256) as u8);
        bytes.push(((x / 16777216) % 256) as u8);
        proof {
            assert(vector@.take(i + 1 as int).drop_last() =~= vector@.take(i as int));
            assert(bytes@ =~= spec_encode(vector@.take(i + 1 as int)));
        }
        i = i + 1;
    }
    proof {
        assert(vector@.take(vector@.len() as int) =~= vector@);
        lemma_encode_len(vector@);
    }
    bytes
}

/// Read a vector of 32-bit components back from little-endian bytes;
/// trailing bytes short of a full component are ignored.
pub fn bytes_to_vector(bytes: &Vec<u8>) -> (r: Vec<u32>)
    ensures
        r@ == spec_decode(bytes@),
{
    let len = bytes.len();
    let n = len / 4;
    let mut out: Vec<u32> = Vec::new();
    let mut i: usize = 0;
    let mut j: usize = 0;
    while i < n
        invariant
            i <= n,
            j == 4 * i,
            len == bytes@.len(),
            n == bytes@.len() / 4,
            out@ =~= spec_decode(bytes@).take(i as int),
        decreases n - i,
    {
        proof {
            assert(4 * (bytes@.len() as int / 4) <= bytes@.len());
            assert(4 * i + 3 < bytes@.len());
        }
        let b0 = bytes[j] as u32;
        let b1 = bytes[j + 1] as u32;
        let b2 = bytes[j + 2] as u32;
        let b3 = bytes[j + 3] as u32;
        let x = b0 + b1 * 256 + b2 * 65536 + b3 * 16777216;
        out.push(x);
        proof {
            assert(out@ =~= spec_decode(bytes@).take(i + 1 as int));
        }
        i = i + 1;
        j = j + 4;
    }
    proof {
        assert(spec_decode(bytes@).take(n as int) =~= spec_decode(bytes@));
    }
    out
}

} // verus!
