//! Little-endian packing of 32-bit words, the wire form of stored vectors.
//!
//! An embedding is a vector of `f32`; each element travels here as its bit
//! pattern (`f32::to_bits`), so packing and unpacking are exact.
use vstd::prelude::*;

verus! {

/// Byte `k` (0 is the least significant) of the word `w`.
pub open spec fn word_byte(w: u32, k: int) -> u8 {
    if k == 0 {
        (w & 0xff) as u8
    } else if k == 1 {
        ((w >> 8u32) & 0xff) as u8
    } else if k == 2 {
        ((w >> 16u32) & 0xff) as u8
    } else {
        ((w >> 24u32) & 0xff) as u8
    }
}

/// The word whose little-endian bytes are `b0`, `b1`, `b2`, `b3`.
pub open spec fn le_word(b0: u8, b1: u8, b2: u8, b3: u8) -> u32 {
    (b0 as u32) | ((b1 as u32) << 8u32) | ((b2 as u32) << 16u32) | ((b3 as u32) << 24u32)
}

/// Each word as its four little-endian bytes, in order.
pub open spec fn pack_spec(ws: Seq<u32>) -> Seq<u8> {
    Seq::new(4 * ws.len(), |i: int| word_byte(ws[i / 4], i % 4))
}

/// Each run of four bytes read back as a little-endian word.
pub open spec fn unpack_spec(bs: Seq<u8>) -> Seq<u32> {
    Seq::new(
        bs.len() / 4,
        |j: int| le_word(bs[4 * j], bs[4 * j + 1], bs[4 * j + 2], bs[4 * j + 3]),
    )
}

proof fn lemma_word_round_trip(w: u32)
    ensures
        le_word(word_byte(w, 0), word_byte(w, 1), word_byte(w, 2), word_byte(w, 3)) == w,
{
    assert(((w & 0xff) as u8 as u32) | ((((w >> 8u32) & 0xff) as u8 as u32) << 8u32) | (
    (((w >> 16u32) & 0xff) as u8 as u32) << 16u32) | ((((w >> 24u32) & 0xff) as u8 as u32)
        << 24u32) == w) by (bit_vector);
}

/// Packing a vector and unpacking the bytes gives the vector back, and the
/// packed form holds four bytes per element.
pub proof fn lemma_pack_round_trip(v: Seq<u32>)
    ensures
        pack_spec(v).len() == 4 * v.len(),
        unpack_spec(pack_spec(v)) == v,
{
    let p = pack_spec(v);
    assert forall|j: int| 0 <= j < v.len() implies #[trigger] unpack_spec(p)[j] == v[j] by {
        assert((4 * j) / 4 == j && (4 * j + 1) / 4 == j && (4 * j + 2) / 4 == j && (4 * j + 3) / 4
            == j);
        assert((4 * j) % 4 == 0 && (4 * j + 1) % 4 == 1 && (4 * j + 2) % 4 == 2 && (4 * j + 3) % 4
            == 3);
        lemma_word_round_trip(v[j]);
    }
    assert(unpack_spec(p) =~= v);
}

/// Packs `words` into bytes, four little-endian bytes per word.
pub fn pack(words: &Vec<u32>) -> (r: Vec<u8>)
    requires
        4 * words.len() <= usize::MAX,
    ensures
        r@ == pack_spec(words@),
{
    let mut r: Vec<u8> = Vec::new();
    let mut i: usize = 0;
    while i < words.len()
        invariant
            i <= words.len(),
            4 * words.len() <= usize::MAX,
            r@.len() == 4 * i,
            forall|k: int| 0 <= k < 4 * i ==> r@[k] == word_byte(words@[k / 4], k % 4),
        decreases words.len() - i,
    {
        let w = words[i];
        r.push((w & 0xff) as u8);
        r.push(((w >> 8u32) & 0xff) as u8);
        r.push(((w >> 16u32) & 0xff) as u8);
        r.push(((w >> 24u32) & 0xff) as u8);
        assert forall|k: int| 4 * i <= k < 4 * i + 4 implies r@[k] == word_byte(
            words@[k / 4],
            k % 4,
        ) by {
            assert(k / 4 == i as int);
        }
        i += 1;
    }
    assert(r@ =~= pack_spec(words@));
    r
}

/// Reads `bytes` back as little-endian words; `None` when the length is not
/// a multiple of four.
pub fn unpack(bytes: &Vec<u8>) -> (r: Option<Vec<u32>>)
    ensures
        r is None <==> bytes@.len() % 4 != 0,
        r is Some ==> r->Some_0@ == unpack_spec(bytes@),
{
    if bytes.len() % 4 != 0 {
        return None;
    }
    let n = bytes.len() / 4;
    let mut r: Vec<u32> = Vec::new();
    let mut j: usize = 0;
    while j < n
        invariant
            j <= n,
            n == bytes@.len() / 4,
            bytes@.len() % 4 == 0,
            bytes@.len() <= usize::MAX,
            r@.len() == j,
            forall|k: int| 0 <= k < j ==> r@[k] == #[trigger] unpack_spec(bytes@)[k],
        decreases n - j,
    {
        assert(4 * j + 3 < bytes@.len()) by (nonlinear_arith)
            requires
                j < n,
                n == bytes@.len() / 4,
        ;
        let b0 = bytes[4 * j] as u32;
        let b1 = bytes[4 * j + 1] as u32;
        let b2 = bytes[4 * j + 2] as u32;
        let b3 = bytes[4 * j + 3] as u32;
        r.push(b0 | (b1 << 8u32) | (b2 << 16u32) | (b3 << 24u32));
        assert(r@[j as int] == unpack_spec(bytes@)[j as int]);
        j += 1;
    }
    assert(r@ =~= unpack_spec(bytes@));
    Some(r)
}

} // verus!
