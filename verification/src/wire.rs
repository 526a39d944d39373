//! Little-endian byte-cursor helpers shared by the record codecs.
//!
//! Every OCSD record is a sequence of 4-byte-aligned fields: a byte-wide
//! field occupies one byte followed by three zero padding bytes, wider
//! fields are stored little-endian, and reserved space is zero-filled.

use vstd::arithmetic::div_mod::{
    lemma_div_denominator, lemma_div_is_ordered, lemma_fundamental_div_mod, lemma_mod_bound,
};
use vstd::prelude::*;

verus! {

/// A single byte followed by three zero padding bytes: the layout of every
/// byte-wide field in an OCSD record.
pub open spec fn pad1(b: u8) -> Seq<u8> {
    seq![b, 0u8, 0u8, 0u8]
}

/// `n` zero bytes of reserved space.
pub open spec fn zeros(n: nat) -> Seq<u8> {
    Seq::new(n, |i: int| 0u8)
}

/// The two little-endian bytes of a u16 field.
pub open spec fn le16_bytes(x: u16) -> Seq<u8> {
    seq![(x % 0x100) as u8, (x / 0x100) as u8]
}

/// The u16 value stored in two little-endian bytes.
pub open spec fn le16_value(s: Seq<u8>) -> u16
    recommends
        s.len() == 2,
{
    (s[0] + s[1] * 0x100) as u16
}

/// The four little-endian bytes of a u32 field.
pub open spec fn le32_bytes(x: u32) -> Seq<u8> {
    seq![
        (x % 0x100) as u8,
        ((x / 0x100) % 0x100) as u8,
        ((x / 0x10000) % 0x100) as u8,
        ((x / 0x1000000) % 0x100) as u8,
    ]
}

/// The u32 value stored in four little-endian bytes.
pub open spec fn le32_value(s: Seq<u8>) -> u32
    recommends
        s.len() == 4,
{
    (s[0] + s[1] * 0x100 + s[2] * 0x10000 + s[3] * 0x1000000) as u32
}

/// Law: reading back the two little-endian bytes of any u16 yields the
/// value itself.
pub proof fn lemma_le16_round_trip(x: u16)
    ensures
        le16_value(le16_bytes(x)) == x,
{
    lemma_fundamental_div_mod(x as int, 0x100);
    lemma_mod_bound(x as int, 0x100);
    lemma_div_is_ordered(x as int, 0xffff, 0x100);
}

/// Law: reading back the four little-endian bytes of any u32 yields the
/// value itself.
pub proof fn lemma_le32_round_trip(x: u32)
    ensures
        le32_value(le32_bytes(x)) == x,
{
    let q1 = x as int / 0x100;
    let q2 = x as int / 0x10000;
    let q3 = x as int / 0x1000000;
    lemma_fundamental_div_mod(x as int, 0x100);
    lemma_mod_bound(x as int, 0x100);
    lemma_div_denominator(x as int, 0x100, 0x100);
    lemma_fundamental_div_mod(q1, 0x100);
    lemma_mod_bound(q1, 0x100);
    lemma_div_denominator(x as int, 0x10000, 0x100);
    lemma_fundamental_div_mod(q2, 0x100);
    lemma_mod_bound(q2, 0x100);
    lemma_div_is_ordered(x as int, 0xffffffff, 0x1000000);
    lemma_fundamental_div_mod(q3, 0x100);
    lemma_mod_bound(q3, 0x100);
}

/// Appends a byte-wide field: the byte and three zero padding bytes.
pub fn push_padded_byte(v: &mut Vec<u8>, b: u8)
    ensures
        final(v)@ == old(v)@ + pad1(b),
{
    v.push(b);
    v.push(0);
    v.push(0);
    v.push(0);
    proof {
        assert(v@ =~= old(v)@ + pad1(b));
    }
}

/// Appends a u16 field in little-endian order.
pub fn push_u16_le(v: &mut Vec<u8>, x: u16)
    ensures
        final(v)@ == old(v)@ + le16_bytes(x),
{
    v.push((x % 0x100) as u8);
    v.push((x / 0x100) as u8);
    proof {
        assert(v@ =~= old(v)@ + le16_bytes(x));
    }
}

/// Appends a u32 field in little-endian order.
pub fn push_u32_le(v: &mut Vec<u8>, x: u32)
    ensures
        final(v)@ == old(v)@ + le32_bytes(x),
{
    v.push((x % 0x100) as u8);
    v.push(((x / 0x100) % 0x100) as u8);
    v.push(((x / 0x10000) % 0x100) as u8);
    v.push(((x / 0x1000000) % 0x100) as u8);
    proof {
        assert(v@ =~= old(v)@ + le32_bytes(x));
    }
}

/// Appends `n` zero bytes of reserved space.
pub fn push_zeros(v: &mut Vec<u8>, n: usize)
    ensures
        final(v)@ == old(v)@ + zeros(n as nat),
{
    proof {
        assert(v@ =~= old(v)@ + zeros(0));
    }
    let mut i: usize = 0;
    while i < n
        invariant
            i <= n,
            v@ == old(v)@ + zeros(i as nat),
        decreases n - i,
    {
        v.push(0);
        i = i + 1;
        proof {
            assert(v@ =~= old(v)@ + zeros(i as nat));
        }
    }
}

/// Reads the u16 field stored little-endian at `off`.
pub fn read_u16_le(bytes: &[u8], off: usize) -> (r: u16)
    requires
        off + 2 <= bytes@.len(),
    ensures
        r == le16_value(bytes@.subrange(off as int, off as int + 2)),
{
    let _n: usize = bytes.len();
    bytes[off] as u16 + bytes[off + 1] as u16 * 0x100
}

/// Reads the u32 field stored little-endian at `off`.
pub fn read_u32_le(bytes: &[u8], off: usize) -> (r: u32)
    requires
        off + 4 <= bytes@.len(),
    ensures
        r == le32_value(bytes@.subrange(off as int, off as int + 4)),
{
    let _n: usize = bytes.len();
    bytes[off] as u32 + bytes[off + 1] as u32 * 0x100 + bytes[off + 2] as u32 * 0x10000 + bytes[off
        + 3] as u32 * 0x1000000
}

} // verus!
