//! The frame check sequence: any data followed by its check sequence passes
//! the frame check.

use vstd::prelude::*;
use crate::dsp::ais::{EXPECTED_CRC, crc_bit, crc_byte_bits, crc_from, crc16_spec};

verus! {

/// The constant part of the register after one more bit of a check
/// sequence.
pub open spec fn residue_step(t: u16) -> u16 {
    if t & 1 == 0 {
        (t >> 1u16) ^ 0x8408u16
    } else {
        t >> 1u16
    }
}

/// The constant part of the register after `k` bits of a check sequence.
pub open spec fn residue_after(k: nat) -> u16
    decreases k,
{
    if k == 0 {
        0
    } else {
        residue_step(residue_after((k - 1) as nat))
    }
}

/// A check sequence bit is the complement of the register bit it meets: the
/// register then keeps the form `(c >> k) ^ t`.
proof fn lemma_check_bit(c: u16, k: u16, t: u16, b: u8)
    requires
        k < 16,
        (b as u16) & 1 == ((!c) >> k) & 1,
    ensures
        crc_bit((c >> k) ^ t, b) == (c >> (k + 1) as u16) ^ residue_step(t),
{
    assert(crc_bit((c >> k) ^ t, b) == (c >> (k + 1) as u16) ^ residue_step(t)) by (bit_vector)
        requires
            k < 16,
            (b as u16) & 1 == ((!c) >> k) & 1,
    ;
}

/// Processing the bits `j..8` of a check sequence byte whose bits are those
/// of `!c` from `base`.
proof fn lemma_check_byte_bits(c: u16, base: u16, b: u8, j: u16)
    requires
        base == 0 || base == 8,
        j <= 8,
        forall|i: u16| i < 8 ==> #[trigger] (((b >> (i as u8)) as u16) & 1) == ((!c) >> (base + i)) & 1,
    ensures
        crc_byte_bits((c >> (base + j)) ^ residue_after((base + j) as nat), b >> (j as u8), (8 - j) as nat)
            == (c >> (base + 8)) ^ residue_after((base + 8) as nat),
    decreases 8 - j,
{
    if j < 8 {
        let t = residue_after((base + j) as nat);
        let bj = b >> (j as u8);
        assert(((bj as u16) & 1) == ((!c) >> (base + j)) & 1) by {
            assert(((b >> (j as u8)) as u16) & 1 == ((!c) >> (base + j)) & 1);
        }
        lemma_check_bit(c, (base + j) as u16, t, bj);
        assert(bj >> 1u8 == b >> ((j + 1) as u8)) by (bit_vector)
            requires
                bj == b >> (j as u8),
                j < 8,
        ;
        lemma_check_byte_bits(c, base, b, (j + 1) as u16);
    }
}

/// The check sequence bits leave the residue 0xF0B8.
proof fn lemma_residue_16()
    ensures
        residue_after(16) == 0xF0B8,
{
    assert(residue_after(0) == 0u16);
    assert(residue_step(0x0u16) == 0x8408u16) by (bit_vector);
    assert(residue_after(1) == 0x8408u16);
    assert(residue_step(0x8408u16) == 0xc60cu16) by (bit_vector);
    assert(residue_after(2) == 0xc60cu16);
    assert(residue_step(0xc60cu16) == 0xe70eu16) by (bit_vector);
    assert(residue_after(3) == 0xe70eu16);
    assert(residue_step(0xe70eu16) == 0xf78fu16) by (bit_vector);
    assert(residue_after(4) == 0xf78fu16);
    assert(residue_step(0xf78fu16) == 0x7bc7u16) by (bit_vector);
    assert(residue_after(5) == 0x7bc7u16);
    assert(residue_step(0x7bc7u16) == 0x3de3u16) by (bit_vector);
    assert(residue_after(6) == 0x3de3u16);
    assert(residue_step(0x3de3u16) == 0x1ef1u16) by (bit_vector);
    assert(residue_after(7) == 0x1ef1u16);
    assert(residue_step(0x1ef1u16) == 0xf78u16) by (bit_vector);
    assert(residue_after(8) == 0xf78u16);
    assert(residue_step(0xf78u16) == 0x83b4u16) by (bit_vector);
    assert(residue_after(9) == 0x83b4u16);
    assert(residue_step(0x83b4u16) == 0xc5d2u16) by (bit_vector);
    assert(residue_after(10) == 0xc5d2u16);
    assert(residue_step(0xc5d2u16) == 0xe6e1u16) by (bit_vector);
    assert(residue_after(11) == 0xe6e1u16);
    assert(residue_step(0xe6e1u16) == 0x7370u16) by (bit_vector);
    assert(residue_after(12) == 0x7370u16);
    assert(residue_step(0x7370u16) == 0xbdb0u16) by (bit_vector);
    assert(residue_after(13) == 0xbdb0u16);
    assert(residue_step(0xbdb0u16) == 0xdad0u16) by (bit_vector);
    assert(residue_after(14) == 0xdad0u16);
    assert(residue_step(0xdad0u16) == 0xe960u16) by (bit_vector);
    assert(residue_after(15) == 0xe960u16);
    assert(residue_step(0xe960u16) == 0xf0b8u16) by (bit_vector);
    assert(residue_after(16) == 0xf0b8u16);
}

/// The register after `a` then `b` is the register after `b` started from
/// the register after `a`.
proof fn lemma_crc_from_append(crc: u16, a: Seq<u8>, b: Seq<u8>)
    ensures
        crc_from(crc, a + b) == crc_from(crc_from(crc, a), b),
    decreases b.len(),
{
    if b.len() == 0 {
        assert(a + b =~= a);
    } else {
        lemma_crc_from_append(crc, a, b.drop_last());
        assert((a + b).drop_last() =~= a + b.drop_last());
    }
}

/// The frame check sequence of `s`: the complemented register, low byte
/// first.
pub open spec fn fcs_of(s: Seq<u8>) -> Seq<u8> {
    let c = !crc16_spec(s);
    seq![(c & 0xFF) as u8, (c >> 8u16) as u8]
}

/// Any data followed by its frame check sequence leaves the expected
/// residue, and so passes the frame check.
pub proof fn lemma_fcs_residue(s: Seq<u8>)
    ensures
        crc16_spec(s + fcs_of(s)) == EXPECTED_CRC,
{
    let c = crc16_spec(s);
    let f = fcs_of(s);
    let lo: u8 = ((!c) & 0xFF) as u8;
    let hi: u8 = ((!c) >> 8u16) as u8;
    assert(f =~= seq![lo, hi]);
    lemma_crc_from_append(0xFFFF, s, f);
    assert(f.drop_last() =~= seq![lo]);
    assert(seq![lo].drop_last() =~= Seq::<u8>::empty());
    reveal_with_fuel(crc_from, 3);
    assert(crc16_spec(s + f) == crc_byte_bits(crc_byte_bits(c, lo, 8), hi, 8));
    assert forall|i: u16| i < 8 implies #[trigger] (((lo >> (i as u8)) as u16) & 1) == ((!c) >> (0 + i))
        & 1 by {
        assert(i < 8 ==> (((((!c) & 0xFF) as u8) >> (i as u8)) as u16) & 1 == ((!c) >> (0 + i)) & 1)
            by (bit_vector);
    }
    assert forall|i: u16| i < 8 implies #[trigger] (((hi >> (i as u8)) as u16) & 1) == ((!c) >> (8 + i))
        & 1 by {
        assert(i < 8 ==> (((((!c) >> 8u16) as u8) >> (i as u8)) as u16) & 1 == ((!c) >> (8 + i)) & 1)
            by (bit_vector);
    }
    assert(c >> 0u16 == c && (c >> 0u16) ^ 0u16 == c) by (bit_vector);
    assert(lo >> 0u8 == lo && hi >> 0u8 == hi) by (bit_vector);
    lemma_check_byte_bits(c, 0, lo, 0);
    lemma_check_byte_bits(c, 8, hi, 0);
    lemma_residue_16();
    assert(residue_after(0) == 0u16);
    assert((c >> 16u16) ^ 0xF0B8u16 == 0xF0B8u16) by (bit_vector);
    assert(crc_byte_bits(c, lo, 8) == (c >> 8u16) ^ residue_after(8));
}

} // verus!
