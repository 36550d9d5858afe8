//! The law of payload de-armoring: the bytes hold the bits of the 6-bit
//! symbols, most significant first, up to the fill bits.

use vstd::prelude::*;
use vstd::arithmetic::power2::{lemma2_to64, pow2};
use crate::decode::nmea::{
    NmeaError, leftover_bits, pack_symbols, sixbit_values, spec_payload_to_binary, sym_bit,
    sym_bits,
};

verus! {

/// Bit `i` of the bytes `b`, the first bit of each byte its most
/// significant.
pub open spec fn byte_bit(b: Seq<u8>, i: int) -> nat {
    ((b[i / 8] >> ((7 - i % 8) as u8)) & 1u8) as nat
}

/// The bits `p .. p + m` of the symbol stream placed at the top of a byte,
/// bit `p + j` at weight `2^(7 - j)`.
spec fn weighted(v: Seq<u8>, p: int, m: nat) -> nat
    decreases m,
{
    if m == 0 {
        0
    } else {
        weighted(v, p, (m - 1) as nat) + sym_bit(v, p + m - 1) * pow2((8 - m) as nat)
    }
}

/// Bit `p + j` of the stream when `j < m`, else 0.
spec fn top_bit(v: Seq<u8>, p: int, m: nat, j: int) -> u8 {
    if j < m {
        sym_bit(v, p + j) as u8
    } else {
        0u8
    }
}

proof fn lemma_sym_bit_bound(v: Seq<u8>, i: int)
    ensures
        sym_bit(v, i) <= 1,
{
    let x = v[i / 6];
    let s = (5 - i % 6) as u8;
    assert((x >> s) & 1u8 <= 1u8) by (bit_vector);
}

proof fn lemma_weighted(v: Seq<u8>, p: int, m: nat)
    requires
        m <= 8,
    ensures
        sym_bits(v, p, m) * pow2((8 - m) as nat) == weighted(v, p, m),
    decreases m,
{
    if m == 0 {
        let q = pow2(8);
        assert(sym_bits(v, p, 0) == 0);
        assert(0 * q == 0) by (nonlinear_arith);
    } else {
        lemma_weighted(v, p, (m - 1) as nat);
        vstd::arithmetic::power2::lemma_pow2_unfold((9 - m) as nat);
        let a = sym_bits(v, p, (m - 1) as nat);
        let b = sym_bit(v, p + m - 1);
        let q = pow2((8 - m) as nat);
        assert(sym_bits(v, p, m) == 2 * a + b);
        assert(pow2((9 - m) as nat) == 2 * q);
        assert(a * pow2((8 - (m - 1)) as nat) == weighted(v, p, (m - 1) as nat));
        assert((8 - (m - 1)) as nat == (9 - m) as nat);
        assert(weighted(v, p, m) == weighted(v, p, (m - 1) as nat) + b * q);
        assert((2 * a + b) * q == a * (2 * q) + b * q) by (nonlinear_arith);
    }
}

proof fn lemma_top_bits(x: u8, b0: u8, b1: u8, b2: u8, b3: u8, b4: u8, b5: u8, b6: u8, b7: u8)
    by (bit_vector)
    requires
        b0 <= 1,
        b1 <= 1,
        b2 <= 1,
        b3 <= 1,
        b4 <= 1,
        b5 <= 1,
        b6 <= 1,
        b7 <= 1,
        x == b0 * 128 + b1 * 64 + b2 * 32 + b3 * 16 + b4 * 8 + b5 * 4 + b6 * 2 + b7,
    ensures
        (x >> 7u8) & 1u8 == b0,
        (x >> 6u8) & 1u8 == b1,
        (x >> 5u8) & 1u8 == b2,
        (x >> 4u8) & 1u8 == b3,
        (x >> 3u8) & 1u8 == b4,
        (x >> 2u8) & 1u8 == b5,
        (x >> 1u8) & 1u8 == b6,
        (x >> 0u8) & 1u8 == b7,
{
}

/// The byte holding bits `p .. p + m` of the stream at its top has bit
/// `p + k` at its place `7 - k`.
proof fn lemma_top_byte(v: Seq<u8>, p: int, m: nat, k: int)
    requires
        1 <= m <= 8,
        0 <= k < m,
    ensures
        sym_bits(v, p, m) * pow2((8 - m) as nat) < 256,
        (((sym_bits(v, p, m) * pow2((8 - m) as nat)) as u8 >> ((7 - k) as u8)) & 1u8) as nat
            == sym_bit(v, p + k),
{
    lemma_weighted(v, p, m);
    lemma2_to64();
    assert forall|j: int| 0 <= j < 8 implies #[trigger] top_bit(v, p, m, j) <= 1 && (j < m ==> top_bit(v, p, m, j)
        as nat == sym_bit(v, p + j)) by {
        lemma_sym_bit_bound(v, p + j);
    }
    let w = weighted(v, p, m);
    assert(w == top_bit(v, p, m, 0) * 128 + top_bit(v, p, m, 1) * 64 + top_bit(v, p, m, 2) * 32 + top_bit(v, p, m, 3) * 16
        + top_bit(v, p, m, 4) * 8 + top_bit(v, p, m, 5) * 4 + top_bit(v, p, m, 6) * 2 + top_bit(v, p, m, 7)) by {
        reveal_with_fuel(weighted, 9);
        if m == 1 {
        } else if m == 2 {
        } else if m == 3 {
        } else if m == 4 {
        } else if m == 5 {
        } else if m == 6 {
        } else if m == 7 {
        } else {
        }
    }
    assert(top_bit(v, p, m, 0) <= 1);
    assert(top_bit(v, p, m, 1) <= 1);
    assert(top_bit(v, p, m, 2) <= 1);
    assert(top_bit(v, p, m, 3) <= 1);
    assert(top_bit(v, p, m, 4) <= 1);
    assert(top_bit(v, p, m, 5) <= 1);
    assert(top_bit(v, p, m, 6) <= 1);
    assert(top_bit(v, p, m, 7) <= 1);
    assert(w < 256);
    let x = w as u8;
    assert(x == w);
    lemma_top_bits(
        x,
        top_bit(v, p, m, 0),
        top_bit(v, p, m, 1),
        top_bit(v, p, m, 2),
        top_bit(v, p, m, 3),
        top_bit(v, p, m, 4),
        top_bit(v, p, m, 5),
        top_bit(v, p, m, 6),
        top_bit(v, p, m, 7),
    );
    assert(((x >> ((7 - k) as u8)) & 1u8) == top_bit(v, p, m, k)) by {
        if k == 0 {
        } else if k == 1 {
        } else if k == 2 {
        } else if k == 3 {
        } else if k == 4 {
        } else if k == 5 {
        } else if k == 6 {
        } else {
        }
    }
}

/// The packed symbols hold the stream's bits, most significant first, up to
/// the fill bits, and no more bytes than those bits need.
proof fn lemma_pack_symbols_bits(v: Seq<u8>, fill: nat)
    requires
        fill <= 5,
        fill <= 6 * v.len(),
        leftover_bits(v.len()) == 0 || fill <= leftover_bits(v.len()),
    ensures
        pack_symbols(v, fill).len() == (6 * v.len() - fill + 7) / 8,
        forall|i: int|
            0 <= i < 6 * v.len() - fill ==> #[trigger] byte_bit(pack_symbols(v, fill), i) == sym_bit(
                v,
                i,
            ),
{
    let total = 6 * v.len();
    let w = total / 8;
    let r = leftover_bits(v.len());
    let b = pack_symbols(v, fill);
    let whole = Seq::new(w as nat, |j: int| sym_bits(v, 8 * j, 8) as u8);
    assert(total == 8 * w + r);
    if r > 0 && r > fill {
        let rem = (r - fill) as nat;
        assert(b == whole.push((sym_bits(v, total - r, rem) * pow2((8 - rem) as nat)) as u8));
    } else {
        assert(b == whole);
    }
    assert forall|i: int| 0 <= i < 6 * v.len() - fill implies #[trigger] byte_bit(b, i) == sym_bit(
        v,
        i,
    ) by {
        let j = i / 8;
        let k = i % 8;
        assert(i == 8 * j + k);
        if i < 8 * w {
            assert(j < w);
            lemma_top_byte(v, 8 * j, 8, k);
            lemma2_to64();
            assert(b[j] == whole[j]);
            let x = sym_bits(v, 8 * j, 8);
            assert(x * pow2(0) == x) by (nonlinear_arith)
                requires
                    pow2(0) == 1,
            ;
            assert(b[j] == (x * pow2((8 - 8) as nat)) as u8);
        } else {
            assert(r > fill);
            assert(j == w);
            let rem = (r - fill) as nat;
            lemma_top_byte(v, total - r, rem, k);
            assert(b[j] == (sym_bits(v, total - r, rem) * pow2((8 - rem) as nat)) as u8);
        }
    }
}

/// De-armoring a payload of valid characters gives bytes holding the bits of
/// its 6-bit symbols, most significant first, up to the fill bits (at most
/// 5, as a parsed sentence has), in as many bytes as those bits need.
pub proof fn lemma_payload_to_binary_bits(p: Seq<char>, fill: u8)
    requires
        fill <= 5,
        fill <= 6 * p.len(),
        leftover_bits(p.len()) == 0 || fill <= leftover_bits(p.len()),
        sixbit_values(p) is Ok,
    ensures
        spec_payload_to_binary(p, fill) matches Ok(b) && b.len() == (6 * p.len() - fill + 7) / 8
            && forall|i: int|
            0 <= i < 6 * p.len() - fill ==> #[trigger] byte_bit(b, i) == sym_bit(
                sixbit_values(p)->Ok_0,
                i,
            ),
{
    let v = sixbit_values(p)->Ok_0;
    lemma_sixbit_values_len(p);
    lemma_pack_symbols_bits(v, fill as nat);
}

proof fn lemma_sixbit_values_len(p: Seq<char>)
    ensures
        sixbit_values(p) matches Ok(v) ==> v.len() == p.len(),
    decreases p.len(),
{
    if p.len() > 0 {
        lemma_sixbit_values_len(p.drop_last());
    }
}

} // verus!
