use vstd::prelude::*;
use vstd::arithmetic::power2::{pow2, lemma_pow2_unfold, lemma_pow2_strictly_increases, lemma2_to64, lemma_pow2_adds};

verus! {

/// Bit `i` of the byte sequence `s`, counting from the most significant
/// bit of the first byte.
pub open spec fn bit_at(s: Seq<u8>, i: int) -> nat {
    ((s[i / 8] >> ((7 - i % 8) as u8)) & 1u8) as nat
}

/// The big-endian value of the `n` bits of `s` that start at bit `p`.
pub open spec fn bits_at(s: Seq<u8>, p: int, n: nat) -> nat
    decreases n,
{
    if n == 0 {
        0
    } else {
        2 * bits_at(s, p, (n - 1) as nat) + bit_at(s, p + n - 1)
    }
}

/// Bit `i` of `data`, most significant bit of the first byte first.
pub fn get_bit(data: &[u8], i: u128) -> (r: u8)
    requires
        i < data@.len() * 8,
    ensures
        r as nat == bit_at(data@, i as int),
        r <= 1,
{
    let b = data[(i / 8) as usize];
    let sh = (7 - i % 8) as u8;
    let r = (b >> sh) & 1u8;
    assert(r <= 1) by (bit_vector)
        requires r == (b >> sh) & 1u8;
    r
}

/// Reads the big-endian value of `n` bits starting at bit `p`.
pub fn get_bits(data: &[u8], p: u128, n: u128) -> (r: u128)
    requires
        p + n <= data@.len() * 8,
        n <= 128,
    ensures
        r as nat == bits_at(data@, p as int, n as nat),
        (r as nat) < pow2(n as nat),
{
    let len = data.len();
    let mut v: u128 = 0;
    let mut i: u128 = 0;
    proof {
        lemma2_to64();
        lemma_pow2_adds(64, 64);
    }
    while i < n
        invariant
            i <= n,
            n <= 128,
            p + n <= data@.len() * 8,
            data@.len() == len,
            v as nat == bits_at(data@, p as int, i as nat),
            (v as nat) < pow2(i as nat),
            pow2(128) == 0x1_0000_0000_0000_0000_0000_0000_0000_0000nat,
        decreases n - i,
    {
        let b = get_bit(data, p + i);
        proof {
            lemma_pow2_unfold((i + 1) as nat);
            if i + 1 < 128 {
                lemma_pow2_strictly_increases((i + 1) as nat, 128);
            }
        }
        v = v * 2 + b as u128;
        i = i + 1;
    }
    v
}

/// `2^k` for small `k`.
pub fn small_pow2(k: u32) -> (r: u32)
    requires
        k <= 31,
    ensures
        r as nat == pow2(k as nat),
{
    let mut r: u32 = 1;
    let mut i: u32 = 0;
    proof {
        lemma2_to64();
    }
    while i < k
        invariant
            i <= k <= 31,
            r as nat == pow2(i as nat),
            pow2(31) == 0x80000000nat,
        decreases k - i,
    {
        proof {
            lemma_pow2_unfold((i + 1) as nat);
            if i + 1 < 31 {
                lemma_pow2_strictly_increases((i + 1) as nat, 31);
            }
        }
        r = r * 2;
        i = i + 1;
    }
    r
}

} // verus!
