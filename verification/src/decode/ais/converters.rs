//! Conversions of raw AIS field values.
//!
//! Fields that the protocol scales into fractional units (speed in tenths
//! of a knot, positions in 1/10000 minute, ...) are kept here as their
//! integer codes; only the "not available" markers and the two's
//! complement sign of signed fields are interpreted.

use vstd::prelude::*;
use vstd::arithmetic::power2::{pow2, lemma2_to64, lemma_pow2_strictly_increases};
use crate::bits::small_pow2;
use crate::text::{string_from_chars, trim, trim_chars};

verus! {

/// An MMSI needs no conversion.
pub fn from_mmsi(mmsi: u32) -> (r: u32)
    ensures
        r == mmsi,
{
    mmsi
}

/// An MMSI of 0 marks an absent station.
pub fn from_mmsi_optional(mmsi: u32) -> (r: Option<u32>)
    ensures
        r == (if mmsi == 0 {
            None
        } else {
            Some(mmsi)
        }),
{
    if mmsi == 0 {
        None
    } else {
        Some(mmsi)
    }
}

/// True heading in degrees; 360 and above are "not available".
pub fn from_heading(raw: u16) -> (r: Option<u16>)
    ensures
        r == (if raw >= 360 {
            None
        } else {
            Some(raw)
        }),
{
    if raw >= 360 {
        None
    } else {
        Some(raw)
    }
}

/// IMO number; 0 is "not available".
pub fn from_imo(raw: u32) -> (r: Option<u32>)
    ensures
        r == (if raw == 0 {
            None
        } else {
            Some(raw)
        }),
{
    if raw == 0 {
        None
    } else {
        Some(raw)
    }
}

/// Altitude in meters; 4095 is "not available".
pub fn from_altitude(raw: u16) -> (r: Option<u16>)
    ensures
        r == (if raw == 4095 {
            None
        } else {
            Some(raw)
        }),
{
    if raw == 4095 {
        None
    } else {
        Some(raw)
    }
}

/// Year; 0 is "not available".
pub fn from_year(raw: u16) -> (r: Option<u16>)
    ensures
        r == (if raw == 0 {
            None
        } else {
            Some(raw)
        }),
{
    if raw == 0 {
        None
    } else {
        Some(raw)
    }
}

/// Month; 0 is "not available".
pub fn from_month(raw: u8) -> (r: Option<u8>)
    ensures
        r == (if raw == 0 {
            None
        } else {
            Some(raw)
        }),
{
    if raw == 0 {
        None
    } else {
        Some(raw)
    }
}

/// Day; 0 is "not available".
pub fn from_day(raw: u8) -> (r: Option<u8>)
    ensures
        r == (if raw == 0 {
            None
        } else {
            Some(raw)
        }),
{
    if raw == 0 {
        None
    } else {
        Some(raw)
    }
}

/// Hour; 24 is "not available".
pub fn from_hour(raw: u8) -> (r: Option<u8>)
    ensures
        r == (if raw == 24 {
            None
        } else {
            Some(raw)
        }),
{
    if raw == 24 {
        None
    } else {
        Some(raw)
    }
}

/// Minute; 60 is "not available".
pub fn from_minute(raw: u8) -> (r: Option<u8>)
    ensures
        r == (if raw == 60 {
            None
        } else {
            Some(raw)
        }),
{
    if raw == 60 {
        None
    } else {
        Some(raw)
    }
}

/// Second; 60 is "not available".
pub fn from_second(raw: u8) -> (r: Option<u8>)
    ensures
        r == (if raw == 60 {
            None
        } else {
            Some(raw)
        }),
{
    if raw == 60 {
        None
    } else {
        Some(raw)
    }
}

/// Long-range speed in knots; 63 is "not available".
pub fn from_speed_longrange(raw: u8) -> (r: Option<u8>)
    ensures
        r == (if raw == 63 {
            None
        } else {
            Some(raw)
        }),
{
    if raw == 63 {
        None
    } else {
        Some(raw)
    }
}

/// Long-range course in degrees; 360 and above are "not available".
pub fn from_course_longrange(raw: u16) -> (r: Option<u16>)
    ensures
        r == (if raw >= 360 {
            None
        } else {
            Some(raw)
        }),
{
    if raw >= 360 {
        None
    } else {
        Some(raw)
    }
}

/// SAR aircraft speed in knots; 1023 is "not available".
pub fn from_speed_sar(raw: u16) -> (r: Option<u16>)
    ensures
        r == (if raw == 1023 {
            None
        } else {
            Some(raw)
        }),
{
    if raw == 1023 {
        None
    } else {
        Some(raw)
    }
}

/// The two's complement value of the `bits`-bit code `raw`.
pub open spec fn signed_value(raw: nat, bits: nat) -> int {
    if raw >= pow2((bits - 1) as nat) {
        raw - pow2(bits)
    } else {
        raw as int
    }
}

/// Reads the `bits`-bit code `raw` as a two's complement number.
pub fn sign_extend(raw: u32, bits: u32) -> (r: i32)
    requires
        1 <= bits <= 31,
        (raw as nat) < pow2(bits as nat),
    ensures
        r as int == signed_value(raw as nat, bits as nat),
{
    proof {
        lemma2_to64();
        lemma_pow2_strictly_increases(bits as nat, 32);
        lemma_pow2_strictly_increases((bits - 1) as nat, bits as nat);
        vstd::arithmetic::power2::lemma_pow2_unfold(bits as nat);
    }
    let full = small_pow2(bits);
    let half = small_pow2(bits - 1);
    if raw >= half {
        (raw as i64 - full as i64) as i32
    } else {
        raw as i32
    }
}

/// Longitude in 1/10000 minute from its 28-bit code; 181 degrees is
/// "not available".
pub fn longitude_raw(raw: u32) -> (r: Option<i32>)
    requires
        (raw as nat) < pow2(28),
    ensures
        r == (if signed_value(raw as nat, 28) == 0x6791AC0 {
            None
        } else {
            Some(signed_value(raw as nat, 28) as i32)
        }),
{
    let v = sign_extend(raw, 28);
    if v == 0x6791AC0 {
        None
    } else {
        Some(v)
    }
}

/// Latitude in 1/10000 minute from its 27-bit code; 91 degrees is
/// "not available".
pub fn latitude_raw(raw: u32) -> (r: Option<i32>)
    requires
        (raw as nat) < pow2(27),
    ensures
        r == (if signed_value(raw as nat, 27) == 0x3412140 {
            None
        } else {
            Some(signed_value(raw as nat, 27) as i32)
        }),
{
    let v = sign_extend(raw, 27);
    if v == 0x3412140 {
        None
    } else {
        Some(v)
    }
}

/// A coordinate in tenths (or 1/600) of a minute from its `bits`-bit code;
/// the all-ones code is "not available".
pub fn coordinate_raw(raw: u32, bits: u32) -> (r: Option<i32>)
    requires
        1 <= bits <= 31,
        (raw as nat) < pow2(bits as nat),
    ensures
        r == (if raw as nat == pow2(bits as nat) - 1 {
            None
        } else {
            Some(signed_value(raw as nat, bits as nat) as i32)
        }),
{
    proof {
        lemma2_to64();
        lemma_pow2_strictly_increases(bits as nat, 32);
    }
    let max_val = small_pow2(bits) - 1;
    if raw == max_val {
        None
    } else {
        Some(sign_extend(raw, bits))
    }
}

/// Rate-of-turn indicator (the signed 8-bit code, -127..127); the code -128
/// is "not available".
pub fn turn_indicator(raw: u8) -> (r: Option<i8>)
    ensures
        r == (if raw == 128 {
            None
        } else {
            Some(signed_value(raw as nat, 8) as i8)
        }),
{
    proof {
        lemma2_to64();
    }
    let v = sign_extend(raw as u32, 8);
    if raw == 128 {
        None
    } else {
        Some(v as i8)
    }
}

/// Speed over ground in tenths of a knot; 1023 is "not available" and
/// 1022 stands for 102.2 knots or more.
pub fn speed_tenths(raw: u16) -> (r: Option<u16>)
    ensures
        r == (if raw == 1023 {
            None
        } else {
            Some(raw)
        }),
{
    if raw == 1023 {
        None
    } else {
        Some(raw)
    }
}

/// Course over ground in tenths of a degree; 3600 and above are "not
/// available".
pub fn course_tenths(raw: u16) -> (r: Option<u16>)
    ensures
        r == (if raw >= 3600 {
            None
        } else {
            Some(raw)
        }),
{
    if raw >= 3600 {
        None
    } else {
        Some(raw)
    }
}

/// A coordinate in tenths of a minute from its `bits`-bit two's complement
/// code; the all-ones code ("not available") gives 0.
pub open spec fn tenth_minutes_value(raw: nat, bits: nat) -> int {
    if raw == pow2(bits) - 1 {
        0
    } else {
        signed_value(raw, bits)
    }
}

/// A coordinate in tenths of a minute; the all-ones code gives 0.
pub fn tenth_minutes(raw: u32, bits: u32) -> (r: i32)
    requires
        1 <= bits <= 31,
        (raw as nat) < pow2(bits as nat),
    ensures
        r as int == tenth_minutes_value(raw as nat, bits as nat),
{
    proof {
        lemma2_to64();
        lemma_pow2_strictly_increases(bits as nat, 32);
        vstd::arithmetic::power2::lemma_pow2_unfold(bits as nat);
    }
    match coordinate_raw(raw, bits) {
        Some(v) => v,
        None => 0,
    }
}

/// The character of a 6-bit ASCII code.
pub open spec fn sixbit_char(v: nat) -> char {
    if v == 0 {
        '@'
    } else if v <= 31 {
        ((v + 64) as u8) as char
    } else {
        (v as u8) as char
    }
}

/// The `n` characters coded in the low `6 n` bits of `raw`, first
/// character in the highest bits.
pub open spec fn sixbit_raw_chars(raw: nat, n: nat) -> Seq<char>
    decreases n,
{
    if n == 0 {
        Seq::empty()
    } else {
        sixbit_raw_chars(raw / 64, (n - 1) as nat).push(sixbit_char(raw % 64))
    }
}

/// `s` without its `@` characters.
pub open spec fn drop_padding(s: Seq<char>) -> Seq<char>
    decreases s.len(),
{
    if s.len() == 0 {
        Seq::empty()
    } else {
        drop_padding(s.drop_last()) + if s.last() == '@' {
            Seq::empty()
        } else {
            seq![s.last()]
        }
    }
}

/// Text of `n` 6-bit characters packed in `raw`: padding `@` dropped,
/// surrounding spaces trimmed.
pub open spec fn sixbit_text(raw: nat, n: nat) -> Seq<char> {
    trim(drop_padding(sixbit_raw_chars(raw, n)))
}

pub fn sixbit_to_char(v: u8) -> (c: char)
    requires
        v < 64,
    ensures
        c == sixbit_char(v as nat),
{
    if v == 0 {
        '@'
    } else if v <= 31 {
        ((v + 64) as u8) as char
    } else {
        (v as u8) as char
    }
}

fn sixbit_chars_rec(raw: u128, n: usize) -> (r: Vec<char>)
    ensures
        r@ == sixbit_raw_chars(raw as nat, n as nat),
    decreases n,
{
    if n == 0 {
        Vec::new()
    } else {
        let mut v = sixbit_chars_rec(raw / 64, n - 1);
        v.push(sixbit_to_char((raw % 64) as u8));
        v
    }
}

/// Drops the `@` padding characters of `s`.
pub fn without_padding(s: &[char]) -> (r: Vec<char>)
    ensures
        r@ == drop_padding(s@),
{
    let mut r: Vec<char> = Vec::new();
    let mut i: usize = 0;
    while i < s.len()
        invariant
            i <= s@.len(),
            r@ == drop_padding(s@.take(i as int)),
        decreases s@.len() - i,
    {
        assert(s@.take(i + 1).drop_last() =~= s@.take(i as int));
        if s[i] != '@' {
            r.push(s[i]);
            assert(r@ =~= drop_padding(s@.take(i + 1)));
        } else {
            assert(r@ =~= drop_padding(s@.take(i + 1)));
        }
        i = i + 1;
    }
    assert(s@.take(s@.len() as int) =~= s@);
    r
}

/// Decodes `length` 6-bit characters of `raw`.
pub fn sixbit_string(raw: u128, length: usize) -> (r: String)
    ensures
        r@ == sixbit_text(raw as nat, length as nat),
{
    let cs = sixbit_chars_rec(raw, length);
    let kept = without_padding(cs.as_slice());
    let t = trim_chars(kept.as_slice());
    string_from_chars(t.as_slice())
}

/// 6-bit ASCII text of `length` characters (vendor id, 18 bits).
pub fn from_sixbit_ascii_18(raw: u32, length: usize) -> (r: String)
    requires
        length <= 6,
    ensures
        r@ == sixbit_text(raw as nat, length as nat),
{
    sixbit_string(raw as u128, length)
}

/// 6-bit ASCII text of `length` characters (call sign, 42 bits).
pub fn from_sixbit_ascii_42(raw: u64, length: usize) -> (r: String)
    requires
        length <= 11,
    ensures
        r@ == sixbit_text(raw as nat, length as nat),
{
    sixbit_string(raw as u128, length)
}

/// 6-bit ASCII text of `length` characters (call sign, 42 bits).
pub fn from_sixbit_ascii(raw: u64, length: usize) -> (r: String)
    requires
        length <= 11,
    ensures
        r@ == sixbit_text(raw as nat, length as nat),
{
    sixbit_string(raw as u128, length)
}

/// 6-bit ASCII text of `length` characters (names, 120 bits).
pub fn from_sixbit_ascii_120(raw: u128, length: usize) -> (r: String)
    requires
        length <= 22,
    ensures
        r@ == sixbit_text(raw as nat, length as nat),
{
    sixbit_string(raw, length)
}

/// 6-bit ASCII text, `None` when it is empty.
pub fn from_sixbit_ascii_optional(raw: u128, length: usize) -> (r: Option<String>)
    requires
        length <= 22,
    ensures
        match r {
            Some(s) => s@ == sixbit_text(raw as nat, length as nat) && s@.len() > 0,
            None => sixbit_text(raw as nat, length as nat).len() == 0,
        },
{
    let s = from_sixbit_ascii_120(raw, length);
    if s.as_str().is_empty() {
        None
    } else {
        Some(s)
    }
}

/// 6-bit ASCII text of `length` characters (VIN, 48 bits).
pub fn from_sixbit_ascii_48(raw: u64, length: usize) -> (r: String)
    requires
        length <= 11,
    ensures
        r@ == sixbit_text(raw as nat, length as nat),
{
    sixbit_string(raw as u128, length)
}

/// The value of the first `k` bits of group `j` of `bits` (bits `8 j ..`),
/// the first bit most significant; bits past the end count as 0.
pub open spec fn msb_value(bits: Seq<bool>, j: int, k: nat) -> nat
    decreases k,
{
    if k == 0 {
        0
    } else {
        let i = 8 * j + k - 1;
        2 * msb_value(bits, j, (k - 1) as nat) + if i < bits.len() && bits[i] {
            1nat
        } else {
            0nat
        }
    }
}

/// Bits packed eight to a byte, the first bit of each group most
/// significant; a last partial group is padded with zeros.
pub open spec fn pack_msb(bits: Seq<bool>) -> Seq<u8> {
    Seq::new(((bits.len() + 7) / 8) as nat, |j: int| msb_value(bits, j, 8) as u8)
}

proof fn lemma_msb_value_bound(bits: Seq<bool>, j: int, k: nat)
    ensures
        msb_value(bits, j, k) < pow2(k),
    decreases k,
{
    if k > 0 {
        lemma_msb_value_bound(bits, j, (k - 1) as nat);
        vstd::arithmetic::power2::lemma_pow2_unfold(k);
    } else {
        lemma2_to64();
    }
}

/// Packs variable-length binary data into bytes, most significant bit
/// first, padding the last byte with zeros.
pub fn from_variable_binary_data(bits: &[bool]) -> (r: Vec<u8>)
    ensures
        r@ == pack_msb(bits@),
{
    let n = bits.len();
    let mut result: Vec<u8> = Vec::new();
    let mut byte_buffer: u8 = 0;
    let mut bit_count: usize = 0;
    let mut i: usize = 0;
    proof {
        lemma2_to64();
    }
    while i < n
        invariant
            n == bits@.len(),
            i <= n,
            bit_count == i % 8,
            result@.len() == i / 8,
            forall|q: int| 0 <= q < i / 8 ==> result@[q] == msb_value(bits@, q, 8) as u8,
            byte_buffer as nat == msb_value(bits@, (i / 8) as int, bit_count as nat),
            pow2(8) == 256,
            pow2(7) == 128,
        decreases n - i,
    {
        proof {
            lemma_msb_value_bound(bits@, (i / 8) as int, bit_count as nat);
            if bit_count < 7 {
                vstd::arithmetic::power2::lemma_pow2_strictly_increases(bit_count as nat, 7);
            }
            assert((i + 1) / 8 == if bit_count == 7 {
                i / 8 + 1
            } else {
                i / 8 + 0
            });
            assert(8 * (i / 8) + bit_count == i);
        }
        byte_buffer = byte_buffer * 2 + if bits[i] {
            1
        } else {
            0
        };
        bit_count = bit_count + 1;
        if bit_count == 8 {
            result.push(byte_buffer);
            byte_buffer = 0;
            bit_count = 0;
        }
        i = i + 1;
    }
    if bit_count > 0 {
        let ghost j: int = (n / 8) as int;
        let mut k = bit_count;
        while k < 8
            invariant
                bit_count <= k <= 8,
                bit_count == n % 8,
                j == n / 8,
                byte_buffer as nat == msb_value(bits@, j, k as nat),
                n == bits@.len(),
                pow2(8) == 256,
                pow2(7) == 128,
            decreases 8 - k,
        {
            proof {
                lemma_msb_value_bound(bits@, j, k as nat);
                if k < 7 {
                    vstd::arithmetic::power2::lemma_pow2_strictly_increases(k as nat, 7);
                }
                assert(8 * j + k >= n);
            }
            byte_buffer = byte_buffer * 2;
            k = k + 1;
        }
        result.push(byte_buffer);
    }
    assert(result@ =~= pack_msb(bits@));
    result
}

} // verus!
