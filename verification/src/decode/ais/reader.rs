//! Sequential bit reading over a message's bytes.
//!
//! A message is read field after field from its first bit.  A read of `n`
//! bits succeeds while `n` bits are left before the reading limit; a read
//! that fails leaves the position where it was and drops every byte that
//! was not started yet, so that only the bits of the current byte can still
//! be read afterwards.

use vstd::prelude::*;
use vstd::arithmetic::power2::{pow2, lemma2_to64};
use crate::bits::{bits_at, get_bits};
use crate::decode::ais::converters::{sixbit_char, sixbit_text, drop_padding, sixbit_to_char, without_padding};
use crate::text::{trim, trim_chars, string_from_chars};

verus! {

/// Why a message could not be decoded.
#[derive(Debug, Clone, Copy, PartialEq, Eq, Structural)]
pub enum DecodeError {
    /// The data ends before a field that the message must hold.
    Incomplete,
    /// A spare field that must be zero is not.
    Assertion,
    /// The 6-bit message type is not one that is decoded.
    UnknownMessageType(u8),
    /// A static data report whose part number is neither 0 nor 1.
    InvalidPartNumber(u8),
}

/// The first multiple of 8 at or after `p`.
pub open spec fn round_up8(p: int) -> int {
    (p + 7) / 8 * 8
}

/// Whether the first `end` bits of `s` exist.
pub open spec fn has_bits(s: Seq<u8>, end: int) -> bool {
    end <= 8 * s.len()
}

/// Reading state: the next bit and the end of the bits that can be read.
#[derive(Debug, Clone, Copy)]
pub struct BitCursor {
    pub pos: u128,
    pub lim: u128,
}

impl BitCursor {
    pub open spec fn valid(self, s: Seq<u8>) -> bool {
        self.pos <= self.lim <= 8 * s.len()
    }

    /// A cursor at the first bit of `s`.
    pub open spec fn start(s: Seq<u8>) -> BitCursor {
        BitCursor { pos: 0, lim: (8 * s.len()) as u128 }
    }

    /// The value of the next `n` bits, if they can be read.
    pub open spec fn value(self, s: Seq<u8>, n: nat) -> Option<nat> {
        if self.pos + n <= self.lim {
            Some(bits_at(s, self.pos as int, n))
        } else {
            None
        }
    }

    /// The cursor after an attempt to read `n` bits.
    pub open spec fn after(self, n: nat) -> BitCursor {
        if self.pos + n <= self.lim {
            BitCursor { pos: (self.pos + n) as u128, lim: self.lim }
        } else {
            BitCursor { pos: self.pos, lim: round_up8(self.pos as int) as u128 }
        }
    }

    /// Number of whole bytes that can still be read.
    pub open spec fn byte_count(self) -> nat {
        ((self.lim - self.pos) / 8) as nat
    }

    /// The whole bytes that can still be read, in order.
    pub open spec fn rest_bytes(self, s: Seq<u8>) -> Seq<u8> {
        Seq::new(self.byte_count(), |j: int| bits_at(s, self.pos + 8 * j, 8) as u8)
    }

    /// The cursor after reading bytes until a read fails.
    pub open spec fn after_rest(self) -> BitCursor {
        let p = self.pos + 8 * self.byte_count();
        BitCursor { pos: p as u128, lim: round_up8(p) as u128 }
    }

    pub fn new(data: &[u8]) -> (r: BitCursor)
        ensures
            r == BitCursor::start(data@),
            r.valid(data@),
    {
        BitCursor { pos: 0, lim: data.len() as u128 * 8 }
    }

    /// Reads the next `n` bits.
    pub fn read(&mut self, data: &[u8], n: u128) -> (r: Option<u128>)
        requires
            old(self).valid(data@),
            n <= 128,
        ensures
            final(self).valid(data@),
            *final(self) == old(self).after(n as nat),
            match r {
                Some(v) => old(self).value(data@, n as nat) == Some(v as nat) && (v as nat) < pow2(
                    n as nat,
                ),
                None => old(self).value(data@, n as nat) is None,
            },
    {
        let len = data.len();
        assert(self.pos <= 8 * len);
        if n <= self.lim - self.pos {
            let v = get_bits(data, self.pos, n);
            self.pos = self.pos + n;
            Some(v)
        } else {
            self.lim = (self.pos + 7) / 8 * 8;
            None
        }
    }

    /// Reads whole bytes until a read fails.
    pub fn read_rest(&mut self, data: &[u8]) -> (r: Vec<u8>)
        requires
            old(self).valid(data@),
        ensures
            final(self).valid(data@),
            *final(self) == old(self).after_rest(),
            r@ == old(self).rest_bytes(data@),
    {
        let len = data.len();
        let ghost c0 = *self;
        let mut out: Vec<u8> = Vec::new();
        while 8 <= self.lim - self.pos
            invariant
                self.valid(data@),
                data@.len() == len,
                self.lim == c0.lim,
                c0.pos <= self.pos,
                (self.pos - c0.pos) % 8 == 0,
                out@.len() == (self.pos - c0.pos) / 8,
                forall|j: int| 0 <= j < out@.len() ==> out@[j] == bits_at(data@, c0.pos + 8 * j, 8) as u8,
            decreases self.lim - self.pos,
        {
            let v = get_bits(data, self.pos, 8);
            proof {
                lemma2_to64();
            }
            out.push(v as u8);
            self.pos = self.pos + 8;
        }
        self.lim = (self.pos + 7) / 8 * 8;
        assert(out@ =~= c0.rest_bytes(data@));
        out
    }
}

/// Whether `data` holds at least `end` bits.
pub fn has_bits_exec(data: &[u8], end: u128) -> (r: bool)
    ensures
        r == has_bits(data@, end as int),
{
    end <= data.len() as u128 * 8
}

/// An optional read narrowed to a byte.
pub open spec fn opt_u8(o: Option<nat>) -> Option<u8> {
    match o {
        Some(v) => Some(v as u8),
        None => None,
    }
}

/// An optional read narrowed to 16 bits.
pub open spec fn opt_u16(o: Option<nat>) -> Option<u16> {
    match o {
        Some(v) => Some(v as u16),
        None => None,
    }
}

/// An optional read narrowed to 32 bits.
pub open spec fn opt_u32(o: Option<nat>) -> Option<u32> {
    match o {
        Some(v) => Some(v as u32),
        None => None,
    }
}

/// An optional MMSI read, where 0 also means "none".
pub open spec fn nonzero_u32(o: Option<nat>) -> Option<u32> {
    match o {
        Some(v) => if v == 0 {
            None
        } else {
            Some(v as u32)
        },
        None => None,
    }
}

/// `t` is the optional text of `n` 6-bit characters read as `o`: absent
/// when the read failed or the text is empty.
pub open spec fn text_matches(t: Option<String>, o: Option<nat>, n: nat) -> bool {
    match o {
        Some(v) => match t {
            Some(x) => x@ == sixbit_text(v, n) && x@.len() > 0,
            None => sixbit_text(v, n).len() == 0,
        },
        None => t is None,
    }
}

/// `b` without its last three bytes; empty when it has fewer.
pub open spec fn without_last3(b: Seq<u8>) -> Seq<u8> {
    if b.len() >= 3 {
        b.take(b.len() - 3)
    } else {
        Seq::empty()
    }
}

/// The 6-bit characters of the whole 6-bit groups of `b`.
pub open spec fn byte_sixbit_chars(b: Seq<u8>) -> Seq<char> {
    Seq::new((8 * b.len() / 6) as nat, |i: int| sixbit_char(bits_at(b, 6 * i, 6)))
}

/// Text carried in bytes as 6-bit characters: padding `@` dropped and
/// surrounding spaces trimmed; bits after the last whole character are
/// ignored.
pub open spec fn bytes_text(b: Seq<u8>) -> Seq<char> {
    trim(drop_padding(byte_sixbit_chars(b)))
}

/// Decodes the 6-bit text carried in `b`.
pub fn text_from_bytes(b: &[u8]) -> (r: String)
    ensures
        r@ == bytes_text(b@),
{
    let len = b.len();
    let n: u128 = len as u128 * 8 / 6;
    let mut cs: Vec<char> = Vec::new();
    let mut i: u128 = 0;
    proof {
        lemma2_to64();
    }
    while i < n
        invariant
            n == 8 * b@.len() / 6,
            b@.len() == len,
            i <= n,
            cs@.len() == i,
            forall|j: int| 0 <= j < i ==> cs@[j] == sixbit_char(bits_at(b@, 6 * j, 6)),
            pow2(6) == 64,
        decreases n - i,
    {
        let v = get_bits(b, 6 * i, 6);
        cs.push(sixbit_to_char(v as u8));
        i = i + 1;
    }
    assert(cs@ =~= byte_sixbit_chars(b@));
    let kept = without_padding(cs.as_slice());
    let t = trim_chars(kept.as_slice());
    string_from_chars(t.as_slice())
}

} // verus!
