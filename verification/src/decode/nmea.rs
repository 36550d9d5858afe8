//! NMEA AIVDM/AIVDO sentences: parsing, payload de-armoring and
//! assembly of multi-fragment messages.

use vstd::prelude::*;
use vstd::utf8::{decode_utf8, encode_utf8, encode_utf8_decode_utf8, is_char_boundary, valid_utf8};
use vstd::string::StringSliceAdditionalSpecFns;
use vstd::arithmetic::power2::{
    pow2, lemma_pow2_unfold, lemma_pow2_strictly_increases, lemma_pow2_adds, lemma2_to64,
};
use crate::bits::small_pow2;
use crate::text::{
    chars_of, checksum_of, parse_uint, parse_unsigned, split, split_chars, string_from_chars,
    sub_chars, trim, trim_chars, views, xor_utf8,
};

verus! {

/// A parsed NMEA AIS sentence.
#[derive(Debug, Clone, PartialEq)]
pub struct NmeaAisMessage {
    /// Sentence type (AIVDM, AIVDO, BSVDM, B1VDM or B2VDM)
    pub message_type: String,
    /// Total number of fragments
    pub fragment_count: u8,
    /// Fragment number (1-based)
    pub fragment_number: u8,
    /// Sequential message id of a multi-sentence message
    pub message_id: Option<String>,
    /// Radio channel code
    pub channel: char,
    /// Armored 6-bit payload
    pub payload: String,
    /// Number of fill bits (0-5)
    pub fill_bits: u8,
    /// Checksum given in the sentence
    pub checksum: u8,
}

/// Errors of NMEA parsing and assembly.
#[derive(Debug, Clone, Copy, PartialEq, Eq, Structural)]
pub enum NmeaError {
    InvalidFormat,
    InvalidChecksum,
    InvalidFragmentCount(u8),
    InvalidFragmentNumber(u8),
    InvalidFillBits(u8),
    Invalid6BitChar(char),
    IncompleteMessage,
}

/// The mathematical content of an [`NmeaAisMessage`].
pub struct NmeaView {
    pub message_type: Seq<char>,
    pub fragment_count: u8,
    pub fragment_number: u8,
    pub message_id: Option<Seq<char>>,
    pub channel: char,
    pub payload: Seq<char>,
    pub fill_bits: u8,
    pub checksum: u8,
}

pub open spec fn opt_view(o: Option<String>) -> Option<Seq<char>> {
    match o {
        Some(s) => Some(s@),
        None => None,
    }
}

impl View for NmeaAisMessage {
    type V = NmeaView;

    open spec fn view(&self) -> NmeaView {
        NmeaView {
            message_type: self.message_type@,
            fragment_count: self.fragment_count,
            fragment_number: self.fragment_number,
            message_id: opt_view(self.message_id),
            channel: self.channel,
            payload: self.payload@,
            fill_bits: self.fill_bits,
            checksum: self.checksum,
        }
    }
}

pub open spec fn result_view(r: Result<NmeaAisMessage, NmeaError>) -> Result<NmeaView, NmeaError> {
    match r {
        Ok(m) => Ok(m@),
        Err(e) => Err(e),
    }
}

/// The sentence types this parser accepts.
pub open spec fn is_ais_sentence_type(w: Seq<char>) -> bool {
    ||| w == seq!['A', 'I', 'V', 'D', 'M']
    ||| w == seq!['A', 'I', 'V', 'D', 'O']
    ||| w == seq!['B', 'S', 'V', 'D', 'M']
    ||| w == seq!['B', '1', 'V', 'D', 'M']
    ||| w == seq!['B', '2', 'V', 'D', 'M']
}

/// The five AIS sentence types AIVDM, AIVDO, BSVDM, B1VDM and B2VDM are
/// accepted: a body of seven fields whose fragment count, fragment number,
/// channel and fill bits are well formed parses, whichever of them it names,
/// and the result carries its fields. A body of seven fields that names any
/// other sentence type is refused as badly formed.
pub proof fn lemma_sentence_types(data: Seq<char>, checksum: u8)
    requires
        split(data, ',').len() == 7,
    ensures
        ({
            let f = split(data, ',');
            let count = parse_uint(f[1], 10, 255);
            let number = parse_uint(f[2], 10, 255);
            let fill = parse_uint(f[6], 10, 255);
            (f[0] == seq!['A', 'I', 'V', 'D', 'M'] || f[0] == seq!['A', 'I', 'V', 'D', 'O']
                || f[0] == seq!['B', 'S', 'V', 'D', 'M'] || f[0] == seq!['B', '1', 'V', 'D', 'M']
                || f[0] == seq!['B', '2', 'V', 'D', 'M']) && count is Some && count.unwrap() >= 1
                && number is Some && 1 <= number.unwrap() <= count.unwrap() && f[4].len() > 0
                && fill is Some && fill.unwrap() <= 5 ==> (spec_parse_fields(data, checksum)
                matches Ok(v) && v.message_type == f[0] && v.fragment_count == count.unwrap()
                && v.fragment_number == number.unwrap() && v.channel == f[4][0] && v.payload
                == f[5] && v.fill_bits == fill.unwrap() && v.checksum == checksum)
        }),
        ({
            let w = split(data, ',')[0];
            w != seq!['A', 'I', 'V', 'D', 'M'] && w != seq!['A', 'I', 'V', 'D', 'O'] && w
                != seq!['B', 'S', 'V', 'D', 'M'] && w != seq!['B', '1', 'V', 'D', 'M'] && w
                != seq!['B', '2', 'V', 'D', 'M'] ==> spec_parse_fields(data, checksum)
                == Err::<NmeaView, NmeaError>(NmeaError::InvalidFormat)
        }),
{
}

/// `s` with one leading `!` removed, if it has one.
pub open spec fn strip_bang(s: Seq<char>) -> Seq<char> {
    if s.len() > 0 && s[0] == '!' {
        s.drop_first()
    } else {
        s
    }
}

/// The comma separated fields of a sentence body, checked and converted.
pub open spec fn spec_parse_fields(data: Seq<char>, checksum: u8) -> Result<NmeaView, NmeaError> {
    let f = split(data, ',');
    if f.len() != 7 || !is_ais_sentence_type(f[0]) {
        Err(NmeaError::InvalidFormat)
    } else {
        match parse_uint(f[1], 10, 255) {
            None => Err(NmeaError::InvalidFormat),
            Some(count) => if count == 0 {
                Err(NmeaError::InvalidFragmentCount(0))
            } else {
                match parse_uint(f[2], 10, 255) {
                    None => Err(NmeaError::InvalidFormat),
                    Some(number) => if number == 0 || number > count {
                        Err(NmeaError::InvalidFragmentNumber(number as u8))
                    } else if f[4].len() == 0 {
                        Err(NmeaError::InvalidFormat)
                    } else {
                        match parse_uint(f[6], 10, 255) {
                            None => Err(NmeaError::InvalidFormat),
                            Some(fill) => if fill > 5 {
                                Err(NmeaError::InvalidFillBits(fill as u8))
                            } else {
                                Ok(
                                    NmeaView {
                                        message_type: f[0],
                                        fragment_count: count as u8,
                                        fragment_number: number as u8,
                                        message_id: if f[3].len() == 0 {
                                            None
                                        } else {
                                            Some(f[3])
                                        },
                                        channel: f[4][0],
                                        payload: f[5],
                                        fill_bits: fill as u8,
                                        checksum,
                                    },
                                )
                            },
                        }
                    },
                }
            },
        }
    }
}

/// What parsing the sentence `s` gives: the sentence is trimmed, a leading
/// `!` is dropped, the body before the single `*` must XOR (over its UTF-8
/// bytes) to the hexadecimal checksum after it, and the body must hold the
/// seven AIS fields.
pub open spec fn spec_parse(s: Seq<char>) -> Result<NmeaView, NmeaError> {
    let parts = split(strip_bang(trim(s)), '*');
    if parts.len() != 2 {
        Err(NmeaError::InvalidFormat)
    } else {
        match parse_uint(parts[1], 16, 255) {
            None => Err(NmeaError::InvalidFormat),
            Some(checksum) => if xor_utf8(parts[0]) != checksum as u8 {
                Err(NmeaError::InvalidChecksum)
            } else {
                spec_parse_fields(parts[0], checksum as u8)
            },
        }
    }
}

fn is_sentence_type(w: &[char]) -> (r: bool)
    ensures
        r == is_ais_sentence_type(w@),
{
    let r = w.len() == 5 && w[2] == 'V' && w[3] == 'D' && ((w[0] == 'A' && w[1] == 'I' && (w[4]
        == 'M' || w[4] == 'O')) || (w[0] == 'B' && (w[1] == 'S' || w[1] == '1' || w[1] == '2')
        && w[4] == 'M'));
    proof {
        if w@.len() == 5 {
            if w@ == seq!['A', 'I', 'V', 'D', 'M'] || w@ == seq!['A', 'I', 'V', 'D', 'O'] || w@
                == seq!['B', 'S', 'V', 'D', 'M'] || w@ == seq!['B', '1', 'V', 'D', 'M'] || w@
                == seq!['B', '2', 'V', 'D', 'M'] {
                assert(r);
            }
            if r {
                assert(w@ =~= seq![w@[0], w@[1], w@[2], w@[3], w@[4]]);
            }
        }
    }
    r
}

fn parse_body(data: &[char], checksum: u8) -> (r: Result<NmeaAisMessage, NmeaError>)
    ensures
        result_view(r) == spec_parse_fields(data@, checksum),
{
    let f = split_chars(data, ',');
    proof {
        assert(views(f@) == split(data@, ','));
    }
    if f.len() != 7 {
        return Err(NmeaError::InvalidFormat);
    }
    assert(f@[0]@ == split(data@, ',')[0]);
    if !is_sentence_type(f[0].as_slice()) {
        return Err(NmeaError::InvalidFormat);
    }
    assert(f@[1]@ == split(data@, ',')[1]);
    assert(f@[2]@ == split(data@, ',')[2]);
    assert(f@[3]@ == split(data@, ',')[3]);
    assert(f@[4]@ == split(data@, ',')[4]);
    assert(f@[5]@ == split(data@, ',')[5]);
    assert(f@[6]@ == split(data@, ',')[6]);
    let count = match parse_unsigned(f[1].as_slice(), 10, 255) {
        None => {
            return Err(NmeaError::InvalidFormat);
        },
        Some(v) => v as u8,
    };
    if count == 0 {
        return Err(NmeaError::InvalidFragmentCount(0));
    }
    let number = match parse_unsigned(f[2].as_slice(), 10, 255) {
        None => {
            return Err(NmeaError::InvalidFormat);
        },
        Some(v) => v as u8,
    };
    if number == 0 || number > count {
        return Err(NmeaError::InvalidFragmentNumber(number));
    }
    let message_id = if f[3].len() == 0 {
        None
    } else {
        Some(string_from_chars(f[3].as_slice()))
    };
    if f[4].len() == 0 {
        return Err(NmeaError::InvalidFormat);
    }
    let channel = f[4][0];
    let fill = match parse_unsigned(f[6].as_slice(), 10, 255) {
        None => {
            return Err(NmeaError::InvalidFormat);
        },
        Some(v) => v as u8,
    };
    if fill > 5 {
        return Err(NmeaError::InvalidFillBits(fill));
    }
    let m = NmeaAisMessage {
        message_type: string_from_chars(f[0].as_slice()),
        fragment_count: count,
        fragment_number: number,
        message_id,
        channel,
        payload: string_from_chars(f[5].as_slice()),
        fill_bits: fill,
        checksum,
    };
    Ok(m)
}

/// Converts one armored payload character to its 6-bit value: `0` to `W`
/// give 0 to 39, `` ` `` to `w` give 40 to 63; every other character,
/// non-ASCII ones included, is invalid.
pub open spec fn spec_ais_6bit(c: char) -> Result<u8, NmeaError> {
    let u = c as u32;
    if 48 <= u <= 87 {
        Ok((u - 48) as u8)
    } else if 96 <= u <= 119 {
        Ok((u - 56) as u8)
    } else {
        Err(NmeaError::Invalid6BitChar(c))
    }
}

/// Convert an AIS 6-bit payload character to its value.
pub fn ais_6bit_to_binary(c: char) -> (r: Result<u8, NmeaError>)
    ensures
        r == spec_ais_6bit(c),
{
    let code = c as u32;
    if 48 <= code && code <= 87 {
        Ok((code - 48) as u8)
    } else if 96 <= code && code <= 119 {
        Ok((code - 56) as u8)
    } else {
        Err(NmeaError::Invalid6BitChar(c))
    }
}

/// The 6-bit values of an armored payload, or the error of its first
/// character that is not a payload character.
pub open spec fn sixbit_values(p: Seq<char>) -> Result<Seq<u8>, NmeaError>
    decreases p.len(),
{
    if p.len() == 0 {
        Ok(Seq::empty())
    } else {
        match sixbit_values(p.drop_last()) {
            Err(e) => Err(e),
            Ok(v) => match spec_ais_6bit(p.last()) {
                Err(e) => Err(e),
                Ok(x) => Ok(v.push(x)),
            },
        }
    }
}

/// Bit `i` of the stream formed by the 6-bit symbols `v`, most significant first.
pub open spec fn sym_bit(v: Seq<u8>, i: int) -> nat {
    ((v[i / 6] >> ((5 - i % 6) as u8)) & 1u8) as nat
}

/// The big-endian value of `n` bits of the symbol stream `v` from bit `p`.
pub open spec fn sym_bits(v: Seq<u8>, p: int, n: nat) -> nat
    decreases n,
{
    if n == 0 {
        0
    } else {
        2 * sym_bits(v, p, (n - 1) as nat) + sym_bit(v, p + n - 1)
    }
}

/// Number of bits left over after the whole bytes of `n` symbols.
pub open spec fn leftover_bits(n: nat) -> nat {
    (6 * n) % 8
}

/// The bytes packed from 6-bit symbols: every whole byte of the stream,
/// then, when bits are left over, one more byte holding at its top the
/// leftover bits that are data, that is all of them but the `fill` bits
/// that end the stream.
pub open spec fn pack_symbols(v: Seq<u8>, fill: nat) -> Seq<u8> {
    let total = 6 * v.len();
    let whole = Seq::new(total / 8, |j: int| sym_bits(v, 8 * j, 8) as u8);
    let r = leftover_bits(v.len());
    if r > 0 && r > fill {
        let rem = (r - fill) as nat;
        whole.push((sym_bits(v, total - r, rem) * pow2((8 - rem) as nat)) as u8)
    } else {
        whole
    }
}

/// De-armoring never subtracts more fill bits than are left over.
pub open spec fn fill_fits(p: Seq<char>, fill: u8) -> bool {
    let r = leftover_bits(p.len());
    sixbit_values(p) is Ok ==> (r == 0 || fill <= r)
}

pub open spec fn spec_payload_to_binary(p: Seq<char>, fill: u8) -> Result<Seq<u8>, NmeaError> {
    match sixbit_values(p) {
        Err(e) => Err(e),
        Ok(v) => Ok(pack_symbols(v, fill as nat)),
    }
}

fn get_sym_bit(v: &[u8], i: u128) -> (r: u8)
    requires
        i < v@.len() * 6,
    ensures
        r as nat == sym_bit(v@, i as int),
        r <= 1,
{
    let x = v[(i / 6) as usize];
    let sh = (5 - i % 6) as u8;
    let r = (x >> sh) & 1u8;
    assert(r <= 1) by (bit_vector)
        requires r == (x >> sh) & 1u8;
    r
}

fn get_sym_bits(v: &[u8], p: u128, n: u128) -> (r: u8)
    requires
        p + n <= v@.len() * 6,
        n <= 8,
    ensures
        r as nat == sym_bits(v@, p as int, n as nat),
        (r as nat) < pow2(n as nat),
{
    let len = v.len();
    let mut x: u8 = 0;
    let mut i: u128 = 0;
    proof {
        lemma2_to64();
    }
    while i < n
        invariant
            i <= n <= 8,
            len == v@.len(),
            p + n <= v@.len() * 6,
            x as nat == sym_bits(v@, p as int, i as nat),
            (x as nat) < pow2(i as nat),
            pow2(8) == 256,
        decreases n - i,
    {
        let b = get_sym_bit(v, p + i);
        proof {
            lemma_pow2_unfold((i + 1) as nat);
            if i + 1 < 8 {
                lemma_pow2_strictly_increases((i + 1) as nat, 8);
            }
        }
        x = x * 2 + b;
        i = i + 1;
    }
    x
}

/// The 6-bit values of the characters of `p`.
pub fn payload_values(p: &[char]) -> (r: Result<Vec<u8>, NmeaError>)
    ensures
        match r {
            Ok(v) => sixbit_values(p@) == Ok::<Seq<u8>, NmeaError>(v@),
            Err(e) => sixbit_values(p@) == Err::<Seq<u8>, NmeaError>(e),
        },
{
    let mut v: Vec<u8> = Vec::new();
    let mut i: usize = 0;
    while i < p.len()
        invariant
            i <= p@.len(),
            sixbit_values(p@.take(i as int)) == Ok::<Seq<u8>, NmeaError>(v@),
        decreases p@.len() - i,
    {
        assert(p@.take(i + 1).drop_last() =~= p@.take(i as int));
        match ais_6bit_to_binary(p[i]) {
            Err(e) => {
                proof {
                    lemma_sixbit_values_prefix_err(p@, i as int + 1);
                }
                return Err(e);
            },
            Ok(x) => {
                v.push(x);
            },
        }
        i = i + 1;
    }
    assert(p@.take(p@.len() as int) =~= p@);
    Ok(v)
}

proof fn lemma_sixbit_values_len(p: Seq<char>)
    ensures
        sixbit_values(p) matches Ok(v) ==> v.len() == p.len(),
    decreases p.len(),
{
    if p.len() > 0 {
        lemma_sixbit_values_len(p.drop_last());
    }
}

proof fn lemma_sixbit_values_prefix_err(p: Seq<char>, k: int)
    requires
        0 <= k <= p.len(),
        sixbit_values(p.take(k)) is Err,
    ensures
        sixbit_values(p) == sixbit_values(p.take(k)),
    decreases p.len(),
{
    if k < p.len() {
        assert(p.drop_last().take(k) =~= p.take(k));
        lemma_sixbit_values_prefix_err(p.drop_last(), k);
    } else {
        assert(p.take(k) =~= p);
    }
}

/// Packs 6-bit symbols into bytes (see [`pack_symbols`]).
pub fn pack_payload(v: &[u8], fill: u8) -> (r: Vec<u8>)
    requires
        ({
            let rr = leftover_bits(v@.len());
            rr == 0 || fill <= rr
        }),
    ensures
        r@ == pack_symbols(v@, fill as nat),
{
    let total: u128 = v.len() as u128 * 6;
    let nb: u128 = total / 8;
    let mut out: Vec<u8> = Vec::new();
    let mut j: u128 = 0;
    while j < nb
        invariant
            j <= nb == total / 8,
            total == v@.len() * 6,
            out@ =~= Seq::new(j as nat, |k: int| sym_bits(v@, 8 * k, 8) as u8),
        decreases nb - j,
    {
        let x = get_sym_bits(v, 8 * j, 8);
        out.push(x);
        j = j + 1;
    }
    let r: u128 = total % 8;
    if r > 0 && r > fill as u128 {
        let rem: u128 = r - fill as u128;
        let x = get_sym_bits(v, total - r, rem);
        proof {
            lemma2_to64();
            lemma_pow2_adds(rem as nat, (8 - rem) as nat);
            vstd::arithmetic::power2::lemma_pow2_pos((8 - rem) as nat);
        }
        assert(x as nat * pow2((8 - rem) as nat) < 256) by (nonlinear_arith)
            requires
                (x as nat) < pow2(rem as nat),
                pow2(rem as nat) * pow2((8 - rem) as nat) == pow2(8),
                pow2(8) == 256;
        let shifted = (x as u32) * small_pow2((8 - rem) as u32);
        out.push(shifted as u8);
    }
    out
}

/// De-armors the payload `p` with `fill` fill bits.
pub fn payload_bytes(p: &str, fill: u8) -> (r: Result<Vec<u8>, NmeaError>)
    requires
        fill_fits(p@, fill),
    ensures
        match r {
            Ok(b) => spec_payload_to_binary(p@, fill) == Ok::<Seq<u8>, NmeaError>(b@),
            Err(e) => spec_payload_to_binary(p@, fill) == Err::<Seq<u8>, NmeaError>(e),
        },
{
    let cs = chars_of(p);
    payload_chars_bytes(cs.as_slice(), fill)
}

/// De-armors the payload characters `p` with `fill` fill bits.
pub fn payload_chars_bytes(p: &[char], fill: u8) -> (r: Result<Vec<u8>, NmeaError>)
    requires
        fill_fits(p@, fill),
    ensures
        match r {
            Ok(b) => spec_payload_to_binary(p@, fill) == Ok::<Seq<u8>, NmeaError>(b@),
            Err(e) => spec_payload_to_binary(p@, fill) == Err::<Seq<u8>, NmeaError>(e),
        },
{
    proof {
        lemma_sixbit_values_len(p@);
    }
    match payload_values(p) {
        Err(e) => Err(e),
        Ok(v) => Ok(pack_payload(v.as_slice(), fill)),
    }
}

impl NmeaAisMessage {
    /// Parse an NMEA AIVDM/AIVDO sentence.
    pub fn parse(sentence: &str) -> (r: Result<Self, NmeaError>)
        ensures
            result_view(r) == spec_parse(sentence@),
    {
        let all = chars_of(sentence);
        let t = trim_chars(all.as_slice());
        let body = if t.len() > 0 && t[0] == '!' {
            sub_chars(t.as_slice(), 1, t.len())
        } else {
            t
        };
        assert(body@ == strip_bang(trim(sentence@)));
        let parts = split_chars(body.as_slice(), '*');
        assert(views(parts@) == split(body@, '*'));
        if parts.len() != 2 {
            return Err(NmeaError::InvalidFormat);
        }
        assert(parts@[0]@ == split(body@, '*')[0]);
        assert(parts@[1]@ == split(body@, '*')[1]);
        let checksum = match parse_unsigned(parts[1].as_slice(), 16, 255) {
            None => {
                return Err(NmeaError::InvalidFormat);
            },
            Some(v) => v as u8,
        };
        if checksum_of(parts[0].as_slice()) != checksum {
            return Err(NmeaError::InvalidChecksum);
        }
        parse_body(parts[0].as_slice(), checksum)
    }

    /// Convert the 6-bit encoded payload to binary data.
    pub fn payload_to_binary(&self) -> (r: Result<Vec<u8>, NmeaError>)
        requires
            fill_fits(self.payload@, self.fill_bits),
        ensures
            match r {
                Ok(b) => spec_payload_to_binary(self.payload@, self.fill_bits) == Ok::<
                    Seq<u8>,
                    NmeaError,
                >(b@),
                Err(e) => spec_payload_to_binary(self.payload@, self.fill_bits) == Err::<
                    Seq<u8>,
                    NmeaError,
                >(e),
            },
    {
        payload_bytes(self.payload.as_str(), self.fill_bits)
    }

    /// Whether this is a complete single-fragment message.
    pub fn is_complete(&self) -> (r: bool)
        ensures
            r == (self.fragment_count == 1 && self.fragment_number == 1),
    {
        self.fragment_count == 1 && self.fragment_number == 1
    }

    /// Whether this is a fragment of a multi-fragment message.
    pub fn is_multi_fragment(&self) -> (r: bool)
        ensures
            r == (self.fragment_count > 1),
    {
        self.fragment_count > 1
    }

    /// The talker id, the first two bytes of the sentence type ("AI" of "AIVDM").
    pub fn talker(&self) -> (r: &str)
        requires
            encode_utf8(self.message_type@).len() <= usize::MAX,
            encode_utf8(self.message_type@).len() >= 2 ==> is_char_boundary(
                encode_utf8(self.message_type@),
                2,
            ),
        ensures
            r.spec_bytes() == (if encode_utf8(self.message_type@).len() >= 2 {
                encode_utf8(self.message_type@).subrange(0, 2)
            } else {
                Seq::<u8>::empty()
            }),
    {
        let s = self.message_type.as_str();
        assert(s.spec_bytes() == encode_utf8(self.message_type@));
        if s.len() >= 2 {
            let (a, _b) = s.split_at(2);
            assert(a.spec_bytes() == encode_utf8(self.message_type@).subrange(0, 2));
            a
        } else {
            let e = "";
            proof {
                reveal_strlit("");
                assert(e@ =~= Seq::<char>::empty());
                assert(encode_utf8(e@) =~= Seq::<u8>::empty());
                assert(e.spec_bytes() =~= Seq::<u8>::empty());
            }
            e
        }
    }

    /// The sentence type without its talker ("VDM" of "AIVDM").
    pub fn message_type_suffix(&self) -> (r: &str)
        requires
            encode_utf8(self.message_type@).len() <= usize::MAX,
            encode_utf8(self.message_type@).len() > 2 ==> is_char_boundary(
                encode_utf8(self.message_type@),
                2,
            ),
        ensures
            r.spec_bytes() == (if encode_utf8(self.message_type@).len() > 2 {
                encode_utf8(self.message_type@).subrange(2, encode_utf8(self.message_type@).len() as int)
            } else {
                encode_utf8(self.message_type@)
            }),
    {
        let s = self.message_type.as_str();
        if s.len() > 2 {
            let (_a, b) = s.split_at(2);
            b
        } else {
            s
        }
    }

    /// The AIS message id: the first 6 bits of the binary payload.
    pub fn ais_message_id(&self) -> (r: Result<u8, NmeaError>)
        requires
            fill_fits(self.payload@, self.fill_bits),
        ensures
            match spec_payload_to_binary(self.payload@, self.fill_bits) {
                Err(e) => r == Err::<u8, NmeaError>(e),
                Ok(b) => if b.len() == 0 {
                    r == Err::<u8, NmeaError>(NmeaError::InvalidFormat)
                } else {
                    r == Ok::<u8, NmeaError>(b[0] >> 2u8)
                },
            },
    {
        let binary = self.payload_to_binary()?;
        if binary.len() == 0 {
            return Err(NmeaError::InvalidFormat);
        }
        Ok(binary[0] >> 2)
    }

    /// Same as [`NmeaAisMessage::parse`].
    pub fn from_string(sentence: &str) -> (r: Result<Self, NmeaError>)
        ensures
            result_view(r) == spec_parse(sentence@),
    {
        Self::parse(sentence)
    }

    /// Parses a sentence given as bytes, which must be UTF-8.
    pub fn from_bytes(sentence: &[u8]) -> (r: Result<Self, NmeaError>)
        ensures
            valid_utf8(sentence@) ==> result_view(r) == spec_parse(decode_utf8(sentence@)),
            !valid_utf8(sentence@) ==> r == Err::<Self, NmeaError>(NmeaError::InvalidFormat),
    {
        match str_from_utf8(sentence) {
            None => Err(NmeaError::InvalidFormat),
            Some(s) => {
                proof {
                    encode_utf8_decode_utf8(s@);
                }
                Self::parse(s)
            },
        }
    }

    /// A parsed message has passed its checksum test.
    pub fn is_valid(&self) -> (r: bool)
        ensures
            r,
    {
        true
    }
}

/// The fragments received so far of one multi-fragment message.
pub struct PendingMessage {
    key: String,
    slots: Vec<Option<NmeaAisMessage>>,
}

/// Pending fragments as (message id, fragment slots), one entry per id.
pub type PendingView = Seq<(Seq<char>, Seq<Option<NmeaView>>)>;

pub open spec fn slot_view(o: Option<NmeaAisMessage>) -> Option<NmeaView> {
    match o {
        Some(m) => Some(m@),
        None => None,
    }
}

/// Index of the entry for message id `k`, if there is one.
pub open spec fn key_index(p: PendingView, k: Seq<char>) -> Option<int> {
    if exists|i: int| 0 <= i < p.len() && (#[trigger] p[i]).0 == k {
        Some(choose|i: int| 0 <= i < p.len() && (#[trigger] p[i]).0 == k)
    } else {
        None
    }
}

/// No message id has two entries.
pub open spec fn keys_unique(p: PendingView) -> bool {
    forall|i: int, j: int| 0 <= i < p.len() && 0 <= j < p.len() && i != j ==> (#[trigger] p[i]).0 != (#[trigger] p[j]).0
}

pub open spec fn all_received(s: Seq<Option<NmeaView>>) -> bool {
    forall|i: int| 0 <= i < s.len() ==> (#[trigger] s[i]) is Some
}

/// The payloads of the received fragments, joined in fragment order.
pub open spec fn joined_payload(s: Seq<Option<NmeaView>>) -> Seq<char>
    decreases s.len(),
{
    if s.len() == 0 {
        Seq::empty()
    } else {
        joined_payload(s.drop_last()) + match s.last() {
            Some(v) => v.payload,
            None => Seq::empty(),
        }
    }
}

pub open spec fn empty_slots(n: nat) -> Seq<Option<NmeaView>> {
    Seq::new(n, |i: int| None::<NmeaView>)
}

/// The pending entries once the entry for `id` exists, and its index.
pub open spec fn with_entry(p: PendingView, id: Seq<char>, count: u8) -> (PendingView, int) {
    match key_index(p, id) {
        Some(i) => (p, i),
        None => (p.push((id, empty_slots(count as nat))), p.len() as int),
    }
}

/// Adding fragment `m` to the pending entries `p` causes no arithmetic fault:
/// a message with a fragment number of 0 is never stored, and every payload
/// that is de-armored has room for its fill bits.
pub open spec fn add_fragment_safe(p: PendingView, m: NmeaView) -> bool {
    if m.fragment_count == 1 && m.fragment_number == 1 {
        fill_fits(m.payload, m.fill_bits)
    } else {
        match m.message_id {
            None => true,
            Some(id) => {
                let (p1, i) = with_entry(p, id, m.fragment_count);
                let slots = p1[i].1;
                if slots.len() != m.fragment_count {
                    true
                } else if m.fragment_number == 0 {
                    false
                } else if m.fragment_number - 1 >= slots.len() {
                    true
                } else {
                    let s2 = slots.update(m.fragment_number - 1, Some(m));
                    all_received(s2) ==> fill_fits(joined_payload(s2), s2.last()->Some_0.fill_bits)
                }
            },
        }
    }
}

pub open spec fn opt_bytes(r: Result<Seq<u8>, NmeaError>) -> Result<Option<Seq<u8>>, NmeaError> {
    match r {
        Ok(b) => Ok(Some(b)),
        Err(e) => Err(e),
    }
}

/// The pending entries after adding fragment `m`, and the outcome: the
/// binary message once every fragment of it has arrived, `None` while
/// fragments are missing, or the error.
pub open spec fn spec_add_fragment(p: PendingView, m: NmeaView) -> (PendingView, Result<Option<Seq<u8>>, NmeaError>) {
    if m.fragment_count == 1 && m.fragment_number == 1 {
        (p, opt_bytes(spec_payload_to_binary(m.payload, m.fill_bits)))
    } else {
        match m.message_id {
            None => (p, Err(NmeaError::IncompleteMessage)),
            Some(id) => {
                let (p1, i) = with_entry(p, id, m.fragment_count);
                let slots = p1[i].1;
                if slots.len() != m.fragment_count {
                    (p1, Err(NmeaError::InvalidFragmentCount(m.fragment_count)))
                } else if m.fragment_number - 1 >= slots.len() {
                    (p1, Err(NmeaError::InvalidFragmentNumber(m.fragment_number)))
                } else {
                    let s2 = slots.update(m.fragment_number - 1, Some(m));
                    if all_received(s2) {
                        (
                            p1.remove(i),
                            opt_bytes(
                                spec_payload_to_binary(
                                    joined_payload(s2),
                                    s2.last()->Some_0.fill_bits,
                                ),
                            ),
                        )
                    } else {
                        (p1.update(i, (id, s2)), Ok(None))
                    }
                }
            },
        }
    }
}

pub open spec fn slots_view(v: Seq<Option<NmeaAisMessage>>) -> Seq<Option<NmeaView>> {
    Seq::new(v.len(), |j: int| slot_view(v[j]))
}

pub closed spec fn entry_view(e: PendingMessage) -> (Seq<char>, Seq<Option<NmeaView>>) {
    (e.key@, slots_view(e.slots@))
}

pub closed spec fn pending_view(v: Seq<PendingMessage>) -> PendingView {
    Seq::new(v.len(), |i: int| entry_view(v[i]))
}

pub open spec fn outcome_view(r: Result<Option<Vec<u8>>, NmeaError>) -> Result<Option<Seq<u8>>, NmeaError> {
    match r {
        Ok(Some(b)) => Ok(Some(b@)),
        Ok(None) => Ok(None),
        Err(e) => Err(e),
    }
}

/// The payloads of the fragments held in `slots`, joined, and the fill
/// bits of the last one.
fn join_slots(slots: &Vec<Option<NmeaAisMessage>>) -> (r: (Vec<char>, u8))
    requires
        slots@.len() > 0,
        all_received(slots_view(slots@)),
    ensures
        r.0@ == joined_payload(slots_view(slots@)),
        r.1 == slots_view(slots@).last()->Some_0.fill_bits,
{
    let mut acc: Vec<char> = Vec::new();
    let mut fill: u8 = 0;
    let mut j: usize = 0;
    let ghost sv = slots_view(slots@);
    while j < slots.len()
        invariant
            j <= slots@.len(),
            sv == slots_view(slots@),
            all_received(sv),
            acc@ == joined_payload(sv.take(j as int)),
            j > 0 ==> fill == sv[j - 1]->Some_0.fill_bits,
        decreases slots@.len() - j,
    {
        assert(sv.take(j + 1).drop_last() =~= sv.take(j as int));
        assert(sv[j as int] is Some);
        match &slots[j] {
            Some(m) => {
                let cs = chars_of(m.payload.as_str());
                let ghost before = acc@;
                let mut k: usize = 0;
                while k < cs.len()
                    invariant
                        k <= cs@.len(),
                        acc@ == before + cs@.take(k as int),
                    decreases cs@.len() - k,
                {
                    acc.push(cs[k]);
                    k = k + 1;
                    assert(acc@ =~= before + cs@.take(k as int));
                }
                assert(cs@.take(cs@.len() as int) =~= cs@);
                fill = m.fill_bits;
            },
            None => {},
        }
        j = j + 1;
    }
    assert(sv.take(slots@.len() as int) =~= sv);
    (acc, fill)
}

pub open spec fn msgs_view(v: Seq<NmeaAisMessage>) -> Seq<NmeaView> {
    Seq::new(v.len(), |i: int| v[i]@)
}

/// Feeding `msgs` in order into an assembler with pending entries `p`:
/// the first complete message, the first error, or `IncompleteMessage`
/// when the sentences run out first.
pub open spec fn spec_assemble(p: PendingView, msgs: Seq<NmeaView>) -> Result<Seq<u8>, NmeaError>
    decreases msgs.len(),
{
    if msgs.len() == 0 {
        Err(NmeaError::IncompleteMessage)
    } else {
        let (p2, r) = spec_add_fragment(p, msgs[0]);
        match r {
            Err(e) => Err(e),
            Ok(Some(b)) => Ok(b),
            Ok(None) => spec_assemble(p2, msgs.drop_first()),
        }
    }
}

/// Every fragment that [`spec_assemble`] adds is added safely.
pub open spec fn assemble_safe(p: PendingView, msgs: Seq<NmeaView>) -> bool
    decreases msgs.len(),
{
    if msgs.len() == 0 {
        true
    } else {
        let (p2, r) = spec_add_fragment(p, msgs[0]);
        add_fragment_safe(p, msgs[0]) && (r == Ok::<Option<Seq<u8>>, NmeaError>(None)
            ==> assemble_safe(p2, msgs.drop_first()))
    }
}

/// Multi-fragment message assembler.
pub struct MessageAssembler {
    fragments: Vec<PendingMessage>,
}

impl MessageAssembler {
    /// The pending fragments, one entry per message id.
    pub closed spec fn pending(&self) -> PendingView {
        pending_view(self.fragments@)
    }

    /// Each message id has at most one entry.
    pub open spec fn wf(&self) -> bool {
        keys_unique(self.pending())
    }

    /// Create a new message assembler.
    pub fn new() -> (r: Self)
        ensures
            r.wf(),
            r.pending() == Seq::<(Seq<char>, Seq<Option<NmeaView>>)>::empty(),
    {
        let r = MessageAssembler { fragments: Vec::new() };
        assert(r.pending() =~= Seq::<(Seq<char>, Seq<Option<NmeaView>>)>::empty());
        r
    }

    fn find(&self, id: &String) -> (r: Option<usize>)
        requires
            self.wf(),
        ensures
            match r {
                Some(i) => key_index(self.pending(), id@) == Some(i as int) && i < self.fragments@.len(),
                None => key_index(self.pending(), id@) is None,
            },
    {
        let ghost p = self.pending();
        let mut i: usize = 0;
        while i < self.fragments.len()
            invariant
                i <= self.fragments@.len(),
                p == self.pending(),
                p.len() == self.fragments@.len(),
                keys_unique(p),
                forall|j: int| 0 <= j < i ==> (#[trigger] p[j]).0 != id@,
            decreases self.fragments@.len() - i,
        {
            assert(p[i as int] == entry_view(self.fragments@[i as int]));
            if self.fragments[i].key == *id {
                assert(p[i as int].0 == id@);
                let ghost c = choose|k: int| 0 <= k < p.len() && (#[trigger] p[k]).0 == id@;
                assert(c == i);
                return Some(i);
            }
            i = i + 1;
        }
        None
    }

    /// Add a fragment and return the complete message once all its
    /// fragments have arrived.
    pub fn add_fragment(&mut self, message: NmeaAisMessage) -> (r: Result<Option<Vec<u8>>, NmeaError>)
        requires
            old(self).wf(),
            add_fragment_safe(old(self).pending(), message@),
        ensures
            final(self).wf(),
            (final(self).pending(), outcome_view(r)) == spec_add_fragment(old(self).pending(), message@),
    {
        let ghost p = self.pending();
        if message.is_complete() {
            let b = message.payload_to_binary()?;
            return Ok(Some(b));
        }
        let id = match &message.message_id {
            None => {
                return Err(NmeaError::IncompleteMessage);
            },
            Some(id) => id.clone(),
        };
        let count = message.fragment_count;
        let number = message.fragment_number;
        let idx = match self.find(&id) {
            Some(i) => i,
            None => {
                let mut slots: Vec<Option<NmeaAisMessage>> = Vec::new();
                let mut k: u8 = 0;
                while k < count
                    invariant
                        k <= count,
                        slots@.len() == k,
                        forall|t: int| 0 <= t < k ==> (#[trigger] slots@[t]) is None,
                    decreases count - k,
                {
                    slots.push(None);
                    k = k + 1;
                }
                assert(slots_view(slots@) =~= empty_slots(count as nat));
                let ghost before = self.fragments@;
                self.fragments.push(PendingMessage { key: id, slots });
                proof {
                    assert(pending_view(self.fragments@) =~= pending_view(before).push(
                        (message@.message_id->Some_0, empty_slots(count as nat)),
                    ));
                }
                self.fragments.len() - 1
            },
        };
        let ghost (p1, gi) = with_entry(p, message@.message_id->Some_0, count);
        assert(self.pending() == p1);
        assert(gi == idx);
        assert(keys_unique(p1));
        let ghost before = self.fragments@;
        let mut entry = self.fragments.remove(idx);
        assert(entry_view(entry) == p1[gi]);
        if entry.slots.len() != count as usize {
            self.fragments.insert(idx, entry);
            assert(self.fragments@ =~= before);
            return Err(NmeaError::InvalidFragmentCount(count));
        }
        let index = (number - 1) as usize;
        if index >= entry.slots.len() {
            self.fragments.insert(idx, entry);
            assert(self.fragments@ =~= before);
            return Err(NmeaError::InvalidFragmentNumber(number));
        }
        let ghost m = message@;
        entry.slots.set(index, Some(message));
        let ghost s2 = p1[gi].1.update(number - 1, Some(m));
        assert(slots_view(entry.slots@) =~= s2);
        let mut all = true;
        let mut j: usize = 0;
        while j < entry.slots.len()
            invariant
                j <= entry.slots@.len(),
                s2 == slots_view(entry.slots@),
                all == (forall|t: int| 0 <= t < j ==> (#[trigger] s2[t]) is Some),
            decreases entry.slots@.len() - j,
        {
            assert(s2[j as int] == slot_view(entry.slots@[j as int]));
            if entry.slots[j].is_none() {
                all = false;
            }
            j = j + 1;
        }
        if all {
            let (joined, fill) = join_slots(&entry.slots);
            assert(self.pending() =~= p1.remove(gi)) by {
                assert(pending_view(self.fragments@) =~= pending_view(before).remove(gi));
            }
            let b = payload_chars_bytes(joined.as_slice(), fill)?;
            Ok(Some(b))
        } else {
            let ghost key_v = entry.key@;
            self.fragments.insert(idx, entry);
            assert(self.pending() =~= p1.update(gi, (key_v, s2))) by {
                assert(pending_view(self.fragments@) =~= pending_view(before).update(gi, (key_v, s2)));
            }
            Ok(None)
        }
    }

    /// Whether `message` can be added without an arithmetic fault (see
    /// [`add_fragment_safe`]).
    pub fn accepts(&self, message: &NmeaAisMessage) -> (r: bool)
        requires
            self.wf(),
        ensures
            r == add_fragment_safe(self.pending(), message@),
    {
        if message.is_complete() {
            let cs = chars_of(message.payload.as_str());
            return fill_fits_exec(cs.as_slice(), message.fill_bits);
        }
        let id = match &message.message_id {
            None => {
                return true;
            },
            Some(id) => id,
        };
        let count = message.fragment_count;
        let number = message.fragment_number;
        let ghost p = self.pending();
        let ghost (p1, gi) = with_entry(p, message@.message_id->Some_0, count);
        match self.find(id) {
            None => {
                // a new entry has `count` empty slots: it is complete only
                // when this fragment is the only one
                if number == 0 {
                    return false;
                }
                if number > count {
                    return true;
                }
                proof {
                    assert(p1[gi].1 =~= empty_slots(count as nat));
                }
                if count == 1 {
                    let cs = chars_of(message.payload.as_str());
                    let ok = fill_fits_exec(cs.as_slice(), message.fill_bits);
                    proof {
                        let s2 = p1[gi].1.update(number - 1, Some(message@));
                        assert(s2 =~= seq![Some(message@)]);
                        assert(s2.drop_last() =~= Seq::<Option<NmeaView>>::empty());
                        assert(joined_payload(s2) =~= message@.payload);
                    }
                    ok
                } else {
                    proof {
                        let s2 = p1[gi].1.update(number - 1, Some(message@));
                        let other: int = if number == 1 {
                            1
                        } else {
                            0
                        };
                        assert(s2[other] is None);
                    }
                    true
                }
            },
            Some(i) => {
                let slots = &self.fragments[i].slots;
                assert(entry_view(self.fragments@[i as int]) == p[i as int]);
                if slots.len() != count as usize {
                    return true;
                }
                if number == 0 {
                    return false;
                }
                let index = (number - 1) as usize;
                if index >= slots.len() {
                    return true;
                }
                match join_with(slots, index, message) {
                    None => true,
                    Some((joined, fill)) => fill_fits_exec(joined.as_slice(), fill),
                }
            },
        }
    }

    /// Assembles the first complete message from `messages`.
    pub fn assemble_from_iterable(messages: Vec<NmeaAisMessage>) -> (r: Result<Vec<u8>, NmeaError>)
        requires
            assemble_safe(Seq::empty(), msgs_view(messages@)),
        ensures
            match r {
                Ok(b) => spec_assemble(Seq::empty(), msgs_view(messages@)) == Ok::<
                    Seq<u8>,
                    NmeaError,
                >(b@),
                Err(e) => spec_assemble(Seq::empty(), msgs_view(messages@)) == Err::<
                    Seq<u8>,
                    NmeaError,
                >(e),
            },
    {
        let mut assembler = Self::new();
        let ghost all = msgs_view(messages@);
        let mut rest = messages;
        while rest.len() > 0
            invariant
                assembler.wf(),
                all == msgs_view(messages@),
                spec_assemble(assembler.pending(), msgs_view(rest@)) == spec_assemble(
                    Seq::empty(),
                    all,
                ),
                assemble_safe(assembler.pending(), msgs_view(rest@)),
            decreases rest@.len(),
        {
            let ghost rv = msgs_view(rest@);
            let message = rest.remove(0);
            assert(msgs_view(rest@) =~= rv.drop_first());
            assert(message@ == rv[0]);
            let ghost p0 = assembler.pending();
            let r = assembler.add_fragment(message);
            let ghost step = spec_add_fragment(p0, rv[0]);
            assert(step.1 == outcome_view(r));
            match r {
                Err(e) => {
                    assert(spec_assemble(p0, rv) == Err::<Seq<u8>, NmeaError>(e));
                    return Err(e);
                },
                Ok(Some(b)) => {
                    assert(spec_assemble(p0, rv) == Ok::<Seq<u8>, NmeaError>(b@));
                    return Ok(b);
                },
                Ok(None) => {},
            }
        }
        Err(NmeaError::IncompleteMessage)
    }

    /// Clear all incomplete messages.
    pub fn clear_old_messages(&mut self)
        ensures
            final(self).wf(),
            final(self).pending() == Seq::<(Seq<char>, Seq<Option<NmeaView>>)>::empty(),
    {
        self.fragments.clear();
        assert(self.pending() =~= Seq::<(Seq<char>, Seq<Option<NmeaView>>)>::empty());
    }
}

/// Whether de-armoring `p` with `fill` fill bits subtracts no more fill
/// bits than are left over.
pub fn fill_fits_exec(p: &[char], fill: u8) -> (r: bool)
    ensures
        r == fill_fits(p@, fill),
{
    proof {
        lemma_sixbit_values_len(p@);
    }
    match payload_values(p) {
        Err(_) => true,
        Ok(_) => {
            let r: u128 = (6 * p.len() as u128) % 8;
            r == 0 || fill as u128 <= r
        },
    }
}

/// The payloads of `slots`, with `m` in slot `index`, joined in order, and
/// the fill bits of the last slot; `None` when another slot is empty.
fn join_with(slots: &Vec<Option<NmeaAisMessage>>, index: usize, m: &NmeaAisMessage) -> (r: Option<(Vec<char>, u8)>)
    requires
        index < slots@.len(),
    ensures
        ({
            let s2 = slots_view(slots@).update(index as int, Some(m@));
            match r {
                Some((j, f)) => all_received(s2) && j@ == joined_payload(s2) && f == s2.last()->Some_0.fill_bits,
                None => !all_received(s2),
            }
        }),
{
    let ghost s2 = slots_view(slots@).update(index as int, Some(m@));
    let mut acc: Vec<char> = Vec::new();
    let mut fill: u8 = 0;
    let mut j: usize = 0;
    while j < slots.len()
        invariant
            j <= slots@.len(),
            index < slots@.len(),
            s2 == slots_view(slots@).update(index as int, Some(m@)),
            forall|t: int| 0 <= t < j ==> (#[trigger] s2[t]) is Some,
            acc@ == joined_payload(s2.take(j as int)),
            j > 0 ==> fill == s2[j - 1]->Some_0.fill_bits,
        decreases slots@.len() - j,
    {
        assert(s2.take(j + 1).drop_last() =~= s2.take(j as int));
        let payload: &String = if j == index {
            assert(s2[j as int] == Some(m@));
            fill = m.fill_bits;
            &m.payload
        } else {
            assert(s2[j as int] == slot_view(slots@[j as int]));
            match &slots[j] {
                Some(x) => {
                    fill = x.fill_bits;
                    &x.payload
                },
                None => {
                    return None;
                },
            }
        };
        let cs = chars_of(payload.as_str());
        let ghost before = acc@;
        let mut k: usize = 0;
        while k < cs.len()
            invariant
                k <= cs@.len(),
                acc@ == before + cs@.take(k as int),
            decreases cs@.len() - k,
        {
            acc.push(cs[k]);
            k = k + 1;
            assert(acc@ =~= before + cs@.take(k as int));
        }
        assert(cs@.take(cs@.len() as int) =~= cs@);
        j = j + 1;
    }
    assert(s2.take(s2.len() as int) =~= s2);
    Some((acc, fill))
}

/// Reads bytes as UTF-8 text (std's `str::from_utf8`).
#[verifier::external_body]
fn str_from_utf8(b: &[u8]) -> (r: Option<&str>)
    ensures
        r is Some <==> valid_utf8(b@),
        r matches Some(s) ==> s.spec_bytes() == b@,
{
    std::str::from_utf8(b).ok()
}

} // verus!
