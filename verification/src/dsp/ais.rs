//! AIS framing of demodulated symbols: NRZI decoding, HDLC flags and bit
//! stuffing, the frame check sequence, the plausibility check of received
//! messages, and their NMEA encoding.

use vstd::prelude::*;
use vstd::arithmetic::power2::{pow2, lemma2_to64};
use crate::bits::{bit_at, bits_at, get_bits};
use crate::decode::nmea::{
    NmeaError, fill_fits, leftover_bits, pack_symbols, sixbit_values, spec_ais_6bit, spec_payload_to_binary,
    sym_bit, sym_bits,
};
use crate::decode::ais::Message;
use crate::decode::mmsi::{dec_chars, dec_vec};
use crate::text::{checksum_of, string_from_chars, xor_utf8};

verus! {

/// Longest frame kept, in bits, frame check sequence included.
pub const MAX_AIS_LENGTH: usize = 1024;

/// Alternating bits that must precede a start flag.
pub const MIN_TRAINING_BITS: usize = 18;

/// Residue of the CRC-16 over a message followed by its frame check sequence.
pub const EXPECTED_CRC: u16 = 0xF0B8;

/// The CRC-16 (reflected polynomial 0x8408) register after one data bit.
pub open spec fn crc_bit(crc: u16, b: u8) -> u16 {
    let mix = (crc ^ (b as u16)) & 1;
    if mix != 0 {
        (crc >> 1u16) ^ 0x8408u16
    } else {
        crc >> 1u16
    }
}

/// The register after the low `k` bits of `b`, least significant first.
pub open spec fn crc_byte_bits(crc: u16, b: u8, k: nat) -> u16
    decreases k,
{
    if k == 0 {
        crc
    } else {
        crc_byte_bits(crc_bit(crc, b), b >> 1u8, (k - 1) as nat)
    }
}

/// The register after the bytes of `s`, starting from `crc`.
pub open spec fn crc_from(crc: u16, s: Seq<u8>) -> u16
    decreases s.len(),
{
    if s.len() == 0 {
        crc
    } else {
        crc_byte_bits(crc_from(crc, s.drop_last()), s.last(), 8)
    }
}

/// CRC-16 of `s` with initial register 0xFFFF.
pub open spec fn crc16_spec(s: Seq<u8>) -> u16 {
    crc_from(0xFFFF, s)
}

/// Computes the CRC-16 used to check AIS frames.
pub fn crc16(data: &[u8]) -> (r: u16)
    ensures
        r == crc16_spec(data@),
{
    let mut crc: u16 = 0xFFFF;
    let mut i: usize = 0;
    while i < data.len()
        invariant
            i <= data@.len(),
            crc == crc_from(0xFFFF, data@.take(i as int)),
        decreases data@.len() - i,
    {
        let mut b = data[i];
        let ghost start = crc;
        let mut k: u8 = 0;
        while k < 8
            invariant
                k <= 8,
                crc_byte_bits(crc, b, (8 - k) as nat) == crc_byte_bits(start, data@[i as int], 8),
            decreases 8 - k,
        {
            let mix = (crc ^ (b as u16)) & 0x01;
            crc = crc >> 1;
            if mix != 0 {
                crc = crc ^ 0x8408;
            }
            b = b >> 1;
            k = k + 1;
        }
        assert(data@.take(i + 1).drop_last() =~= data@.take(i as int));
        i = i + 1;
    }
    assert(data@.take(data@.len() as int) =~= data@);
    crc
}

/// The value of the first `k` bits of group `j` of `bits` (bits `8 j ..`),
/// the first bit least significant; bits past the end count as 0.
pub open spec fn lsb_value(bits: Seq<u8>, j: int, k: nat) -> nat
    decreases k,
{
    if k == 0 {
        0
    } else {
        let i = 8 * j + k - 1;
        lsb_value(bits, j, (k - 1) as nat) + if i < bits.len() && bits[i] != 0 {
            pow2((k - 1) as nat)
        } else {
            0nat
        }
    }
}

/// Bits (one per element, nonzero meaning 1) packed eight to a byte, the
/// first bit of each group in the least significant place; a last partial
/// group is padded with zeros.
pub open spec fn pack_lsb(bits: Seq<u8>) -> Seq<u8> {
    Seq::new(((bits.len() + 7) / 8) as nat, |j: int| lsb_value(bits, j, 8) as u8)
}

proof fn lemma_lsb_value_bound(bits: Seq<u8>, j: int, k: nat)
    requires
        k <= 8,
    ensures
        lsb_value(bits, j, k) < pow2(k),
    decreases k,
{
    lemma2_to64();
    if k > 0 {
        lemma_lsb_value_bound(bits, j, (k - 1) as nat);
        vstd::arithmetic::power2::lemma_pow2_unfold(k);
    }
}

/// Packs bits into bytes, least significant bit first.
pub fn pack_bits_to_bytes_lsb(bits: &[u8]) -> (r: Vec<u8>)
    ensures
        r@ == pack_lsb(bits@),
{
    let n = bits.len();
    let count = n / 8 + if n % 8 == 0 {
        0
    } else {
        1
    };
    let mut out: Vec<u8> = Vec::new();
    let mut j: usize = 0;
    proof {
        lemma2_to64();
    }
    while j < count
        invariant
            n == bits@.len(),
            count == (n + 7) / 8,
            j <= count,
            out@.len() == j,
            forall|q: int| 0 <= q < j ==> out@[q] == lsb_value(bits@, q, 8) as u8,
            pow2(8) == 256,
        decreases count - j,
    {
        let mut byte: u8 = 0;
        let mut i: usize = 0;
        while i < 8
            invariant
                i <= 8,
                n == bits@.len(),
                j < (n + 7) / 8,
                byte as nat == lsb_value(bits@, j as int, i as nat),
                pow2(8) == 256,
            decreases 8 - i,
        {
            proof {
                lemma_lsb_value_bound(bits@, j as int, i as nat);
                lemma2_to64();
            }
            let idx = 8 * j + i;
            if idx < n && bits[idx] != 0 {
                let sh = i as u8;
                assert(byte < pow2(i as nat));
                let b2 = byte | (1u8 << sh);
                assert(b2 == byte + pow2(i as nat)) by {
                    assert((1u8 << sh) == pow2(i as nat)) by {
                        vstd::bits::lemma_u8_shl_is_mul(1u8, sh);
                    }
                    assert(byte < (1u8 << sh) ==> (byte | (1u8 << sh)) == byte + (1u8 << sh))
                        by (bit_vector)
                        requires
                            sh < 8,
                    ;
                }
                byte = b2;
            }
            i = i + 1;
        }
        out.push(byte);
        j = j + 1;
    }
    assert(out@ =~= pack_lsb(bits@));
    out
}

/// Shortest length in bits of each message type 1 to 27.
pub open spec fn min_length(t: nat) -> nat {
    if t == 1 || t == 2 || t == 3 {
        149
    } else if t == 4 || t == 9 || t == 11 || t == 18 {
        168
    } else if t == 5 {
        418
    } else if t == 6 || t == 15 {
        88
    } else if t == 7 || t == 12 || t == 25 {
        72
    } else if t == 8 {
        56
    } else if t == 10 || t == 20 {
        70
    } else if t == 13 || t == 14 {
        40
    } else if t == 16 {
        92
    } else if t == 17 {
        80
    } else if t == 19 {
        312
    } else if t == 21 {
        271
    } else if t == 22 {
        145
    } else if t == 23 {
        154
    } else if t == 24 {
        160
    } else if t == 26 {
        60
    } else {
        96
    }
}

fn min_length_of(t: u8) -> (r: u128)
    requires
        1 <= t <= 27,
    ensures
        r == min_length(t as nat),
{
    match t {
        1 | 2 | 3 => 149,
        4 | 9 | 11 | 18 => 168,
        5 => 418,
        6 | 15 => 88,
        7 | 12 | 25 => 72,
        8 => 56,
        10 | 20 => 70,
        13 | 14 => 40,
        16 => 92,
        17 => 80,
        19 => 312,
        21 => 271,
        22 => 145,
        23 => 154,
        24 => 160,
        26 => 60,
        _ => 96,
    }
}

/// The message type: the top six bits of the first byte.
pub open spec fn message_type_of(bits: Seq<u8>) -> u8 {
    (bits[0] >> 2u8) & 0x3Fu8
}

/// A received message is plausible when it is empty, or when its type is
/// 1 to 27 and it is at least as long as that type's shortest message.
pub open spec fn plausible(bits: Seq<u8>) -> bool {
    bits.len() == 0 || {
        let t = message_type_of(bits);
        1 <= t <= 27 && 8 * bits.len() >= min_length(t as nat)
    }
}

/// The length rule of each message type, with the shortest length in bits of
/// every type written out (ITU-R M.1371): a received message of type 1 to 27
/// is kept exactly when it has at least that many bits; a message of any
/// other type is dropped, and an empty one is kept. The message type is the
/// first byte's top six bits.
pub proof fn lemma_plausible_lengths()
    ensures
        forall|b: Seq<u8>|
            b.len() > 0 && message_type_of(b) == 1
                ==> (#[trigger] plausible(b) <==> 8 * b.len() >= 149),
        forall|b: Seq<u8>|
            b.len() > 0 && message_type_of(b) == 2
                ==> (#[trigger] plausible(b) <==> 8 * b.len() >= 149),
        forall|b: Seq<u8>|
            b.len() > 0 && message_type_of(b) == 3
                ==> (#[trigger] plausible(b) <==> 8 * b.len() >= 149),
        forall|b: Seq<u8>|
            b.len() > 0 && message_type_of(b) == 4
                ==> (#[trigger] plausible(b) <==> 8 * b.len() >= 168),
        forall|b: Seq<u8>|
            b.len() > 0 && message_type_of(b) == 5
                ==> (#[trigger] plausible(b) <==> 8 * b.len() >= 418),
        forall|b: Seq<u8>|
            b.len() > 0 && message_type_of(b) == 6
                ==> (#[trigger] plausible(b) <==> 8 * b.len() >= 88),
        forall|b: Seq<u8>|
            b.len() > 0 && message_type_of(b) == 7
                ==> (#[trigger] plausible(b) <==> 8 * b.len() >= 72),
        forall|b: Seq<u8>|
            b.len() > 0 && message_type_of(b) == 8
                ==> (#[trigger] plausible(b) <==> 8 * b.len() >= 56),
        forall|b: Seq<u8>|
            b.len() > 0 && message_type_of(b) == 9
                ==> (#[trigger] plausible(b) <==> 8 * b.len() >= 168),
        forall|b: Seq<u8>|
            b.len() > 0 && message_type_of(b) == 10
                ==> (#[trigger] plausible(b) <==> 8 * b.len() >= 70),
        forall|b: Seq<u8>|
            b.len() > 0 && message_type_of(b) == 11
                ==> (#[trigger] plausible(b) <==> 8 * b.len() >= 168),
        forall|b: Seq<u8>|
            b.len() > 0 && message_type_of(b) == 12
                ==> (#[trigger] plausible(b) <==> 8 * b.len() >= 72),
        forall|b: Seq<u8>|
            b.len() > 0 && message_type_of(b) == 13
                ==> (#[trigger] plausible(b) <==> 8 * b.len() >= 40),
        forall|b: Seq<u8>|
            b.len() > 0 && message_type_of(b) == 14
                ==> (#[trigger] plausible(b) <==> 8 * b.len() >= 40),
        forall|b: Seq<u8>|
            b.len() > 0 && message_type_of(b) == 15
                ==> (#[trigger] plausible(b) <==> 8 * b.len() >= 88),
        forall|b: Seq<u8>|
            b.len() > 0 && message_type_of(b) == 16
                ==> (#[trigger] plausible(b) <==> 8 * b.len() >= 92),
        forall|b: Seq<u8>|
            b.len() > 0 && message_type_of(b) == 17
                ==> (#[trigger] plausible(b) <==> 8 * b.len() >= 80),
        forall|b: Seq<u8>|
            b.len() > 0 && message_type_of(b) == 18
                ==> (#[trigger] plausible(b) <==> 8 * b.len() >= 168),
        forall|b: Seq<u8>|
            b.len() > 0 && message_type_of(b) == 19
                ==> (#[trigger] plausible(b) <==> 8 * b.len() >= 312),
        forall|b: Seq<u8>|
            b.len() > 0 && message_type_of(b) == 20
                ==> (#[trigger] plausible(b) <==> 8 * b.len() >= 70),
        forall|b: Seq<u8>|
            b.len() > 0 && message_type_of(b) == 21
                ==> (#[trigger] plausible(b) <==> 8 * b.len() >= 271),
        forall|b: Seq<u8>|
            b.len() > 0 && message_type_of(b) == 22
                ==> (#[trigger] plausible(b) <==> 8 * b.len() >= 145),
        forall|b: Seq<u8>|
            b.len() > 0 && message_type_of(b) == 23
                ==> (#[trigger] plausible(b) <==> 8 * b.len() >= 154),
        forall|b: Seq<u8>|
            b.len() > 0 && message_type_of(b) == 24
                ==> (#[trigger] plausible(b) <==> 8 * b.len() >= 160),
        forall|b: Seq<u8>|
            b.len() > 0 && message_type_of(b) == 25
                ==> (#[trigger] plausible(b) <==> 8 * b.len() >= 72),
        forall|b: Seq<u8>|
            b.len() > 0 && message_type_of(b) == 26
                ==> (#[trigger] plausible(b) <==> 8 * b.len() >= 60),
        forall|b: Seq<u8>|
            b.len() > 0 && message_type_of(b) == 27
                ==> (#[trigger] plausible(b) <==> 8 * b.len() >= 96),
        forall|b: Seq<u8>|
            b.len() > 0 && (message_type_of(b) == 0 || message_type_of(b) > 27)
                ==> !#[trigger] plausible(b),
        forall|b: Seq<u8>| b.len() == 0 ==> #[trigger] plausible(b),
        forall|b: Seq<u8>| b.len() > 0 ==> #[trigger] message_type_of(b) == b[0] / 4,
{
    assert(forall|x: u8| #[trigger] ((x >> 2u8) & 0x3Fu8) == x / 4) by (bit_vector);
}

/// Checks the message type and length of a received message.
pub fn validate_bits(bits: &[u8]) -> (r: bool)
    ensures
        r == plausible(bits@),
{
    let bit_len: u128 = bits.len() as u128 * 8;
    if bit_len == 0 {
        return true;
    }
    let msg_type = (bits[0] >> 2) & 0x3F;
    if msg_type < 1 || msg_type > 27 {
        return false;
    }
    bit_len >= min_length_of(msg_type)
}

/// The character that armors a 6-bit value in an NMEA payload.
pub open spec fn armor_char(v: nat) -> char {
    if v <= 39 {
        ((v + 48) as u8) as char
    } else if v <= 63 {
        ((v + 56) as u8) as char
    } else {
        '?'
    }
}

/// Armors a 6-bit value.
pub fn ais_6bit_to_char(val: u8) -> (c: char)
    ensures
        c == armor_char(val as nat),
{
    if val <= 39 {
        (val + 48) as char
    } else if val <= 63 {
        (val + 56) as char
    } else {
        '?'
    }
}

/// Number of 6-bit characters that carry `n` bytes.
pub open spec fn armor_count(n: nat) -> nat {
    (8 * n + 5) / 6
}

/// Fill bits added after `n` bytes to complete the last 6-bit character.
pub open spec fn armor_fill(n: nat) -> nat {
    ((6 - (8 * n) % 6) % 6) as nat
}

/// The NMEA payload armoring bytes `b`: each 6 bits, most significant first,
/// as one character, the last character padded with zero bits.
pub open spec fn armor(b: Seq<u8>) -> Seq<char> {
    Seq::new(armor_count(b.len()), |k: int| armor_char(bits_at(b.push(0), 6 * k, 6)))
}

/// Encodes bytes as an armored 6-bit NMEA payload.
pub fn encode_ais_6bit_ascii(bytes: &[u8]) -> (r: Vec<char>)
    ensures
        r@ == armor(bytes@),
{
    let mut padded: Vec<u8> = Vec::new();
    let mut i: usize = 0;
    while i < bytes.len()
        invariant
            i <= bytes@.len(),
            padded@ == bytes@.take(i as int),
        decreases bytes@.len() - i,
    {
        padded.push(bytes[i]);
        i = i + 1;
    }
    padded.push(0);
    assert(padded@ =~= bytes@.push(0));
    let len = bytes.len();
    let n: u128 = (len as u128 * 8 + 5) / 6;
    let mut out: Vec<char> = Vec::new();
    let mut k: u128 = 0;
    proof {
        lemma2_to64();
    }
    while k < n
        invariant
            n == armor_count(bytes@.len()),
            len == bytes@.len(),
            padded@ == bytes@.push(0),
            k <= n,
            out@.len() == k,
            forall|q: int| 0 <= q < k ==> out@[q] == armor_char(bits_at(bytes@.push(0), 6 * q, 6)),
            pow2(6) == 64,
        decreases n - k,
    {
        let v = get_bits(padded.as_slice(), 6 * k, 6);
        out.push(ais_6bit_to_char(v as u8));
        k = k + 1;
    }
    assert(out@ =~= armor(bytes@));
    out
}

/// Phase of the frame decoder.
#[derive(Debug, Clone, Copy, PartialEq, Eq, Structural)]
pub enum State {
    /// Searching for the alternating preamble.
    Training,
    /// Counting the ones of the start flag.
    StartFlag,
    /// Collecting message and frame check bits.
    DataFcs,
}

/// The mathematical content of a [`DecoderState`].
pub struct DecoderView {
    pub state: State,
    pub position: int,
    pub one_seq_count: int,
    pub prev_d: u8,
    pub last_bit: u8,
    pub msg_bits: Seq<u8>,
}

/// Frame decoder state of one channel and timing phase; it persists from
/// one block of symbols to the next.
#[derive(Debug, Clone)]
pub struct DecoderState {
    /// The phase of the decoder.
    state: State,
    /// Progress within the phase: preamble bits, flag ones, or collected bits.
    position: usize,
    /// Consecutive ones seen, for bit stuffing and the closing flag.
    one_seq_count: u8,
    /// The previous symbol decision, for NRZI decoding.
    prev_d: u8,
    /// The previous decoded bit, for the alternating preamble.
    last_bit: u8,
    /// The bits of the frame collected so far.
    msg_bits: Vec<u8>,
}

impl View for DecoderState {
    type V = DecoderView;

    closed spec fn view(&self) -> DecoderView {
        DecoderView {
            state: self.state,
            position: self.position as int,
            one_seq_count: self.one_seq_count as int,
            prev_d: self.prev_d,
            last_bit: self.last_bit,
            msg_bits: self.msg_bits@,
        }
    }
}

/// `bits` without its last seven elements (the closing flag), or empty.
pub open spec fn drop_flag(bits: Seq<u8>) -> Seq<u8> {
    if bits.len() >= 7 {
        bits.take(bits.len() - 7)
    } else {
        Seq::empty()
    }
}

/// The message carried by the collected bits of a frame whose closing flag
/// has just been seen: the flag bits are removed and the rest packed into
/// bytes; a frame of at least three bytes whose CRC leaves the expected
/// residue gives its bytes before the two check bytes, when they are a
/// plausible message.
pub open spec fn frame_message(bits: Seq<u8>) -> Option<Seq<u8>> {
    let bytes = pack_lsb(drop_flag(bits));
    if bytes.len() >= 3 && crc16_spec(bytes) == EXPECTED_CRC {
        let data = bytes.take(bytes.len() - 2);
        if plausible(data) {
            Some(data)
        } else {
            None
        }
    } else {
        None
    }
}

/// One decoded bit `bit` while collecting: the bit is kept, a zero after
/// five ones is a stuffed bit and dropped, a one after five ones closes the
/// frame; a frame that grows to the longest length is abandoned.
pub open spec fn collect_step(v: DecoderView, bit: u8) -> (DecoderView, Option<Seq<u8>>) {
    let bits = v.msg_bits.push(bit);
    let (w, out) = if bit == 1 {
        if v.one_seq_count == 5 {
            (
                DecoderView { state: State::Training, position: 0, msg_bits: drop_flag(bits), ..v },
                frame_message(bits),
            )
        } else {
            (
                DecoderView {
                    position: v.position + 1,
                    one_seq_count: v.one_seq_count + 1,
                    msg_bits: bits,
                    ..v
                },
                None,
            )
        }
    } else if v.one_seq_count == 5 {
        (DecoderView { one_seq_count: 0, msg_bits: bits.drop_last(), ..v }, None)
    } else {
        (DecoderView { position: v.position + 1, one_seq_count: 0, msg_bits: bits, ..v }, None)
    };
    if w.msg_bits.len() >= MAX_AIS_LENGTH {
        (
            DecoderView {
                state: State::Training,
                position: 0,
                one_seq_count: 0,
                msg_bits: Seq::empty(),
                ..w
            },
            out,
        )
    } else {
        (w, out)
    }
}

/// The decoder after the symbol decision `d` (1 for a positive symbol),
/// and the message it completes, if any.  NRZI: a symbol equal to the
/// previous one is a 1.  A run of more than `MIN_TRAINING_BITS` alternating
/// bits followed by a repeated bit starts a flag, seven ones and a zero
/// complete it, and collection follows.
pub open spec fn step_spec(v: DecoderView, d: u8) -> (DecoderView, Option<Seq<u8>>) {
    let bit: u8 = if d == v.prev_d {
        1
    } else {
        0
    };
    let (w, out) = match v.state {
        State::Training => if bit != v.last_bit {
            (DecoderView { position: v.position + 1, ..v }, None)
        } else if v.position > MIN_TRAINING_BITS {
            (
                DecoderView {
                    state: State::StartFlag,
                    position: if bit == 1 {
                        3
                    } else {
                        1
                    },
                    ..v
                },
                None,
            )
        } else {
            (DecoderView { position: 0, ..v }, None)
        },
        State::StartFlag => if v.position == 7 {
            if bit == 0 {
                (
                    DecoderView {
                        state: State::DataFcs,
                        position: 0,
                        one_seq_count: 0,
                        msg_bits: Seq::empty(),
                        ..v
                    },
                    None,
                )
            } else {
                (DecoderView { state: State::Training, position: 0, ..v }, None)
            }
        } else if bit == 1 {
            (DecoderView { position: v.position + 1, ..v }, None)
        } else {
            (DecoderView { state: State::Training, position: 0, ..v }, None)
        },
        State::DataFcs => collect_step(v, bit),
    };
    (DecoderView { prev_d: d, last_bit: bit, ..w }, out)
}

/// Every message the frame decoder gives is a plausible message that,
/// followed by two frame check bytes, leaves the expected CRC residue.
pub proof fn lemma_decoded_frames_check(v: DecoderView, d: u8)
    ensures
        step_spec(v, d).1 matches Some(m) ==> plausible(m) && exists|fcs: Seq<u8>|
            fcs.len() == 2 && #[trigger] crc16_spec(m + fcs) == EXPECTED_CRC,
{
    if let Some(m) = step_spec(v, d).1 {
        let bit: u8 = if d == v.prev_d {
            1
        } else {
            0
        };
        let bits = v.msg_bits.push(bit);
        let bytes = pack_lsb(drop_flag(bits));
        let fcs = bytes.skip(bytes.len() - 2);
        assert(m + fcs =~= bytes);
        assert(crc16_spec(m + fcs) == EXPECTED_CRC);
    }
}

impl DecoderState {
    /// The decoder's invariant.
    pub open spec fn wf(&self) -> bool {
        &&& self@.prev_d <= 1
        &&& self@.last_bit <= 1
        &&& 0 <= self@.one_seq_count <= 5
        &&& self@.msg_bits.len() < MAX_AIS_LENGTH
        &&& self@.state == State::DataFcs ==> self@.position == self@.msg_bits.len()
        &&& self@.state == State::StartFlag ==> self@.position <= 7
    }

    /// A decoder searching for a preamble.
    pub fn new() -> (r: Self)
        ensures
            r.wf(),
            r@.state == State::Training,
            r@.position == 0,
            r@.one_seq_count == 0,
            r@.prev_d == 0,
            r@.last_bit == 0,
            r@.msg_bits == Seq::<u8>::empty(),
    {
        DecoderState {
            state: State::Training,
            position: 0,
            one_seq_count: 0,
            prev_d: 0,
            last_bit: 0,
            msg_bits: Vec::new(),
        }
    }

    /// Progress within the current phase; a step needs it below `usize::MAX`.
    pub fn position(&self) -> (r: usize)
        ensures
            r == self@.position,
    {
        self.position
    }

    /// Whether the decoder is collecting the bits of a frame.
    pub fn collecting(&self) -> (r: bool)
        ensures
            r == (self@.state == State::DataFcs),
    {
        self.state == State::DataFcs
    }

    /// At the start of a block of symbols, a decoder that has not started a
    /// preamble takes the first symbol decision as its previous symbol.
    pub fn begin_block(&mut self, first_d: u8)
        requires
            old(self).wf(),
            first_d <= 1,
        ensures
            final(self).wf(),
            final(self)@ == (if old(self)@.state == State::Training && old(self)@.position == 0 {
                DecoderView { prev_d: first_d, ..old(self)@ }
            } else {
                old(self)@
            }),
    {
        if self.state == State::Training && self.position == 0 {
            self.prev_d = first_d;
        }
    }

    /// Collects one decoded bit of a frame.
    fn collect(&mut self, bit: u8) -> (r: Option<Vec<u8>>)
        requires
            old(self).wf(),
            old(self)@.state == State::DataFcs,
            bit <= 1,
        ensures
            final(self)@ == collect_step(old(self)@, bit).0,
            final(self).wf(),
            match r {
                Some(m) => collect_step(old(self)@, bit).1 == Some(m@),
                None => collect_step(old(self)@, bit).1 is None,
            },
    {
        let ghost v = self@;
        let mut out: Option<Vec<u8>> = None;
        self.msg_bits.push(bit);
        self.position = self.position + 1;
        if bit == 1 {
            if self.one_seq_count == 5 {
                let ghost bits = self.msg_bits@;
                let mut k: usize = 0;
                while k < 7
                    invariant
                        k <= 7,
                        bits.len() <= MAX_AIS_LENGTH,
                        self.one_seq_count == 5,
                        self.prev_d == v.prev_d,
                        self.last_bit == v.last_bit,
                        self.state == v.state,
                        self.position == v.position + 1,
                        self.msg_bits@ == (if bits.len() >= k {
                            bits.take(bits.len() - k)
                        } else {
                            Seq::<u8>::empty()
                        }),
                    decreases 7 - k,
                {
                    if self.msg_bits.len() > 0 {
                        self.msg_bits.pop();
                    }
                    k = k + 1;
                }
                assert(self.msg_bits@ =~= drop_flag(bits));
                out = frame_of(self.msg_bits.as_slice());
                self.state = State::Training;
                self.position = 0;
            } else {
                self.one_seq_count = self.one_seq_count + 1;
            }
        } else {
            if self.one_seq_count == 5 {
                self.msg_bits.pop();
                self.position = self.position - 1;
            }
            self.one_seq_count = 0;
        }
        if self.msg_bits.len() >= MAX_AIS_LENGTH {
            self.state = State::Training;
            self.position = 0;
            self.one_seq_count = 0;
            self.msg_bits.clear();
        }
        proof {
            let bits = v.msg_bits.push(bit);
            assert(bits.drop_last() =~= v.msg_bits);
        }
        out
    }

    /// Feeds one symbol decision (1 for a positive symbol, else 0); returns
    /// the message that it completes, if any.
    pub fn step(&mut self, d: u8) -> (r: Option<Vec<u8>>)
        requires
            old(self).wf(),
            d <= 1,
            old(self)@.position < usize::MAX,
        ensures
            final(self).wf(),
            final(self)@ == step_spec(old(self)@, d).0,
            match r {
                Some(m) => step_spec(old(self)@, d).1 == Some(m@),
                None => step_spec(old(self)@, d).1 is None,
            },
    {
        let bit: u8 = if d == self.prev_d {
            1
        } else {
            0
        };
        self.prev_d = d;
        let mut out: Option<Vec<u8>> = None;
        match self.state {
            State::Training => {
                if bit != self.last_bit {
                    self.position = self.position + 1;
                } else if self.position > MIN_TRAINING_BITS {
                    self.state = State::StartFlag;
                    self.position = if bit == 1 {
                        3
                    } else {
                        1
                    };
                } else {
                    self.position = 0;
                }
            },
            State::StartFlag => {
                if self.position == 7 {
                    if bit == 0 {
                        self.state = State::DataFcs;
                        self.msg_bits.clear();
                        self.one_seq_count = 0;
                        self.position = 0;
                    } else {
                        self.state = State::Training;
                        self.position = 0;
                    }
                } else if bit == 1 {
                    self.position = self.position + 1;
                } else {
                    self.state = State::Training;
                    self.position = 0;
                }
            },
            State::DataFcs => {
                out = self.collect(bit);
            },
        }
        self.last_bit = bit;
        out
    }
}

/// Packs and checks the bits of a frame whose closing flag has been removed.
fn frame_of(bits: &[u8]) -> (r: Option<Vec<u8>>)
    ensures
        match r {
            Some(m) => {
                let bytes = pack_lsb(bits@);
                &&& bytes.len() >= 3 && crc16_spec(bytes) == EXPECTED_CRC
                &&& m@ == bytes.take(bytes.len() - 2)
                &&& plausible(m@)
            },
            None => {
                let bytes = pack_lsb(bits@);
                !(bytes.len() >= 3 && crc16_spec(bytes) == EXPECTED_CRC && plausible(
                    bytes.take(bytes.len() - 2),
                ))
            },
        },
{
    let bytes = pack_bits_to_bytes_lsb(bits);
    if bytes.len() >= 3 {
        let calc_crc = crc16(bytes.as_slice());
        if calc_crc == EXPECTED_CRC {
            let mut data: Vec<u8> = Vec::new();
            let mut i: usize = 0;
            while i < bytes.len() - 2
                invariant
                    i <= bytes@.len() - 2,
                    bytes@.len() >= 3,
                    data@ == bytes@.take(i as int),
                decreases bytes@.len() - 2 - i,
            {
                data.push(bytes[i]);
                i = i + 1;
            }
            if validate_bits(data.as_slice()) {
                return Some(data);
            }
        }
    }
    None
}

/// An uppercase hexadecimal digit.
pub open spec fn hex_digit(v: nat) -> char {
    if v < 10 {
        ((v + 48) as u8) as char
    } else {
        ((v + 55) as u8) as char
    }
}

/// A byte as two uppercase hexadecimal digits.
pub open spec fn hex2(b: u8) -> Seq<char> {
    seq![hex_digit((b / 16) as nat), hex_digit((b % 16) as nat)]
}

/// Number of NMEA fragments for a payload of `n` characters, at most 56
/// characters each, as the byte that the sentences carry.
pub open spec fn fragment_count(n: nat) -> u8 {
    ((n + 55) / 56) as u8
}

/// The comma separated fields of fragment `i` (counting from 0) of the
/// payload `p` of a `len`-byte message received on `channel`.
pub open spec fn sentence_body(p: Seq<char>, len: nat, channel: char, count: u8, i: nat) -> Seq<char> {
    let start: int = 56 * (i as int);
    let end: int = if 56 * (i + 1) < p.len() {
        56 * (i as int + 1)
    } else {
        p.len() as int
    };
    let fill: nat = if i == count - 1 {
        armor_fill(len)
    } else {
        0
    };
    let id: Seq<char> = if count > 1 {
        seq!['1']
    } else {
        Seq::empty()
    };
    seq!['A', 'I', 'V', 'D', 'M', ','] + dec_chars(count as nat) + seq![','] + dec_chars(i + 1)
        + seq![','] + id + seq![','] + seq![channel] + seq![','] + p.subrange(start, end) + seq![
        ',',
    ] + dec_chars(fill)
}

/// An NMEA sentence: `!`, the fields, `*` and the checksum of the fields.
pub open spec fn framed(body: Seq<char>) -> Seq<char> {
    seq!['!'] + body + seq!['*'] + hex2(xor_utf8(body))
}

/// The AIVDM sentences that carry the message `bits` received on `channel`.
pub open spec fn nmea_sentences(bits: Seq<u8>, channel: char) -> Seq<Seq<char>> {
    let p = armor(bits);
    let count = fragment_count(p.len());
    Seq::new(count as nat, |i: int| framed(sentence_body(p, bits.len(), channel, count, i as nat)))
}

fn hex_char(v: u8) -> (c: char)
    requires
        v < 16,
    ensures
        c == hex_digit(v as nat),
{
    if v < 10 {
        (v + 48) as char
    } else {
        (v + 55) as char
    }
}

fn push_all(v: &mut Vec<char>, s: &[char])
    ensures
        final(v)@ == old(v)@ + s@,
{
    let mut i: usize = 0;
    let ghost v0 = v@;
    while i < s.len()
        invariant
            i <= s@.len(),
            v@ == v0 + s@.take(i as int),
        decreases s@.len() - i,
    {
        v.push(s[i]);
        assert(s@.take(i + 1) =~= s@.take(i as int).push(s@[i as int]));
        i = i + 1;
    }
    assert(s@.take(s@.len() as int) =~= s@);
}

fn push_dec(v: &mut Vec<char>, n: u64)
    ensures
        final(v)@ == old(v)@ + dec_chars(n as nat),
{
    let d = dec_vec(n);
    push_all(v, d.as_slice());
}

/// One AIVDM sentence of the payload `p`.
#[verifier::rlimit(30)]
fn encode_sentence(p: &[char], len: usize, channel: char, count: u8, i: u8) -> (r: String)
    requires
        i < count,
        56 * (i as int) < p@.len(),
    ensures
        r@ == framed(sentence_body(p@, len as nat, channel, count, i as nat)),
{
    let mut body: Vec<char> = Vec::new();
    push_all(&mut body, &['A', 'I', 'V', 'D', 'M', ',']);
    push_dec(&mut body, count as u64);
    body.push(',');
    push_dec(&mut body, i as u64 + 1);
    body.push(',');
    if count > 1 {
        body.push('1');
    }
    body.push(',');
    body.push(channel);
    body.push(',');
    let start: usize = 56 * (i as usize);
    let end: usize = if 56 * (i as usize + 1) < p.len() {
        56 * (i as usize + 1)
    } else {
        p.len()
    };
    let mut k: usize = start;
    let ghost before = body@;
    while k < end
        invariant
            start <= k <= end,
            end <= p@.len(),
            body@ == before + p@.subrange(start as int, k as int),
        decreases end - k,
    {
        body.push(p[k]);
        assert(p@.subrange(start as int, k + 1) =~= p@.subrange(start as int, k as int).push(
            p@[k as int],
        ));
        k = k + 1;
    }
    let fill: u64 = if i == count - 1 {
        ((6 - (len as u128 * 8) % 6) % 6) as u64
    } else {
        0
    };
    body.push(',');
    push_dec(&mut body, fill);
    let checksum = checksum_of(body.as_slice());
    let mut out: Vec<char> = Vec::new();
    out.push('!');
    push_all(&mut out, body.as_slice());
    out.push('*');
    out.push(hex_char(checksum / 16));
    out.push(hex_char(checksum % 16));
    proof {
        let id: Seq<char> = if count > 1 {
            seq!['1']
        } else {
            Seq::empty()
        };
        assert(body@ =~= sentence_body(p@, len as nat, channel, count, i as nat));
        assert(out@ =~= framed(sentence_body(p@, len as nat, channel, count, i as nat)));
    }
    string_from_chars(out.as_slice())
}

/// The AIVDM sentences carrying `bits`, received on `channel`, in fragments
/// of at most 56 payload characters.
pub fn encode_nmea_sentences(bits: &[u8], channel: char) -> (r: Vec<String>)
    ensures
        r@.len() == nmea_sentences(bits@, channel).len(),
        forall|i: int| 0 <= i < r@.len() ==> r@[i]@ == nmea_sentences(bits@, channel)[i],
{
    let payload = encode_ais_6bit_ascii(bits);
    let total: u8 = ((payload.len() as u128 + 55) / 56) as u8;
    let mut sentences: Vec<String> = Vec::new();
    let mut i: u8 = 0;
    while i < total
        invariant
            payload@ == armor(bits@),
            total == fragment_count(payload@.len()),
            i <= total,
            sentences@.len() == i,
            forall|q: int| 0 <= q < i ==> sentences@[q]@ == nmea_sentences(bits@, channel)[q],
        decreases total - i,
    {
        assert(56 * (i as int) < payload@.len()) by (nonlinear_arith)
            requires
                (i as int) < ((payload@.len() + 55) / 56) as u8,
        ;
        let s = encode_sentence(payload.as_slice(), bits.len(), channel, total, i);
        sentences.push(s);
        i = i + 1;
    }
    sentences
}

/// A message recovered from the radio signal.
#[derive(Debug, Clone)]
pub struct AisDemodulatedMessage {
    /// The message bytes, frame check sequence removed.
    pub bits: Vec<u8>,
    /// The channel it was received on: 'A' (161.975 MHz) or 'B' (162.025 MHz).
    pub channel: char,
    /// When it was decoded, in seconds since the UNIX epoch.
    pub timestamp: u64,
    /// The NMEA sentences generated from this message.
    pub nmea_sentences: Vec<String>,
}

impl AisDemodulatedMessage {
    /// Checks the message type and length.
    pub fn validate(&self) -> (r: bool)
        ensures
            r == plausible(self.bits@),
    {
        validate_bits(self.bits.as_slice())
    }

    /// The same message with its AIVDM sentences filled in.
    pub fn encode_nmea(&self) -> (r: Self)
        ensures
            r.bits@ == self.bits@,
            r.channel == self.channel,
            r.timestamp == self.timestamp,
            r.nmea_sentences@.len() == nmea_sentences(self.bits@, self.channel).len(),
            forall|i: int|
                0 <= i < r.nmea_sentences@.len() ==> r.nmea_sentences@[i]@ == nmea_sentences(
                    self.bits@,
                    self.channel,
                )[i],
    {
        let sentences = encode_nmea_sentences(self.bits.as_slice(), self.channel);
        AisDemodulatedMessage {
            bits: self.bits.clone(),
            channel: self.channel,
            timestamp: self.timestamp,
            nmea_sentences: sentences,
        }
    }

    /// Decodes the message; messages shorter than 14 bytes give `None`.
    pub fn decode(&self) -> (r: Option<Message>)
        ensures
            match r {
                Some(m) => self.bits@.len() >= 14 && Message::outcome(self.bits@) is Ok && m.decodes(
                    self.bits@,
                ),
                None => self.bits@.len() < 14 || Message::outcome(self.bits@) is Err,
            },
    {
        if self.bits.len() < 14 {
            return None;
        }
        match Message::from_bytes(self.bits.as_slice()) {
            Ok(m) => Some(m),
            Err(_) => None,
        }
    }
}

/// The eight bits of byte `j`, read in order, make that byte.
proof fn lemma_byte_bits(s: Seq<u8>, j: int)
    requires
        0 <= j < s.len(),
    ensures
        bits_at(s, 8 * j, 8) == s[j] as nat,
{
    reveal_with_fuel(bits_at, 9);
    let x = s[j];
    assert((8 * j + 0) / 8 == j && (8 * j + 0) % 8 == 0);
    assert((8 * j + 1) / 8 == j && (8 * j + 1) % 8 == 1);
    assert((8 * j + 2) / 8 == j && (8 * j + 2) % 8 == 2);
    assert((8 * j + 3) / 8 == j && (8 * j + 3) % 8 == 3);
    assert((8 * j + 4) / 8 == j && (8 * j + 4) % 8 == 4);
    assert((8 * j + 5) / 8 == j && (8 * j + 5) % 8 == 5);
    assert((8 * j + 6) / 8 == j && (8 * j + 6) % 8 == 6);
    assert((8 * j + 7) / 8 == j && (8 * j + 7) % 8 == 7);
    assert(bit_at(s, 8 * j + 0) == ((x >> 7u8) & 1u8) as nat);
    assert(bit_at(s, 8 * j + 1) == ((x >> 6u8) & 1u8) as nat);
    assert(bit_at(s, 8 * j + 2) == ((x >> 5u8) & 1u8) as nat);
    assert(bit_at(s, 8 * j + 3) == ((x >> 4u8) & 1u8) as nat);
    assert(bit_at(s, 8 * j + 4) == ((x >> 3u8) & 1u8) as nat);
    assert(bit_at(s, 8 * j + 5) == ((x >> 2u8) & 1u8) as nat);
    assert(bit_at(s, 8 * j + 6) == ((x >> 1u8) & 1u8) as nat);
    assert(bit_at(s, 8 * j + 7) == ((x >> 0u8) & 1u8) as nat);
    assert(x as int == 128 * ((x >> 7u8) & 1u8) + 64 * ((x >> 6u8) & 1u8) + 32 * ((x >> 5u8) & 1u8)
        + 16 * ((x >> 4u8) & 1u8) + 8 * ((x >> 3u8) & 1u8) + 4 * ((x >> 2u8) & 1u8) + 2 * ((x
        >> 1u8) & 1u8) + ((x >> 0u8) & 1u8)) by (bit_vector);
}

/// A bit of the stream is 0 or 1.
proof fn lemma_bit_at_bound(s: Seq<u8>, i: int)
    ensures
        bit_at(s, i) <= 1,
{
    let x = s[i / 8];
    let k = (7 - i % 8) as u8;
    assert((x >> k) & 1u8 <= 1u8) by (bit_vector);
}

/// The value of `n` bits is below `2^n`.
proof fn lemma_bits_at_bound(s: Seq<u8>, p: int, n: nat)
    ensures
        bits_at(s, p, n) < pow2(n),
    decreases n,
{
    if n > 0 {
        lemma_bits_at_bound(s, p, (n - 1) as nat);
        lemma_bit_at_bound(s, p + n - 1);
        vstd::arithmetic::power2::lemma_pow2_unfold(n);
    } else {
        lemma2_to64();
    }
}

/// Bit `t` (from the most significant) of a 6-bit group is that bit of the
/// stream.
proof fn lemma_group_bit(s: Seq<u8>, p: int, t: int)
    requires
        0 <= t < 6,
    ensures
        ((bits_at(s, p, 6) as u8 >> ((5 - t) as u8)) & 1u8) as nat == bit_at(s, p + t),
{
    reveal_with_fuel(bits_at, 7);
    let a = bit_at(s, p) as u8;
    let b = bit_at(s, p + 1) as u8;
    let c = bit_at(s, p + 2) as u8;
    let d = bit_at(s, p + 3) as u8;
    let e = bit_at(s, p + 4) as u8;
    let f = bit_at(s, p + 5) as u8;
    lemma_bit_at_bound(s, p);
    lemma_bit_at_bound(s, p + 1);
    lemma_bit_at_bound(s, p + 2);
    lemma_bit_at_bound(s, p + 3);
    lemma_bit_at_bound(s, p + 4);
    lemma_bit_at_bound(s, p + 5);
    assert(bits_at(s, p, 6) == 32 * a + 16 * b + 8 * c + 4 * d + 2 * e + f);
    let x: u8 = (32 * a + 16 * b + 8 * c + 4 * d + 2 * e + f) as u8;
    assert(a <= 1 && b <= 1 && c <= 1 && d <= 1 && e <= 1 && f <= 1 ==> (x as int == 32 * a + 16
        * b + 8 * c + 4 * d + 2 * e + f) && (x >> 5u8) & 1u8 == a && (x >> 4u8) & 1u8 == b && (x
        >> 3u8) & 1u8 == c && (x >> 2u8) & 1u8 == d && (x >> 1u8) & 1u8 == e && (x >> 0u8) & 1u8
        == f) by (bit_vector)
        requires
            x == (32 * a + 16 * b + 8 * c + 4 * d + 2 * e + f) as u8,
    ;
}

/// The 6-bit groups of `b` (padded with a zero byte).
pub open spec fn armor_groups(b: Seq<u8>) -> Seq<u8> {
    Seq::new(armor_count(b.len()), |k: int| bits_at(b.push(0), 6 * k, 6) as u8)
}

/// Reading the armored characters back gives the 6-bit groups.
proof fn lemma_armor_values(b: Seq<u8>, k: int)
    requires
        0 <= k <= armor_count(b.len()),
    ensures
        sixbit_values(armor(b).take(k)) == Ok::<Seq<u8>, NmeaError>(armor_groups(b).take(k)),
    decreases k,
{
    if k > 0 {
        lemma_armor_values(b, k - 1);
        assert(armor(b).take(k).drop_last() =~= armor(b).take(k - 1));
        assert(armor_groups(b).take(k - 1).push(armor_groups(b)[k - 1]) =~= armor_groups(b).take(k));
        let v = bits_at(b.push(0), 6 * (k - 1), 6);
        lemma_bits_at_bound(b.push(0), 6 * (k - 1), 6);
        lemma2_to64();
        assert(spec_ais_6bit(armor_char(v)) == Ok::<u8, NmeaError>(v as u8));
    } else {
        assert(armor(b).take(0) =~= Seq::<char>::empty());
        assert(armor_groups(b).take(0) =~= Seq::<u8>::empty());
    }
}

/// The bit stream of the 6-bit groups is the bit stream of the padded bytes.
proof fn lemma_group_stream(b: Seq<u8>, i: int)
    requires
        0 <= i < 6 * armor_count(b.len()),
    ensures
        sym_bit(armor_groups(b), i) == bit_at(b.push(0), i),
{
    let k = i / 6;
    let t = i % 6;
    lemma_group_bit(b.push(0), 6 * k, t);
    lemma_bits_at_bound(b.push(0), 6 * k, 6);
    lemma2_to64();
}

/// Reading `n` bits of the group stream reads the same bits of the bytes.
proof fn lemma_group_bits(b: Seq<u8>, p: int, n: nat)
    requires
        0 <= p,
        p + n <= 6 * armor_count(b.len()),
    ensures
        sym_bits(armor_groups(b), p, n) == bits_at(b.push(0), p, n),
    decreases n,
{
    if n > 0 {
        lemma_group_bits(b, p, (n - 1) as nat);
        lemma_group_stream(b, p + n - 1);
    }
}

/// De-armoring the payload that armors `b`, with its fill bits, gives `b`
/// back.
pub proof fn lemma_armor_roundtrip(b: Seq<u8>)
    ensures
        fill_fits(armor(b), armor_fill(b.len()) as u8),
        spec_payload_to_binary(armor(b), armor_fill(b.len()) as u8) == Ok::<Seq<u8>, NmeaError>(b),
{
    let n = b.len();
    let count = armor_count(n);
    let fill = armor_fill(n);
    lemma_armor_values(b, count as int);
    assert(armor(b).take(count as int) =~= armor(b));
    assert(armor_groups(b).take(count as int) =~= armor_groups(b));
    let g = armor_groups(b);
    assert(6 * count == 8 * n + fill) by (nonlinear_arith)
        requires
            count == (8 * n + 5) / 6,
            fill == ((6 - (8 * n) % 6) % 6) as nat,
    ;
    assert(leftover_bits(g.len()) == fill);
    let whole = Seq::new(6 * g.len() / 8, |j: int| sym_bits(g, 8 * j, 8) as u8);
    assert(6 * g.len() / 8 == n);
    assert forall|j: int| 0 <= j < n implies #[trigger] whole[j] == b[j] by {
        lemma_group_bits(b, 8 * j, 8);
        lemma_byte_bits(b.push(0), j);
    }
    assert(pack_symbols(g, fill) =~= b);
}

} // verus!
