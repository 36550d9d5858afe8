//! Addressed safety related messages (message type 12).

use vstd::prelude::*;
use vstd::arithmetic::power2::{lemma2_to64, lemma2_to64_rest};
use crate::bits::{bits_at, get_bits};
use crate::decode::ais::converters::{from_mmsi};
use crate::decode::ais::reader::{BitCursor, DecodeError, has_bits, has_bits_exec, bytes_text, text_from_bytes};

verus! {

/// AIS Addressed Safety-Related Message (Type 12)
///
/// This message is used to send safety-related text messages to a specific station.
/// It contains addressing information and a variable-length text payload.
///
/// Reference: https://gpsd.gitlab.io/gpsd/AIVDM.html#_type_12_addressed_safety_related_message
#[derive(Debug, Clone, PartialEq)]
pub struct AddressedSafetyMessage {
    /// Message type (always 12 for this message)
    pub msg_type: u8,
    /// Repeat indicator (0-3)
    pub repeat: u8,
    /// Maritime Mobile Service Identity (9 digits)
    pub mmsi: u32,
    /// Sequence number (0-3)
    pub seqno: u8,
    /// Destination MMSI
    pub dest_mmsi: u32,
    /// Retransmit flag
    pub retransmit: bool,
    /// Spare bit (should be zero)
    pub spare_1: u8,
    /// Safety-related text message (variable length, up to 936 bits)
    pub text: String,
}

impl AddressedSafetyMessage {
    /// Whether `s` decodes: `Incomplete` when the data ends before a field
    /// that must be read, `Assertion` when a spare field that must be zero
    /// is not, whichever comes first.
    pub open spec fn outcome(s: Seq<u8>) -> Result<(), DecodeError> {
        if !has_bits(s, 72) {
            Err(DecodeError::Incomplete)
        } else if bits_at(s, 71, 1) != 0 {
            Err(DecodeError::Assertion)
        } else if !has_bits(s, 72) {
            Err(DecodeError::Incomplete)
        } else {
            Ok(())
        }
    }

    /// Whether `self` holds the field values coded in `s`.
    pub open spec fn decodes(self, s: Seq<u8>) -> bool {
        &&& self.msg_type == bits_at(s, 0, 6) as u8
        &&& self.repeat == bits_at(s, 6, 2) as u8
        &&& self.mmsi == bits_at(s, 8, 30) as u32
        &&& self.seqno == bits_at(s, 38, 2) as u8
        &&& self.dest_mmsi == bits_at(s, 40, 30) as u32
        &&& self.retransmit == (bits_at(s, 70, 1) != 0)
        &&& self.spare_1 == bits_at(s, 71, 1) as u8
        &&& {
            let c0 = BitCursor { pos: 72, lim: (8 * s.len()) as u128 };
            &&& self.text@ == bytes_text(c0.rest_bytes(s))
        }
    }

    /// Decodes the message from `bytes`, whose first bit is the first bit
    /// of the message type.
    pub fn from_bytes(bytes: &[u8]) -> (r: Result<Self, DecodeError>)
        ensures
            match r {
                Ok(m) => Self::outcome(bytes@) is Ok && m.decodes(bytes@),
                Err(e) => Self::outcome(bytes@) == Err::<(), DecodeError>(e),
            },
    {
        proof {
            lemma2_to64();
            lemma2_to64_rest();
        }
        if !has_bits_exec(bytes, 72) {
            return Err(DecodeError::Incomplete);
        }
        if get_bits(bytes, 71, 1) != 0 {
            return Err(DecodeError::Assertion);
        }
        if !has_bits_exec(bytes, 72) {
            return Err(DecodeError::Incomplete);
        }
        let msg_type = get_bits(bytes, 0, 6) as u8;
        let repeat = get_bits(bytes, 6, 2) as u8;
        let mmsi = from_mmsi(get_bits(bytes, 8, 30) as u32);
        let seqno = get_bits(bytes, 38, 2) as u8;
        let dest_mmsi = from_mmsi(get_bits(bytes, 40, 30) as u32);
        let retransmit = get_bits(bytes, 70, 1) != 0;
        let spare_1 = get_bits(bytes, 71, 1) as u8;
        let mut c = BitCursor { pos: 72, lim: bytes.len() as u128 * 8 };
        let rest = c.read_rest(bytes);
        let text = text_from_bytes(rest.as_slice());
        Ok(AddressedSafetyMessage {
            msg_type,
            repeat,
            mmsi,
            seqno,
            dest_mmsi,
            retransmit,
            spare_1,
            text,
        })
    }
}

} // verus!
