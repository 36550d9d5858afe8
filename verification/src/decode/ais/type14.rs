//! Safety related broadcast messages (message type 14).

use vstd::prelude::*;
use vstd::arithmetic::power2::{lemma2_to64, lemma2_to64_rest};
use crate::bits::{bits_at, get_bits};
use crate::decode::ais::converters::{from_mmsi};
use crate::decode::ais::reader::{BitCursor, DecodeError, has_bits, has_bits_exec, bytes_text, text_from_bytes};

verus! {

/// AIS Safety-Related Broadcast Message (Type 14)
///
/// This message is used to broadcast safety-related text messages to all stations.
/// Unlike Type 12, this is a broadcast message without specific addressing.
///
/// Reference: https://gpsd.gitlab.io/gpsd/AIVDM.html#_type_14_safety_related_broadcast_message
#[derive(Debug, Clone, PartialEq)]
pub struct SafetyBroadcastMessage {
    /// Message type (always 14 for this message)
    pub msg_type: u8,
    /// Repeat indicator (0-3)
    pub repeat: u8,
    /// Maritime Mobile Service Identity (9 digits)
    pub mmsi: u32,
    /// Spare bits (should be zero)
    pub spare_1: u8,
    /// Safety-related text message (variable length, up to 968 bits)
    pub text: String,
}

impl SafetyBroadcastMessage {
    /// Whether `s` decodes: `Incomplete` when the data ends before a field
    /// that must be read, `Assertion` when a spare field that must be zero
    /// is not, whichever comes first.
    pub open spec fn outcome(s: Seq<u8>) -> Result<(), DecodeError> {
        if !has_bits(s, 40) {
            Err(DecodeError::Incomplete)
        } else if bits_at(s, 38, 2) != 0 {
            Err(DecodeError::Assertion)
        } else if !has_bits(s, 40) {
            Err(DecodeError::Incomplete)
        } else {
            Ok(())
        }
    }

    /// Whether `self` holds the field values coded in `s`.
    pub open spec fn decodes(self, s: Seq<u8>) -> bool {
        &&& self.msg_type == bits_at(s, 0, 6) as u8
        &&& self.repeat == bits_at(s, 6, 2) as u8
        &&& self.mmsi == bits_at(s, 8, 30) as u32
        &&& self.spare_1 == bits_at(s, 38, 2) as u8
        &&& {
            let c0 = BitCursor { pos: 40, lim: (8 * s.len()) as u128 };
            &&& self.text@ == bytes_text(c0.rest_bytes(s))
        }
    }

    /// Decodes the message from `bytes`, whose first bit is the first bit
    /// of the message type.
    pub fn from_bytes(bytes: &[u8]) -> (r: Result<Self, DecodeError>)
        ensures
            match r {
                Ok(m) => Self::outcome(bytes@) is Ok && m.decodes(bytes@),
                Err(e) => Self::outcome(bytes@) == Err::<(), DecodeError>(e),
            },
    {
        proof {
            lemma2_to64();
            lemma2_to64_rest();
        }
        if !has_bits_exec(bytes, 40) {
            return Err(DecodeError::Incomplete);
        }
        if get_bits(bytes, 38, 2) != 0 {
            return Err(DecodeError::Assertion);
        }
        if !has_bits_exec(bytes, 40) {
            return Err(DecodeError::Incomplete);
        }
        let msg_type = get_bits(bytes, 0, 6) as u8;
        let repeat = get_bits(bytes, 6, 2) as u8;
        let mmsi = from_mmsi(get_bits(bytes, 8, 30) as u32);
        let spare_1 = get_bits(bytes, 38, 2) as u8;
        let mut c = BitCursor { pos: 40, lim: bytes.len() as u128 * 8 };
        let rest = c.read_rest(bytes);
        let text = text_from_bytes(rest.as_slice());
        Ok(SafetyBroadcastMessage {
            msg_type,
            repeat,
            mmsi,
            spare_1,
            text,
        })
    }
}

} // verus!
