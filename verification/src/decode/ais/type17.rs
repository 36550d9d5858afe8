//! DGNSS broadcast binary messages (message type 17).

use vstd::prelude::*;
use vstd::arithmetic::power2::{lemma2_to64, lemma2_to64_rest};
use crate::bits::{bits_at, get_bits};
use crate::decode::ais::converters::{from_mmsi, tenth_minutes, tenth_minutes_value};
use crate::decode::ais::reader::{BitCursor, DecodeError, has_bits, has_bits_exec};

verus! {

/// AIS DGNSS Broadcast Binary Message (Type 17)
///
/// This message is used by differential reference stations to broadcast
/// differential correction information and other related data.
///
/// Reference: <https://gpsd.gitlab.io/gpsd/AIVDM.html#_type_17_dgnss_broadcast_binary_message>
#[derive(Debug, Clone, PartialEq)]
pub struct DgnssBroadcastMessage {
    /// Message type (always 17 for this message)
    pub msg_type: u8,
    /// Repeat indicator (0-3)
    pub repeat: u8,
    /// Maritime Mobile Service Identity (9 digits)
    pub mmsi: u32,
    /// Spare bits (should be zero)
    pub spare_1: u8,
    /// Longitude in tenths of a minute (signed); 0 when not available
    pub longitude: i32,
    /// Latitude in tenths of a minute (signed); 0 when not available
    pub latitude: i32,
    /// Spare bits (should be zero)
    pub spare_2: u8,
    /// Binary data payload (variable length, up to 736 bits)
    pub data: Vec<u8>,
}

impl DgnssBroadcastMessage {
    /// Whether `s` decodes: `Incomplete` when the data ends before a field
    /// that must be read, `Assertion` when a spare field that must be zero
    /// is not, whichever comes first.
    pub open spec fn outcome(s: Seq<u8>) -> Result<(), DecodeError> {
        if !has_bits(s, 40) {
            Err(DecodeError::Incomplete)
        } else if bits_at(s, 38, 2) != 0 {
            Err(DecodeError::Assertion)
        } else if !has_bits(s, 80) {
            Err(DecodeError::Incomplete)
        } else if bits_at(s, 75, 5) != 0 {
            Err(DecodeError::Assertion)
        } else if !has_bits(s, 80) {
            Err(DecodeError::Incomplete)
        } else {
            Ok(())
        }
    }

    /// Whether `self` holds the field values coded in `s`.
    pub open spec fn decodes(self, s: Seq<u8>) -> bool {
        &&& self.msg_type == bits_at(s, 0, 6) as u8
        &&& self.repeat == bits_at(s, 6, 2) as u8
        &&& self.mmsi == bits_at(s, 8, 30) as u32
        &&& self.spare_1 == bits_at(s, 38, 2) as u8
        &&& self.longitude as int == tenth_minutes_value(bits_at(s, 40, 18), 18)
        &&& self.latitude as int == tenth_minutes_value(bits_at(s, 58, 17), 17)
        &&& self.spare_2 == bits_at(s, 75, 5) as u8
        &&& {
            let c0 = BitCursor { pos: 80, lim: (8 * s.len()) as u128 };
            &&& self.data@ == c0.rest_bytes(s)
        }
    }

    /// Decodes the message from `bytes`, whose first bit is the first bit
    /// of the message type.
    pub fn from_bytes(bytes: &[u8]) -> (r: Result<Self, DecodeError>)
        ensures
            match r {
                Ok(m) => Self::outcome(bytes@) is Ok && m.decodes(bytes@),
                Err(e) => Self::outcome(bytes@) == Err::<(), DecodeError>(e),
            },
    {
        proof {
            lemma2_to64();
            lemma2_to64_rest();
        }
        if !has_bits_exec(bytes, 40) {
            return Err(DecodeError::Incomplete);
        }
        if get_bits(bytes, 38, 2) != 0 {
            return Err(DecodeError::Assertion);
        }
        if !has_bits_exec(bytes, 80) {
            return Err(DecodeError::Incomplete);
        }
        if get_bits(bytes, 75, 5) != 0 {
            return Err(DecodeError::Assertion);
        }
        if !has_bits_exec(bytes, 80) {
            return Err(DecodeError::Incomplete);
        }
        let msg_type = get_bits(bytes, 0, 6) as u8;
        let repeat = get_bits(bytes, 6, 2) as u8;
        let mmsi = from_mmsi(get_bits(bytes, 8, 30) as u32);
        let spare_1 = get_bits(bytes, 38, 2) as u8;
        let longitude = tenth_minutes(get_bits(bytes, 40, 18) as u32, 18);
        let latitude = tenth_minutes(get_bits(bytes, 58, 17) as u32, 17);
        let spare_2 = get_bits(bytes, 75, 5) as u8;
        let mut c = BitCursor { pos: 80, lim: bytes.len() as u128 * 8 };
        let data = c.read_rest(bytes);
        Ok(DgnssBroadcastMessage {
            msg_type,
            repeat,
            mmsi,
            spare_1,
            longitude,
            latitude,
            spare_2,
            data,
        })
    }
}

} // verus!
