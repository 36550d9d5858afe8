//! UTC and date inquiries (message type 10).

use vstd::prelude::*;
use vstd::arithmetic::power2::{lemma2_to64, lemma2_to64_rest};
use crate::bits::{bits_at, get_bits};
use crate::decode::ais::converters::{from_mmsi};
use crate::decode::ais::reader::{BitCursor, DecodeError, has_bits, has_bits_exec};

verus! {

/// AIS UTC/Date Inquiry (Type 10)
///
/// This message is used to request UTC and date information from a station.
/// It's a simple query message that contains the MMSI of the requesting station
/// and the MMSI of the target station.
///
/// Reference: https://gpsd.gitlab.io/gpsd/AIVDM.html#_type_10_utc_date_inquiry
#[derive(Debug, Clone, PartialEq)]
pub struct UtcDateInquiry {
    /// Message type (always 10 for this message)
    pub msg_type: u8,
    /// Repeat indicator (0-3)
    pub repeat: u8,
    /// Maritime Mobile Service Identity (9 digits) - requesting station
    pub mmsi: u32,
    /// Spare bits (should be zero)
    pub spare_1: u8,
    /// Destination MMSI - target station for the inquiry
    pub dest_mmsi: u32,
    /// Spare bits (should be zero)
    pub spare_2: u8,
}

impl UtcDateInquiry {
    /// Whether `s` decodes: `Incomplete` when the data ends before a field
    /// that must be read, `Assertion` when a spare field that must be zero
    /// is not, whichever comes first.
    pub open spec fn outcome(s: Seq<u8>) -> Result<(), DecodeError> {
        if !has_bits(s, 72) {
            Err(DecodeError::Incomplete)
        } else {
            Ok(())
        }
    }

    /// Whether `self` holds the field values coded in `s`.
    pub open spec fn decodes(self, s: Seq<u8>) -> bool {
        &&& self.msg_type == bits_at(s, 0, 6) as u8
        &&& self.repeat == bits_at(s, 6, 2) as u8
        &&& self.mmsi == bits_at(s, 8, 30) as u32
        &&& self.spare_1 == bits_at(s, 38, 2) as u8
        &&& self.dest_mmsi == bits_at(s, 40, 30) as u32
        &&& self.spare_2 == bits_at(s, 70, 2) as u8
    }

    /// Decodes the message from `bytes`, whose first bit is the first bit
    /// of the message type.
    pub fn from_bytes(bytes: &[u8]) -> (r: Result<Self, DecodeError>)
        ensures
            match r {
                Ok(m) => Self::outcome(bytes@) is Ok && m.decodes(bytes@),
                Err(e) => Self::outcome(bytes@) == Err::<(), DecodeError>(e),
            },
    {
        proof {
            lemma2_to64();
            lemma2_to64_rest();
        }
        if !has_bits_exec(bytes, 72) {
            return Err(DecodeError::Incomplete);
        }
        let msg_type = get_bits(bytes, 0, 6) as u8;
        let repeat = get_bits(bytes, 6, 2) as u8;
        let mmsi = from_mmsi(get_bits(bytes, 8, 30) as u32);
        let spare_1 = get_bits(bytes, 38, 2) as u8;
        let dest_mmsi = from_mmsi(get_bits(bytes, 40, 30) as u32);
        let spare_2 = get_bits(bytes, 70, 2) as u8;
        Ok(UtcDateInquiry {
            msg_type,
            repeat,
            mmsi,
            spare_1,
            dest_mmsi,
            spare_2,
        })
    }
}

} // verus!
