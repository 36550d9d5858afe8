//! Long range AIS broadcast messages (message type 27).

use vstd::prelude::*;
use vstd::arithmetic::power2::{pow2, lemma2_to64, lemma2_to64_rest};
use crate::bits::{bits_at, get_bits};
use crate::decode::ais::common::{NavigationStatus};
use crate::decode::ais::converters::{coordinate_raw, from_mmsi, signed_value};
use crate::decode::ais::reader::{BitCursor, DecodeError, has_bits, has_bits_exec};

verus! {

/// AIS Long Range AIS Broadcast Message (Type 27)
///
/// This message is used for long-range AIS broadcast in areas where
/// there are many vessels and spectrum is tight. It provides reduced
/// position data with lower accuracy but extended range.
///
/// Reference: https://gpsd.gitlab.io/gpsd/AIVDM.html#_type_27_long_range_ais_broadcast_message
#[derive(Debug, Clone, PartialEq)]
pub struct LongRangeAisBroadcastMessage {
    /// Message type (always 27 for this message)
    pub msg_type: u8,
    /// Repeat indicator (0-3)
    pub repeat: u8,
    /// Maritime Mobile Service Identity (9 digits)
    pub mmsi: u32,
    /// Position accuracy flag
    pub accuracy: bool,
    /// RAIM flag
    pub raim: bool,
    /// Navigation status
    pub status: NavigationStatus,
    /// Longitude in tenths of a minute (signed); `None` when not available
    pub longitude: Option<i32>,
    /// Latitude in tenths of a minute (signed); `None` when not available
    pub latitude: Option<i32>,
    /// Speed over ground in knots
    pub speed: u8,
    /// Course over ground in degrees
    pub course: u16,
    /// GNSS position status flag
    pub gnss: bool,
    /// Spare bit (should be zero)
    pub spare_1: u8,
}

impl LongRangeAisBroadcastMessage {
    /// Whether `s` decodes: `Incomplete` when the data ends before a field
    /// that must be read, `Assertion` when a spare field that must be zero
    /// is not, whichever comes first.
    pub open spec fn outcome(s: Seq<u8>) -> Result<(), DecodeError> {
        if !has_bits(s, 96) {
            Err(DecodeError::Incomplete)
        } else if bits_at(s, 95, 1) != 0 {
            Err(DecodeError::Assertion)
        } else if !has_bits(s, 96) {
            Err(DecodeError::Incomplete)
        } else {
            Ok(())
        }
    }

    /// Whether `self` holds the field values coded in `s`.
    pub open spec fn decodes(self, s: Seq<u8>) -> bool {
        &&& self.msg_type == bits_at(s, 0, 6) as u8
        &&& self.repeat == bits_at(s, 6, 2) as u8
        &&& self.mmsi == bits_at(s, 8, 30) as u32
        &&& self.accuracy == (bits_at(s, 38, 1) != 0)
        &&& self.raim == (bits_at(s, 39, 1) != 0)
        &&& self.status == NavigationStatus::spec_from_bits(bits_at(s, 40, 4) as u8)
        &&& self.longitude == (if bits_at(s, 44, 18) == pow2(18) - 1 { None } else { Some(signed_value(bits_at(s, 44, 18), 18) as i32) })
        &&& self.latitude == (if bits_at(s, 62, 17) == pow2(17) - 1 { None } else { Some(signed_value(bits_at(s, 62, 17), 17) as i32) })
        &&& self.speed == bits_at(s, 79, 6) as u8
        &&& self.course == bits_at(s, 85, 9) as u16
        &&& self.gnss == (bits_at(s, 94, 1) != 0)
        &&& self.spare_1 == bits_at(s, 95, 1) as u8
    }

    /// Decodes the message from `bytes`, whose first bit is the first bit
    /// of the message type.
    pub fn from_bytes(bytes: &[u8]) -> (r: Result<Self, DecodeError>)
        ensures
            match r {
                Ok(m) => Self::outcome(bytes@) is Ok && m.decodes(bytes@),
                Err(e) => Self::outcome(bytes@) == Err::<(), DecodeError>(e),
            },
    {
        proof {
            lemma2_to64();
            lemma2_to64_rest();
        }
        if !has_bits_exec(bytes, 96) {
            return Err(DecodeError::Incomplete);
        }
        if get_bits(bytes, 95, 1) != 0 {
            return Err(DecodeError::Assertion);
        }
        if !has_bits_exec(bytes, 96) {
            return Err(DecodeError::Incomplete);
        }
        let msg_type = get_bits(bytes, 0, 6) as u8;
        let repeat = get_bits(bytes, 6, 2) as u8;
        let mmsi = from_mmsi(get_bits(bytes, 8, 30) as u32);
        let accuracy = get_bits(bytes, 38, 1) != 0;
        let raim = get_bits(bytes, 39, 1) != 0;
        let status = NavigationStatus::from_bits(get_bits(bytes, 40, 4) as u8);
        let longitude = coordinate_raw(get_bits(bytes, 44, 18) as u32, 18);
        let latitude = coordinate_raw(get_bits(bytes, 62, 17) as u32, 17);
        let speed = get_bits(bytes, 79, 6) as u8;
        let course = get_bits(bytes, 85, 9) as u16;
        let gnss = get_bits(bytes, 94, 1) != 0;
        let spare_1 = get_bits(bytes, 95, 1) as u8;
        Ok(LongRangeAisBroadcastMessage {
            msg_type,
            repeat,
            mmsi,
            accuracy,
            raim,
            status,
            longitude,
            latitude,
            speed,
            course,
            gnss,
            spare_1,
        })
    }
}

} // verus!
