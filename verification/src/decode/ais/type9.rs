//! Standard SAR aircraft position reports (message type 9).

use vstd::prelude::*;
use vstd::arithmetic::power2::{lemma2_to64, lemma2_to64_rest};
use crate::bits::{bits_at, get_bits};
use crate::decode::ais::common::{Timestamp};
use crate::decode::ais::converters::{course_tenths, from_altitude, from_mmsi, from_speed_sar, latitude_raw, longitude_raw, signed_value};
use crate::decode::ais::reader::{BitCursor, DecodeError, has_bits, has_bits_exec};

verus! {

/// AIS Standard SAR Aircraft Position Report (Type 9)
///
/// This message is used by search and rescue aircraft to report their position.
/// It contains essential navigation data including position, altitude, course, and speed.
///
/// Reference: <https://gpsd.gitlab.io/gpsd/AIVDM.html#_type_9_standard_sar_aircraft_position_report>
#[derive(Debug, Clone, PartialEq)]
pub struct SarAircraftPositionReport {
    /// Message type (always 9 for this message)
    pub msg_type: u8,
    /// Repeat indicator (0-3)
    pub repeat: u8,
    /// Maritime Mobile Service Identity (9 digits)
    pub mmsi: u32,
    /// Altitude in meters (0-4094); `None` when not available (4095)
    pub alt: Option<u16>,
    /// Speed over ground in knots (0-1022); `None` when not available (1023)
    pub speed: Option<u16>,
    /// Position accuracy flag
    pub accuracy: bool,
    /// Longitude in 1/10000 minute (signed); `None` when not available (181 degrees)
    pub longitude: Option<i32>,
    /// Latitude in 1/10000 minute (signed); `None` when not available (91 degrees)
    pub latitude: Option<i32>,
    /// Course over ground in tenths of a degree; `None` when not available (3600 and above)
    pub course: Option<u16>,
    /// Time stamp
    pub second: Timestamp,
    /// Reserved for regional or local use
    pub reserved_1: u8,
    /// Data Terminal Equipment (DTE) ready flag
    pub dte: bool,
    /// Spare bits (should be zero)
    pub spare_1: u8,
    /// Assigned flag (0 = autonomous mode, 1 = assigned mode)
    pub assigned: bool,
    /// RAIM flag
    pub raim: bool,
    /// Radio status (20 bits for communication state)
    pub radio: u32,
}

impl SarAircraftPositionReport {
    /// Whether `s` decodes: `Incomplete` when the data ends before a field
    /// that must be read, `Assertion` when a spare field that must be zero
    /// is not, whichever comes first.
    pub open spec fn outcome(s: Seq<u8>) -> Result<(), DecodeError> {
        if !has_bits(s, 168) {
            Err(DecodeError::Incomplete)
        } else {
            Ok(())
        }
    }

    /// Whether `self` holds the field values coded in `s`.
    pub open spec fn decodes(self, s: Seq<u8>) -> bool {
        &&& self.msg_type == bits_at(s, 0, 6) as u8
        &&& self.repeat == bits_at(s, 6, 2) as u8
        &&& self.mmsi == bits_at(s, 8, 30) as u32
        &&& self.alt == (if bits_at(s, 38, 12) == 4095 { None } else { Some(bits_at(s, 38, 12) as u16) })
        &&& self.speed == (if bits_at(s, 50, 10) == 1023 { None } else { Some(bits_at(s, 50, 10) as u16) })
        &&& self.accuracy == (bits_at(s, 60, 1) != 0)
        &&& self.longitude == (if signed_value(bits_at(s, 61, 28), 28) == 0x6791AC0 { None } else { Some(signed_value(bits_at(s, 61, 28), 28) as i32) })
        &&& self.latitude == (if signed_value(bits_at(s, 89, 27), 27) == 0x3412140 { None } else { Some(signed_value(bits_at(s, 89, 27), 27) as i32) })
        &&& self.course == (if bits_at(s, 116, 12) >= 3600 { None } else { Some(bits_at(s, 116, 12) as u16) })
        &&& self.second == Timestamp::spec_from_bits(bits_at(s, 128, 6) as u8)
        &&& self.reserved_1 == bits_at(s, 134, 8) as u8
        &&& self.dte == (bits_at(s, 142, 1) != 0)
        &&& self.spare_1 == bits_at(s, 143, 3) as u8
        &&& self.assigned == (bits_at(s, 146, 1) != 0)
        &&& self.raim == (bits_at(s, 147, 1) != 0)
        &&& self.radio == bits_at(s, 148, 20) as u32
    }

    /// Decodes the message from `bytes`, whose first bit is the first bit
    /// of the message type.
    pub fn from_bytes(bytes: &[u8]) -> (r: Result<Self, DecodeError>)
        ensures
            match r {
                Ok(m) => Self::outcome(bytes@) is Ok && m.decodes(bytes@),
                Err(e) => Self::outcome(bytes@) == Err::<(), DecodeError>(e),
            },
    {
        proof {
            lemma2_to64();
            lemma2_to64_rest();
        }
        if !has_bits_exec(bytes, 168) {
            return Err(DecodeError::Incomplete);
        }
        let msg_type = get_bits(bytes, 0, 6) as u8;
        let repeat = get_bits(bytes, 6, 2) as u8;
        let mmsi = from_mmsi(get_bits(bytes, 8, 30) as u32);
        let alt = from_altitude(get_bits(bytes, 38, 12) as u16);
        let speed = from_speed_sar(get_bits(bytes, 50, 10) as u16);
        let accuracy = get_bits(bytes, 60, 1) != 0;
        let longitude = longitude_raw(get_bits(bytes, 61, 28) as u32);
        let latitude = latitude_raw(get_bits(bytes, 89, 27) as u32);
        let course = course_tenths(get_bits(bytes, 116, 12) as u16);
        let second = Timestamp::from_bits(get_bits(bytes, 128, 6) as u8);
        let reserved_1 = get_bits(bytes, 134, 8) as u8;
        let dte = get_bits(bytes, 142, 1) != 0;
        let spare_1 = get_bits(bytes, 143, 3) as u8;
        let assigned = get_bits(bytes, 146, 1) != 0;
        let raim = get_bits(bytes, 147, 1) != 0;
        let radio = get_bits(bytes, 148, 20) as u32;
        Ok(SarAircraftPositionReport {
            msg_type,
            repeat,
            mmsi,
            alt,
            speed,
            accuracy,
            longitude,
            latitude,
            course,
            second,
            reserved_1,
            dte,
            spare_1,
            assigned,
            raim,
            radio,
        })
    }
}

} // verus!
