//! Class A position reports (message types 1, 2 and 3).

use vstd::prelude::*;
use vstd::arithmetic::power2::{lemma2_to64, lemma2_to64_rest};
use crate::bits::{bits_at, get_bits};
use crate::decode::ais::common::{ManeuverIndicator, NavigationStatus, Timestamp};
use crate::decode::ais::converters::{course_tenths, from_heading, from_mmsi, latitude_raw, longitude_raw, signed_value, speed_tenths, turn_indicator};
use crate::decode::ais::reader::{BitCursor, DecodeError, has_bits, has_bits_exec};

verus! {

/// AIS Vessel position report using SOTDMA (Self-Organizing Time Division Multiple Access)
///
/// This message structure is used for AIS message types 1, 2, and 3, which are all
/// Class A position reports with identical formats. The only difference between them
/// is the message type field, which affects transmission timing and priority.
///
/// - Type 1: Scheduled position report
/// - Type 2: Assigned scheduled position report
/// - Type 3: Special position report, response to interrogation
///
/// Reference: <https://gpsd.gitlab.io/gpsd/AIVDM.html#_types_1_2_and_3_position_report_class_a>
#[derive(Debug, Clone, PartialEq)]
pub struct PositionReport {
    /// Message type (1, 2, or 3 for this message structure)
    pub msg_type: u8,
    /// Repeat indicator (0-3)
    pub repeat: u8,
    /// Maritime Mobile Service Identity (9 digits)
    pub mmsi: u32,
    /// Navigation status
    pub status: NavigationStatus,
    /// Rate-of-turn indicator, the signed code -127..127 (±127: more than 720 degrees per minute); `None` when not available (-128)
    pub turn: Option<i8>,
    /// Speed over ground in tenths of a knot; `None` when not available (1023); 1022 means 102.2 knots or more
    pub speed: Option<u16>,
    /// Position accuracy flag
    pub accuracy: bool,
    /// Longitude in 1/10000 minute (signed); `None` when not available (181 degrees)
    pub longitude: Option<i32>,
    /// Latitude in 1/10000 minute (signed); `None` when not available (91 degrees)
    pub latitude: Option<i32>,
    /// Course over ground in tenths of a degree; `None` when not available (3600 and above)
    pub course: Option<u16>,
    /// True heading in degrees; `None` when not available (360 and above)
    pub heading: Option<u16>,
    /// Time stamp (0-59 seconds)
    pub second: Timestamp,
    /// Maneuver indicator
    pub maneuver: ManeuverIndicator,
    /// Spare bits (should be zero)
    pub spare_1: u8,
    /// Receiver autonomous integrity monitoring (RAIM) flag
    pub raim: bool,
    /// Radio status
    pub radio: u32,
}

impl PositionReport {
    /// Whether `s` decodes: `Incomplete` when the data ends before a field
    /// that must be read, `Assertion` when a spare field that must be zero
    /// is not, whichever comes first.
    pub open spec fn outcome(s: Seq<u8>) -> Result<(), DecodeError> {
        if !has_bits(s, 168) {
            Err(DecodeError::Incomplete)
        } else {
            Ok(())
        }
    }

    /// Whether `self` holds the field values coded in `s`.
    pub open spec fn decodes(self, s: Seq<u8>) -> bool {
        &&& self.msg_type == bits_at(s, 0, 6) as u8
        &&& self.repeat == bits_at(s, 6, 2) as u8
        &&& self.mmsi == bits_at(s, 8, 30) as u32
        &&& self.status == NavigationStatus::spec_from_bits(bits_at(s, 38, 4) as u8)
        &&& self.turn == (if bits_at(s, 42, 8) == 128 { None } else { Some(signed_value(bits_at(s, 42, 8), 8) as i8) })
        &&& self.speed == (if bits_at(s, 50, 10) == 1023 { None } else { Some(bits_at(s, 50, 10) as u16) })
        &&& self.accuracy == (bits_at(s, 60, 1) != 0)
        &&& self.longitude == (if signed_value(bits_at(s, 61, 28), 28) == 0x6791AC0 { None } else { Some(signed_value(bits_at(s, 61, 28), 28) as i32) })
        &&& self.latitude == (if signed_value(bits_at(s, 89, 27), 27) == 0x3412140 { None } else { Some(signed_value(bits_at(s, 89, 27), 27) as i32) })
        &&& self.course == (if bits_at(s, 116, 12) >= 3600 { None } else { Some(bits_at(s, 116, 12) as u16) })
        &&& self.heading == (if bits_at(s, 128, 9) >= 360 { None } else { Some(bits_at(s, 128, 9) as u16) })
        &&& self.second == Timestamp::spec_from_bits(bits_at(s, 137, 6) as u8)
        &&& self.maneuver == ManeuverIndicator::spec_from_bits(bits_at(s, 143, 2) as u8)
        &&& self.spare_1 == bits_at(s, 145, 3) as u8
        &&& self.raim == (bits_at(s, 148, 1) != 0)
        &&& self.radio == bits_at(s, 149, 19) as u32
    }

    /// Decodes the message from `bytes`, whose first bit is the first bit
    /// of the message type.
    pub fn from_bytes(bytes: &[u8]) -> (r: Result<Self, DecodeError>)
        ensures
            match r {
                Ok(m) => Self::outcome(bytes@) is Ok && m.decodes(bytes@),
                Err(e) => Self::outcome(bytes@) == Err::<(), DecodeError>(e),
            },
    {
        proof {
            lemma2_to64();
            lemma2_to64_rest();
        }
        if !has_bits_exec(bytes, 168) {
            return Err(DecodeError::Incomplete);
        }
        let msg_type = get_bits(bytes, 0, 6) as u8;
        let repeat = get_bits(bytes, 6, 2) as u8;
        let mmsi = from_mmsi(get_bits(bytes, 8, 30) as u32);
        let status = NavigationStatus::from_bits(get_bits(bytes, 38, 4) as u8);
        let turn = turn_indicator(get_bits(bytes, 42, 8) as u8);
        let speed = speed_tenths(get_bits(bytes, 50, 10) as u16);
        let accuracy = get_bits(bytes, 60, 1) != 0;
        let longitude = longitude_raw(get_bits(bytes, 61, 28) as u32);
        let latitude = latitude_raw(get_bits(bytes, 89, 27) as u32);
        let course = course_tenths(get_bits(bytes, 116, 12) as u16);
        let heading = from_heading(get_bits(bytes, 128, 9) as u16);
        let second = Timestamp::from_bits(get_bits(bytes, 137, 6) as u8);
        let maneuver = ManeuverIndicator::from_bits(get_bits(bytes, 143, 2) as u8);
        let spare_1 = get_bits(bytes, 145, 3) as u8;
        let raim = get_bits(bytes, 148, 1) != 0;
        let radio = get_bits(bytes, 149, 19) as u32;
        Ok(PositionReport {
            msg_type,
            repeat,
            mmsi,
            status,
            turn,
            speed,
            accuracy,
            longitude,
            latitude,
            course,
            heading,
            second,
            maneuver,
            spare_1,
            raim,
            radio,
        })
    }
}

} // verus!
