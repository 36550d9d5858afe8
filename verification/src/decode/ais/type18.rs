//! Standard Class B position reports (message type 18).

use vstd::prelude::*;
use vstd::arithmetic::power2::{lemma2_to64, lemma2_to64_rest};
use crate::bits::{bits_at, get_bits};
use crate::decode::ais::converters::{course_tenths, from_mmsi, latitude_raw, longitude_raw, signed_value, speed_tenths};
use crate::decode::ais::reader::{BitCursor, DecodeError, has_bits, has_bits_exec};

verus! {

/// AIS Standard Class B CS Position Report (Type 18)
///
/// This message is used by Class B shipborne mobile equipment to report position,
/// course, and speed information. It's similar to Type 1-3 messages but for Class B equipment.
///
/// Reference: https://gpsd.gitlab.io/gpsd/AIVDM.html#_type_18_standard_class_b_cs_position_report
#[derive(Debug, Clone, PartialEq)]
pub struct ClassBPositionReport {
    /// Message type (always 18 for this message)
    pub msg_type: u8,
    /// Repeat indicator (0-3)
    pub repeat: u8,
    /// Maritime Mobile Service Identity (9 digits)
    pub mmsi: u32,
    /// Reserved for regional applications
    pub reserved_1: u8,
    /// Speed over ground in tenths of a knot; `None` when not available (1023); 1022 means 102.2 knots or more
    pub speed: Option<u16>,
    /// Position accuracy flag
    pub accuracy: bool,
    /// Longitude in 1/10000 minute (signed); `None` when not available (181 degrees)
    pub lon: Option<i32>,
    /// Latitude in 1/10000 minute (signed); `None` when not available (91 degrees)
    pub lat: Option<i32>,
    /// Course over ground in tenths of a degree; `None` when not available (3600 and above)
    pub course: Option<u16>,
    /// True heading in degrees
    pub heading: u16,
    /// Time stamp (0-59 seconds)
    pub second: u8,
    /// Reserved for regional applications
    pub reserved_2: u8,
    /// CS unit flag
    pub cs: bool,
    /// Display flag
    pub display: bool,
    /// DSC flag
    pub dsc: bool,
    /// Band flag
    pub band: bool,
    /// Message 22 flag
    pub msg22: bool,
    /// Assigned flag
    pub assigned: bool,
    /// RAIM flag
    pub raim: bool,
    /// Radio status
    pub radio: u32,
}

impl ClassBPositionReport {
    /// Whether `s` decodes: `Incomplete` when the data ends before a field
    /// that must be read, `Assertion` when a spare field that must be zero
    /// is not, whichever comes first.
    pub open spec fn outcome(s: Seq<u8>) -> Result<(), DecodeError> {
        if !has_bits(s, 168) {
            Err(DecodeError::Incomplete)
        } else {
            Ok(())
        }
    }

    /// Whether `self` holds the field values coded in `s`.
    pub open spec fn decodes(self, s: Seq<u8>) -> bool {
        &&& self.msg_type == bits_at(s, 0, 6) as u8
        &&& self.repeat == bits_at(s, 6, 2) as u8
        &&& self.mmsi == bits_at(s, 8, 30) as u32
        &&& self.reserved_1 == bits_at(s, 38, 8) as u8
        &&& self.speed == (if bits_at(s, 46, 10) == 1023 { None } else { Some(bits_at(s, 46, 10) as u16) })
        &&& self.accuracy == (bits_at(s, 56, 1) != 0)
        &&& self.lon == (if signed_value(bits_at(s, 57, 28), 28) == 0x6791AC0 { None } else { Some(signed_value(bits_at(s, 57, 28), 28) as i32) })
        &&& self.lat == (if signed_value(bits_at(s, 85, 27), 27) == 0x3412140 { None } else { Some(signed_value(bits_at(s, 85, 27), 27) as i32) })
        &&& self.course == (if bits_at(s, 112, 12) >= 3600 { None } else { Some(bits_at(s, 112, 12) as u16) })
        &&& self.heading == bits_at(s, 124, 9) as u16
        &&& self.second == bits_at(s, 133, 6) as u8
        &&& self.reserved_2 == bits_at(s, 139, 2) as u8
        &&& self.cs == (bits_at(s, 141, 1) != 0)
        &&& self.display == (bits_at(s, 142, 1) != 0)
        &&& self.dsc == (bits_at(s, 143, 1) != 0)
        &&& self.band == (bits_at(s, 144, 1) != 0)
        &&& self.msg22 == (bits_at(s, 145, 1) != 0)
        &&& self.assigned == (bits_at(s, 146, 1) != 0)
        &&& self.raim == (bits_at(s, 147, 1) != 0)
        &&& self.radio == bits_at(s, 148, 20) as u32
    }

    /// Decodes the message from `bytes`, whose first bit is the first bit
    /// of the message type.
    pub fn from_bytes(bytes: &[u8]) -> (r: Result<Self, DecodeError>)
        ensures
            match r {
                Ok(m) => Self::outcome(bytes@) is Ok && m.decodes(bytes@),
                Err(e) => Self::outcome(bytes@) == Err::<(), DecodeError>(e),
            },
    {
        proof {
            lemma2_to64();
            lemma2_to64_rest();
        }
        if !has_bits_exec(bytes, 168) {
            return Err(DecodeError::Incomplete);
        }
        let msg_type = get_bits(bytes, 0, 6) as u8;
        let repeat = get_bits(bytes, 6, 2) as u8;
        let mmsi = from_mmsi(get_bits(bytes, 8, 30) as u32);
        let reserved_1 = get_bits(bytes, 38, 8) as u8;
        let speed = speed_tenths(get_bits(bytes, 46, 10) as u16);
        let accuracy = get_bits(bytes, 56, 1) != 0;
        let lon = longitude_raw(get_bits(bytes, 57, 28) as u32);
        let lat = latitude_raw(get_bits(bytes, 85, 27) as u32);
        let course = course_tenths(get_bits(bytes, 112, 12) as u16);
        let heading = get_bits(bytes, 124, 9) as u16;
        let second = get_bits(bytes, 133, 6) as u8;
        let reserved_2 = get_bits(bytes, 139, 2) as u8;
        let cs = get_bits(bytes, 141, 1) != 0;
        let display = get_bits(bytes, 142, 1) != 0;
        let dsc = get_bits(bytes, 143, 1) != 0;
        let band = get_bits(bytes, 144, 1) != 0;
        let msg22 = get_bits(bytes, 145, 1) != 0;
        let assigned = get_bits(bytes, 146, 1) != 0;
        let raim = get_bits(bytes, 147, 1) != 0;
        let radio = get_bits(bytes, 148, 20) as u32;
        Ok(ClassBPositionReport {
            msg_type,
            repeat,
            mmsi,
            reserved_1,
            speed,
            accuracy,
            lon,
            lat,
            course,
            heading,
            second,
            reserved_2,
            cs,
            display,
            dsc,
            band,
            msg22,
            assigned,
            raim,
            radio,
        })
    }
}

} // verus!
