//! Extended Class B position reports (message type 19).

use vstd::prelude::*;
use vstd::arithmetic::power2::{lemma2_to64, lemma2_to64_rest};
use crate::bits::{bits_at, get_bits};
use crate::decode::ais::common::{EpfdType, ShipType};
use crate::decode::ais::converters::{course_tenths, from_mmsi, from_sixbit_ascii_120, latitude_raw, longitude_raw, signed_value, sixbit_text, speed_tenths};
use crate::decode::ais::reader::{BitCursor, DecodeError, has_bits, has_bits_exec};

verus! {

/// AIS Extended Class B CS Position Report (Type 19)
///
/// This message is used by Class B shipborne mobile equipment to report position,
/// course, speed, and static information including vessel name and dimensions.
///
/// Reference: https://gpsd.gitlab.io/gpsd/AIVDM.html#_type_19_extended_class_b_cs_position_report
#[derive(Debug, Clone, PartialEq)]
pub struct ExtendedClassBPositionReport {
    /// Message type (always 19 for this message)
    pub msg_type: u8,
    /// Repeat indicator (0-3)
    pub repeat: u8,
    /// Maritime Mobile Service Identity (9 digits)
    pub mmsi: u32,
    /// Reserved for regional applications
    pub reserved_1: u8,
    /// Speed over ground in tenths of a knot; `None` when not available (1023); 1022 means 102.2 knots or more
    pub speed: Option<u16>,
    /// Position accuracy flag
    pub accuracy: bool,
    /// Longitude in 1/10000 minute (signed); `None` when not available (181 degrees)
    pub longitude: Option<i32>,
    /// Latitude in 1/10000 minute (signed); `None` when not available (91 degrees)
    pub latitude: Option<i32>,
    /// Course over ground in tenths of a degree; `None` when not available (3600 and above)
    pub course: Option<u16>,
    /// True heading in degrees
    pub heading: u16,
    /// Time stamp (0-59 seconds)
    pub second: u8,
    /// Reserved for regional applications
    pub reserved_2: u8,
    /// Ship and cargo type name (20 6-bit characters)
    pub shipname: String,
    /// Ship and cargo classification
    pub ship_type: ShipType,
    /// Distance from reference point to bow in meters
    pub to_bow: u16,
    /// Distance from reference point to stern in meters
    pub to_stern: u16,
    /// Distance from reference point to port in meters
    pub to_port: u8,
    /// Distance from reference point to starboard in meters
    pub to_starboard: u8,
    /// Electronic Position Fixing Device type
    pub epfd: EpfdType,
    /// RAIM flag
    pub raim: bool,
    /// Data Terminal Equipment ready flag
    pub dte: bool,
    /// Assigned flag
    pub assigned: bool,
    /// Spare bits (should be zero)
    pub spare_1: u8,
}

impl ExtendedClassBPositionReport {
    /// Whether `s` decodes: `Incomplete` when the data ends before a field
    /// that must be read, `Assertion` when a spare field that must be zero
    /// is not, whichever comes first.
    pub open spec fn outcome(s: Seq<u8>) -> Result<(), DecodeError> {
        if !has_bits(s, 312) {
            Err(DecodeError::Incomplete)
        } else if bits_at(s, 308, 4) != 0 {
            Err(DecodeError::Assertion)
        } else if !has_bits(s, 312) {
            Err(DecodeError::Incomplete)
        } else {
            Ok(())
        }
    }

    /// Whether `self` holds the field values coded in `s`.
    pub open spec fn decodes(self, s: Seq<u8>) -> bool {
        &&& self.msg_type == bits_at(s, 0, 6) as u8
        &&& self.repeat == bits_at(s, 6, 2) as u8
        &&& self.mmsi == bits_at(s, 8, 30) as u32
        &&& self.reserved_1 == bits_at(s, 38, 8) as u8
        &&& self.speed == (if bits_at(s, 46, 10) == 1023 { None } else { Some(bits_at(s, 46, 10) as u16) })
        &&& self.accuracy == (bits_at(s, 56, 1) != 0)
        &&& self.longitude == (if signed_value(bits_at(s, 57, 28), 28) == 0x6791AC0 { None } else { Some(signed_value(bits_at(s, 57, 28), 28) as i32) })
        &&& self.latitude == (if signed_value(bits_at(s, 85, 27), 27) == 0x3412140 { None } else { Some(signed_value(bits_at(s, 85, 27), 27) as i32) })
        &&& self.course == (if bits_at(s, 112, 12) >= 3600 { None } else { Some(bits_at(s, 112, 12) as u16) })
        &&& self.heading == bits_at(s, 124, 9) as u16
        &&& self.second == bits_at(s, 133, 6) as u8
        &&& self.reserved_2 == bits_at(s, 139, 4) as u8
        &&& self.shipname@ == sixbit_text(bits_at(s, 143, 120), 20)
        &&& self.ship_type == ShipType::spec_from_bits(bits_at(s, 263, 8) as u8)
        &&& self.to_bow == bits_at(s, 271, 9) as u16
        &&& self.to_stern == bits_at(s, 280, 9) as u16
        &&& self.to_port == bits_at(s, 289, 6) as u8
        &&& self.to_starboard == bits_at(s, 295, 6) as u8
        &&& self.epfd == EpfdType::spec_from_bits(bits_at(s, 301, 4) as u8)
        &&& self.raim == (bits_at(s, 305, 1) != 0)
        &&& self.dte == (bits_at(s, 306, 1) != 0)
        &&& self.assigned == (bits_at(s, 307, 1) != 0)
        &&& self.spare_1 == bits_at(s, 308, 4) as u8
    }

    /// Decodes the message from `bytes`, whose first bit is the first bit
    /// of the message type.
    pub fn from_bytes(bytes: &[u8]) -> (r: Result<Self, DecodeError>)
        ensures
            match r {
                Ok(m) => Self::outcome(bytes@) is Ok && m.decodes(bytes@),
                Err(e) => Self::outcome(bytes@) == Err::<(), DecodeError>(e),
            },
    {
        proof {
            lemma2_to64();
            lemma2_to64_rest();
        }
        if !has_bits_exec(bytes, 312) {
            return Err(DecodeError::Incomplete);
        }
        if get_bits(bytes, 308, 4) != 0 {
            return Err(DecodeError::Assertion);
        }
        if !has_bits_exec(bytes, 312) {
            return Err(DecodeError::Incomplete);
        }
        let msg_type = get_bits(bytes, 0, 6) as u8;
        let repeat = get_bits(bytes, 6, 2) as u8;
        let mmsi = from_mmsi(get_bits(bytes, 8, 30) as u32);
        let reserved_1 = get_bits(bytes, 38, 8) as u8;
        let speed = speed_tenths(get_bits(bytes, 46, 10) as u16);
        let accuracy = get_bits(bytes, 56, 1) != 0;
        let longitude = longitude_raw(get_bits(bytes, 57, 28) as u32);
        let latitude = latitude_raw(get_bits(bytes, 85, 27) as u32);
        let course = course_tenths(get_bits(bytes, 112, 12) as u16);
        let heading = get_bits(bytes, 124, 9) as u16;
        let second = get_bits(bytes, 133, 6) as u8;
        let reserved_2 = get_bits(bytes, 139, 4) as u8;
        let shipname = from_sixbit_ascii_120(get_bits(bytes, 143, 120), 20);
        let ship_type = ShipType::from_bits(get_bits(bytes, 263, 8) as u8);
        let to_bow = get_bits(bytes, 271, 9) as u16;
        let to_stern = get_bits(bytes, 280, 9) as u16;
        let to_port = get_bits(bytes, 289, 6) as u8;
        let to_starboard = get_bits(bytes, 295, 6) as u8;
        let epfd = EpfdType::from_bits(get_bits(bytes, 301, 4) as u8);
        let raim = get_bits(bytes, 305, 1) != 0;
        let dte = get_bits(bytes, 306, 1) != 0;
        let assigned = get_bits(bytes, 307, 1) != 0;
        let spare_1 = get_bits(bytes, 308, 4) as u8;
        Ok(ExtendedClassBPositionReport {
            msg_type,
            repeat,
            mmsi,
            reserved_1,
            speed,
            accuracy,
            longitude,
            latitude,
            course,
            heading,
            second,
            reserved_2,
            shipname,
            ship_type,
            to_bow,
            to_stern,
            to_port,
            to_starboard,
            epfd,
            raim,
            dte,
            assigned,
            spare_1,
        })
    }
}

} // verus!
