//! Base station reports and UTC date responses (message types 4 and 11).

use vstd::prelude::*;
use vstd::arithmetic::power2::{lemma2_to64, lemma2_to64_rest};
use crate::bits::{bits_at, get_bits};
use crate::decode::ais::common::{EpfdType};
use crate::decode::ais::converters::{from_day, from_hour, from_minute, from_mmsi, from_month, from_second, from_year, latitude_raw, longitude_raw, signed_value};
use crate::decode::ais::reader::{BitCursor, DecodeError, has_bits, has_bits_exec};

verus! {

/// AIS Base Station Report (Type 4) / UTC Date Response (Type 11)
///
/// This message is transmitted by base stations to provide position and time information.
/// Type 4 is a periodic base station report, while Type 11 is a response to a UTC/Date inquiry.
/// Both message types use identical formats.
///
/// It includes UTC time, position coordinates, and information about the electronic
/// position fixing device (EPFD) being used.
///
/// Reference: <https://gpsd.gitlab.io/gpsd/AIVDM.html#_type_4_base_station_report>
#[derive(Debug, Clone, PartialEq)]
pub struct BaseStationTimeReport {
    /// Message type (4 for base station report, 11 for UTC/date response)
    pub msg_type: u8,
    /// Repeat indicator (0-3)
    pub repeat: u8,
    /// Maritime Mobile Service Identity (9 digits)
    pub mmsi: u32,
    /// Year (1-9999); `None` when not available (0)
    pub year: Option<u16>,
    /// Month (1-12); `None` when not available (0)
    pub month: Option<u8>,
    /// Day (1-31); `None` when not available (0)
    pub day: Option<u8>,
    /// Hour (0-23); `None` when not available (24)
    pub hour: Option<u8>,
    /// Minute (0-59); `None` when not available (60)
    pub minute: Option<u8>,
    /// Second (0-59); `None` when not available (60)
    pub second: Option<u8>,
    /// Position accuracy flag
    pub accuracy: bool,
    /// Longitude in 1/10000 minute (signed); `None` when not available (181 degrees)
    pub longitude: Option<i32>,
    /// Latitude in 1/10000 minute (signed); `None` when not available (91 degrees)
    pub latitude: Option<i32>,
    /// Electronic Position Fixing Device type
    pub epfd: EpfdType,
    /// Spare bits (should be zero)
    pub spare_1: u16,
    /// RAIM flag
    pub raim: bool,
    /// Radio status
    pub radio: u32,
}

impl BaseStationTimeReport {
    /// Whether `s` decodes: `Incomplete` when the data ends before a field
    /// that must be read, `Assertion` when a spare field that must be zero
    /// is not, whichever comes first.
    pub open spec fn outcome(s: Seq<u8>) -> Result<(), DecodeError> {
        if !has_bits(s, 148) {
            Err(DecodeError::Incomplete)
        } else if bits_at(s, 138, 10) != 0 {
            Err(DecodeError::Assertion)
        } else if !has_bits(s, 168) {
            Err(DecodeError::Incomplete)
        } else {
            Ok(())
        }
    }

    /// Whether `self` holds the field values coded in `s`.
    pub open spec fn decodes(self, s: Seq<u8>) -> bool {
        &&& self.msg_type == bits_at(s, 0, 6) as u8
        &&& self.repeat == bits_at(s, 6, 2) as u8
        &&& self.mmsi == bits_at(s, 8, 30) as u32
        &&& self.year == (if bits_at(s, 38, 14) == 0 { None } else { Some(bits_at(s, 38, 14) as u16) })
        &&& self.month == (if bits_at(s, 52, 4) == 0 { None } else { Some(bits_at(s, 52, 4) as u8) })
        &&& self.day == (if bits_at(s, 56, 5) == 0 { None } else { Some(bits_at(s, 56, 5) as u8) })
        &&& self.hour == (if bits_at(s, 61, 5) == 24 { None } else { Some(bits_at(s, 61, 5) as u8) })
        &&& self.minute == (if bits_at(s, 66, 6) == 60 { None } else { Some(bits_at(s, 66, 6) as u8) })
        &&& self.second == (if bits_at(s, 72, 6) == 60 { None } else { Some(bits_at(s, 72, 6) as u8) })
        &&& self.accuracy == (bits_at(s, 78, 1) != 0)
        &&& self.longitude == (if signed_value(bits_at(s, 79, 28), 28) == 0x6791AC0 { None } else { Some(signed_value(bits_at(s, 79, 28), 28) as i32) })
        &&& self.latitude == (if signed_value(bits_at(s, 107, 27), 27) == 0x3412140 { None } else { Some(signed_value(bits_at(s, 107, 27), 27) as i32) })
        &&& self.epfd == EpfdType::spec_from_bits(bits_at(s, 134, 4) as u8)
        &&& self.spare_1 == bits_at(s, 138, 10) as u16
        &&& self.raim == (bits_at(s, 148, 1) != 0)
        &&& self.radio == bits_at(s, 149, 19) as u32
    }

    /// Decodes the message from `bytes`, whose first bit is the first bit
    /// of the message type.
    pub fn from_bytes(bytes: &[u8]) -> (r: Result<Self, DecodeError>)
        ensures
            match r {
                Ok(m) => Self::outcome(bytes@) is Ok && m.decodes(bytes@),
                Err(e) => Self::outcome(bytes@) == Err::<(), DecodeError>(e),
            },
    {
        proof {
            lemma2_to64();
            lemma2_to64_rest();
        }
        if !has_bits_exec(bytes, 148) {
            return Err(DecodeError::Incomplete);
        }
        if get_bits(bytes, 138, 10) != 0 {
            return Err(DecodeError::Assertion);
        }
        if !has_bits_exec(bytes, 168) {
            return Err(DecodeError::Incomplete);
        }
        let msg_type = get_bits(bytes, 0, 6) as u8;
        let repeat = get_bits(bytes, 6, 2) as u8;
        let mmsi = from_mmsi(get_bits(bytes, 8, 30) as u32);
        let year = from_year(get_bits(bytes, 38, 14) as u16);
        let month = from_month(get_bits(bytes, 52, 4) as u8);
        let day = from_day(get_bits(bytes, 56, 5) as u8);
        let hour = from_hour(get_bits(bytes, 61, 5) as u8);
        let minute = from_minute(get_bits(bytes, 66, 6) as u8);
        let second = from_second(get_bits(bytes, 72, 6) as u8);
        let accuracy = get_bits(bytes, 78, 1) != 0;
        let longitude = longitude_raw(get_bits(bytes, 79, 28) as u32);
        let latitude = latitude_raw(get_bits(bytes, 107, 27) as u32);
        let epfd = EpfdType::from_bits(get_bits(bytes, 134, 4) as u8);
        let spare_1 = get_bits(bytes, 138, 10) as u16;
        let raim = get_bits(bytes, 148, 1) != 0;
        let radio = get_bits(bytes, 149, 19) as u32;
        Ok(BaseStationTimeReport {
            msg_type,
            repeat,
            mmsi,
            year,
            month,
            day,
            hour,
            minute,
            second,
            accuracy,
            longitude,
            latitude,
            epfd,
            spare_1,
            raim,
            radio,
        })
    }
}

} // verus!
