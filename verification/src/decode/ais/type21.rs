//! Aid-to-navigation reports (message type 21).

use vstd::prelude::*;
use vstd::arithmetic::power2::{lemma2_to64, lemma2_to64_rest};
use crate::bits::{bits_at, get_bits};
use crate::decode::ais::common::{EpfdType, NavAid, Timestamp};
use crate::decode::ais::converters::{from_mmsi, from_sixbit_ascii_120, from_sixbit_ascii_optional, latitude_raw, longitude_raw, signed_value, sixbit_text};
use crate::decode::ais::reader::{BitCursor, DecodeError, has_bits, has_bits_exec, text_matches};

verus! {

/// AIS Aid-to-Navigation Report (Type 21)
///
/// This message is used to report the position and status of aids to navigation
/// such as lighthouses, buoys, and other marine navigation aids.
///
/// Message length varies between 272 and 360 bits depending on the presence
/// and size of the Name Extension field.
///
/// Reference: <https://gpsd.gitlab.io/gpsd/AIVDM.html#_type_21_aid_to_navigation_report>
#[derive(Debug, Clone, PartialEq)]
pub struct AidToNavigationReport {
    /// Message type (always 21 for this message)
    pub msg_type: u8,
    /// Repeat indicator (0-3)
    pub repeat: u8,
    /// Maritime Mobile Service Identity (9 digits)
    pub mmsi: u32,
    /// Type of aid to navigation
    pub aid_type: NavAid,
    /// Name of the aid to navigation (20 6-bit characters)
    pub name: String,
    /// Position accuracy flag
    pub accuracy: bool,
    /// Longitude in 1/10000 minute (signed); `None` when not available (181 degrees)
    pub longitude: Option<i32>,
    /// Latitude in 1/10000 minute (signed); `None` when not available (91 degrees)
    pub latitude: Option<i32>,
    /// Distance from reference point to bow in meters
    pub to_bow: u16,
    /// Distance from reference point to stern in meters
    pub to_stern: u16,
    /// Distance from reference point to port in meters
    pub to_port: u8,
    /// Distance from reference point to starboard in meters
    pub to_starboard: u8,
    /// Electronic Position Fixing Device type
    pub epfd: EpfdType,
    /// Time stamp
    pub second: Timestamp,
    /// Off position indicator
    pub off_position: bool,
    /// Reserved for regional use
    pub reserved_1: u8,
    /// RAIM flag
    pub raim: bool,
    /// Virtual aid flag
    pub virtual_aid: bool,
    /// Assigned flag
    pub assigned: bool,
    /// Spare bit (should be zero)
    pub spare_1: u8,
    /// Name extension (14 6-bit characters, if any) - optional, only present if message > 272 bits
    /// `None` when the message ends first or the text is empty
    pub name_ext: Option<String>,
}

impl AidToNavigationReport {
    /// Whether `s` decodes: `Incomplete` when the data ends before a field
    /// that must be read, `Assertion` when a spare field that must be zero
    /// is not, whichever comes first.
    pub open spec fn outcome(s: Seq<u8>) -> Result<(), DecodeError> {
        if !has_bits(s, 272) {
            Err(DecodeError::Incomplete)
        } else {
            Ok(())
        }
    }

    /// Whether `self` holds the field values coded in `s`.
    pub open spec fn decodes(self, s: Seq<u8>) -> bool {
        &&& self.msg_type == bits_at(s, 0, 6) as u8
        &&& self.repeat == bits_at(s, 6, 2) as u8
        &&& self.mmsi == bits_at(s, 8, 30) as u32
        &&& self.aid_type == NavAid::spec_from_bits(bits_at(s, 38, 5) as u8)
        &&& self.name@ == sixbit_text(bits_at(s, 43, 120), 20)
        &&& self.accuracy == (bits_at(s, 163, 1) != 0)
        &&& self.longitude == (if signed_value(bits_at(s, 164, 28), 28) == 0x6791AC0 { None } else { Some(signed_value(bits_at(s, 164, 28), 28) as i32) })
        &&& self.latitude == (if signed_value(bits_at(s, 192, 27), 27) == 0x3412140 { None } else { Some(signed_value(bits_at(s, 192, 27), 27) as i32) })
        &&& self.to_bow == bits_at(s, 219, 9) as u16
        &&& self.to_stern == bits_at(s, 228, 9) as u16
        &&& self.to_port == bits_at(s, 237, 6) as u8
        &&& self.to_starboard == bits_at(s, 243, 6) as u8
        &&& self.epfd == EpfdType::spec_from_bits(bits_at(s, 249, 4) as u8)
        &&& self.second == Timestamp::spec_from_bits(bits_at(s, 253, 6) as u8)
        &&& self.off_position == (bits_at(s, 259, 1) != 0)
        &&& self.reserved_1 == bits_at(s, 260, 8) as u8
        &&& self.raim == (bits_at(s, 268, 1) != 0)
        &&& self.virtual_aid == (bits_at(s, 269, 1) != 0)
        &&& self.assigned == (bits_at(s, 270, 1) != 0)
        &&& self.spare_1 == bits_at(s, 271, 1) as u8
        &&& {
            let c0 = BitCursor { pos: 272, lim: (8 * s.len()) as u128 };
            &&& text_matches(self.name_ext, c0.value(s, 84), 14)
        }
    }

    /// Decodes the message from `bytes`, whose first bit is the first bit
    /// of the message type.
    pub fn from_bytes(bytes: &[u8]) -> (r: Result<Self, DecodeError>)
        ensures
            match r {
                Ok(m) => Self::outcome(bytes@) is Ok && m.decodes(bytes@),
                Err(e) => Self::outcome(bytes@) == Err::<(), DecodeError>(e),
            },
    {
        proof {
            lemma2_to64();
            lemma2_to64_rest();
        }
        if !has_bits_exec(bytes, 272) {
            return Err(DecodeError::Incomplete);
        }
        let msg_type = get_bits(bytes, 0, 6) as u8;
        let repeat = get_bits(bytes, 6, 2) as u8;
        let mmsi = from_mmsi(get_bits(bytes, 8, 30) as u32);
        let aid_type = NavAid::from_bits(get_bits(bytes, 38, 5) as u8);
        let name = from_sixbit_ascii_120(get_bits(bytes, 43, 120), 20);
        let accuracy = get_bits(bytes, 163, 1) != 0;
        let longitude = longitude_raw(get_bits(bytes, 164, 28) as u32);
        let latitude = latitude_raw(get_bits(bytes, 192, 27) as u32);
        let to_bow = get_bits(bytes, 219, 9) as u16;
        let to_stern = get_bits(bytes, 228, 9) as u16;
        let to_port = get_bits(bytes, 237, 6) as u8;
        let to_starboard = get_bits(bytes, 243, 6) as u8;
        let epfd = EpfdType::from_bits(get_bits(bytes, 249, 4) as u8);
        let second = Timestamp::from_bits(get_bits(bytes, 253, 6) as u8);
        let off_position = get_bits(bytes, 259, 1) != 0;
        let reserved_1 = get_bits(bytes, 260, 8) as u8;
        let raim = get_bits(bytes, 268, 1) != 0;
        let virtual_aid = get_bits(bytes, 269, 1) != 0;
        let assigned = get_bits(bytes, 270, 1) != 0;
        let spare_1 = get_bits(bytes, 271, 1) as u8;
        let mut c = BitCursor { pos: 272, lim: bytes.len() as u128 * 8 };
        let name_ext = match c.read(bytes, 84) {
            Some(v) => from_sixbit_ascii_optional(v, 14),
            None => None,
        };
        Ok(AidToNavigationReport {
            msg_type,
            repeat,
            mmsi,
            aid_type,
            name,
            accuracy,
            longitude,
            latitude,
            to_bow,
            to_stern,
            to_port,
            to_starboard,
            epfd,
            second,
            off_position,
            reserved_1,
            raim,
            virtual_aid,
            assigned,
            spare_1,
            name_ext,
        })
    }
}

impl AidToNavigationReport {
    /// The name followed by the name extension, when there is a non-empty one.
    pub fn full_name(&self) -> (r: String)
        ensures
            r@ == match self.name_ext {
                Some(ext) => if ext@.len() > 0 {
                    self.name@ + ext@
                } else {
                    self.name@
                },
                None => self.name@,
            },
    {
        let mut r = self.name.clone();
        match &self.name_ext {
            Some(ext) => {
                if !ext.as_str().is_empty() {
                    r.append(ext.as_str());
                }
            },
            None => {},
        }
        r
    }
}

} // verus!
