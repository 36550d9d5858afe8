//! Static and voyage related data (message type 5).

use vstd::prelude::*;
use vstd::arithmetic::power2::{lemma2_to64, lemma2_to64_rest};
use crate::bits::{bits_at, get_bits};
use crate::decode::ais::common::{EpfdType, ShipType};
use crate::decode::ais::converters::{from_mmsi, from_sixbit_ascii, from_sixbit_ascii_120, sixbit_text};
use crate::decode::ais::reader::{BitCursor, DecodeError, has_bits, has_bits_exec};

verus! {

/// AIS Static and Voyage Related Data (Type 5)
///
/// This message contains static information about a vessel including ship name,
/// call sign, dimensions, destination, and voyage-related data. It's transmitted
/// as a multi-part message due to its large size.
///
/// Reference: https://gpsd.gitlab.io/gpsd/AIVDM.html#_type_5_static_and_voyage_related_data
#[derive(Debug, Clone, PartialEq)]
pub struct StaticAndVoyageData {
    /// Message type (always 5 for this message)
    pub msg_type: u8,
    /// Repeat indicator (0-3)
    pub repeat: u8,
    /// Maritime Mobile Service Identity (9 digits)
    pub mmsi: u32,
    /// AIS version (0-3)
    pub ais_version: u8,
    /// IMO number (30 bits)
    pub imo: u32,
    /// Call sign (7 characters, 6-bit ASCII)
    pub callsign: String,
    /// Vessel name (20 characters, 6-bit ASCII)
    pub shipname: String,
    /// Ship and cargo type
    pub ship_type: ShipType,
    /// Distance from reference point to bow (meters)
    pub to_bow: u16,
    /// Distance from reference point to stern (meters)
    pub to_stern: u16,
    /// Distance from reference point to port side (meters)
    pub to_port: u8,
    /// Distance from reference point to starboard side (meters)
    pub to_starboard: u8,
    /// Electronic Position Fixing Device type
    pub epfd: EpfdType,
    /// Month (1-12, 0 = N/A)
    pub month: u8,
    /// Day (1-31, 0 = N/A)
    pub day: u8,
    /// Hour (0-23, 24 = N/A)
    pub hour: u8,
    /// Minute (0-59, 60 = N/A)
    pub minute: u8,
    /// Draught in tenths of a metre
    pub draught: u8,
    /// Destination (20 characters, 6-bit ASCII)
    pub destination: String,
    /// Data Terminal Equipment (DTE) ready flag
    pub dte: bool,
    /// Spare bit (should be zero)
    pub spare_1: u8,
}

impl StaticAndVoyageData {
    /// Whether `s` decodes: `Incomplete` when the data ends before a field
    /// that must be read, `Assertion` when a spare field that must be zero
    /// is not, whichever comes first.
    pub open spec fn outcome(s: Seq<u8>) -> Result<(), DecodeError> {
        if !has_bits(s, 424) {
            Err(DecodeError::Incomplete)
        } else if bits_at(s, 423, 1) != 0 {
            Err(DecodeError::Assertion)
        } else if !has_bits(s, 424) {
            Err(DecodeError::Incomplete)
        } else {
            Ok(())
        }
    }

    /// Whether `self` holds the field values coded in `s`.
    pub open spec fn decodes(self, s: Seq<u8>) -> bool {
        &&& self.msg_type == bits_at(s, 0, 6) as u8
        &&& self.repeat == bits_at(s, 6, 2) as u8
        &&& self.mmsi == bits_at(s, 8, 30) as u32
        &&& self.ais_version == bits_at(s, 38, 2) as u8
        &&& self.imo == bits_at(s, 40, 30) as u32
        &&& self.callsign@ == sixbit_text(bits_at(s, 70, 42), 7)
        &&& self.shipname@ == sixbit_text(bits_at(s, 112, 120), 20)
        &&& self.ship_type == ShipType::spec_from_bits(bits_at(s, 232, 8) as u8)
        &&& self.to_bow == bits_at(s, 240, 9) as u16
        &&& self.to_stern == bits_at(s, 249, 9) as u16
        &&& self.to_port == bits_at(s, 258, 6) as u8
        &&& self.to_starboard == bits_at(s, 264, 6) as u8
        &&& self.epfd == EpfdType::spec_from_bits(bits_at(s, 270, 4) as u8)
        &&& self.month == bits_at(s, 274, 4) as u8
        &&& self.day == bits_at(s, 278, 5) as u8
        &&& self.hour == bits_at(s, 283, 5) as u8
        &&& self.minute == bits_at(s, 288, 6) as u8
        &&& self.draught == bits_at(s, 294, 8) as u8
        &&& self.destination@ == sixbit_text(bits_at(s, 302, 120), 20)
        &&& self.dte == (bits_at(s, 422, 1) != 0)
        &&& self.spare_1 == bits_at(s, 423, 1) as u8
    }

    /// Decodes the message from `bytes`, whose first bit is the first bit
    /// of the message type.
    pub fn from_bytes(bytes: &[u8]) -> (r: Result<Self, DecodeError>)
        ensures
            match r {
                Ok(m) => Self::outcome(bytes@) is Ok && m.decodes(bytes@),
                Err(e) => Self::outcome(bytes@) == Err::<(), DecodeError>(e),
            },
    {
        proof {
            lemma2_to64();
            lemma2_to64_rest();
        }
        if !has_bits_exec(bytes, 424) {
            return Err(DecodeError::Incomplete);
        }
        if get_bits(bytes, 423, 1) != 0 {
            return Err(DecodeError::Assertion);
        }
        if !has_bits_exec(bytes, 424) {
            return Err(DecodeError::Incomplete);
        }
        let msg_type = get_bits(bytes, 0, 6) as u8;
        let repeat = get_bits(bytes, 6, 2) as u8;
        let mmsi = from_mmsi(get_bits(bytes, 8, 30) as u32);
        let ais_version = get_bits(bytes, 38, 2) as u8;
        let imo = get_bits(bytes, 40, 30) as u32;
        let callsign = from_sixbit_ascii(get_bits(bytes, 70, 42) as u64, 7);
        let shipname = from_sixbit_ascii_120(get_bits(bytes, 112, 120), 20);
        let ship_type = ShipType::from_bits(get_bits(bytes, 232, 8) as u8);
        let to_bow = get_bits(bytes, 240, 9) as u16;
        let to_stern = get_bits(bytes, 249, 9) as u16;
        let to_port = get_bits(bytes, 258, 6) as u8;
        let to_starboard = get_bits(bytes, 264, 6) as u8;
        let epfd = EpfdType::from_bits(get_bits(bytes, 270, 4) as u8);
        let month = get_bits(bytes, 274, 4) as u8;
        let day = get_bits(bytes, 278, 5) as u8;
        let hour = get_bits(bytes, 283, 5) as u8;
        let minute = get_bits(bytes, 288, 6) as u8;
        let draught = get_bits(bytes, 294, 8) as u8;
        let destination = from_sixbit_ascii_120(get_bits(bytes, 302, 120), 20);
        let dte = get_bits(bytes, 422, 1) != 0;
        let spare_1 = get_bits(bytes, 423, 1) as u8;
        Ok(StaticAndVoyageData {
            msg_type,
            repeat,
            mmsi,
            ais_version,
            imo,
            callsign,
            shipname,
            ship_type,
            to_bow,
            to_stern,
            to_port,
            to_starboard,
            epfd,
            month,
            day,
            hour,
            minute,
            draught,
            destination,
            dte,
            spare_1,
        })
    }
}

} // verus!
