//! Group assignment commands (message type 23).

use vstd::prelude::*;
use vstd::arithmetic::power2::{lemma2_to64, lemma2_to64_rest};
use crate::bits::{bits_at, get_bits};
use crate::decode::ais::common::{ShipType, StationIntervals, StationType, TransmitMode};
use crate::decode::ais::converters::{from_mmsi, tenth_minutes, tenth_minutes_value};
use crate::decode::ais::reader::{BitCursor, DecodeError, has_bits, has_bits_exec};

verus! {

/// AIS Group Assignment Command (Type 23)
///
/// This message is used to assign a reporting schedule for a given
/// geographic area. It is used to reduce channel loading by commanding
/// Class B units to reduce their reporting rate in congested areas.
///
/// Reference: https://gpsd.gitlab.io/gpsd/AIVDM.html#_type_23_group_assignment_command
#[derive(Debug, Clone, PartialEq)]
pub struct GroupAssignmentCommand {
    /// Message type (always 23 for this message)
    pub msg_type: u8,
    /// Repeat indicator (0-3)
    pub repeat: u8,
    /// Maritime Mobile Service Identity (9 digits)
    pub mmsi: u32,
    /// Spare bits (should be zero)
    pub spare_1: u8,
    /// Northeast corner longitude in tenths of a minute (signed); 0 when not available
    pub ne_lon: i32,
    /// Northeast corner latitude in tenths of a minute (signed); 0 when not available
    pub ne_lat: i32,
    /// Southwest corner longitude in tenths of a minute (signed); 0 when not available
    pub sw_lon: i32,
    /// Southwest corner latitude in tenths of a minute (signed); 0 when not available
    pub sw_lat: i32,
    /// Station type
    pub station_type: StationType,
    /// Ship and cargo classification
    pub ship_type: ShipType,
    /// Spare bits (should be zero)
    pub spare_2: u32,
    /// Transmit/receive mode
    pub txrx: TransmitMode,
    /// Reporting interval
    pub interval: StationIntervals,
    /// Quiet time (0-15 minutes)
    pub quiet: u8,
    /// Spare bits (should be zero)
    pub spare_3: u8,
}

impl GroupAssignmentCommand {
    /// Whether `s` decodes: `Incomplete` when the data ends before a field
    /// that must be read, `Assertion` when a spare field that must be zero
    /// is not, whichever comes first.
    pub open spec fn outcome(s: Seq<u8>) -> Result<(), DecodeError> {
        if !has_bits(s, 160) {
            Err(DecodeError::Incomplete)
        } else {
            Ok(())
        }
    }

    /// Whether `self` holds the field values coded in `s`.
    pub open spec fn decodes(self, s: Seq<u8>) -> bool {
        &&& self.msg_type == bits_at(s, 0, 6) as u8
        &&& self.repeat == bits_at(s, 6, 2) as u8
        &&& self.mmsi == bits_at(s, 8, 30) as u32
        &&& self.spare_1 == bits_at(s, 38, 2) as u8
        &&& self.ne_lon as int == tenth_minutes_value(bits_at(s, 40, 18), 18)
        &&& self.ne_lat as int == tenth_minutes_value(bits_at(s, 58, 17), 17)
        &&& self.sw_lon as int == tenth_minutes_value(bits_at(s, 75, 18), 18)
        &&& self.sw_lat as int == tenth_minutes_value(bits_at(s, 93, 17), 17)
        &&& self.station_type == StationType::spec_from_bits(bits_at(s, 110, 4) as u8)
        &&& self.ship_type == ShipType::spec_from_bits(bits_at(s, 114, 8) as u8)
        &&& self.spare_2 == bits_at(s, 122, 22) as u32
        &&& self.txrx == TransmitMode::spec_from_bits(bits_at(s, 144, 2) as u8)
        &&& self.interval == StationIntervals::spec_from_bits(bits_at(s, 146, 4) as u8)
        &&& self.quiet == bits_at(s, 150, 4) as u8
        &&& self.spare_3 == bits_at(s, 154, 6) as u8
    }

    /// Decodes the message from `bytes`, whose first bit is the first bit
    /// of the message type.
    pub fn from_bytes(bytes: &[u8]) -> (r: Result<Self, DecodeError>)
        ensures
            match r {
                Ok(m) => Self::outcome(bytes@) is Ok && m.decodes(bytes@),
                Err(e) => Self::outcome(bytes@) == Err::<(), DecodeError>(e),
            },
    {
        proof {
            lemma2_to64();
            lemma2_to64_rest();
        }
        if !has_bits_exec(bytes, 160) {
            return Err(DecodeError::Incomplete);
        }
        let msg_type = get_bits(bytes, 0, 6) as u8;
        let repeat = get_bits(bytes, 6, 2) as u8;
        let mmsi = from_mmsi(get_bits(bytes, 8, 30) as u32);
        let spare_1 = get_bits(bytes, 38, 2) as u8;
        let ne_lon = tenth_minutes(get_bits(bytes, 40, 18) as u32, 18);
        let ne_lat = tenth_minutes(get_bits(bytes, 58, 17) as u32, 17);
        let sw_lon = tenth_minutes(get_bits(bytes, 75, 18) as u32, 18);
        let sw_lat = tenth_minutes(get_bits(bytes, 93, 17) as u32, 17);
        let station_type = StationType::from_bits(get_bits(bytes, 110, 4) as u8);
        let ship_type = ShipType::from_bits(get_bits(bytes, 114, 8) as u8);
        let spare_2 = get_bits(bytes, 122, 22) as u32;
        let txrx = TransmitMode::from_bits(get_bits(bytes, 144, 2) as u8);
        let interval = StationIntervals::from_bits(get_bits(bytes, 146, 4) as u8);
        let quiet = get_bits(bytes, 150, 4) as u8;
        let spare_3 = get_bits(bytes, 154, 6) as u8;
        Ok(GroupAssignmentCommand {
            msg_type,
            repeat,
            mmsi,
            spare_1,
            ne_lon,
            ne_lat,
            sw_lon,
            sw_lat,
            station_type,
            ship_type,
            spare_2,
            txrx,
            interval,
            quiet,
            spare_3,
        })
    }
}

} // verus!
