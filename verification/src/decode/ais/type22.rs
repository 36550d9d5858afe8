//! Channel management (message type 22).

use vstd::prelude::*;
use vstd::arithmetic::power2::{lemma2_to64, lemma2_to64_rest};
use crate::bits::{bits_at, get_bits};
use crate::decode::ais::converters::{from_mmsi, tenth_minutes, tenth_minutes_value};
use crate::decode::ais::reader::{BitCursor, DecodeError, has_bits, has_bits_exec};

verus! {

/// AIS Channel Management (Type 22) - Addressed Mode
///
/// Used when the message is addressed to specific stations (addressed field is 1).
/// Contains two destination MMSIs instead of geographical coordinates.
#[derive(Debug, Clone, PartialEq)]
pub struct ChannelManagementAddressed {
    /// Message type (always 22 for this message)
    pub msg_type: u8,
    /// Repeat indicator (0-3)
    pub repeat: u8,
    /// Maritime Mobile Service Identity (9 digits)
    pub mmsi: u32,
    /// Spare bits (should be zero)
    pub spare_1: u8,
    /// Channel A number
    pub channel_a: u16,
    /// Channel B number
    pub channel_b: u16,
    /// Transmit/receive mode
    pub txrx: u8,
    /// High power flag
    pub power: bool,
    /// First destination MMSI
    pub dest1: u32,
    /// Empty field 1
    pub empty_1: u8,
    /// Second destination MMSI
    pub dest2: u32,
    /// Empty field 2
    pub empty_2: u8,
    /// Addressed flag (always 1 for this variant)
    pub addressed: bool,
    /// Channel A band flag
    pub band_a: bool,
    /// Channel B band flag
    pub band_b: bool,
    /// Zone size
    pub zonesize: u8,
    /// Spare bits (should be zero)
    pub spare_2: u32,
}

impl ChannelManagementAddressed {
    /// Whether `s` decodes: `Incomplete` when the data ends before a field
    /// that must be read, `Assertion` when a spare field that must be zero
    /// is not, whichever comes first.
    pub open spec fn outcome(s: Seq<u8>) -> Result<(), DecodeError> {
        if !has_bits(s, 168) {
            Err(DecodeError::Incomplete)
        } else if bits_at(s, 145, 23) != 0 {
            Err(DecodeError::Assertion)
        } else if !has_bits(s, 168) {
            Err(DecodeError::Incomplete)
        } else {
            Ok(())
        }
    }

    /// Whether `self` holds the field values coded in `s`.
    pub open spec fn decodes(self, s: Seq<u8>) -> bool {
        &&& self.msg_type == bits_at(s, 0, 6) as u8
        &&& self.repeat == bits_at(s, 6, 2) as u8
        &&& self.mmsi == bits_at(s, 8, 30) as u32
        &&& self.spare_1 == bits_at(s, 38, 2) as u8
        &&& self.channel_a == bits_at(s, 40, 12) as u16
        &&& self.channel_b == bits_at(s, 52, 12) as u16
        &&& self.txrx == bits_at(s, 64, 4) as u8
        &&& self.power == (bits_at(s, 68, 1) != 0)
        &&& self.dest1 == bits_at(s, 69, 30) as u32
        &&& self.empty_1 == bits_at(s, 99, 5) as u8
        &&& self.dest2 == bits_at(s, 104, 30) as u32
        &&& self.empty_2 == bits_at(s, 134, 5) as u8
        &&& self.addressed == (bits_at(s, 139, 1) != 0)
        &&& self.band_a == (bits_at(s, 140, 1) != 0)
        &&& self.band_b == (bits_at(s, 141, 1) != 0)
        &&& self.zonesize == bits_at(s, 142, 3) as u8
        &&& self.spare_2 == bits_at(s, 145, 23) as u32
    }

    /// Decodes the message from `bytes`, whose first bit is the first bit
    /// of the message type.
    pub fn from_bytes(bytes: &[u8]) -> (r: Result<Self, DecodeError>)
        ensures
            match r {
                Ok(m) => Self::outcome(bytes@) is Ok && m.decodes(bytes@),
                Err(e) => Self::outcome(bytes@) == Err::<(), DecodeError>(e),
            },
    {
        proof {
            lemma2_to64();
            lemma2_to64_rest();
        }
        if !has_bits_exec(bytes, 168) {
            return Err(DecodeError::Incomplete);
        }
        if get_bits(bytes, 145, 23) != 0 {
            return Err(DecodeError::Assertion);
        }
        if !has_bits_exec(bytes, 168) {
            return Err(DecodeError::Incomplete);
        }
        let msg_type = get_bits(bytes, 0, 6) as u8;
        let repeat = get_bits(bytes, 6, 2) as u8;
        let mmsi = from_mmsi(get_bits(bytes, 8, 30) as u32);
        let spare_1 = get_bits(bytes, 38, 2) as u8;
        let channel_a = get_bits(bytes, 40, 12) as u16;
        let channel_b = get_bits(bytes, 52, 12) as u16;
        let txrx = get_bits(bytes, 64, 4) as u8;
        let power = get_bits(bytes, 68, 1) != 0;
        let dest1 = from_mmsi(get_bits(bytes, 69, 30) as u32);
        let empty_1 = get_bits(bytes, 99, 5) as u8;
        let dest2 = from_mmsi(get_bits(bytes, 104, 30) as u32);
        let empty_2 = get_bits(bytes, 134, 5) as u8;
        let addressed = get_bits(bytes, 139, 1) != 0;
        let band_a = get_bits(bytes, 140, 1) != 0;
        let band_b = get_bits(bytes, 141, 1) != 0;
        let zonesize = get_bits(bytes, 142, 3) as u8;
        let spare_2 = get_bits(bytes, 145, 23) as u32;
        Ok(ChannelManagementAddressed {
            msg_type,
            repeat,
            mmsi,
            spare_1,
            channel_a,
            channel_b,
            txrx,
            power,
            dest1,
            empty_1,
            dest2,
            empty_2,
            addressed,
            band_a,
            band_b,
            zonesize,
            spare_2,
        })
    }
}

/// AIS Channel Management (Type 22) - Broadcast Mode
///
/// Used when the message is broadcast to all stations (addressed field is 0).
/// Contains geographical coordinates defining a rectangular area.
#[derive(Debug, Clone, PartialEq)]
pub struct ChannelManagementBroadcast {
    /// Message type (always 22 for this message)
    pub msg_type: u8,
    /// Repeat indicator (0-3)
    pub repeat: u8,
    /// Maritime Mobile Service Identity (9 digits)
    pub mmsi: u32,
    /// Spare bits (should be zero)
    pub spare_1: u8,
    /// Channel A number
    pub channel_a: u16,
    /// Channel B number
    pub channel_b: u16,
    /// Transmit/receive mode
    pub txrx: u8,
    /// High power flag
    pub power: bool,
    /// Northeast corner longitude in tenths of a minute (signed); 0 when not available
    pub ne_lon: i32,
    /// Northeast corner latitude in tenths of a minute (signed); 0 when not available
    pub ne_lat: i32,
    /// Southwest corner longitude in tenths of a minute (signed); 0 when not available
    pub sw_lon: i32,
    /// Southwest corner latitude in tenths of a minute (signed); 0 when not available
    pub sw_lat: i32,
    /// Addressed flag (always 0 for this variant)
    pub addressed: bool,
    /// Channel A band flag
    pub band_a: bool,
    /// Channel B band flag
    pub band_b: bool,
    /// Zone size
    pub zonesize: u8,
    /// Spare bits (should be zero)
    pub spare_2: u32,
}

impl ChannelManagementBroadcast {
    /// Whether `s` decodes: `Incomplete` when the data ends before a field
    /// that must be read, `Assertion` when a spare field that must be zero
    /// is not, whichever comes first.
    pub open spec fn outcome(s: Seq<u8>) -> Result<(), DecodeError> {
        if !has_bits(s, 40) {
            Err(DecodeError::Incomplete)
        } else if bits_at(s, 38, 2) != 0 {
            Err(DecodeError::Assertion)
        } else if !has_bits(s, 168) {
            Err(DecodeError::Incomplete)
        } else if bits_at(s, 145, 23) != 0 {
            Err(DecodeError::Assertion)
        } else if !has_bits(s, 168) {
            Err(DecodeError::Incomplete)
        } else {
            Ok(())
        }
    }

    /// Whether `self` holds the field values coded in `s`.
    pub open spec fn decodes(self, s: Seq<u8>) -> bool {
        &&& self.msg_type == bits_at(s, 0, 6) as u8
        &&& self.repeat == bits_at(s, 6, 2) as u8
        &&& self.mmsi == bits_at(s, 8, 30) as u32
        &&& self.spare_1 == bits_at(s, 38, 2) as u8
        &&& self.channel_a == bits_at(s, 40, 12) as u16
        &&& self.channel_b == bits_at(s, 52, 12) as u16
        &&& self.txrx == bits_at(s, 64, 4) as u8
        &&& self.power == (bits_at(s, 68, 1) != 0)
        &&& self.ne_lon as int == tenth_minutes_value(bits_at(s, 69, 18), 18)
        &&& self.ne_lat as int == tenth_minutes_value(bits_at(s, 87, 17), 17)
        &&& self.sw_lon as int == tenth_minutes_value(bits_at(s, 104, 18), 18)
        &&& self.sw_lat as int == tenth_minutes_value(bits_at(s, 122, 17), 17)
        &&& self.addressed == (bits_at(s, 139, 1) != 0)
        &&& self.band_a == (bits_at(s, 140, 1) != 0)
        &&& self.band_b == (bits_at(s, 141, 1) != 0)
        &&& self.zonesize == bits_at(s, 142, 3) as u8
        &&& self.spare_2 == bits_at(s, 145, 23) as u32
    }

    /// Decodes the message from `bytes`, whose first bit is the first bit
    /// of the message type.
    pub fn from_bytes(bytes: &[u8]) -> (r: Result<Self, DecodeError>)
        ensures
            match r {
                Ok(m) => Self::outcome(bytes@) is Ok && m.decodes(bytes@),
                Err(e) => Self::outcome(bytes@) == Err::<(), DecodeError>(e),
            },
    {
        proof {
            lemma2_to64();
            lemma2_to64_rest();
        }
        if !has_bits_exec(bytes, 40) {
            return Err(DecodeError::Incomplete);
        }
        if get_bits(bytes, 38, 2) != 0 {
            return Err(DecodeError::Assertion);
        }
        if !has_bits_exec(bytes, 168) {
            return Err(DecodeError::Incomplete);
        }
        if get_bits(bytes, 145, 23) != 0 {
            return Err(DecodeError::Assertion);
        }
        if !has_bits_exec(bytes, 168) {
            return Err(DecodeError::Incomplete);
        }
        let msg_type = get_bits(bytes, 0, 6) as u8;
        let repeat = get_bits(bytes, 6, 2) as u8;
        let mmsi = from_mmsi(get_bits(bytes, 8, 30) as u32);
        let spare_1 = get_bits(bytes, 38, 2) as u8;
        let channel_a = get_bits(bytes, 40, 12) as u16;
        let channel_b = get_bits(bytes, 52, 12) as u16;
        let txrx = get_bits(bytes, 64, 4) as u8;
        let power = get_bits(bytes, 68, 1) != 0;
        let ne_lon = tenth_minutes(get_bits(bytes, 69, 18) as u32, 18);
        let ne_lat = tenth_minutes(get_bits(bytes, 87, 17) as u32, 17);
        let sw_lon = tenth_minutes(get_bits(bytes, 104, 18) as u32, 18);
        let sw_lat = tenth_minutes(get_bits(bytes, 122, 17) as u32, 17);
        let addressed = get_bits(bytes, 139, 1) != 0;
        let band_a = get_bits(bytes, 140, 1) != 0;
        let band_b = get_bits(bytes, 141, 1) != 0;
        let zonesize = get_bits(bytes, 142, 3) as u8;
        let spare_2 = get_bits(bytes, 145, 23) as u32;
        Ok(ChannelManagementBroadcast {
            msg_type,
            repeat,
            mmsi,
            spare_1,
            channel_a,
            channel_b,
            txrx,
            power,
            ne_lon,
            ne_lat,
            sw_lon,
            sw_lat,
            addressed,
            band_a,
            band_b,
            zonesize,
            spare_2,
        })
    }
}

/// Channel management (type 22), for a geographic area or for two
/// addressed stations.
#[derive(Debug, Clone, PartialEq)]
pub enum ChannelManagement {
    Broadcast(ChannelManagementBroadcast),
    Addressed(ChannelManagementAddressed),
}

impl ChannelManagement {
    /// The flag that selects the addressed variant: the `addressed` field,
    /// bit 139.
    pub open spec fn is_addressed(s: Seq<u8>) -> bool {
        bits_at(s, 139, 1) != 0
    }

    pub open spec fn outcome(s: Seq<u8>) -> Result<(), DecodeError> {
        if s.len() < 18 {
            Err(DecodeError::Incomplete)
        } else if Self::is_addressed(s) {
            ChannelManagementAddressed::outcome(s)
        } else {
            ChannelManagementBroadcast::outcome(s)
        }
    }

    /// Whether `self` is the variant that the flag of `s` selects, holding
    /// the field values coded in `s`.
    pub open spec fn decodes(self, s: Seq<u8>) -> bool {
        &&& s.len() >= 18
        &&& match self {
            ChannelManagement::Addressed(m) => Self::is_addressed(s) && m.decodes(s),
            ChannelManagement::Broadcast(m) => !Self::is_addressed(s) && m.decodes(s),
        }
    }

    /// Decodes a type 22 message, choosing the variant by its addressed flag.
    pub fn from_bytes(data: &[u8]) -> (r: Result<Self, DecodeError>)
        ensures
            match r {
                Ok(m) => Self::outcome(data@) is Ok && m.decodes(data@),
                Err(e) => Self::outcome(data@) == Err::<(), DecodeError>(e),
            },
    {
        if data.len() < 18 {
            return Err(DecodeError::Incomplete);
        }
        if get_bits(data, 139, 1) != 0 {
            match ChannelManagementAddressed::from_bytes(data) {
                Ok(m) => Ok(ChannelManagement::Addressed(m)),
                Err(e) => Err(e),
            }
        } else {
            match ChannelManagementBroadcast::from_bytes(data) {
                Ok(m) => Ok(ChannelManagement::Broadcast(m)),
                Err(e) => Err(e),
            }
        }
    }

    pub fn msg_type(&self) -> (r: u8)
        ensures
            r == match self {
                ChannelManagement::Broadcast(m) => m.msg_type,
                ChannelManagement::Addressed(m) => m.msg_type,
            },
    {
        match self {
            ChannelManagement::Broadcast(m) => m.msg_type,
            ChannelManagement::Addressed(m) => m.msg_type,
        }
    }

    pub fn mmsi(&self) -> (r: u32)
        ensures
            r == match self {
                ChannelManagement::Broadcast(m) => m.mmsi,
                ChannelManagement::Addressed(m) => m.mmsi,
            },
    {
        match self {
            ChannelManagement::Broadcast(m) => m.mmsi,
            ChannelManagement::Addressed(m) => m.mmsi,
        }
    }
}

} // verus!
