//! Static data reports (message type 24).

use vstd::prelude::*;
use vstd::arithmetic::power2::{lemma2_to64, lemma2_to64_rest};
use crate::bits::{bits_at, get_bits};
use crate::decode::ais::common::{ShipType};
use crate::decode::ais::converters::{from_mmsi, from_sixbit_ascii_120, from_sixbit_ascii_18, from_sixbit_ascii_42, sixbit_text};
use crate::decode::ais::reader::{BitCursor, DecodeError, has_bits, has_bits_exec, opt_u8};

verus! {

/// AIS Static Data Report (Type 24) - Part A
///
/// Contains vessel name information.
/// Can be 160 bits (without spare) or 168 bits (with spare).
#[derive(Debug, Clone, PartialEq)]
pub struct StaticDataReportPartA {
    /// Message type (always 24 for this message)
    pub msg_type: u8,
    /// Repeat indicator (0-3)
    pub repeat: u8,
    /// Maritime Mobile Service Identity (9 digits)
    pub mmsi: u32,
    /// Part number (always 0 for Part A)
    pub partno: u8,
    /// Ship name (20 6-bit characters)
    pub shipname: String,
    /// Spare bits (should be zero) - optional for Part A (only present in 168-bit version)
    /// `None` when the message ends first
    pub spare_1: Option<u8>,
}

impl StaticDataReportPartA {
    /// Whether `s` decodes: `Incomplete` when the data ends before a field
    /// that must be read, `Assertion` when a spare field that must be zero
    /// is not, whichever comes first.
    pub open spec fn outcome(s: Seq<u8>) -> Result<(), DecodeError> {
        if !has_bits(s, 160) {
            Err(DecodeError::Incomplete)
        } else {
            Ok(())
        }
    }

    /// Whether `self` holds the field values coded in `s`.
    pub open spec fn decodes(self, s: Seq<u8>) -> bool {
        &&& self.msg_type == bits_at(s, 0, 6) as u8
        &&& self.repeat == bits_at(s, 6, 2) as u8
        &&& self.mmsi == bits_at(s, 8, 30) as u32
        &&& self.partno == bits_at(s, 38, 2) as u8
        &&& self.shipname@ == sixbit_text(bits_at(s, 40, 120), 20)
        &&& {
            let c0 = BitCursor { pos: 160, lim: (8 * s.len()) as u128 };
            &&& self.spare_1 == opt_u8(c0.value(s, 8))
        }
    }

    /// Decodes the message from `bytes`, whose first bit is the first bit
    /// of the message type.
    pub fn from_bytes(bytes: &[u8]) -> (r: Result<Self, DecodeError>)
        ensures
            match r {
                Ok(m) => Self::outcome(bytes@) is Ok && m.decodes(bytes@),
                Err(e) => Self::outcome(bytes@) == Err::<(), DecodeError>(e),
            },
    {
        proof {
            lemma2_to64();
            lemma2_to64_rest();
        }
        if !has_bits_exec(bytes, 160) {
            return Err(DecodeError::Incomplete);
        }
        let msg_type = get_bits(bytes, 0, 6) as u8;
        let repeat = get_bits(bytes, 6, 2) as u8;
        let mmsi = from_mmsi(get_bits(bytes, 8, 30) as u32);
        let partno = get_bits(bytes, 38, 2) as u8;
        let shipname = from_sixbit_ascii_120(get_bits(bytes, 40, 120), 20);
        let mut c = BitCursor { pos: 160, lim: bytes.len() as u128 * 8 };
        let spare_1 = match c.read(bytes, 8) {
            Some(v) => Some(v as u8),
            None => None,
        };
        Ok(StaticDataReportPartA {
            msg_type,
            repeat,
            mmsi,
            partno,
            shipname,
            spare_1,
        })
    }
}

/// AIS Static Data Report (Type 24) - Part B
///
/// Contains vessel type, dimensions, and equipment information.
#[derive(Debug, Clone, PartialEq)]
pub struct StaticDataReportPartB {
    /// Message type (always 24 for this message)
    pub msg_type: u8,
    /// Repeat indicator (0-3)
    pub repeat: u8,
    /// Maritime Mobile Service Identity (9 digits)
    pub mmsi: u32,
    /// Part number (always 1 for Part B)
    pub partno: u8,
    /// Ship and cargo classification
    pub ship_type: ShipType,
    /// Vendor ID (3 6-bit characters)
    pub vendorid: String,
    /// Unit model code
    pub model: u8,
    /// Serial number
    pub serial: u32,
    /// Call sign (7 6-bit characters)
    pub callsign: String,
    /// Distance from reference point to bow in meters
    pub to_bow: u16,
    /// Distance from reference point to stern in meters
    pub to_stern: u16,
    /// Distance from reference point to port in meters
    pub to_port: u8,
    /// Distance from reference point to starboard in meters
    pub to_starboard: u8,
    /// Spare bits (should be zero)
    pub spare_1: u8,
}

impl StaticDataReportPartB {
    /// Whether `s` decodes: `Incomplete` when the data ends before a field
    /// that must be read, `Assertion` when a spare field that must be zero
    /// is not, whichever comes first.
    pub open spec fn outcome(s: Seq<u8>) -> Result<(), DecodeError> {
        if !has_bits(s, 168) {
            Err(DecodeError::Incomplete)
        } else if bits_at(s, 162, 6) != 0 {
            Err(DecodeError::Assertion)
        } else if !has_bits(s, 168) {
            Err(DecodeError::Incomplete)
        } else {
            Ok(())
        }
    }

    /// Whether `self` holds the field values coded in `s`.
    pub open spec fn decodes(self, s: Seq<u8>) -> bool {
        &&& self.msg_type == bits_at(s, 0, 6) as u8
        &&& self.repeat == bits_at(s, 6, 2) as u8
        &&& self.mmsi == bits_at(s, 8, 30) as u32
        &&& self.partno == bits_at(s, 38, 2) as u8
        &&& self.ship_type == ShipType::spec_from_bits(bits_at(s, 40, 8) as u8)
        &&& self.vendorid@ == sixbit_text(bits_at(s, 48, 18), 3)
        &&& self.model == bits_at(s, 66, 4) as u8
        &&& self.serial == bits_at(s, 70, 20) as u32
        &&& self.callsign@ == sixbit_text(bits_at(s, 90, 42), 7)
        &&& self.to_bow == bits_at(s, 132, 9) as u16
        &&& self.to_stern == bits_at(s, 141, 9) as u16
        &&& self.to_port == bits_at(s, 150, 6) as u8
        &&& self.to_starboard == bits_at(s, 156, 6) as u8
        &&& self.spare_1 == bits_at(s, 162, 6) as u8
    }

    /// Decodes the message from `bytes`, whose first bit is the first bit
    /// of the message type.
    pub fn from_bytes(bytes: &[u8]) -> (r: Result<Self, DecodeError>)
        ensures
            match r {
                Ok(m) => Self::outcome(bytes@) is Ok && m.decodes(bytes@),
                Err(e) => Self::outcome(bytes@) == Err::<(), DecodeError>(e),
            },
    {
        proof {
            lemma2_to64();
            lemma2_to64_rest();
        }
        if !has_bits_exec(bytes, 168) {
            return Err(DecodeError::Incomplete);
        }
        if get_bits(bytes, 162, 6) != 0 {
            return Err(DecodeError::Assertion);
        }
        if !has_bits_exec(bytes, 168) {
            return Err(DecodeError::Incomplete);
        }
        let msg_type = get_bits(bytes, 0, 6) as u8;
        let repeat = get_bits(bytes, 6, 2) as u8;
        let mmsi = from_mmsi(get_bits(bytes, 8, 30) as u32);
        let partno = get_bits(bytes, 38, 2) as u8;
        let ship_type = ShipType::from_bits(get_bits(bytes, 40, 8) as u8);
        let vendorid = from_sixbit_ascii_18(get_bits(bytes, 48, 18) as u32, 3);
        let model = get_bits(bytes, 66, 4) as u8;
        let serial = get_bits(bytes, 70, 20) as u32;
        let callsign = from_sixbit_ascii_42(get_bits(bytes, 90, 42) as u64, 7);
        let to_bow = get_bits(bytes, 132, 9) as u16;
        let to_stern = get_bits(bytes, 141, 9) as u16;
        let to_port = get_bits(bytes, 150, 6) as u8;
        let to_starboard = get_bits(bytes, 156, 6) as u8;
        let spare_1 = get_bits(bytes, 162, 6) as u8;
        Ok(StaticDataReportPartB {
            msg_type,
            repeat,
            mmsi,
            partno,
            ship_type,
            vendorid,
            model,
            serial,
            callsign,
            to_bow,
            to_stern,
            to_port,
            to_starboard,
            spare_1,
        })
    }
}

/// Static data report (type 24): part A carries the name, part B the
/// ship type, vendor, call sign and dimensions.
#[derive(Debug, Clone, PartialEq)]
pub enum StaticDataReport {
    PartA(StaticDataReportPartA),
    PartB(StaticDataReportPartB),
}

impl StaticDataReport {
    /// The part number, bits 38-39.
    pub open spec fn part(s: Seq<u8>) -> nat {
        bits_at(s, 38, 2)
    }

    pub open spec fn outcome(s: Seq<u8>) -> Result<(), DecodeError> {
        if s.len() < 5 {
            Err(DecodeError::Incomplete)
        } else if Self::part(s) == 0 {
            StaticDataReportPartA::outcome(s)
        } else if Self::part(s) == 1 {
            StaticDataReportPartB::outcome(s)
        } else {
            Err(DecodeError::InvalidPartNumber(Self::part(s) as u8))
        }
    }

    /// Whether `self` is the part that the part number of `s` names, holding
    /// the field values coded in `s`.
    pub open spec fn decodes(self, s: Seq<u8>) -> bool {
        &&& s.len() >= 5
        &&& match self {
            StaticDataReport::PartA(m) => Self::part(s) == 0 && m.decodes(s),
            StaticDataReport::PartB(m) => Self::part(s) == 1 && m.decodes(s),
        }
    }

    /// Decodes a type 24 message, choosing the part by its part number.
    pub fn from_bytes(data: &[u8]) -> (r: Result<Self, DecodeError>)
        ensures
            match r {
                Ok(m) => Self::outcome(data@) is Ok && m.decodes(data@),
                Err(e) => Self::outcome(data@) == Err::<(), DecodeError>(e),
            },
    {
        if data.len() < 5 {
            return Err(DecodeError::Incomplete);
        }
        let partno = get_bits(data, 38, 2);
        proof {
            lemma2_to64();
        }
        if partno == 0 {
            match StaticDataReportPartA::from_bytes(data) {
                Ok(m) => Ok(StaticDataReport::PartA(m)),
                Err(e) => Err(e),
            }
        } else if partno == 1 {
            match StaticDataReportPartB::from_bytes(data) {
                Ok(m) => Ok(StaticDataReport::PartB(m)),
                Err(e) => Err(e),
            }
        } else {
            Err(DecodeError::InvalidPartNumber(partno as u8))
        }
    }

    pub fn msg_type(&self) -> (r: u8)
        ensures
            r == match self {
                StaticDataReport::PartA(m) => m.msg_type,
                StaticDataReport::PartB(m) => m.msg_type,
            },
    {
        match self {
            StaticDataReport::PartA(m) => m.msg_type,
            StaticDataReport::PartB(m) => m.msg_type,
        }
    }

    pub fn mmsi(&self) -> (r: u32)
        ensures
            r == match self {
                StaticDataReport::PartA(m) => m.mmsi,
                StaticDataReport::PartB(m) => m.mmsi,
            },
    {
        match self {
            StaticDataReport::PartA(m) => m.mmsi,
            StaticDataReport::PartB(m) => m.mmsi,
        }
    }
}

} // verus!
