//! Assignment mode commands (message type 16).

use vstd::prelude::*;
use vstd::arithmetic::power2::{lemma2_to64, lemma2_to64_rest};
use crate::bits::{bits_at, get_bits};
use crate::decode::ais::converters::{from_mmsi};
use crate::decode::ais::reader::{BitCursor, DecodeError, has_bits, has_bits_exec};

verus! {

/// AIS Assignment Mode Command (Type 16) - Single Station
///
/// Used to assign slot numbers and transmission intervals to a single station.
/// Message length: 96 bits (92 bits + 4 spare bits)
#[derive(Debug, Clone, PartialEq)]
pub struct AssignmentCommandSingle {
    /// Message type (always 16 for this message)
    pub msg_type: u8,
    /// Repeat indicator (0-3)
    pub repeat: u8,
    /// Maritime Mobile Service Identity (9 digits)
    pub mmsi: u32,
    /// Spare bits (should be zero)
    pub spare_1: u8,
    /// First station MMSI to assign
    pub mmsi1: u32,
    /// Slot offset for first station
    pub offset1: u16,
    /// Slot increment for first station
    pub increment1: u16,
    /// Spare bits (should be zero)
    pub spare_2: u8,
}

impl AssignmentCommandSingle {
    /// Whether `s` decodes: `Incomplete` when the data ends before a field
    /// that must be read, `Assertion` when a spare field that must be zero
    /// is not, whichever comes first.
    pub open spec fn outcome(s: Seq<u8>) -> Result<(), DecodeError> {
        if !has_bits(s, 40) {
            Err(DecodeError::Incomplete)
        } else if bits_at(s, 38, 2) != 0 {
            Err(DecodeError::Assertion)
        } else if !has_bits(s, 96) {
            Err(DecodeError::Incomplete)
        } else {
            Ok(())
        }
    }

    /// Whether `self` holds the field values coded in `s`.
    pub open spec fn decodes(self, s: Seq<u8>) -> bool {
        &&& self.msg_type == bits_at(s, 0, 6) as u8
        &&& self.repeat == bits_at(s, 6, 2) as u8
        &&& self.mmsi == bits_at(s, 8, 30) as u32
        &&& self.spare_1 == bits_at(s, 38, 2) as u8
        &&& self.mmsi1 == bits_at(s, 40, 30) as u32
        &&& self.offset1 == bits_at(s, 70, 12) as u16
        &&& self.increment1 == bits_at(s, 82, 10) as u16
        &&& self.spare_2 == bits_at(s, 92, 4) as u8
    }

    /// Decodes the message from `bytes`, whose first bit is the first bit
    /// of the message type.
    pub fn from_bytes(bytes: &[u8]) -> (r: Result<Self, DecodeError>)
        ensures
            match r {
                Ok(m) => Self::outcome(bytes@) is Ok && m.decodes(bytes@),
                Err(e) => Self::outcome(bytes@) == Err::<(), DecodeError>(e),
            },
    {
        proof {
            lemma2_to64();
            lemma2_to64_rest();
        }
        if !has_bits_exec(bytes, 40) {
            return Err(DecodeError::Incomplete);
        }
        if get_bits(bytes, 38, 2) != 0 {
            return Err(DecodeError::Assertion);
        }
        if !has_bits_exec(bytes, 96) {
            return Err(DecodeError::Incomplete);
        }
        let msg_type = get_bits(bytes, 0, 6) as u8;
        let repeat = get_bits(bytes, 6, 2) as u8;
        let mmsi = from_mmsi(get_bits(bytes, 8, 30) as u32);
        let spare_1 = get_bits(bytes, 38, 2) as u8;
        let mmsi1 = from_mmsi(get_bits(bytes, 40, 30) as u32);
        let offset1 = get_bits(bytes, 70, 12) as u16;
        let increment1 = get_bits(bytes, 82, 10) as u16;
        let spare_2 = get_bits(bytes, 92, 4) as u8;
        Ok(AssignmentCommandSingle {
            msg_type,
            repeat,
            mmsi,
            spare_1,
            mmsi1,
            offset1,
            increment1,
            spare_2,
        })
    }
}

/// AIS Assignment Mode Command (Type 16) - Two Stations
///
/// Used to assign slot numbers and transmission intervals to two stations.
/// Message length: 144 bits
#[derive(Debug, Clone, PartialEq)]
pub struct AssignmentCommandDouble {
    /// Message type (always 16 for this message)
    pub msg_type: u8,
    /// Repeat indicator (0-3)
    pub repeat: u8,
    /// Maritime Mobile Service Identity (9 digits)
    pub mmsi: u32,
    /// Spare bits (should be zero)
    pub spare_1: u8,
    /// First station MMSI to assign
    pub mmsi1: u32,
    /// Slot offset for first station
    pub offset1: u16,
    /// Slot increment for first station
    pub increment1: u16,
    /// Second station MMSI to assign
    pub mmsi2: u32,
    /// Slot offset for second station
    pub offset2: u16,
    /// Slot increment for second station
    pub increment2: u16,
}

impl AssignmentCommandDouble {
    /// Whether `s` decodes: `Incomplete` when the data ends before a field
    /// that must be read, `Assertion` when a spare field that must be zero
    /// is not, whichever comes first.
    pub open spec fn outcome(s: Seq<u8>) -> Result<(), DecodeError> {
        if !has_bits(s, 144) {
            Err(DecodeError::Incomplete)
        } else {
            Ok(())
        }
    }

    /// Whether `self` holds the field values coded in `s`.
    pub open spec fn decodes(self, s: Seq<u8>) -> bool {
        &&& self.msg_type == bits_at(s, 0, 6) as u8
        &&& self.repeat == bits_at(s, 6, 2) as u8
        &&& self.mmsi == bits_at(s, 8, 30) as u32
        &&& self.spare_1 == bits_at(s, 38, 2) as u8
        &&& self.mmsi1 == bits_at(s, 40, 30) as u32
        &&& self.offset1 == bits_at(s, 70, 12) as u16
        &&& self.increment1 == bits_at(s, 82, 10) as u16
        &&& self.mmsi2 == bits_at(s, 92, 30) as u32
        &&& self.offset2 == bits_at(s, 122, 12) as u16
        &&& self.increment2 == bits_at(s, 134, 10) as u16
    }

    /// Decodes the message from `bytes`, whose first bit is the first bit
    /// of the message type.
    pub fn from_bytes(bytes: &[u8]) -> (r: Result<Self, DecodeError>)
        ensures
            match r {
                Ok(m) => Self::outcome(bytes@) is Ok && m.decodes(bytes@),
                Err(e) => Self::outcome(bytes@) == Err::<(), DecodeError>(e),
            },
    {
        proof {
            lemma2_to64();
            lemma2_to64_rest();
        }
        if !has_bits_exec(bytes, 144) {
            return Err(DecodeError::Incomplete);
        }
        let msg_type = get_bits(bytes, 0, 6) as u8;
        let repeat = get_bits(bytes, 6, 2) as u8;
        let mmsi = from_mmsi(get_bits(bytes, 8, 30) as u32);
        let spare_1 = get_bits(bytes, 38, 2) as u8;
        let mmsi1 = from_mmsi(get_bits(bytes, 40, 30) as u32);
        let offset1 = get_bits(bytes, 70, 12) as u16;
        let increment1 = get_bits(bytes, 82, 10) as u16;
        let mmsi2 = from_mmsi(get_bits(bytes, 92, 30) as u32);
        let offset2 = get_bits(bytes, 122, 12) as u16;
        let increment2 = get_bits(bytes, 134, 10) as u16;
        Ok(AssignmentCommandDouble {
            msg_type,
            repeat,
            mmsi,
            spare_1,
            mmsi1,
            offset1,
            increment1,
            mmsi2,
            offset2,
            increment2,
        })
    }
}

/// Assignment mode command (type 16) for one or two stations.
#[derive(Debug, Clone, PartialEq)]
pub enum AssignmentModeCommand {
    Single(AssignmentCommandSingle),
    Double(AssignmentCommandDouble),
}

impl AssignmentModeCommand {
    /// Whether `s` is long enough (more than 96 bits) to be read as a
    /// command for two stations.
    pub open spec fn is_double(s: Seq<u8>) -> bool {
        8 * s.len() > 96
    }

    pub open spec fn outcome(s: Seq<u8>) -> Result<(), DecodeError> {
        if Self::is_double(s) {
            AssignmentCommandDouble::outcome(s)
        } else {
            AssignmentCommandSingle::outcome(s)
        }
    }

    /// Whether `self` is the variant that the length of `s` selects,
    /// holding the field values coded in `s`.
    pub open spec fn decodes(self, s: Seq<u8>) -> bool {
        match self {
            AssignmentModeCommand::Double(m) => Self::is_double(s) && m.decodes(s),
            AssignmentModeCommand::Single(m) => !Self::is_double(s) && m.decodes(s),
        }
    }

    /// Decodes a type 16 message: longer than 96 bits, it names two stations.
    pub fn from_bytes(data: &[u8]) -> (r: Result<Self, DecodeError>)
        ensures
            match r {
                Ok(m) => Self::outcome(data@) is Ok && m.decodes(data@),
                Err(e) => Self::outcome(data@) == Err::<(), DecodeError>(e),
            },
    {
        if data.len() as u128 * 8 > 96 {
            match AssignmentCommandDouble::from_bytes(data) {
                Ok(m) => Ok(AssignmentModeCommand::Double(m)),
                Err(e) => Err(e),
            }
        } else {
            match AssignmentCommandSingle::from_bytes(data) {
                Ok(m) => Ok(AssignmentModeCommand::Single(m)),
                Err(e) => Err(e),
            }
        }
    }

    pub fn msg_type(&self) -> (r: u8)
        ensures
            r == match self {
                AssignmentModeCommand::Single(m) => m.msg_type,
                AssignmentModeCommand::Double(m) => m.msg_type,
            },
    {
        match self {
            AssignmentModeCommand::Single(m) => m.msg_type,
            AssignmentModeCommand::Double(m) => m.msg_type,
        }
    }

    pub fn mmsi(&self) -> (r: u32)
        ensures
            r == match self {
                AssignmentModeCommand::Single(m) => m.mmsi,
                AssignmentModeCommand::Double(m) => m.mmsi,
            },
    {
        match self {
            AssignmentModeCommand::Single(m) => m.mmsi,
            AssignmentModeCommand::Double(m) => m.mmsi,
        }
    }
}

} // verus!
