//! Single slot binary messages (message type 25).

use vstd::prelude::*;
use vstd::arithmetic::power2::{lemma2_to64, lemma2_to64_rest};
use crate::bits::{bits_at, get_bits};
use crate::decode::ais::converters::{from_mmsi};
use crate::decode::ais::reader::{BitCursor, DecodeError, has_bits, has_bits_exec};

verus! {

/// AIS Single Slot Binary Message (Type 25) - Addressed Structured
#[derive(Debug, Clone, PartialEq)]
pub struct SingleSlotBinaryAddressedStructured {
    /// Message type (always 25)
    pub msg_type: u8,
    /// Repeat indicator (0-3)
    pub repeat: u8,
    /// Maritime Mobile Service Identity (9 digits)
    pub mmsi: u32,
    /// Addressed flag (always 1 for this variant)
    pub addressed: bool,
    /// Structured flag (always 1 for this variant)
    pub structured: bool,
    /// Destination MMSI
    pub dest_mmsi: u32,
    /// Application ID
    pub app_id: u16,
    /// Binary data (remaining bits)
    pub data: Vec<u8>,
}

impl SingleSlotBinaryAddressedStructured {
    /// Whether `s` decodes: `Incomplete` when the data ends before a field
    /// that must be read, `Assertion` when a spare field that must be zero
    /// is not, whichever comes first.
    pub open spec fn outcome(s: Seq<u8>) -> Result<(), DecodeError> {
        if !has_bits(s, 86) {
            Err(DecodeError::Incomplete)
        } else {
            Ok(())
        }
    }

    /// Whether `self` holds the field values coded in `s`.
    pub open spec fn decodes(self, s: Seq<u8>) -> bool {
        &&& self.msg_type == bits_at(s, 0, 6) as u8
        &&& self.repeat == bits_at(s, 6, 2) as u8
        &&& self.mmsi == bits_at(s, 8, 30) as u32
        &&& self.addressed == (bits_at(s, 38, 1) != 0)
        &&& self.structured == (bits_at(s, 39, 1) != 0)
        &&& self.dest_mmsi == bits_at(s, 40, 30) as u32
        &&& self.app_id == bits_at(s, 70, 16) as u16
        &&& {
            let c0 = BitCursor { pos: 86, lim: (8 * s.len()) as u128 };
            &&& self.data@ == c0.rest_bytes(s)
        }
    }

    /// Decodes the message from `bytes`, whose first bit is the first bit
    /// of the message type.
    pub fn from_bytes(bytes: &[u8]) -> (r: Result<Self, DecodeError>)
        ensures
            match r {
                Ok(m) => Self::outcome(bytes@) is Ok && m.decodes(bytes@),
                Err(e) => Self::outcome(bytes@) == Err::<(), DecodeError>(e),
            },
    {
        proof {
            lemma2_to64();
            lemma2_to64_rest();
        }
        if !has_bits_exec(bytes, 86) {
            return Err(DecodeError::Incomplete);
        }
        let msg_type = get_bits(bytes, 0, 6) as u8;
        let repeat = get_bits(bytes, 6, 2) as u8;
        let mmsi = from_mmsi(get_bits(bytes, 8, 30) as u32);
        let addressed = get_bits(bytes, 38, 1) != 0;
        let structured = get_bits(bytes, 39, 1) != 0;
        let dest_mmsi = from_mmsi(get_bits(bytes, 40, 30) as u32);
        let app_id = get_bits(bytes, 70, 16) as u16;
        let mut c = BitCursor { pos: 86, lim: bytes.len() as u128 * 8 };
        let data = c.read_rest(bytes);
        Ok(SingleSlotBinaryAddressedStructured {
            msg_type,
            repeat,
            mmsi,
            addressed,
            structured,
            dest_mmsi,
            app_id,
            data,
        })
    }
}

/// AIS Single Slot Binary Message (Type 25) - Broadcast Structured
#[derive(Debug, Clone, PartialEq)]
pub struct SingleSlotBinaryBroadcastStructured {
    /// Message type (always 25)
    pub msg_type: u8,
    /// Repeat indicator (0-3)
    pub repeat: u8,
    /// Maritime Mobile Service Identity (9 digits)
    pub mmsi: u32,
    /// Addressed flag (always 0 for this variant)
    pub addressed: bool,
    /// Structured flag (always 1 for this variant)
    pub structured: bool,
    /// Application ID
    pub app_id: u16,
    /// Binary data (remaining bits)
    pub data: Vec<u8>,
}

impl SingleSlotBinaryBroadcastStructured {
    /// Whether `s` decodes: `Incomplete` when the data ends before a field
    /// that must be read, `Assertion` when a spare field that must be zero
    /// is not, whichever comes first.
    pub open spec fn outcome(s: Seq<u8>) -> Result<(), DecodeError> {
        if !has_bits(s, 56) {
            Err(DecodeError::Incomplete)
        } else {
            Ok(())
        }
    }

    /// Whether `self` holds the field values coded in `s`.
    pub open spec fn decodes(self, s: Seq<u8>) -> bool {
        &&& self.msg_type == bits_at(s, 0, 6) as u8
        &&& self.repeat == bits_at(s, 6, 2) as u8
        &&& self.mmsi == bits_at(s, 8, 30) as u32
        &&& self.addressed == (bits_at(s, 38, 1) != 0)
        &&& self.structured == (bits_at(s, 39, 1) != 0)
        &&& self.app_id == bits_at(s, 40, 16) as u16
        &&& {
            let c0 = BitCursor { pos: 56, lim: (8 * s.len()) as u128 };
            &&& self.data@ == c0.rest_bytes(s)
        }
    }

    /// Decodes the message from `bytes`, whose first bit is the first bit
    /// of the message type.
    pub fn from_bytes(bytes: &[u8]) -> (r: Result<Self, DecodeError>)
        ensures
            match r {
                Ok(m) => Self::outcome(bytes@) is Ok && m.decodes(bytes@),
                Err(e) => Self::outcome(bytes@) == Err::<(), DecodeError>(e),
            },
    {
        proof {
            lemma2_to64();
            lemma2_to64_rest();
        }
        if !has_bits_exec(bytes, 56) {
            return Err(DecodeError::Incomplete);
        }
        let msg_type = get_bits(bytes, 0, 6) as u8;
        let repeat = get_bits(bytes, 6, 2) as u8;
        let mmsi = from_mmsi(get_bits(bytes, 8, 30) as u32);
        let addressed = get_bits(bytes, 38, 1) != 0;
        let structured = get_bits(bytes, 39, 1) != 0;
        let app_id = get_bits(bytes, 40, 16) as u16;
        let mut c = BitCursor { pos: 56, lim: bytes.len() as u128 * 8 };
        let data = c.read_rest(bytes);
        Ok(SingleSlotBinaryBroadcastStructured {
            msg_type,
            repeat,
            mmsi,
            addressed,
            structured,
            app_id,
            data,
        })
    }
}

/// AIS Single Slot Binary Message (Type 25) - Addressed Unstructured
#[derive(Debug, Clone, PartialEq)]
pub struct SingleSlotBinaryAddressedUnstructured {
    /// Message type (always 25)
    pub msg_type: u8,
    /// Repeat indicator (0-3)
    pub repeat: u8,
    /// Maritime Mobile Service Identity (9 digits)
    pub mmsi: u32,
    /// Addressed flag (always 1 for this variant)
    pub addressed: bool,
    /// Structured flag (always 0 for this variant)
    pub structured: bool,
    /// Destination MMSI
    pub dest_mmsi: u32,
    /// Binary data (remaining bits)
    pub data: Vec<u8>,
}

impl SingleSlotBinaryAddressedUnstructured {
    /// Whether `s` decodes: `Incomplete` when the data ends before a field
    /// that must be read, `Assertion` when a spare field that must be zero
    /// is not, whichever comes first.
    pub open spec fn outcome(s: Seq<u8>) -> Result<(), DecodeError> {
        if !has_bits(s, 70) {
            Err(DecodeError::Incomplete)
        } else {
            Ok(())
        }
    }

    /// Whether `self` holds the field values coded in `s`.
    pub open spec fn decodes(self, s: Seq<u8>) -> bool {
        &&& self.msg_type == bits_at(s, 0, 6) as u8
        &&& self.repeat == bits_at(s, 6, 2) as u8
        &&& self.mmsi == bits_at(s, 8, 30) as u32
        &&& self.addressed == (bits_at(s, 38, 1) != 0)
        &&& self.structured == (bits_at(s, 39, 1) != 0)
        &&& self.dest_mmsi == bits_at(s, 40, 30) as u32
        &&& {
            let c0 = BitCursor { pos: 70, lim: (8 * s.len()) as u128 };
            &&& self.data@ == c0.rest_bytes(s)
        }
    }

    /// Decodes the message from `bytes`, whose first bit is the first bit
    /// of the message type.
    pub fn from_bytes(bytes: &[u8]) -> (r: Result<Self, DecodeError>)
        ensures
            match r {
                Ok(m) => Self::outcome(bytes@) is Ok && m.decodes(bytes@),
                Err(e) => Self::outcome(bytes@) == Err::<(), DecodeError>(e),
            },
    {
        proof {
            lemma2_to64();
            lemma2_to64_rest();
        }
        if !has_bits_exec(bytes, 70) {
            return Err(DecodeError::Incomplete);
        }
        let msg_type = get_bits(bytes, 0, 6) as u8;
        let repeat = get_bits(bytes, 6, 2) as u8;
        let mmsi = from_mmsi(get_bits(bytes, 8, 30) as u32);
        let addressed = get_bits(bytes, 38, 1) != 0;
        let structured = get_bits(bytes, 39, 1) != 0;
        let dest_mmsi = from_mmsi(get_bits(bytes, 40, 30) as u32);
        let mut c = BitCursor { pos: 70, lim: bytes.len() as u128 * 8 };
        let data = c.read_rest(bytes);
        Ok(SingleSlotBinaryAddressedUnstructured {
            msg_type,
            repeat,
            mmsi,
            addressed,
            structured,
            dest_mmsi,
            data,
        })
    }
}

/// AIS Single Slot Binary Message (Type 25) - Broadcast Unstructured
#[derive(Debug, Clone, PartialEq)]
pub struct SingleSlotBinaryBroadcastUnstructured {
    /// Message type (always 25)
    pub msg_type: u8,
    /// Repeat indicator (0-3)
    pub repeat: u8,
    /// Maritime Mobile Service Identity (9 digits)
    pub mmsi: u32,
    /// Addressed flag (always 0 for this variant)
    pub addressed: bool,
    /// Structured flag (always 0 for this variant)
    pub structured: bool,
    /// Binary data (remaining bits)
    pub data: Vec<u8>,
}

impl SingleSlotBinaryBroadcastUnstructured {
    /// Whether `s` decodes: `Incomplete` when the data ends before a field
    /// that must be read, `Assertion` when a spare field that must be zero
    /// is not, whichever comes first.
    pub open spec fn outcome(s: Seq<u8>) -> Result<(), DecodeError> {
        if !has_bits(s, 40) {
            Err(DecodeError::Incomplete)
        } else {
            Ok(())
        }
    }

    /// Whether `self` holds the field values coded in `s`.
    pub open spec fn decodes(self, s: Seq<u8>) -> bool {
        &&& self.msg_type == bits_at(s, 0, 6) as u8
        &&& self.repeat == bits_at(s, 6, 2) as u8
        &&& self.mmsi == bits_at(s, 8, 30) as u32
        &&& self.addressed == (bits_at(s, 38, 1) != 0)
        &&& self.structured == (bits_at(s, 39, 1) != 0)
        &&& {
            let c0 = BitCursor { pos: 40, lim: (8 * s.len()) as u128 };
            &&& self.data@ == c0.rest_bytes(s)
        }
    }

    /// Decodes the message from `bytes`, whose first bit is the first bit
    /// of the message type.
    pub fn from_bytes(bytes: &[u8]) -> (r: Result<Self, DecodeError>)
        ensures
            match r {
                Ok(m) => Self::outcome(bytes@) is Ok && m.decodes(bytes@),
                Err(e) => Self::outcome(bytes@) == Err::<(), DecodeError>(e),
            },
    {
        proof {
            lemma2_to64();
            lemma2_to64_rest();
        }
        if !has_bits_exec(bytes, 40) {
            return Err(DecodeError::Incomplete);
        }
        let msg_type = get_bits(bytes, 0, 6) as u8;
        let repeat = get_bits(bytes, 6, 2) as u8;
        let mmsi = from_mmsi(get_bits(bytes, 8, 30) as u32);
        let addressed = get_bits(bytes, 38, 1) != 0;
        let structured = get_bits(bytes, 39, 1) != 0;
        let mut c = BitCursor { pos: 40, lim: bytes.len() as u128 * 8 };
        let data = c.read_rest(bytes);
        Ok(SingleSlotBinaryBroadcastUnstructured {
            msg_type,
            repeat,
            mmsi,
            addressed,
            structured,
            data,
        })
    }
}

/// Single slot binary message (type 25); the variant is chosen by the two
/// flag bits 38 (addressed) and 39 (structured).
#[derive(Debug, Clone, PartialEq)]
pub enum SingleSlotBinaryMessage {
    AddressedStructured(SingleSlotBinaryAddressedStructured),
    BroadcastStructured(SingleSlotBinaryBroadcastStructured),
    AddressedUnstructured(SingleSlotBinaryAddressedUnstructured),
    BroadcastUnstructured(SingleSlotBinaryBroadcastUnstructured),
}

impl SingleSlotBinaryMessage {
    /// The flag that selects an addressed variant.
    pub open spec fn is_addressed(s: Seq<u8>) -> bool {
        bits_at(s, 38, 1) != 0
    }

    /// The flag that selects a structured variant.
    pub open spec fn is_structured(s: Seq<u8>) -> bool {
        bits_at(s, 39, 1) != 0
    }

    pub open spec fn outcome(s: Seq<u8>) -> Result<(), DecodeError> {
        if s.len() < 5 {
            Err(DecodeError::Incomplete)
        } else if Self::is_addressed(s) && Self::is_structured(s) {
            SingleSlotBinaryAddressedStructured::outcome(s)
        } else if Self::is_structured(s) {
            SingleSlotBinaryBroadcastStructured::outcome(s)
        } else if Self::is_addressed(s) {
            SingleSlotBinaryAddressedUnstructured::outcome(s)
        } else {
            SingleSlotBinaryBroadcastUnstructured::outcome(s)
        }
    }

    /// Whether `self` is the variant that the flags of `s` select, holding
    /// the field values coded in `s`.
    pub open spec fn decodes(self, s: Seq<u8>) -> bool {
        &&& s.len() >= 5
        &&& match self {
            SingleSlotBinaryMessage::AddressedStructured(m) => Self::is_addressed(s) && Self::is_structured(s)
                && m.decodes(s),
            SingleSlotBinaryMessage::BroadcastStructured(m) => !Self::is_addressed(s) && Self::is_structured(s)
                && m.decodes(s),
            SingleSlotBinaryMessage::AddressedUnstructured(m) => Self::is_addressed(s) && !Self::is_structured(s)
                && m.decodes(s),
            SingleSlotBinaryMessage::BroadcastUnstructured(m) => !Self::is_addressed(s) && !Self::is_structured(s)
                && m.decodes(s),
        }
    }

    /// Decodes a type 25 message, choosing the variant by its flags.
    pub fn from_bytes(data: &[u8]) -> (r: Result<Self, DecodeError>)
        ensures
            match r {
                Ok(m) => Self::outcome(data@) is Ok && m.decodes(data@),
                Err(e) => Self::outcome(data@) == Err::<(), DecodeError>(e),
            },
    {
        if data.len() < 5 {
            return Err(DecodeError::Incomplete);
        }
        let addressed = get_bits(data, 38, 1) != 0;
        let structured = get_bits(data, 39, 1) != 0;
        if addressed && structured {
            match SingleSlotBinaryAddressedStructured::from_bytes(data) {
                Ok(m) => Ok(SingleSlotBinaryMessage::AddressedStructured(m)),
                Err(e) => Err(e),
            }
        } else if structured {
            match SingleSlotBinaryBroadcastStructured::from_bytes(data) {
                Ok(m) => Ok(SingleSlotBinaryMessage::BroadcastStructured(m)),
                Err(e) => Err(e),
            }
        } else if addressed {
            match SingleSlotBinaryAddressedUnstructured::from_bytes(data) {
                Ok(m) => Ok(SingleSlotBinaryMessage::AddressedUnstructured(m)),
                Err(e) => Err(e),
            }
        } else {
            match SingleSlotBinaryBroadcastUnstructured::from_bytes(data) {
                Ok(m) => Ok(SingleSlotBinaryMessage::BroadcastUnstructured(m)),
                Err(e) => Err(e),
            }
        }
    }

    pub fn msg_type(&self) -> (r: u8)
        ensures
            r == 25,
    {
        25
    }

    pub fn mmsi(&self) -> (r: u32)
        ensures
            r == match self {
                SingleSlotBinaryMessage::AddressedStructured(m) => m.mmsi,
                SingleSlotBinaryMessage::BroadcastStructured(m) => m.mmsi,
                SingleSlotBinaryMessage::AddressedUnstructured(m) => m.mmsi,
                SingleSlotBinaryMessage::BroadcastUnstructured(m) => m.mmsi,
            },
    {
        match self {
            SingleSlotBinaryMessage::AddressedStructured(m) => m.mmsi,
            SingleSlotBinaryMessage::BroadcastStructured(m) => m.mmsi,
            SingleSlotBinaryMessage::AddressedUnstructured(m) => m.mmsi,
            SingleSlotBinaryMessage::BroadcastUnstructured(m) => m.mmsi,
        }
    }
}

} // verus!
