//! Multiple slot binary messages (message type 26).

use vstd::prelude::*;
use vstd::arithmetic::power2::{lemma2_to64, lemma2_to64_rest};
use crate::bits::{bits_at, get_bits};
use crate::decode::ais::converters::{from_mmsi};
use crate::decode::ais::reader::{BitCursor, DecodeError, has_bits, has_bits_exec, without_last3};

verus! {

/// AIS Multiple Slot Binary Message (Type 26) - Addressed Structured
#[derive(Debug, Clone, PartialEq)]
pub struct MultipleSlotBinaryAddressedStructured {
    /// Message type (always 26)
    pub msg_type: u8,
    /// Repeat indicator (0-3)
    pub repeat: u8,
    /// Maritime Mobile Service Identity (9 digits)
    pub mmsi: u32,
    /// Addressed flag (always 1 for this variant)
    pub addressed: bool,
    /// Structured flag (always 1 for this variant)
    pub structured: bool,
    /// Destination MMSI
    pub dest_mmsi: u32,
    /// Application ID
    pub app_id: u16,
    /// Binary data (remaining bits except radio)
    pub data: Vec<u8>,
    /// Radio status
    pub radio: u32,
}

impl MultipleSlotBinaryAddressedStructured {
    /// Whether `s` decodes: `Incomplete` when the data ends before a field
    /// that must be read, `Assertion` when a spare field that must be zero
    /// is not, whichever comes first.
    pub open spec fn outcome(s: Seq<u8>) -> Result<(), DecodeError> {
        if !has_bits(s, 86) {
            Err(DecodeError::Incomplete)
        } else {
            let c0 = BitCursor { pos: 86, lim: (8 * s.len()) as u128 };
            let c1 = c0.after_rest();
            if c1.value(s, 20) is None {
                Err(DecodeError::Incomplete)
            } else {
                Ok(())
            }
        }
    }

    /// Whether `self` holds the field values coded in `s`.
    pub open spec fn decodes(self, s: Seq<u8>) -> bool {
        &&& self.msg_type == bits_at(s, 0, 6) as u8
        &&& self.repeat == bits_at(s, 6, 2) as u8
        &&& self.mmsi == bits_at(s, 8, 30) as u32
        &&& self.addressed == (bits_at(s, 38, 1) != 0)
        &&& self.structured == (bits_at(s, 39, 1) != 0)
        &&& self.dest_mmsi == bits_at(s, 40, 30) as u32
        &&& self.app_id == bits_at(s, 70, 16) as u16
        &&& {
            let c0 = BitCursor { pos: 86, lim: (8 * s.len()) as u128 };
            let c1 = c0.after_rest();
            &&& self.data@ == without_last3(c0.rest_bytes(s))
            &&& c1.value(s, 20) == Some(self.radio as nat)
        }
    }

    /// Decodes the message from `bytes`, whose first bit is the first bit
    /// of the message type.
    pub fn from_bytes(bytes: &[u8]) -> (r: Result<Self, DecodeError>)
        ensures
            match r {
                Ok(m) => Self::outcome(bytes@) is Ok && m.decodes(bytes@),
                Err(e) => Self::outcome(bytes@) == Err::<(), DecodeError>(e),
            },
    {
        proof {
            lemma2_to64();
            lemma2_to64_rest();
        }
        if !has_bits_exec(bytes, 86) {
            return Err(DecodeError::Incomplete);
        }
        let msg_type = get_bits(bytes, 0, 6) as u8;
        let repeat = get_bits(bytes, 6, 2) as u8;
        let mmsi = from_mmsi(get_bits(bytes, 8, 30) as u32);
        let addressed = get_bits(bytes, 38, 1) != 0;
        let structured = get_bits(bytes, 39, 1) != 0;
        let dest_mmsi = from_mmsi(get_bits(bytes, 40, 30) as u32);
        let app_id = get_bits(bytes, 70, 16) as u16;
        let mut c = BitCursor { pos: 86, lim: bytes.len() as u128 * 8 };
        let mut data = c.read_rest(bytes);
        if data.len() >= 3 {
            let keep = data.len() - 3;
            data.truncate(keep);
        } else {
            data.clear();
        }
        let radio = match c.read(bytes, 20) {
            Some(v) => v as u32,
            None => {
                return Err(DecodeError::Incomplete);
            },
        };
        Ok(MultipleSlotBinaryAddressedStructured {
            msg_type,
            repeat,
            mmsi,
            addressed,
            structured,
            dest_mmsi,
            app_id,
            data,
            radio,
        })
    }
}

/// AIS Multiple Slot Binary Message (Type 26) - Broadcast Structured
#[derive(Debug, Clone, PartialEq)]
pub struct MultipleSlotBinaryBroadcastStructured {
    /// Message type (always 26)
    pub msg_type: u8,
    /// Repeat indicator (0-3)
    pub repeat: u8,
    /// Maritime Mobile Service Identity (9 digits)
    pub mmsi: u32,
    /// Addressed flag (always 0 for this variant)
    pub addressed: bool,
    /// Structured flag (always 1 for this variant)
    pub structured: bool,
    /// Application ID
    pub app_id: u16,
    /// Binary data (remaining bits except radio)
    pub data: Vec<u8>,
    /// Radio status
    pub radio: u32,
}

impl MultipleSlotBinaryBroadcastStructured {
    /// Whether `s` decodes: `Incomplete` when the data ends before a field
    /// that must be read, `Assertion` when a spare field that must be zero
    /// is not, whichever comes first.
    pub open spec fn outcome(s: Seq<u8>) -> Result<(), DecodeError> {
        if !has_bits(s, 56) {
            Err(DecodeError::Incomplete)
        } else {
            let c0 = BitCursor { pos: 56, lim: (8 * s.len()) as u128 };
            let c1 = c0.after_rest();
            if c1.value(s, 20) is None {
                Err(DecodeError::Incomplete)
            } else {
                Ok(())
            }
        }
    }

    /// Whether `self` holds the field values coded in `s`.
    pub open spec fn decodes(self, s: Seq<u8>) -> bool {
        &&& self.msg_type == bits_at(s, 0, 6) as u8
        &&& self.repeat == bits_at(s, 6, 2) as u8
        &&& self.mmsi == bits_at(s, 8, 30) as u32
        &&& self.addressed == (bits_at(s, 38, 1) != 0)
        &&& self.structured == (bits_at(s, 39, 1) != 0)
        &&& self.app_id == bits_at(s, 40, 16) as u16
        &&& {
            let c0 = BitCursor { pos: 56, lim: (8 * s.len()) as u128 };
            let c1 = c0.after_rest();
            &&& self.data@ == without_last3(c0.rest_bytes(s))
            &&& c1.value(s, 20) == Some(self.radio as nat)
        }
    }

    /// Decodes the message from `bytes`, whose first bit is the first bit
    /// of the message type.
    pub fn from_bytes(bytes: &[u8]) -> (r: Result<Self, DecodeError>)
        ensures
            match r {
                Ok(m) => Self::outcome(bytes@) is Ok && m.decodes(bytes@),
                Err(e) => Self::outcome(bytes@) == Err::<(), DecodeError>(e),
            },
    {
        proof {
            lemma2_to64();
            lemma2_to64_rest();
        }
        if !has_bits_exec(bytes, 56) {
            return Err(DecodeError::Incomplete);
        }
        let msg_type = get_bits(bytes, 0, 6) as u8;
        let repeat = get_bits(bytes, 6, 2) as u8;
        let mmsi = from_mmsi(get_bits(bytes, 8, 30) as u32);
        let addressed = get_bits(bytes, 38, 1) != 0;
        let structured = get_bits(bytes, 39, 1) != 0;
        let app_id = get_bits(bytes, 40, 16) as u16;
        let mut c = BitCursor { pos: 56, lim: bytes.len() as u128 * 8 };
        let mut data = c.read_rest(bytes);
        if data.len() >= 3 {
            let keep = data.len() - 3;
            data.truncate(keep);
        } else {
            data.clear();
        }
        let radio = match c.read(bytes, 20) {
            Some(v) => v as u32,
            None => {
                return Err(DecodeError::Incomplete);
            },
        };
        Ok(MultipleSlotBinaryBroadcastStructured {
            msg_type,
            repeat,
            mmsi,
            addressed,
            structured,
            app_id,
            data,
            radio,
        })
    }
}

/// AIS Multiple Slot Binary Message (Type 26) - Addressed Unstructured
#[derive(Debug, Clone, PartialEq)]
pub struct MultipleSlotBinaryAddressedUnstructured {
    /// Message type (always 26)
    pub msg_type: u8,
    /// Repeat indicator (0-3)
    pub repeat: u8,
    /// Maritime Mobile Service Identity (9 digits)
    pub mmsi: u32,
    /// Addressed flag (always 1 for this variant)
    pub addressed: bool,
    /// Structured flag (always 0 for this variant)
    pub structured: bool,
    /// Destination MMSI
    pub dest_mmsi: u32,
    /// Application ID
    pub app_id: u16,
    /// Binary data (remaining bits except radio)
    pub data: Vec<u8>,
    /// Radio status
    pub radio: u32,
}

impl MultipleSlotBinaryAddressedUnstructured {
    /// Whether `s` decodes: `Incomplete` when the data ends before a field
    /// that must be read, `Assertion` when a spare field that must be zero
    /// is not, whichever comes first.
    pub open spec fn outcome(s: Seq<u8>) -> Result<(), DecodeError> {
        if !has_bits(s, 86) {
            Err(DecodeError::Incomplete)
        } else {
            let c0 = BitCursor { pos: 86, lim: (8 * s.len()) as u128 };
            let c1 = c0.after_rest();
            if c1.value(s, 20) is None {
                Err(DecodeError::Incomplete)
            } else {
                Ok(())
            }
        }
    }

    /// Whether `self` holds the field values coded in `s`.
    pub open spec fn decodes(self, s: Seq<u8>) -> bool {
        &&& self.msg_type == bits_at(s, 0, 6) as u8
        &&& self.repeat == bits_at(s, 6, 2) as u8
        &&& self.mmsi == bits_at(s, 8, 30) as u32
        &&& self.addressed == (bits_at(s, 38, 1) != 0)
        &&& self.structured == (bits_at(s, 39, 1) != 0)
        &&& self.dest_mmsi == bits_at(s, 40, 30) as u32
        &&& self.app_id == bits_at(s, 70, 16) as u16
        &&& {
            let c0 = BitCursor { pos: 86, lim: (8 * s.len()) as u128 };
            let c1 = c0.after_rest();
            &&& self.data@ == without_last3(c0.rest_bytes(s))
            &&& c1.value(s, 20) == Some(self.radio as nat)
        }
    }

    /// Decodes the message from `bytes`, whose first bit is the first bit
    /// of the message type.
    pub fn from_bytes(bytes: &[u8]) -> (r: Result<Self, DecodeError>)
        ensures
            match r {
                Ok(m) => Self::outcome(bytes@) is Ok && m.decodes(bytes@),
                Err(e) => Self::outcome(bytes@) == Err::<(), DecodeError>(e),
            },
    {
        proof {
            lemma2_to64();
            lemma2_to64_rest();
        }
        if !has_bits_exec(bytes, 86) {
            return Err(DecodeError::Incomplete);
        }
        let msg_type = get_bits(bytes, 0, 6) as u8;
        let repeat = get_bits(bytes, 6, 2) as u8;
        let mmsi = from_mmsi(get_bits(bytes, 8, 30) as u32);
        let addressed = get_bits(bytes, 38, 1) != 0;
        let structured = get_bits(bytes, 39, 1) != 0;
        let dest_mmsi = from_mmsi(get_bits(bytes, 40, 30) as u32);
        let app_id = get_bits(bytes, 70, 16) as u16;
        let mut c = BitCursor { pos: 86, lim: bytes.len() as u128 * 8 };
        let mut data = c.read_rest(bytes);
        if data.len() >= 3 {
            let keep = data.len() - 3;
            data.truncate(keep);
        } else {
            data.clear();
        }
        let radio = match c.read(bytes, 20) {
            Some(v) => v as u32,
            None => {
                return Err(DecodeError::Incomplete);
            },
        };
        Ok(MultipleSlotBinaryAddressedUnstructured {
            msg_type,
            repeat,
            mmsi,
            addressed,
            structured,
            dest_mmsi,
            app_id,
            data,
            radio,
        })
    }
}

/// AIS Multiple Slot Binary Message (Type 26) - Broadcast Unstructured
#[derive(Debug, Clone, PartialEq)]
pub struct MultipleSlotBinaryBroadcastUnstructured {
    /// Message type (always 26)
    pub msg_type: u8,
    /// Repeat indicator (0-3)
    pub repeat: u8,
    /// Maritime Mobile Service Identity (9 digits)
    pub mmsi: u32,
    /// Addressed flag (always 0 for this variant)
    pub addressed: bool,
    /// Structured flag (always 0 for this variant)
    pub structured: bool,
    /// Binary data (remaining bits except radio)
    pub data: Vec<u8>,
    /// Radio status
    pub radio: u32,
}

impl MultipleSlotBinaryBroadcastUnstructured {
    /// Whether `s` decodes: `Incomplete` when the data ends before a field
    /// that must be read, `Assertion` when a spare field that must be zero
    /// is not, whichever comes first.
    pub open spec fn outcome(s: Seq<u8>) -> Result<(), DecodeError> {
        if !has_bits(s, 40) {
            Err(DecodeError::Incomplete)
        } else {
            let c0 = BitCursor { pos: 40, lim: (8 * s.len()) as u128 };
            let c1 = c0.after_rest();
            if c1.value(s, 20) is None {
                Err(DecodeError::Incomplete)
            } else {
                Ok(())
            }
        }
    }

    /// Whether `self` holds the field values coded in `s`.
    pub open spec fn decodes(self, s: Seq<u8>) -> bool {
        &&& self.msg_type == bits_at(s, 0, 6) as u8
        &&& self.repeat == bits_at(s, 6, 2) as u8
        &&& self.mmsi == bits_at(s, 8, 30) as u32
        &&& self.addressed == (bits_at(s, 38, 1) != 0)
        &&& self.structured == (bits_at(s, 39, 1) != 0)
        &&& {
            let c0 = BitCursor { pos: 40, lim: (8 * s.len()) as u128 };
            let c1 = c0.after_rest();
            &&& self.data@ == without_last3(c0.rest_bytes(s))
            &&& c1.value(s, 20) == Some(self.radio as nat)
        }
    }

    /// Decodes the message from `bytes`, whose first bit is the first bit
    /// of the message type.
    pub fn from_bytes(bytes: &[u8]) -> (r: Result<Self, DecodeError>)
        ensures
            match r {
                Ok(m) => Self::outcome(bytes@) is Ok && m.decodes(bytes@),
                Err(e) => Self::outcome(bytes@) == Err::<(), DecodeError>(e),
            },
    {
        proof {
            lemma2_to64();
            lemma2_to64_rest();
        }
        if !has_bits_exec(bytes, 40) {
            return Err(DecodeError::Incomplete);
        }
        let msg_type = get_bits(bytes, 0, 6) as u8;
        let repeat = get_bits(bytes, 6, 2) as u8;
        let mmsi = from_mmsi(get_bits(bytes, 8, 30) as u32);
        let addressed = get_bits(bytes, 38, 1) != 0;
        let structured = get_bits(bytes, 39, 1) != 0;
        let mut c = BitCursor { pos: 40, lim: bytes.len() as u128 * 8 };
        let mut data = c.read_rest(bytes);
        if data.len() >= 3 {
            let keep = data.len() - 3;
            data.truncate(keep);
        } else {
            data.clear();
        }
        let radio = match c.read(bytes, 20) {
            Some(v) => v as u32,
            None => {
                return Err(DecodeError::Incomplete);
            },
        };
        Ok(MultipleSlotBinaryBroadcastUnstructured {
            msg_type,
            repeat,
            mmsi,
            addressed,
            structured,
            data,
            radio,
        })
    }
}

/// Multiple slot binary message (type 26); the variant is chosen by the
/// two flag bits 38 (addressed) and 39 (structured).
#[derive(Debug, Clone, PartialEq)]
pub enum MultipleSlotBinaryMessage {
    AddressedStructured(MultipleSlotBinaryAddressedStructured),
    BroadcastStructured(MultipleSlotBinaryBroadcastStructured),
    AddressedUnstructured(MultipleSlotBinaryAddressedUnstructured),
    BroadcastUnstructured(MultipleSlotBinaryBroadcastUnstructured),
}

impl MultipleSlotBinaryMessage {
    /// The flag that selects an addressed variant.
    pub open spec fn is_addressed(s: Seq<u8>) -> bool {
        bits_at(s, 38, 1) != 0
    }

    /// The flag that selects a structured variant.
    pub open spec fn is_structured(s: Seq<u8>) -> bool {
        bits_at(s, 39, 1) != 0
    }

    pub open spec fn outcome(s: Seq<u8>) -> Result<(), DecodeError> {
        if s.len() < 5 {
            Err(DecodeError::Incomplete)
        } else if Self::is_addressed(s) && Self::is_structured(s) {
            MultipleSlotBinaryAddressedStructured::outcome(s)
        } else if Self::is_structured(s) {
            MultipleSlotBinaryBroadcastStructured::outcome(s)
        } else if Self::is_addressed(s) {
            MultipleSlotBinaryAddressedUnstructured::outcome(s)
        } else {
            MultipleSlotBinaryBroadcastUnstructured::outcome(s)
        }
    }

    /// Whether `self` is the variant that the flags of `s` select, holding
    /// the field values coded in `s`.
    pub open spec fn decodes(self, s: Seq<u8>) -> bool {
        &&& s.len() >= 5
        &&& match self {
            MultipleSlotBinaryMessage::AddressedStructured(m) => Self::is_addressed(s) && Self::is_structured(s)
                && m.decodes(s),
            MultipleSlotBinaryMessage::BroadcastStructured(m) => !Self::is_addressed(s) && Self::is_structured(s)
                && m.decodes(s),
            MultipleSlotBinaryMessage::AddressedUnstructured(m) => Self::is_addressed(s) && !Self::is_structured(s)
                && m.decodes(s),
            MultipleSlotBinaryMessage::BroadcastUnstructured(m) => !Self::is_addressed(s) && !Self::is_structured(s)
                && m.decodes(s),
        }
    }

    /// Decodes a type 26 message, choosing the variant by its flags.
    pub fn from_bytes(data: &[u8]) -> (r: Result<Self, DecodeError>)
        ensures
            match r {
                Ok(m) => Self::outcome(data@) is Ok && m.decodes(data@),
                Err(e) => Self::outcome(data@) == Err::<(), DecodeError>(e),
            },
    {
        if data.len() < 5 {
            return Err(DecodeError::Incomplete);
        }
        let addressed = get_bits(data, 38, 1) != 0;
        let structured = get_bits(data, 39, 1) != 0;
        if addressed && structured {
            match MultipleSlotBinaryAddressedStructured::from_bytes(data) {
                Ok(m) => Ok(MultipleSlotBinaryMessage::AddressedStructured(m)),
                Err(e) => Err(e),
            }
        } else if structured {
            match MultipleSlotBinaryBroadcastStructured::from_bytes(data) {
                Ok(m) => Ok(MultipleSlotBinaryMessage::BroadcastStructured(m)),
                Err(e) => Err(e),
            }
        } else if addressed {
            match MultipleSlotBinaryAddressedUnstructured::from_bytes(data) {
                Ok(m) => Ok(MultipleSlotBinaryMessage::AddressedUnstructured(m)),
                Err(e) => Err(e),
            }
        } else {
            match MultipleSlotBinaryBroadcastUnstructured::from_bytes(data) {
                Ok(m) => Ok(MultipleSlotBinaryMessage::BroadcastUnstructured(m)),
                Err(e) => Err(e),
            }
        }
    }

    pub fn msg_type(&self) -> (r: u8)
        ensures
            r == 26,
    {
        26
    }

    pub fn mmsi(&self) -> (r: u32)
        ensures
            r == match self {
                MultipleSlotBinaryMessage::AddressedStructured(m) => m.mmsi,
                MultipleSlotBinaryMessage::BroadcastStructured(m) => m.mmsi,
                MultipleSlotBinaryMessage::AddressedUnstructured(m) => m.mmsi,
                MultipleSlotBinaryMessage::BroadcastUnstructured(m) => m.mmsi,
            },
    {
        match self {
            MultipleSlotBinaryMessage::AddressedStructured(m) => m.mmsi,
            MultipleSlotBinaryMessage::BroadcastStructured(m) => m.mmsi,
            MultipleSlotBinaryMessage::AddressedUnstructured(m) => m.mmsi,
            MultipleSlotBinaryMessage::BroadcastUnstructured(m) => m.mmsi,
        }
    }
}

} // verus!
