//! Interrogations (message type 15).

use vstd::prelude::*;
use vstd::arithmetic::power2::{lemma2_to64, lemma2_to64_rest};
use crate::bits::{bits_at, get_bits};
use crate::decode::ais::converters::{from_mmsi, from_mmsi_optional};
use crate::decode::ais::reader::{BitCursor, DecodeError, has_bits, has_bits_exec, opt_u8, opt_u16, nonzero_u32};

verus! {

/// AIS Interrogation (Type 15)
///
/// This message is used to request specific message types from other stations.
/// It can interrogate one or two stations, with up to two message type requests per station.
///
/// Reference: <https://gpsd.gitlab.io/gpsd/AIVDM.html#_type_15_interrogation>
#[derive(Debug, Clone, PartialEq)]
pub struct Interrogation {
    /// Message type (always 15 for this message)
    pub msg_type: u8,
    /// Repeat indicator (0-3)
    pub repeat: u8,
    /// Maritime Mobile Service Identity (9 digits)
    pub mmsi: u32,
    /// Spare bits (should be zero)
    pub spare_1: u8,
    /// First station MMSI to interrogate
    pub mmsi1: u32,
    /// First message type requested from first station
    pub type1_1: u8,
    /// Slot offset for first message from first station
    pub offset1_1: u16,
    /// Spare bits (should be zero)
    /// `None` when the message ends first
    pub spare_2: Option<u8>,
    /// Second message type requested from first station (optional)
    /// `None` when the message ends first
    pub type1_2: Option<u8>,
    /// Slot offset for second message from first station (optional)
    /// `None` when the message ends first
    pub offset1_2: Option<u16>,
    /// Spare bits (should be zero) (optional)
    /// `None` when the message ends first
    pub spare_3: Option<u8>,
    /// Second station MMSI to interrogate (optional)
    /// `None` when the message ends first or the MMSI is 0
    pub mmsi2: Option<u32>,
    /// Message type requested from second station (optional)
    /// `None` when the message ends first
    pub type2_1: Option<u8>,
    /// Slot offset for message from second station (optional)
    /// `None` when the message ends first
    pub offset2_1: Option<u16>,
    /// Spare bits (should be zero) (optional)
    /// `None` when the message ends first
    pub spare_4: Option<u8>,
}

impl Interrogation {
    /// Whether `s` decodes: `Incomplete` when the data ends before a field
    /// that must be read, `Assertion` when a spare field that must be zero
    /// is not, whichever comes first.
    pub open spec fn outcome(s: Seq<u8>) -> Result<(), DecodeError> {
        if !has_bits(s, 88) {
            Err(DecodeError::Incomplete)
        } else {
            Ok(())
        }
    }

    /// Whether `self` holds the field values coded in `s`.
    pub open spec fn decodes(self, s: Seq<u8>) -> bool {
        &&& self.msg_type == bits_at(s, 0, 6) as u8
        &&& self.repeat == bits_at(s, 6, 2) as u8
        &&& self.mmsi == bits_at(s, 8, 30) as u32
        &&& self.spare_1 == bits_at(s, 38, 2) as u8
        &&& self.mmsi1 == bits_at(s, 40, 30) as u32
        &&& self.type1_1 == bits_at(s, 70, 6) as u8
        &&& self.offset1_1 == bits_at(s, 76, 12) as u16
        &&& {
            let c0 = BitCursor { pos: 88, lim: (8 * s.len()) as u128 };
            let c1 = c0.after(2);
            let c2 = c1.after(6);
            let c3 = c2.after(12);
            let c4 = c3.after(2);
            let c5 = c4.after(30);
            let c6 = c5.after(6);
            let c7 = c6.after(12);
            &&& self.spare_2 == opt_u8(c0.value(s, 2))
            &&& self.type1_2 == opt_u8(c1.value(s, 6))
            &&& self.offset1_2 == opt_u16(c2.value(s, 12))
            &&& self.spare_3 == opt_u8(c3.value(s, 2))
            &&& self.mmsi2 == nonzero_u32(c4.value(s, 30))
            &&& self.type2_1 == opt_u8(c5.value(s, 6))
            &&& self.offset2_1 == opt_u16(c6.value(s, 12))
            &&& self.spare_4 == opt_u8(c7.value(s, 2))
        }
    }

    /// Decodes the message from `bytes`, whose first bit is the first bit
    /// of the message type.
    pub fn from_bytes(bytes: &[u8]) -> (r: Result<Self, DecodeError>)
        ensures
            match r {
                Ok(m) => Self::outcome(bytes@) is Ok && m.decodes(bytes@),
                Err(e) => Self::outcome(bytes@) == Err::<(), DecodeError>(e),
            },
    {
        proof {
            lemma2_to64();
            lemma2_to64_rest();
        }
        if !has_bits_exec(bytes, 88) {
            return Err(DecodeError::Incomplete);
        }
        let msg_type = get_bits(bytes, 0, 6) as u8;
        let repeat = get_bits(bytes, 6, 2) as u8;
        let mmsi = from_mmsi(get_bits(bytes, 8, 30) as u32);
        let spare_1 = get_bits(bytes, 38, 2) as u8;
        let mmsi1 = from_mmsi(get_bits(bytes, 40, 30) as u32);
        let type1_1 = get_bits(bytes, 70, 6) as u8;
        let offset1_1 = get_bits(bytes, 76, 12) as u16;
        let mut c = BitCursor { pos: 88, lim: bytes.len() as u128 * 8 };
        let spare_2 = match c.read(bytes, 2) {
            Some(v) => Some(v as u8),
            None => None,
        };
        let type1_2 = match c.read(bytes, 6) {
            Some(v) => Some(v as u8),
            None => None,
        };
        let offset1_2 = match c.read(bytes, 12) {
            Some(v) => Some(v as u16),
            None => None,
        };
        let spare_3 = match c.read(bytes, 2) {
            Some(v) => Some(v as u8),
            None => None,
        };
        let mmsi2 = match c.read(bytes, 30) {
            Some(v) => from_mmsi_optional(v as u32),
            None => None,
        };
        let type2_1 = match c.read(bytes, 6) {
            Some(v) => Some(v as u8),
            None => None,
        };
        let offset2_1 = match c.read(bytes, 12) {
            Some(v) => Some(v as u16),
            None => None,
        };
        let spare_4 = match c.read(bytes, 2) {
            Some(v) => Some(v as u8),
            None => None,
        };
        Ok(Interrogation {
            msg_type,
            repeat,
            mmsi,
            spare_1,
            mmsi1,
            type1_1,
            offset1_1,
            spare_2,
            type1_2,
            offset1_2,
            spare_3,
            mmsi2,
            type2_1,
            offset2_1,
            spare_4,
        })
    }
}

} // verus!
