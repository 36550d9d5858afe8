//! Binary broadcast messages (message type 8).

use vstd::prelude::*;
use vstd::arithmetic::power2::{lemma2_to64, lemma2_to64_rest};
use crate::bits::{bits_at, get_bits};
use crate::decode::ais::common::{InlandLoadedType};
use crate::decode::ais::converters::{from_mmsi, from_sixbit_ascii_48, sixbit_text};
use crate::decode::ais::reader::{BitCursor, DecodeError, has_bits, has_bits_exec};

verus! {

/// Default Type 8 message structure
#[derive(Debug, Clone, PartialEq)]
pub struct MessageType8Default {
    /// Message type (always 8 for this message)
    pub msg_type: u8,
    /// Repeat indicator (0-3)
    pub repeat: u8,
    /// Maritime Mobile Service Identity (9 digits)
    pub mmsi: u32,
    /// Spare bits (should be zero)
    pub spare_1: u8,
    /// Designated Area Code
    pub dac: u16,
    /// Function Identifier
    pub fid: u8,
    /// Binary data payload (variable length, up to 952 bits)
    pub data: Vec<u8>,
}

impl MessageType8Default {
    /// Whether `s` decodes: `Incomplete` when the data ends before a field
    /// that must be read, `Assertion` when a spare field that must be zero
    /// is not, whichever comes first.
    pub open spec fn outcome(s: Seq<u8>) -> Result<(), DecodeError> {
        if !has_bits(s, 56) {
            Err(DecodeError::Incomplete)
        } else {
            Ok(())
        }
    }

    /// Whether `self` holds the field values coded in `s`.
    pub open spec fn decodes(self, s: Seq<u8>) -> bool {
        &&& self.msg_type == bits_at(s, 0, 6) as u8
        &&& self.repeat == bits_at(s, 6, 2) as u8
        &&& self.mmsi == bits_at(s, 8, 30) as u32
        &&& self.spare_1 == bits_at(s, 38, 2) as u8
        &&& self.dac == bits_at(s, 40, 10) as u16
        &&& self.fid == bits_at(s, 50, 6) as u8
        &&& {
            let c0 = BitCursor { pos: 56, lim: (8 * s.len()) as u128 };
            &&& self.data@ == c0.rest_bytes(s)
        }
    }

    /// Decodes the message from `bytes`, whose first bit is the first bit
    /// of the message type.
    pub fn from_bytes(bytes: &[u8]) -> (r: Result<Self, DecodeError>)
        ensures
            match r {
                Ok(m) => Self::outcome(bytes@) is Ok && m.decodes(bytes@),
                Err(e) => Self::outcome(bytes@) == Err::<(), DecodeError>(e),
            },
    {
        proof {
            lemma2_to64();
            lemma2_to64_rest();
        }
        if !has_bits_exec(bytes, 56) {
            return Err(DecodeError::Incomplete);
        }
        let msg_type = get_bits(bytes, 0, 6) as u8;
        let repeat = get_bits(bytes, 6, 2) as u8;
        let mmsi = from_mmsi(get_bits(bytes, 8, 30) as u32);
        let spare_1 = get_bits(bytes, 38, 2) as u8;
        let dac = get_bits(bytes, 40, 10) as u16;
        let fid = get_bits(bytes, 50, 6) as u8;
        let mut c = BitCursor { pos: 56, lim: bytes.len() as u128 * 8 };
        let data = c.read_rest(bytes);
        Ok(MessageType8Default {
            msg_type,
            repeat,
            mmsi,
            spare_1,
            dac,
            fid,
            data,
        })
    }
}

/// Inland navigation Type 8 message (DAC=200, FID=10)
#[derive(Debug, Clone, PartialEq)]
pub struct MessageType8Dac200Fid10 {
    /// Message type (always 8 for this message)
    pub msg_type: u8,
    /// Repeat indicator (0-3)
    pub repeat: u8,
    /// Maritime Mobile Service Identity (9 digits)
    pub mmsi: u32,
    /// Spare bits (should be zero)
    pub spare_1: u8,
    /// Designated Area Code (200 for this variant)
    pub dac: u16,
    /// Function Identifier (10 for this variant)
    pub fid: u8,
    /// Unique European Vessel Identification Number / ERI number
    pub vin: String,
    /// Length of ship in 1/10m (1-8000, 0=default), in tenths of a metre
    pub length: u16,
    /// Beam of ship in 1/10m (1-1000, 0=default), in tenths of a metre
    pub beam: u16,
    /// Numeric ERI Classification
    pub shiptype: u16,
    /// Number of blue cones/lights (0-3, 4=B-Flag, 5=default/unknown)
    pub hazard: u8,
    /// Draught in 1/100m (1-2000, 0=default/unknown), in hundredths of a metre
    pub draught: u16,
    /// Load status
    pub loaded: InlandLoadedType,
    /// Speed quality flag
    pub speed_q: bool,
    /// Course quality flag
    pub course_q: bool,
    /// Heading quality flag
    pub heading_q: bool,
    /// Spare bits
    pub spare: u8,
}

impl MessageType8Dac200Fid10 {
    /// Whether `s` decodes: `Incomplete` when the data ends before a field
    /// that must be read, `Assertion` when a spare field that must be zero
    /// is not, whichever comes first.
    pub open spec fn outcome(s: Seq<u8>) -> Result<(), DecodeError> {
        if !has_bits(s, 168) {
            Err(DecodeError::Incomplete)
        } else {
            Ok(())
        }
    }

    /// Whether `self` holds the field values coded in `s`.
    pub open spec fn decodes(self, s: Seq<u8>) -> bool {
        &&& self.msg_type == bits_at(s, 0, 6) as u8
        &&& self.repeat == bits_at(s, 6, 2) as u8
        &&& self.mmsi == bits_at(s, 8, 30) as u32
        &&& self.spare_1 == bits_at(s, 38, 2) as u8
        &&& self.dac == bits_at(s, 40, 10) as u16
        &&& self.fid == bits_at(s, 50, 6) as u8
        &&& self.vin@ == sixbit_text(bits_at(s, 56, 48), 8)
        &&& self.length == bits_at(s, 104, 13) as u16
        &&& self.beam == bits_at(s, 117, 10) as u16
        &&& self.shiptype == bits_at(s, 127, 14) as u16
        &&& self.hazard == bits_at(s, 141, 3) as u8
        &&& self.draught == bits_at(s, 144, 11) as u16
        &&& self.loaded == InlandLoadedType::spec_from_bits(bits_at(s, 155, 2) as u8)
        &&& self.speed_q == (bits_at(s, 157, 1) != 0)
        &&& self.course_q == (bits_at(s, 158, 1) != 0)
        &&& self.heading_q == (bits_at(s, 159, 1) != 0)
        &&& self.spare == bits_at(s, 160, 8) as u8
    }

    /// Decodes the message from `bytes`, whose first bit is the first bit
    /// of the message type.
    pub fn from_bytes(bytes: &[u8]) -> (r: Result<Self, DecodeError>)
        ensures
            match r {
                Ok(m) => Self::outcome(bytes@) is Ok && m.decodes(bytes@),
                Err(e) => Self::outcome(bytes@) == Err::<(), DecodeError>(e),
            },
    {
        proof {
            lemma2_to64();
            lemma2_to64_rest();
        }
        if !has_bits_exec(bytes, 168) {
            return Err(DecodeError::Incomplete);
        }
        let msg_type = get_bits(bytes, 0, 6) as u8;
        let repeat = get_bits(bytes, 6, 2) as u8;
        let mmsi = from_mmsi(get_bits(bytes, 8, 30) as u32);
        let spare_1 = get_bits(bytes, 38, 2) as u8;
        let dac = get_bits(bytes, 40, 10) as u16;
        let fid = get_bits(bytes, 50, 6) as u8;
        let vin = from_sixbit_ascii_48(get_bits(bytes, 56, 48) as u64, 8);
        let length = get_bits(bytes, 104, 13) as u16;
        let beam = get_bits(bytes, 117, 10) as u16;
        let shiptype = get_bits(bytes, 127, 14) as u16;
        let hazard = get_bits(bytes, 141, 3) as u8;
        let draught = get_bits(bytes, 144, 11) as u16;
        let loaded = InlandLoadedType::from_bits(get_bits(bytes, 155, 2) as u8);
        let speed_q = get_bits(bytes, 157, 1) != 0;
        let course_q = get_bits(bytes, 158, 1) != 0;
        let heading_q = get_bits(bytes, 159, 1) != 0;
        let spare = get_bits(bytes, 160, 8) as u8;
        Ok(MessageType8Dac200Fid10 {
            msg_type,
            repeat,
            mmsi,
            spare_1,
            dac,
            fid,
            vin,
            length,
            beam,
            shiptype,
            hazard,
            draught,
            loaded,
            speed_q,
            course_q,
            heading_q,
            spare,
        })
    }
}

/// Binary broadcast message (type 8): the inland static and voyage data of
/// application 200/10, or any other application's payload.
#[derive(Debug, Clone, PartialEq)]
pub enum BinaryBroadcastMessage {
    Default(MessageType8Default),
    Inland(MessageType8Dac200Fid10),
}

impl BinaryBroadcastMessage {
    /// Whether the application id (DAC in bits 40-49, FID in bits 50-55)
    /// is that of inland static and voyage data, DAC 200 and FID 10.
    pub open spec fn is_inland(s: Seq<u8>) -> bool {
        bits_at(s, 40, 10) == 200 && bits_at(s, 50, 6) == 10
    }

    /// Whether `s` decodes: the application id must be present, then the
    /// variant it names must decode.
    pub open spec fn outcome(s: Seq<u8>) -> Result<(), DecodeError> {
        if s.len() < 7 {
            Err(DecodeError::Incomplete)
        } else if Self::is_inland(s) {
            MessageType8Dac200Fid10::outcome(s)
        } else {
            MessageType8Default::outcome(s)
        }
    }

    /// Whether `self` is the variant that the application id of `s` names,
    /// holding the field values coded in `s`.
    pub open spec fn decodes(self, s: Seq<u8>) -> bool {
        &&& s.len() >= 7
        &&& match self {
            BinaryBroadcastMessage::Inland(m) => Self::is_inland(s) && m.decodes(s),
            BinaryBroadcastMessage::Default(m) => !Self::is_inland(s) && m.decodes(s),
        }
    }

    /// Decodes a type 8 message, choosing the variant by its application id.
    pub fn from_bytes(data: &[u8]) -> (r: Result<Self, DecodeError>)
        ensures
            match r {
                Ok(m) => Self::outcome(data@) is Ok && m.decodes(data@),
                Err(e) => Self::outcome(data@) == Err::<(), DecodeError>(e),
            },
    {
        if data.len() < 7 {
            return Err(DecodeError::Incomplete);
        }
        let dac = get_bits(data, 40, 10);
        let fid = get_bits(data, 50, 6);
        if dac == 200 && fid == 10 {
            match MessageType8Dac200Fid10::from_bytes(data) {
                Ok(m) => Ok(BinaryBroadcastMessage::Inland(m)),
                Err(e) => Err(e),
            }
        } else {
            match MessageType8Default::from_bytes(data) {
                Ok(m) => Ok(BinaryBroadcastMessage::Default(m)),
                Err(e) => Err(e),
            }
        }
    }
}

} // verus!
