//! Binary and safety acknowledgements (message types 7 and 13).

use vstd::prelude::*;
use vstd::arithmetic::power2::{lemma2_to64, lemma2_to64_rest};
use crate::bits::{bits_at, get_bits};
use crate::decode::ais::converters::{from_mmsi};
use crate::decode::ais::reader::{BitCursor, DecodeError, has_bits, has_bits_exec, opt_u8, opt_u32};

verus! {

/// AIS Binary Acknowledge (Type 7) / Safety-Related Acknowledgement (Type 13)
///
/// This message is used to acknowledge receipt of a binary addressed message (Type 7)
/// or a safety-related message (Type 13). Both message types use identical formats.
/// It can acknowledge up to 4 different messages by including the MMSI and
/// sequence number of each message being acknowledged.
///
/// Reference: https://gpsd.gitlab.io/gpsd/AIVDM.html#_type_7_binary_acknowledge
#[derive(Debug, Clone, PartialEq)]
pub struct BinaryAcknowledge {
    /// Message type (7 for binary acknowledge, 13 for safety-related acknowledge)
    pub msg_type: u8,
    /// Repeat indicator (0-3)
    pub repeat: u8,
    /// Maritime Mobile Service Identity (9 digits)
    pub mmsi: u32,
    /// Spare bits (should be zero)
    pub spare_1: u8,
    /// First MMSI being acknowledged
    pub mmsi1: u32,
    /// Sequence number for first MMSI
    pub mmsiseq1: u8,
    /// Second MMSI being acknowledged (optional)
    /// `None` when the message ends first
    pub mmsi2: Option<u32>,
    /// Sequence number for second MMSI (optional)
    /// `None` when the message ends first
    pub mmsiseq2: Option<u8>,
    /// Third MMSI being acknowledged (optional)
    /// `None` when the message ends first
    pub mmsi3: Option<u32>,
    /// Sequence number for third MMSI (optional)
    /// `None` when the message ends first
    pub mmsiseq3: Option<u8>,
    /// Fourth MMSI being acknowledged (optional)
    /// `None` when the message ends first
    pub mmsi4: Option<u32>,
    /// Sequence number for fourth MMSI (optional)
    /// `None` when the message ends first
    pub mmsiseq4: Option<u8>,
}

impl BinaryAcknowledge {
    /// Whether `s` decodes: `Incomplete` when the data ends before a field
    /// that must be read, `Assertion` when a spare field that must be zero
    /// is not, whichever comes first.
    pub open spec fn outcome(s: Seq<u8>) -> Result<(), DecodeError> {
        if !has_bits(s, 72) {
            Err(DecodeError::Incomplete)
        } else {
            Ok(())
        }
    }

    /// Whether `self` holds the field values coded in `s`.
    pub open spec fn decodes(self, s: Seq<u8>) -> bool {
        &&& self.msg_type == bits_at(s, 0, 6) as u8
        &&& self.repeat == bits_at(s, 6, 2) as u8
        &&& self.mmsi == bits_at(s, 8, 30) as u32
        &&& self.spare_1 == bits_at(s, 38, 2) as u8
        &&& self.mmsi1 == bits_at(s, 40, 30) as u32
        &&& self.mmsiseq1 == bits_at(s, 70, 2) as u8
        &&& {
            let c0 = BitCursor { pos: 72, lim: (8 * s.len()) as u128 };
            let c1 = c0.after(30);
            let c2 = c1.after(2);
            let c3 = c2.after(30);
            let c4 = c3.after(2);
            let c5 = c4.after(30);
            &&& self.mmsi2 == opt_u32(c0.value(s, 30))
            &&& self.mmsiseq2 == opt_u8(c1.value(s, 2))
            &&& self.mmsi3 == opt_u32(c2.value(s, 30))
            &&& self.mmsiseq3 == opt_u8(c3.value(s, 2))
            &&& self.mmsi4 == opt_u32(c4.value(s, 30))
            &&& self.mmsiseq4 == opt_u8(c5.value(s, 2))
        }
    }

    /// Decodes the message from `bytes`, whose first bit is the first bit
    /// of the message type.
    pub fn from_bytes(bytes: &[u8]) -> (r: Result<Self, DecodeError>)
        ensures
            match r {
                Ok(m) => Self::outcome(bytes@) is Ok && m.decodes(bytes@),
                Err(e) => Self::outcome(bytes@) == Err::<(), DecodeError>(e),
            },
    {
        proof {
            lemma2_to64();
            lemma2_to64_rest();
        }
        if !has_bits_exec(bytes, 72) {
            return Err(DecodeError::Incomplete);
        }
        let msg_type = get_bits(bytes, 0, 6) as u8;
        let repeat = get_bits(bytes, 6, 2) as u8;
        let mmsi = from_mmsi(get_bits(bytes, 8, 30) as u32);
        let spare_1 = get_bits(bytes, 38, 2) as u8;
        let mmsi1 = from_mmsi(get_bits(bytes, 40, 30) as u32);
        let mmsiseq1 = get_bits(bytes, 70, 2) as u8;
        let mut c = BitCursor { pos: 72, lim: bytes.len() as u128 * 8 };
        let mmsi2 = match c.read(bytes, 30) {
            Some(v) => Some(from_mmsi(v as u32)),
            None => None,
        };
        let mmsiseq2 = match c.read(bytes, 2) {
            Some(v) => Some(v as u8),
            None => None,
        };
        let mmsi3 = match c.read(bytes, 30) {
            Some(v) => Some(from_mmsi(v as u32)),
            None => None,
        };
        let mmsiseq3 = match c.read(bytes, 2) {
            Some(v) => Some(v as u8),
            None => None,
        };
        let mmsi4 = match c.read(bytes, 30) {
            Some(v) => Some(from_mmsi(v as u32)),
            None => None,
        };
        let mmsiseq4 = match c.read(bytes, 2) {
            Some(v) => Some(v as u8),
            None => None,
        };
        Ok(BinaryAcknowledge {
            msg_type,
            repeat,
            mmsi,
            spare_1,
            mmsi1,
            mmsiseq1,
            mmsi2,
            mmsiseq2,
            mmsi3,
            mmsiseq3,
            mmsi4,
            mmsiseq4,
        })
    }
}

} // verus!
