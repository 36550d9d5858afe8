//! Binary addressed messages (message type 6).

use vstd::prelude::*;
use vstd::arithmetic::power2::{lemma2_to64, lemma2_to64_rest};
use crate::bits::{bits_at, get_bits};
use crate::decode::ais::converters::{from_mmsi};
use crate::decode::ais::reader::{BitCursor, DecodeError, has_bits, has_bits_exec};

verus! {

/// AIS Binary Addressed Message (Type 6)
///
/// This message is used to send binary data to a specific destination.
/// It contains addressing information and a variable-length data payload.
/// The data field can contain up to 920 bits of application-specific information.
///
/// Reference: https://gpsd.gitlab.io/gpsd/AIVDM.html#_type_6_binary_addressed_message
#[derive(Debug, Clone, PartialEq)]
pub struct BinaryAddressedMessage {
    /// Message type (always 6 for this message)
    pub msg_type: u8,
    /// Repeat indicator (0-3)
    pub repeat: u8,
    /// Maritime Mobile Service Identity (9 digits)
    pub mmsi: u32,
    /// Sequence number (0-3)
    pub seqno: u8,
    /// Destination MMSI
    pub dest_mmsi: u32,
    /// Retransmit flag
    pub retransmit: bool,
    /// Spare bit (should be zero)
    pub spare_1: u8,
    /// Designated Area Code
    pub dac: u16,
    /// Function Identifier
    pub fid: u8,
    /// Binary data payload (variable length, up to 920 bits)
    pub data: Vec<u8>,
}

impl BinaryAddressedMessage {
    /// Whether `s` decodes: `Incomplete` when the data ends before a field
    /// that must be read, `Assertion` when a spare field that must be zero
    /// is not, whichever comes first.
    pub open spec fn outcome(s: Seq<u8>) -> Result<(), DecodeError> {
        if !has_bits(s, 88) {
            Err(DecodeError::Incomplete)
        } else {
            Ok(())
        }
    }

    /// Whether `self` holds the field values coded in `s`.
    pub open spec fn decodes(self, s: Seq<u8>) -> bool {
        &&& self.msg_type == bits_at(s, 0, 6) as u8
        &&& self.repeat == bits_at(s, 6, 2) as u8
        &&& self.mmsi == bits_at(s, 8, 30) as u32
        &&& self.seqno == bits_at(s, 38, 2) as u8
        &&& self.dest_mmsi == bits_at(s, 40, 30) as u32
        &&& self.retransmit == (bits_at(s, 70, 1) != 0)
        &&& self.spare_1 == bits_at(s, 71, 1) as u8
        &&& self.dac == bits_at(s, 72, 10) as u16
        &&& self.fid == bits_at(s, 82, 6) as u8
        &&& {
            let c0 = BitCursor { pos: 88, lim: (8 * s.len()) as u128 };
            &&& self.data@ == c0.rest_bytes(s)
        }
    }

    /// Decodes the message from `bytes`, whose first bit is the first bit
    /// of the message type.
    pub fn from_bytes(bytes: &[u8]) -> (r: Result<Self, DecodeError>)
        ensures
            match r {
                Ok(m) => Self::outcome(bytes@) is Ok && m.decodes(bytes@),
                Err(e) => Self::outcome(bytes@) == Err::<(), DecodeError>(e),
            },
    {
        proof {
            lemma2_to64();
            lemma2_to64_rest();
        }
        if !has_bits_exec(bytes, 88) {
            return Err(DecodeError::Incomplete);
        }
        let msg_type = get_bits(bytes, 0, 6) as u8;
        let repeat = get_bits(bytes, 6, 2) as u8;
        let mmsi = from_mmsi(get_bits(bytes, 8, 30) as u32);
        let seqno = get_bits(bytes, 38, 2) as u8;
        let dest_mmsi = from_mmsi(get_bits(bytes, 40, 30) as u32);
        let retransmit = get_bits(bytes, 70, 1) != 0;
        let spare_1 = get_bits(bytes, 71, 1) as u8;
        let dac = get_bits(bytes, 72, 10) as u16;
        let fid = get_bits(bytes, 82, 6) as u8;
        let mut c = BitCursor { pos: 88, lim: bytes.len() as u128 * 8 };
        let data = c.read_rest(bytes);
        Ok(BinaryAddressedMessage {
            msg_type,
            repeat,
            mmsi,
            seqno,
            dest_mmsi,
            retransmit,
            spare_1,
            dac,
            fid,
            data,
        })
    }
}

} // verus!
