//! Data link management messages (message type 20).

use vstd::prelude::*;
use vstd::arithmetic::power2::{lemma2_to64, lemma2_to64_rest};
use crate::bits::{bits_at, get_bits};
use crate::decode::ais::converters::{from_mmsi};
use crate::decode::ais::reader::{BitCursor, DecodeError, has_bits, has_bits_exec, opt_u8, opt_u16};

verus! {

/// AIS Data Link Management Message (Type 20)
///
/// This message is used to pre-allocate TDMA slots within an AIS base station network.
/// It contains no navigational information, and is unlikely to be of interest unless you
/// are implementing or studying an AIS base station network.
/// Length varies from 72-160 bits depending on the number of slot reservations (1 to 4).
///
/// Reference: https://gpsd.gitlab.io/gpsd/AIVDM.html#_type_20_data_link_management_message
#[derive(Debug, Clone, PartialEq)]
pub struct DataLinkManagementMessage {
    /// Message type (always 20 for this message)
    pub msg_type: u8,
    /// Repeat indicator (0-3)
    pub repeat: u8,
    /// Maritime Mobile Service Identity (9 digits)
    pub mmsi: u32,
    /// Spare bits (should be zero)
    pub spare_1: u8,
    /// Slot offset 1
    pub offset1: u16,
    /// Number of reserved consecutive slots 1
    pub number1: u8,
    /// Timeout value 1 (in minutes)
    pub timeout1: u8,
    /// Increment value 1
    pub increment1: u16,
    /// Slot offset 2 (optional)
    /// `None` when the message ends first
    pub offset2: Option<u16>,
    /// Number of reserved consecutive slots 2 (optional)
    /// `None` when the message ends first
    pub number2: Option<u8>,
    /// Timeout value 2 (in minutes, optional)
    /// `None` when the message ends first
    pub timeout2: Option<u8>,
    /// Increment value 2 (optional)
    /// `None` when the message ends first
    pub increment2: Option<u16>,
    /// Slot offset 3 (optional)
    /// `None` when the message ends first
    pub offset3: Option<u16>,
    /// Number of reserved consecutive slots 3 (optional)
    /// `None` when the message ends first
    pub number3: Option<u8>,
    /// Timeout value 3 (in minutes, optional)
    /// `None` when the message ends first
    pub timeout3: Option<u8>,
    /// Increment value 3 (optional)
    /// `None` when the message ends first
    pub increment3: Option<u16>,
    /// Slot offset 4 (optional)
    /// `None` when the message ends first
    pub offset4: Option<u16>,
    /// Number of reserved consecutive slots 4 (optional)
    /// `None` when the message ends first
    pub number4: Option<u8>,
    /// Timeout value 4 (in minutes, optional)
    /// `None` when the message ends first
    pub timeout4: Option<u8>,
    /// Increment value 4 (optional)
    /// `None` when the message ends first
    pub increment4: Option<u16>,
}

impl DataLinkManagementMessage {
    /// Whether `s` decodes: `Incomplete` when the data ends before a field
    /// that must be read, `Assertion` when a spare field that must be zero
    /// is not, whichever comes first.
    pub open spec fn outcome(s: Seq<u8>) -> Result<(), DecodeError> {
        if !has_bits(s, 40) {
            Err(DecodeError::Incomplete)
        } else if bits_at(s, 38, 2) != 0 {
            Err(DecodeError::Assertion)
        } else if !has_bits(s, 70) {
            Err(DecodeError::Incomplete)
        } else {
            Ok(())
        }
    }

    /// Whether `self` holds the field values coded in `s`.
    pub open spec fn decodes(self, s: Seq<u8>) -> bool {
        &&& self.msg_type == bits_at(s, 0, 6) as u8
        &&& self.repeat == bits_at(s, 6, 2) as u8
        &&& self.mmsi == bits_at(s, 8, 30) as u32
        &&& self.spare_1 == bits_at(s, 38, 2) as u8
        &&& self.offset1 == bits_at(s, 40, 12) as u16
        &&& self.number1 == bits_at(s, 52, 4) as u8
        &&& self.timeout1 == bits_at(s, 56, 3) as u8
        &&& self.increment1 == bits_at(s, 59, 11) as u16
        &&& {
            let c0 = BitCursor { pos: 70, lim: (8 * s.len()) as u128 };
            let c1 = c0.after(12);
            let c2 = c1.after(4);
            let c3 = c2.after(3);
            let c4 = c3.after(11);
            let c5 = c4.after(12);
            let c6 = c5.after(4);
            let c7 = c6.after(3);
            let c8 = c7.after(11);
            let c9 = c8.after(12);
            let c10 = c9.after(4);
            let c11 = c10.after(3);
            &&& self.offset2 == opt_u16(c0.value(s, 12))
            &&& self.number2 == opt_u8(c1.value(s, 4))
            &&& self.timeout2 == opt_u8(c2.value(s, 3))
            &&& self.increment2 == opt_u16(c3.value(s, 11))
            &&& self.offset3 == opt_u16(c4.value(s, 12))
            &&& self.number3 == opt_u8(c5.value(s, 4))
            &&& self.timeout3 == opt_u8(c6.value(s, 3))
            &&& self.increment3 == opt_u16(c7.value(s, 11))
            &&& self.offset4 == opt_u16(c8.value(s, 12))
            &&& self.number4 == opt_u8(c9.value(s, 4))
            &&& self.timeout4 == opt_u8(c10.value(s, 3))
            &&& self.increment4 == opt_u16(c11.value(s, 11))
        }
    }

    /// Decodes the message from `bytes`, whose first bit is the first bit
    /// of the message type.
    pub fn from_bytes(bytes: &[u8]) -> (r: Result<Self, DecodeError>)
        ensures
            match r {
                Ok(m) => Self::outcome(bytes@) is Ok && m.decodes(bytes@),
                Err(e) => Self::outcome(bytes@) == Err::<(), DecodeError>(e),
            },
    {
        proof {
            lemma2_to64();
            lemma2_to64_rest();
        }
        if !has_bits_exec(bytes, 40) {
            return Err(DecodeError::Incomplete);
        }
        if get_bits(bytes, 38, 2) != 0 {
            return Err(DecodeError::Assertion);
        }
        if !has_bits_exec(bytes, 70) {
            return Err(DecodeError::Incomplete);
        }
        let msg_type = get_bits(bytes, 0, 6) as u8;
        let repeat = get_bits(bytes, 6, 2) as u8;
        let mmsi = from_mmsi(get_bits(bytes, 8, 30) as u32);
        let spare_1 = get_bits(bytes, 38, 2) as u8;
        let offset1 = get_bits(bytes, 40, 12) as u16;
        let number1 = get_bits(bytes, 52, 4) as u8;
        let timeout1 = get_bits(bytes, 56, 3) as u8;
        let increment1 = get_bits(bytes, 59, 11) as u16;
        let mut c = BitCursor { pos: 70, lim: bytes.len() as u128 * 8 };
        let offset2 = match c.read(bytes, 12) {
            Some(v) => Some(v as u16),
            None => None,
        };
        let number2 = match c.read(bytes, 4) {
            Some(v) => Some(v as u8),
            None => None,
        };
        let timeout2 = match c.read(bytes, 3) {
            Some(v) => Some(v as u8),
            None => None,
        };
        let increment2 = match c.read(bytes, 11) {
            Some(v) => Some(v as u16),
            None => None,
        };
        let offset3 = match c.read(bytes, 12) {
            Some(v) => Some(v as u16),
            None => None,
        };
        let number3 = match c.read(bytes, 4) {
            Some(v) => Some(v as u8),
            None => None,
        };
        let timeout3 = match c.read(bytes, 3) {
            Some(v) => Some(v as u8),
            None => None,
        };
        let increment3 = match c.read(bytes, 11) {
            Some(v) => Some(v as u16),
            None => None,
        };
        let offset4 = match c.read(bytes, 12) {
            Some(v) => Some(v as u16),
            None => None,
        };
        let number4 = match c.read(bytes, 4) {
            Some(v) => Some(v as u8),
            None => None,
        };
        let timeout4 = match c.read(bytes, 3) {
            Some(v) => Some(v as u8),
            None => None,
        };
        let increment4 = match c.read(bytes, 11) {
            Some(v) => Some(v as u16),
            None => None,
        };
        Ok(DataLinkManagementMessage {
            msg_type,
            repeat,
            mmsi,
            spare_1,
            offset1,
            number1,
            timeout1,
            increment1,
            offset2,
            number2,
            timeout2,
            increment2,
            offset3,
            number3,
            timeout3,
            increment3,
            offset4,
            number4,
            timeout4,
            increment4,
        })
    }
}

} // verus!
