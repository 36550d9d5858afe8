//! The estimated time of arrival as vessel metadata feeds pack it, in the
//! layout of AIS static data: month in bits 19-16, day in bits 15-11, hour
//! in bits 10-6, minute in bits 5-0.

use vstd::prelude::*;

verus! {

/// An estimated time of arrival (UTC); `None` where the value is "not
/// available".
#[derive(Debug, Clone, Copy, PartialEq, Eq, Structural)]
pub struct Eta {
    /// Month 1-12; `None` for 0.
    pub month: Option<u8>,
    /// Day 1-31; `None` for 0.
    pub day: Option<u8>,
    /// Hour 0-23; `None` for 24.
    pub hour: Option<u8>,
    /// Minute 0-59; `None` for 60.
    pub minute: Option<u8>,
}

/// The value of `v` unless it is the "not available" value `na`.
pub open spec fn available(v: u32, na: u32) -> Option<u8> {
    if v == na {
        None
    } else {
        Some(v as u8)
    }
}

/// Unpacks the fields of a packed time of arrival.
pub fn eta_fields(eta: u32) -> (r: Eta)
    ensures
        r.month == available((eta >> 16u32) & 0xF, 0),
        r.day == available((eta >> 11u32) & 0x1F, 0),
        r.hour == available((eta >> 6u32) & 0x1F, 24),
        r.minute == available(eta & 0x3F, 60),
{
    let month = (eta >> 16) & 0xF;
    let day = (eta >> 11) & 0x1F;
    let hour = (eta >> 6) & 0x1F;
    let minute = eta & 0x3F;
    proof {
        assert((eta >> 16u32) & 0xF <= 0xF) by (bit_vector);
        assert((eta >> 11u32) & 0x1F <= 0x1F) by (bit_vector);
        assert((eta >> 6u32) & 0x1F <= 0x1F) by (bit_vector);
        assert(eta & 0x3F <= 0x3F) by (bit_vector);
    }
    Eta {
        month: if month == 0 {
            None
        } else {
            Some(month as u8)
        },
        day: if day == 0 {
            None
        } else {
            Some(day as u8)
        },
        hour: if hour == 24 {
            None
        } else {
            Some(hour as u8)
        },
        minute: if minute == 60 {
            None
        } else {
            Some(minute as u8)
        },
    }
}

} // verus!
