//! The resampling that brings a receiver's sample rate to the demodulator's
//! 96 kHz: an optional upsampling to the nearest rate that a chain of
//! decimators handles, then halvings and an optional division by three.

use vstd::prelude::*;
use vstd::arithmetic::power2::{lemma2_to64, pow2};

verus! {

/// The sample rate the demodulator works at.
pub const AIS_SAMPLE_RATE: u32 = 96_000;

/// The highest input sample rate handled.
pub const MAX_SAMPLE_RATE: u32 = 12_288_000;

/// The rates that a chain of decimators brings to 96 kHz without upsampling.
pub open spec fn is_standard_rate(r: int) -> bool {
    ||| r == 96_000
    ||| r == 192_000
    ||| r == 288_000
    ||| r == 384_000
    ||| r == 576_000
    ||| r == 768_000
    ||| r == 1_152_000
    ||| r == 1_536_000
    ||| r == 2_304_000
    ||| r == 3_072_000
    ||| r == 6_144_000
    ||| r == 12_288_000
}

/// How samples at some input rate are brought to 96 kHz.
#[derive(Debug, Clone, Copy, PartialEq, Eq, Structural)]
pub struct RatePlan {
    /// The standard rate to upsample to first, when the input rate is not
    /// one.
    pub upsample_to: Option<u32>,
    /// Number of decimations by two.
    pub halvings: u8,
    /// Whether a decimation by three follows the halvings.
    pub third: bool,
}

/// The rate at which the decimators of `p` are fed.
pub open spec fn decimator_input(p: RatePlan, sample_rate: int) -> int {
    match p.upsample_to {
        Some(t) => t as int,
        None => sample_rate,
    }
}

/// The factor by which the decimators of `p` divide the rate.
pub open spec fn decimation_factor(p: RatePlan) -> int {
    pow2(p.halvings as nat) * (if p.third {
        3int
    } else {
        1int
    })
}

/// The resampling for `sample_rate`: `None` for a zero rate and above the
/// highest rate handled.  Otherwise the decimators are fed the least
/// standard rate not below `sample_rate` (upsampling to it unless
/// `sample_rate` is standard), and divide it down to exactly 96 kHz.
pub fn plan_rate(sample_rate: u32) -> (r: Option<RatePlan>)
    ensures
        r is None <==> (sample_rate == 0 || sample_rate > MAX_SAMPLE_RATE),
        r matches Some(p) ==> {
            let target = decimator_input(p, sample_rate as int);
            &&& is_standard_rate(target)
            &&& (p.upsample_to is None <==> is_standard_rate(sample_rate as int))
            &&& sample_rate <= target
            &&& forall|s: int| #[trigger] is_standard_rate(s) && sample_rate <= s ==> target <= s
            &&& p.halvings <= 7
            &&& target == AIS_SAMPLE_RATE * decimation_factor(p)
        },
{
    if sample_rate == 0 {
        return None;
    }
    let target: u32 = if sample_rate <= 96_000 {
        96_000
    } else if sample_rate <= 192_000 {
        192_000
    } else if sample_rate <= 288_000 {
        288_000
    } else if sample_rate <= 384_000 {
        384_000
    } else if sample_rate <= 576_000 {
        576_000
    } else if sample_rate <= 768_000 {
        768_000
    } else if sample_rate <= 1_152_000 {
        1_152_000
    } else if sample_rate <= 1_536_000 {
        1_536_000
    } else if sample_rate <= 2_304_000 {
        2_304_000
    } else if sample_rate <= 3_072_000 {
        3_072_000
    } else if sample_rate <= 6_144_000 {
        6_144_000
    } else if sample_rate <= MAX_SAMPLE_RATE {
        12_288_000
    } else {
        return None;
    };
    let (halvings, third): (u8, bool) = if target == 96_000 {
        (0, false)
    } else if target == 192_000 {
        (1, false)
    } else if target == 288_000 {
        (0, true)
    } else if target == 384_000 {
        (2, false)
    } else if target == 576_000 {
        (1, true)
    } else if target == 768_000 {
        (3, false)
    } else if target == 1_152_000 {
        (2, true)
    } else if target == 1_536_000 {
        (4, false)
    } else if target == 2_304_000 {
        (3, true)
    } else if target == 3_072_000 {
        (5, false)
    } else if target == 6_144_000 {
        (6, false)
    } else {
        (7, false)
    };
    let upsample_to = if target == sample_rate {
        None
    } else {
        Some(target)
    };
    proof {
        lemma2_to64();
    }
    Some(RatePlan { upsample_to, halvings, third })
}

} // verus!
