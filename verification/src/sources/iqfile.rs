//! Sample formats of IQ recordings.

use vstd::prelude::*;

verus! {

/// Sample format of an IQ recording.
#[derive(Debug, Clone, Copy, PartialEq, Eq, Structural)]
pub enum IqFormat {
    /// Complex unsigned 8-bit
    Cu8,
    /// Complex signed 8-bit
    Cs8,
    /// Complex signed 16-bit
    Cs16,
    /// Complex 32-bit float
    Cf32,
}

impl IqFormat {
    /// Bytes of one complex sample (in-phase and quadrature parts).
    pub fn bytes_per_sample(self) -> (r: usize)
        ensures
            r == match self {
                IqFormat::Cu8 | IqFormat::Cs8 => 2usize,
                IqFormat::Cs16 => 4usize,
                IqFormat::Cf32 => 8usize,
            },
    {
        match self {
            IqFormat::Cu8 | IqFormat::Cs8 => 2,
            IqFormat::Cs16 => 4,
            IqFormat::Cf32 => 8,
        }
    }
}

} // verus!
