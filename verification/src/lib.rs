//! AIS message decoding: NMEA sentence parsing, fragment assembly,
//! bit-level decoding of AIS messages, MMSI interpretation and the
//! integer side of HDLC frame recovery.

pub mod bits;
pub mod decode;
pub mod dsp;
pub mod sources;
pub mod text;
