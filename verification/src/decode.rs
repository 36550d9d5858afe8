//! Decoding of NMEA sentences, AIS messages and MMSIs.

pub mod ais;
pub mod assembly;
pub mod mmsi;
pub mod nmea;
pub mod payload;
