//! Signal processing of the receiver that can be verified: the AIS frame
//! decoder and the timing phase distribution.

pub mod ais;
pub mod rates;
pub mod scatter;
pub mod roundtrip;
pub mod frame_check;
pub mod hdlc;
