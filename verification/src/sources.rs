//! Message sources: the decisions taken on each line of an NMEA stream, the
//! sample formats of IQ recordings, and the packed time of arrival of vessel
//! metadata feeds.  Reading lines and samples is left to the caller.

pub mod eta;
pub mod iqfile;
pub mod nmea;
pub mod nmea_ts;
