use rs162::sources::eta::{eta_fields, Eta};
use rs162::decode::ais::Message;
use rs162::decode::nmea::NmeaError;
use rs162::sources::iqfile::IqFormat;
use rs162::sources::nmea::{NmeaIterator, NmeaStep};
use rs162::sources::nmea_ts::{
    parse_timestamped_line, TimestampError, TimestampedNmeaIterator, TimestampedStep,
};

#[test]
fn nmea_lines_give_messages() {
    let mut it = NmeaIterator::new();
    let line = "  !AIVDM,1,1,,B,15M67FC000G?ufbE`FepT@3n00Sa,0*5C\r\n";
    assert!(it.accepts_line(line));
    match it.next_from_line(line) {
        NmeaStep::Message(Message::PositionReport1(m)) => assert_eq!(m.mmsi, 366053209),
        other => panic!("unexpected {:?}", other),
    }
}

#[test]
fn nmea_lines_assemble_fragments() {
    let mut it = NmeaIterator::new();
    let first = "!AIVDM,2,1,1,A,55?MbV02;H;s<HtKR20EHE:0@T4@Dn2222222216L961O5Gf0NSQEp6ClRp8,0*1C";
    let second = "!AIVDM,2,2,1,A,88888888880,2*25";
    assert!(matches!(it.next_from_line(first), NmeaStep::NeedMore));
    match it.next_from_line(second) {
        NmeaStep::Message(Message::StaticAndVoyageData(m)) => {
            assert_eq!(m.shipname, "EVER DIADEM")
        },
        other => panic!("unexpected {:?}", other),
    }
}

#[test]
fn nmea_lines_report_errors_and_stop() {
    let mut it = NmeaIterator::new();
    match it.next_from_line("!AIVDM,1,1,,B,177KQJ5000G?tO`K>RA1wUbN0TKH,0*FF") {
        NmeaStep::Error(e) => assert_eq!(e, NmeaError::InvalidChecksum),
        other => panic!("unexpected {:?}", other),
    }
    // a type 13 message is not decoded: the stream stops there
    match it.next_from_line("!AIVDM,1,1,,A,=39UOj0jFs9R,0*65") {
        NmeaStep::Stop => {},
        other => panic!("unexpected {:?}", other),
    }
}

#[test]
fn timestamped_line_is_split() {
    let line = "\\s:2573485,c:1734093291*09\\!BSVDM,1,1,,A,13mJ8k0P00PHo@hPUeeP0?w<28Rl,0*6F";
    let (serial, timestamp, sentence) = parse_timestamped_line(line).unwrap();
    assert_eq!(serial, 2573485);
    assert_eq!(timestamp, 1734093291);
    assert_eq!(sentence, "!BSVDM,1,1,,A,13mJ8k0P00PHo@hPUeeP0?w<28Rl,0*6F");
}

#[test]
fn timestamped_line_errors() {
    assert_eq!(
        parse_timestamped_line("!AIVDM,1,1,,A,13mJ8k0P00PHo@hPUeeP0?w<28Rl,0*6F"),
        Err(TimestampError::MissingSentence)
    );
    assert_eq!(
        parse_timestamped_line("\\x:1,c:2*00\\!AIVDM"),
        Err(TimestampError::MissingSerialPrefix)
    );
    assert_eq!(
        parse_timestamped_line("\\s:1,c:2\\!AIVDM"),
        Err(TimestampError::MissingChecksum)
    );
    assert_eq!(
        parse_timestamped_line("\\s:1*00\\!AIVDM"),
        Err(TimestampError::WrongFields)
    );
    assert_eq!(
        parse_timestamped_line("\\s:x1,c:2*00\\!AIVDM"),
        Err(TimestampError::InvalidSerial)
    );
    assert_eq!(
        parse_timestamped_line("\\s:1,t:2*00\\!AIVDM"),
        Err(TimestampError::MissingTimestampPrefix)
    );
    assert_eq!(
        parse_timestamped_line("\\s:1,c:99999999999999999999*00\\!AIVDM"),
        Err(TimestampError::InvalidTimestamp)
    );
    assert_eq!(
        TimestampError::MissingSentence.message(),
        "Invalid timestamped format: missing \\!"
    );
    assert_eq!(TimestampError::InvalidTimestamp.message(), "Invalid timestamp");
}

#[test]
fn timestamped_stream_gives_binary_messages() {
    let mut it = TimestampedNmeaIterator::new();
    match it.next_from_line("garbage") {
        TimestampedStep::Skipped(e) => assert_eq!(e, TimestampError::MissingSentence),
        other => panic!("unexpected {:?}", other),
    }
    let line = "\\s:7,c:1700000000*00\\!AIVDM,1,1,,B,15M67FC000G?ufbE`FepT@3n00Sa,0*5C";
    assert!(it.accepts_line(line));
    match it.next_from_line(line) {
        TimestampedStep::Message(m) => {
            assert_eq!(m.serial, 7);
            assert_eq!(m.timestamp, 1700000000);
            assert_eq!(m.binary_data.len(), 21);
            match m.decode() {
                Some(Message::PositionReport1(p)) => assert_eq!(p.mmsi, 366053209),
                other => panic!("unexpected {:?}", other),
            }
        },
        other => panic!("unexpected {:?}", other),
    }
}

#[test]
fn iq_sample_sizes() {
    assert_eq!(IqFormat::Cu8.bytes_per_sample(), 2);
    assert_eq!(IqFormat::Cs8.bytes_per_sample(), 2);
    assert_eq!(IqFormat::Cs16.bytes_per_sample(), 4);
    assert_eq!(IqFormat::Cf32.bytes_per_sample(), 8);
}

#[test]
fn eta_fields_unpack_month_day_hour_minute() {
    let eta = (5u32 << 16) | (17 << 11) | (8 << 6) | 30;
    assert_eq!(
        eta_fields(eta),
        Eta { month: Some(5), day: Some(17), hour: Some(8), minute: Some(30) }
    );
    // bits above the month are not part of it
    assert_eq!(eta_fields(eta | 0xF0_0000).month, Some(5));
}

#[test]
fn eta_fields_not_available() {
    let eta = (0u32 << 16) | (0 << 11) | (24 << 6) | 60;
    assert_eq!(eta_fields(eta), Eta { month: None, day: None, hour: None, minute: None });
}
