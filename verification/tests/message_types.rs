use rs162::decode::ais::{
    AddressedSafetyMessage, AidToNavigationReport, AssignmentModeCommand, BaseStationTimeReport,
    BinaryAcknowledge, BinaryAddressedMessage, BinaryBroadcastMessage, ChannelManagement,
    ClassBPositionReport, DataLinkManagementMessage, DgnssBroadcastMessage, EpfdType,
    ExtendedClassBPositionReport, GroupAssignmentCommand, InlandLoadedType, Interrogation,
    LongRangeAisBroadcastMessage, ManeuverIndicator, NavAid, NavigationStatus, PositionReport,
    SafetyBroadcastMessage, SarAircraftPositionReport, ShipType, StaticAndVoyageData,
    StaticDataReport, StationType, Timestamp, TransmitMode, UtcDateInquiry,
};
use rs162::decode::ais::SingleSlotBinaryMessage;
use rs162::decode::nmea::{MessageAssembler, NmeaAisMessage};

fn binary(sentence: &str) -> Vec<u8> {
    NmeaAisMessage::parse(sentence).unwrap().payload_to_binary().unwrap()
}

fn binary2(sentence1: &str, sentence2: &str) -> Vec<u8> {
    let messages = vec![
        NmeaAisMessage::parse(sentence1).unwrap(),
        NmeaAisMessage::parse(sentence2).unwrap(),
    ];
    MessageAssembler::assemble_from_iterable(messages).unwrap()
}

/// Degrees from 1/10000 minute.
fn degrees(raw: i32) -> f64 {
    raw as f64 / 600000.0
}

fn knots(raw: u16) -> f32 {
    raw as f32 / 10.0
}

#[test]
fn test_msg_type_1_a() {
    let result =
        PositionReport::from_bytes(&binary("!AIVDM,1,1,,B,15M67FC000G?ufbE`FepT@3n00Sa,0*5C")).unwrap();

    assert_eq!(result.msg_type, 1);
    assert_eq!(result.repeat, 0);
    assert_eq!(result.mmsi, 366053209);
    assert_eq!(result.status, NavigationStatus::RestrictedManoeuverability);
    assert_eq!(result.turn, Some(0));
    assert_eq!(result.speed.map(knots), Some(0.0));
    assert!(!result.accuracy);
    assert!((degrees(result.longitude.unwrap()) - (-122.341618)).abs() < 0.000001);
    assert!((degrees(result.latitude.unwrap()) - 37.802118).abs() < 0.000001);
    assert!((knots(result.course.unwrap()) - 219.3).abs() < 0.1);
    assert_eq!(result.heading, Some(1));
    assert_eq!(result.second, Timestamp::Second(59));
    assert_eq!(result.maneuver, ManeuverIndicator::NotAvailable);
    assert!(!result.raim);
    assert_eq!(result.radio, 2281);
}

#[test]
fn test_msg_type_1_b() {
    let msg =
        PositionReport::from_bytes(&binary("!AIVDM,1,1,,A,15NPOOPP00o?b=bE`UNv4?w428D;,0*24")).unwrap();

    assert_eq!(msg.msg_type, 1);
    assert_eq!(msg.mmsi, 367533950);
    assert_eq!(msg.repeat, 0);
    assert_eq!(msg.status, NavigationStatus::UnderWayUsingEngine);
    assert_eq!(msg.turn, None);
    assert_eq!(msg.speed.map(knots), Some(0.0));
    assert!(msg.accuracy);
    assert!((degrees(msg.latitude.unwrap()) - 37.8084).abs() < 0.0001);
    assert!((degrees(msg.longitude.unwrap()) - (-122.4082)).abs() < 0.0001);
    assert_eq!(msg.course, None);
    assert_eq!(msg.heading, None);
    assert_eq!(msg.second, Timestamp::Second(34));
    assert_eq!(msg.maneuver, ManeuverIndicator::NotAvailable);
    assert!(msg.raim);
}

#[test]
fn test_msg_type_1_c() {
    let msg =
        PositionReport::from_bytes(&binary("!AIVDM,1,1,,B,181:Kjh01ewHFRPDK1s3IRcn06sd,0*08")).unwrap();

    assert_eq!(msg.course.map(knots), Some(87.0));
    assert_eq!(msg.mmsi, 538090443);
    assert_eq!(msg.speed.map(knots), Some(10.9));
    assert_eq!(msg.turn, Some(0));
}

#[test]
fn test_decode_pos_1_2_3() {
    let msg =
        PositionReport::from_bytes(&binary("!AIVDM,1,1,,B,0S9edj0P03PecbBN`ja@0?w42cFC,0*7C")).unwrap();

    assert_eq!(msg.repeat, 2);
    assert_eq!(msg.mmsi, 211512520);
    assert_eq!(msg.turn, None);
    assert_eq!(msg.speed.map(knots), Some(0.3));
    assert!((degrees(msg.latitude.unwrap()) - 53.5427).abs() < 0.0001);
    assert!((degrees(msg.longitude.unwrap()) - 9.9794).abs() < 0.0001);
    assert!((knots(msg.course.unwrap()) - 0.0).abs() < 0.1);
}

#[test]
fn test_msg_type_3() {
    let msg =
        PositionReport::from_bytes(&binary("!AIVDM,1,1,,A,35NSH95001G?wopE`beasVk@0E5:,0*6F")).unwrap();

    assert_eq!(msg.msg_type, 3);
    assert_eq!(msg.mmsi, 367581220);
    assert_eq!(msg.repeat, 0);
    assert_eq!(msg.status, NavigationStatus::Moored);
    assert_eq!(msg.turn, Some(0));
    assert_eq!(msg.speed.map(knots), Some(0.1));
    assert!(!msg.accuracy);
    assert!((degrees(msg.latitude.unwrap()) - 37.8107).abs() < 0.0001);
    assert!((degrees(msg.longitude.unwrap()) - (-122.3343)).abs() < 0.0001);
    assert!((knots(msg.course.unwrap()) - 254.2).abs() < 0.1);
    assert_eq!(msg.heading, Some(217));
    assert_eq!(msg.second, Timestamp::Second(40));
    assert_eq!(msg.maneuver, ManeuverIndicator::NotAvailable);
    assert!(!msg.raim);
}

#[test]
fn position_report_too_short_is_incomplete() {
    let bytes = binary("!AIVDM,1,1,,B,15M67FC000G?ufbE`FepT@3n00Sa,0*5C");
    let r = PositionReport::from_bytes(&bytes[..20]);
    assert_eq!(r, Err(rs162::decode::ais::reader::DecodeError::Incomplete));
}

#[test]
fn test_msg_type_4_a() {
    let msg = BaseStationTimeReport::from_bytes(&binary(
        "!AIVDM,1,1,,A,403OviQuMGCqWrRO9>E6fE700@GO,0*4D",
    ))
    .unwrap();
    assert!((degrees(msg.longitude.unwrap()) - (-76.352362)).abs() < 0.000001);
    assert!((degrees(msg.latitude.unwrap()) - 36.883767).abs() < 0.000001);
    assert!(msg.accuracy);
    assert_eq!(msg.year, Some(2007));
    assert_eq!(msg.month, Some(5));
    assert_eq!(msg.day, Some(14));
    assert_eq!(msg.minute, Some(57));
    assert_eq!(msg.second, Some(39));
}

#[test]
fn test_msg_type_4_b() {
    let msg = BaseStationTimeReport::from_bytes(&binary(
        "!AIVDM,1,1,,B,403OtVAv>lba;o?Ia`E`4G?02H6k,0*44",
    ))
    .unwrap();
    assert!((degrees(msg.longitude.unwrap()) - (-122.4648)).abs() < 0.0001);
    assert!((degrees(msg.latitude.unwrap()) - 37.7943).abs() < 0.0001);
    assert_eq!(msg.mmsi, 3669145);
    assert!(msg.accuracy);
    assert_eq!(msg.year, Some(2019));
    assert_eq!(msg.month, Some(11));
    assert_eq!(msg.day, Some(9));
    assert_eq!(msg.hour, Some(10));
    assert_eq!(msg.minute, Some(41));
    assert_eq!(msg.second, Some(11));
    assert_eq!(msg.epfd, EpfdType::InternalGnss);
    assert_eq!(msg.epfd.to_bits(), 15);
}

#[test]
fn test_msg_type_11() {
    let msg = BaseStationTimeReport::from_bytes(&binary(
        "!AIVDM,1,1,,B,;4R33:1uUK2F`q?mOt@@GoQ00000,0*5D",
    ))
    .unwrap();
    assert!((degrees(msg.longitude.unwrap()) - (-94.4077)).abs() < 0.0001);
    assert!((degrees(msg.latitude.unwrap()) - 28.4091).abs() < 0.0001);
    assert!(msg.accuracy);
    assert_eq!(msg.msg_type, 11);
    assert_eq!(msg.year, Some(2009));
    assert_eq!(msg.month, Some(5));
    assert_eq!(msg.day, Some(22));
    assert_eq!(msg.hour, Some(2));
    assert_eq!(msg.minute, Some(22));
    assert_eq!(msg.second, Some(40));
}

#[test]
fn test_msg_type_4_and_11_compatibility() {
    let type4_msg = BaseStationTimeReport::from_bytes(&binary(
        "!AIVDM,1,1,,A,403OviQuMGCqWrRO9>E6fE700@GO,0*4D",
    ))
    .unwrap();
    let type11_msg = BaseStationTimeReport::from_bytes(&binary(
        "!AIVDM,1,1,,B,;4R33:1uUK2F`q?mOt@@GoQ00000,0*5D",
    ))
    .unwrap();
    assert_eq!(type4_msg.msg_type, 4);
    assert_eq!(type11_msg.msg_type, 11);
    assert!(type4_msg.year.is_some());
    assert!(type11_msg.year.is_some());
}

#[test]
fn base_station_spare_must_be_zero() {
    let mut bytes = binary("!AIVDM,1,1,,A,403OviQuMGCqWrRO9>E6fE700@GO,0*4D");
    // the 10 spare bits start at bit 138: set the last of them (bit 147)
    bytes[18] |= 0x10;
    assert_eq!(
        BaseStationTimeReport::from_bytes(&bytes),
        Err(rs162::decode::ais::reader::DecodeError::Assertion)
    );
}

#[test]
fn test_msg_type_5() {
    let msg = StaticAndVoyageData::from_bytes(&binary2(
        "!AIVDM,2,1,1,A,55?MbV02;H;s<HtKR20EHE:0@T4@Dn2222222216L961O5Gf0NSQEp6ClRp8,0*1C",
        "!AIVDM,2,2,1,A,88888888880,2*25",
    ))
    .unwrap();
    assert_eq!(msg.callsign, "3FOF8");
    assert_eq!(msg.shipname, "EVER DIADEM");
    assert_eq!(msg.ship_type, ShipType::Cargo);
    assert_eq!(msg.to_bow, 225);
    assert_eq!(msg.to_stern, 70);
    assert_eq!(msg.to_port, 1);
    assert_eq!(msg.to_starboard, 31);
    assert!((msg.draught as f32 / 10.0 - 12.2).abs() < 0.1);
    assert_eq!(msg.destination, "NEW YORK");
    assert!(!msg.dte);
    assert_eq!(msg.epfd, EpfdType::Gps);
    assert_eq!(msg.msg_type, 5);
    assert_eq!(msg.repeat, 0);
}

#[test]
fn test_msg_type_6() {
    let msg =
        BinaryAddressedMessage::from_bytes(&binary("!AIVDM,1,1,,B,6B?n;be:cbapalgc;i6?Ow4,2*4A"))
            .unwrap();
    assert_eq!(msg.seqno, 3);
    assert_eq!(msg.dest_mmsi, 313240222);
    assert_eq!(msg.mmsi, 150834090);
    assert_eq!(msg.dac, 669);
    assert_eq!(msg.fid, 11);
    assert!(!msg.retransmit);
    assert_eq!(msg.data, vec![0xeb, 0x2f, 0x11, 0x8f, 0x7f, 0xf1]);
    assert_eq!(msg.msg_type, 6);
    assert_eq!(msg.repeat, 1);
}

#[test]
fn test_msg_type_7() {
    let msg = BinaryAcknowledge::from_bytes(&binary("!AIVDM,1,1,,A,702R5`hwCjq8,0*6B")).unwrap();
    assert_eq!(msg.mmsi, 2655651);
    assert_eq!(msg.msg_type, 7);
    assert_eq!(msg.mmsi1, 265538450);
    assert_eq!(msg.mmsiseq1, 0);
    assert_eq!(msg.mmsi2, None);
    assert_eq!(msg.mmsiseq2, None);
    assert_eq!(msg.mmsi3, None);
    assert_eq!(msg.mmsiseq3, None);
    assert_eq!(msg.mmsi4, None);
    assert_eq!(msg.mmsiseq4, None);
}

#[test]
fn test_msg_type_13() {
    let msg = BinaryAcknowledge::from_bytes(&binary("!AIVDM,1,1,,A,=39UOj0jFs9R,0*65")).unwrap();
    assert_eq!(msg.msg_type, 13);
    assert_eq!(msg.repeat, 0);
    assert_eq!(msg.mmsi, 211378120);
    assert_eq!(msg.mmsi1, 211217560);
    assert_eq!(msg.mmsi2, None);
    assert_eq!(msg.mmsi3, None);
    assert_eq!(msg.mmsi4, None);
}

#[test]
fn acknowledge_second_station() {
    // after the 72 bits of the first station, a second one (30 + 2 bits)
    let mut bytes = binary("!AIVDM,1,1,,A,702R5`hwCjq8,0*6B");
    bytes.extend_from_slice(&[0x00, 0x00, 0x00, 0x7C, 0xC0]);
    let msg = BinaryAcknowledge::from_bytes(&bytes).unwrap();
    assert_eq!(msg.mmsi2, Some(31));
    assert_eq!(msg.mmsiseq2, Some(0));
    assert_eq!(msg.mmsi3, None);
    assert_eq!(msg.mmsiseq3, None);
    assert_eq!(msg.mmsi4, None);
    assert_eq!(msg.mmsiseq4, None);
}

#[test]
fn interrogation_read_after_a_failed_read() {
    // 128 bits: the second station's MMSI (bits 110-139) does not fit, yet
    // the last spare field (2 bits) is still read from the bits left in the
    // current byte
    let mut bytes = binary("!AIVDM,1,1,,A,?5OP=l00052HD00,2*5B");
    assert_eq!(bytes.len(), 11);
    bytes.extend_from_slice(&[0x00, 0x00, 0x03, 0x00, 0x00]);
    let msg = Interrogation::from_bytes(&bytes).unwrap();
    assert_eq!(msg.spare_2, Some(0));
    assert_eq!(msg.type1_2, Some(0));
    assert_eq!(msg.offset1_2, Some(0));
    assert_eq!(msg.spare_3, Some(0));
    assert_eq!(msg.mmsi2, None);
    assert_eq!(msg.type2_1, None);
    assert_eq!(msg.offset2_1, None);
    assert_eq!(msg.spare_4, Some(3));
}

#[test]
fn test_msg_type_8() {
    let decoded = BinaryBroadcastMessage::from_bytes(&binary(
        "!AIVDM,1,1,,A,85Mwp`1Kf3aCnsNvBWLi=wQuNhA5t43N`5nCuI=p<IBfVqnMgPGs,0*47",
    ))
    .unwrap();
    if let BinaryBroadcastMessage::Default(msg) = decoded {
        assert_eq!(msg.repeat, 0);
        assert_eq!(msg.mmsi, 366999712);
        assert_eq!(msg.dac, 366);
        assert_eq!(msg.fid, 56);
        assert!(!msg.data.is_empty());
    } else {
        panic!("Expected default variant");
    }
}

#[test]
fn test_msg_type_8_inland() {
    let decoded = BinaryBroadcastMessage::from_bytes(&binary(
        "!BSVDM,1,1,,B,83m;Fa0j2d<<<<<<<0@pUg`50000,0*11",
    ))
    .unwrap();
    if let BinaryBroadcastMessage::Inland(msg) = decoded {
        assert_eq!(msg.repeat, 0);
        assert_eq!(msg.mmsi, 257087140);
        assert_eq!(msg.dac, 200);
        assert_eq!(msg.fid, 10);
        assert_eq!(msg.beam as f32 / 10.0, 7.5);
    } else {
        panic!("Expected inland variant");
    }
}

#[test]
fn test_msg_type_8_inland_2() {
    let decoded = BinaryBroadcastMessage::from_bytes(&binary(
        "!AIVDO,1,1,,A,85M67F@j2U=7EW=RAkQkBDITMV=e,0*51",
    ))
    .unwrap();
    if let BinaryBroadcastMessage::Inland(msg) = decoded {
        assert_eq!(msg.mmsi, 366053209);
        assert_eq!(msg.dac, 200);
        assert_eq!(msg.fid, 10);
        assert!((msg.length as f64 / 10.0 - 180.6).abs() < 0.01);
        assert!((msg.beam as f64 / 10.0 - 42.0).abs() < 0.01);
        assert_eq!(msg.loaded, InlandLoadedType::NotAvailable);
    } else {
        panic!("Expected inland variant");
    }
}

#[test]
fn test_msg_type_9() {
    let msg = SarAircraftPositionReport::from_bytes(&binary(
        "!AIVDM,1,1,,B,91b55wi;hbOS@OdQAC062Ch2089h,0*30",
    ))
    .unwrap();
    assert_eq!(msg.msg_type, 9);
    assert_eq!(msg.repeat, 0);
    assert_eq!(msg.mmsi, 111232511);
    assert_eq!(msg.alt, Some(303));
    assert_eq!(msg.speed, Some(42));
    assert!(!msg.accuracy);
    assert!((degrees(msg.longitude.unwrap()) - (-6.27884)).abs() < 0.00001);
    assert!((degrees(msg.latitude.unwrap()) - 58.144).abs() < 0.001);
    assert!((knots(msg.course.unwrap()) - 154.5).abs() < 0.1);
    assert_eq!(msg.second, Timestamp::Second(15));
    assert!(msg.dte);
    assert_eq!(msg.radio, 33392);
    assert!(!msg.raim);
}

#[test]
fn test_msg_type_10_a() {
    let msg = UtcDateInquiry::from_bytes(&binary("!AIVDM,1,1,,B,:5MlU41GMK6@,0*6C")).unwrap();
    assert_eq!(msg.dest_mmsi, 366832740);
    assert_eq!(msg.repeat, 0);
    assert_eq!(msg.msg_type, 10);
}

#[test]
fn test_msg_type_10_b() {
    let msg = UtcDateInquiry::from_bytes(&binary("!AIVDM,1,1,,B,:6TMCD1GOS60,0*5B")).unwrap();
    assert_eq!(msg.dest_mmsi, 366972000);
    assert_eq!(msg.repeat, 0);
    assert_eq!(msg.msg_type, 10);
}

#[test]
fn test_msg_type_12_a() {
    let msg =
        AddressedSafetyMessage::from_bytes(&binary("!AIVDM,1,1,,A,<5?SIj1;GbD07??4,0*38")).unwrap();
    assert_eq!(msg.msg_type, 12);
    assert_eq!(msg.repeat, 0);
    assert_eq!(msg.mmsi, 351853000);
    assert_eq!(msg.seqno, 0);
    assert_eq!(msg.dest_mmsi, 316123456);
    assert!(!msg.retransmit);
    assert_eq!(msg.text, "GOOD");
}

#[test]
fn test_msg_type_12_b() {
    let msg = AddressedSafetyMessage::from_bytes(&binary(
        "!AIVDM,1,1,,A,<42Lati0W:Ov=C7P6B?=Pjoihhjhqq0,2*2B",
    ))
    .unwrap();
    assert_eq!(msg.msg_type, 12);
    assert_eq!(msg.repeat, 0);
    assert_eq!(msg.mmsi, 271002099);
    assert_eq!(msg.seqno, 0);
    assert_eq!(msg.dest_mmsi, 271002111);
    assert!(msg.retransmit);
}

#[test]
fn test_msg_type_14() {
    let msg = SafetyBroadcastMessage::from_bytes(&binary(
        "!AIVDM,1,1,,A,>5?Per18=HB1U:1@E=B0m<L,2*51",
    ))
    .unwrap();
    assert_eq!(msg.msg_type, 14);
    assert_eq!(msg.repeat, 0);
    assert_eq!(msg.mmsi, 351809000);
    assert_eq!(msg.text, "RCVD YR TEST MSG");
}

#[test]
fn test_msg_type_15_a() {
    let msg = Interrogation::from_bytes(&binary("!AIVDM,1,1,,A,?5OP=l00052HD00,2*5B")).unwrap();
    assert_eq!(msg.msg_type, 15);
    assert_eq!(msg.repeat, 0);
    assert_eq!(msg.mmsi, 368578000);
    assert_eq!(msg.offset1_1, 0);
    assert_eq!(msg.mmsi1, 5158);
    assert_eq!(msg.offset1_2, None);
    assert_eq!(msg.mmsi2, None);
}

#[test]
fn test_msg_type_15_b() {
    let msg = Interrogation::from_bytes(&binary("!AIVDM,1,1,,B,?h3Ovn1GP<K0<P@59a0,2*04")).unwrap();
    assert_eq!(msg.msg_type, 15);
    assert_eq!(msg.repeat, 3);
    assert_eq!(msg.mmsi, 3669720);
    assert_eq!(msg.mmsi1, 367014320);
    assert_eq!(msg.mmsi2, None);
    assert_eq!(msg.type1_1, 3);
    assert_eq!(msg.type1_2, Some(5));
    assert_eq!(msg.offset1_1, 516);
}

#[test]
fn test_msg_type_16_short() {
    let msg =
        AssignmentModeCommand::from_bytes(&binary("!AIVDM,1,1,,A,@01uEO@mMk7P<P00,0*18")).unwrap();
    if let AssignmentModeCommand::Single(msg) = msg {
        assert_eq!(msg.msg_type, 16);
        assert_eq!(msg.repeat, 0);
        assert_eq!(msg.mmsi, 2053501);
        assert_eq!(msg.mmsi1, 224251000);
        assert_eq!(msg.offset1, 200);
        assert_eq!(msg.increment1, 0);
    } else {
        panic!("Expected single station variant");
    }
}

#[test]
fn test_msg_type_16_long() {
    let msg = AssignmentModeCommand::from_bytes(&binary(
        "!AIVDO,1,1,,A,@@07Ql@01Qat005h0gN<@00e,0*46",
    ))
    .unwrap();
    if let AssignmentModeCommand::Double(msg) = msg {
        assert_eq!(msg.msg_type, 16);
        assert_eq!(msg.repeat, 1);
        assert_eq!(msg.mmsi, 123345);
        assert_eq!(msg.mmsi1, 99999);
        assert_eq!(msg.offset1, 0);
        assert_eq!(msg.increment1, 23);
        assert_eq!(msg.mmsi2, 777777);
        assert_eq!(msg.offset2, 0);
        assert_eq!(msg.increment2, 45);
    } else {
        panic!("Expected double station variant");
    }
}

#[test]
fn test_msg_type_16_types() {
    let short =
        AssignmentModeCommand::from_bytes(&binary("!AIVDM,1,1,,A,@01uEO@mMk7P<P00,0*18")).unwrap();
    let long = AssignmentModeCommand::from_bytes(&binary(
        "!AIVDO,1,1,,A,@@07Ql@01Qat005h0gN<@00e,0*46",
    ))
    .unwrap();

    assert!(matches!(short, AssignmentModeCommand::Single(_)));
    assert!(matches!(long, AssignmentModeCommand::Double(_)));

    assert_eq!(short.mmsi(), 2053501);
    assert_eq!(long.mmsi(), 123345);

    if let AssignmentModeCommand::Single(single_msg) = short {
        assert_eq!(single_msg.mmsi1, 224251000);
    }

    if let AssignmentModeCommand::Double(double_msg) = long {
        assert_eq!(double_msg.mmsi1, 99999);
        assert_eq!(double_msg.mmsi2, 777777);
    }
}

#[test]
fn test_msg_type_17_a() {
    let msg = DgnssBroadcastMessage::from_bytes(&binary2(
        "!AIVDM,2,1,5,A,A02VqLPA4I6C07h5Ed1h<OrsuBTTwS?r:C?w`?la<gno1RTRwSP9:BcurA8a,0*3A",
        "!AIVDM,2,2,5,A,:Oko02TSwu8<:Jbb,0*11",
    ))
    .unwrap();
    assert_eq!(msg.msg_type, 17);
    assert_eq!(msg.repeat, 0);
    assert_eq!(msg.mmsi, 2734450);
    assert!((msg.longitude as f64 / 10.0 - 1747.8).abs() < 0.1);
    assert!((msg.latitude as f64 / 10.0 - 3599.2).abs() < 0.1);
    assert!(!msg.data.is_empty());
}

#[test]
fn test_msg_type_17_b() {
    let msg = DgnssBroadcastMessage::from_bytes(&binary(
        "!AIVDM,1,1,,A,A0476BQ>J8`<h2JpH:4P0?j@2mTEw8`=DP1DEnqvj0,0*79",
    ))
    .unwrap();
    assert_eq!(msg.msg_type, 17);
    assert_eq!(msg.repeat, 0);
    assert_eq!(msg.mmsi, 4310602);
    assert!((msg.latitude as f64 / 10.0 - 2058.2).abs() < 0.1);
    assert!((msg.longitude as f64 / 10.0 - 8029.0).abs() < 0.1);
    assert!(!msg.data.is_empty());
}

#[test]
fn test_msg_type_18() {
    let msg = ClassBPositionReport::from_bytes(&binary(
        "!AIVDM,1,1,,A,B5NJ;PP005l4ot5Isbl03wsUkP06,0*76",
    ))
    .unwrap();
    assert_eq!(msg.msg_type, 18);
    assert_eq!(msg.mmsi, 367430530);
    assert_eq!(msg.speed.map(knots), Some(0.0));
    assert!(!msg.accuracy);
    assert!((degrees(msg.lat.unwrap()) - 37.79).abs() < 0.01);
    assert!((degrees(msg.lon.unwrap()) - (-122.27)).abs() < 0.01);
    assert_eq!(msg.course.map(knots), Some(0.0));
    assert_eq!(msg.heading, 511);
    assert_eq!(msg.second, 55);
    assert_eq!(msg.reserved_2, 0);
    assert!(msg.cs);
    assert!(!msg.display);
    assert!(msg.dsc);
    assert!(msg.band);
    assert!(msg.msg22);
    assert!(!msg.assigned);
    assert!(!msg.raim);
}

#[test]
fn test_msg_type_18_speed() {
    let msg = ClassBPositionReport::from_bytes(&binary(
        "!AIVDO,1,1,,A,B5NJ;PP2aUl4ot5Isbl6GwsUkP06,0*35",
    ))
    .unwrap();
    assert!((knots(msg.speed.unwrap()) - 67.8).abs() < 0.1);
    assert!((knots(msg.course.unwrap()) - 10.1).abs() < 0.1);
}

#[test]
fn test_msg_type_19() {
    let msg = ExtendedClassBPositionReport::from_bytes(&binary(
        "!AIVDM,1,1,,B,C5N3SRgPEnJGEBT>NhWAwwo862PaLELTBJ:V00000000S0D:R220,0*0B",
    ))
    .unwrap();
    assert_eq!(msg.msg_type, 19);
    assert_eq!(msg.mmsi, 367059850);
    assert!((knots(msg.speed.unwrap()) - 8.7).abs() < 0.1);
    assert!(!msg.accuracy);
    assert!((degrees(msg.latitude.unwrap()) - 29.543695).abs() < 0.000001);
    assert!((degrees(msg.longitude.unwrap()) - (-88.810394)).abs() < 0.00001);
    assert!((knots(msg.course.unwrap()) - 335.9).abs() < 0.1);
    assert_eq!(msg.heading, 511);
    assert_eq!(msg.second, 46);
    assert_eq!(msg.shipname, "CAPT.J.RIMES");
    assert_eq!(msg.ship_type, ShipType::Cargo);
    assert_eq!(msg.to_bow, 5);
    assert_eq!(msg.to_stern, 21);
    assert_eq!(msg.to_port, 4);
    assert_eq!(msg.to_starboard, 4);
    assert_eq!(msg.epfd, EpfdType::Gps);
    assert!(!msg.dte);
    assert!(!msg.assigned);
}

#[test]
fn test_msg_type_20() {
    let msg = DataLinkManagementMessage::from_bytes(&binary(
        "!AIVDM,1,1,,A,D028rqP<QNfp000000000000000,2*0C",
    ))
    .unwrap();
    assert_eq!(msg.msg_type, 20);
    assert_eq!(msg.mmsi, 2243302);
    assert_eq!(msg.offset1, 200);
    assert_eq!(msg.number1, 5);
    assert_eq!(msg.timeout1, 7);
    assert_eq!(msg.increment1, 750);
    assert_eq!(msg.spare_1, 0);
    assert_eq!(msg.offset2, Some(0));
    assert_eq!(msg.number2, Some(0));
    assert_eq!(msg.timeout2, Some(0));
    assert_eq!(msg.increment2, Some(0));
    assert_eq!(msg.offset3, Some(0));
    assert_eq!(msg.number3, Some(0));
    assert_eq!(msg.timeout3, Some(0));
    assert_eq!(msg.increment3, Some(0));
    assert_eq!(msg.offset4, Some(0));
    assert_eq!(msg.number4, Some(0));
    assert_eq!(msg.timeout4, Some(0));
    assert_eq!(msg.increment4, Some(0));
}

#[test]
fn test_msg_type_21() {
    let msg = AidToNavigationReport::from_bytes(&binary2(
        "!AIVDM,2,1,7,B,E4eHJhPR37q0000000000000000KUOSc=rq4h00000a,0*4A",
        "!AIVDM,2,2,7,B,@20,4*54",
    ))
    .unwrap();
    assert_eq!(msg.msg_type, 21);
    assert_eq!(msg.mmsi, 316021442);
    assert_eq!(msg.aid_type, NavAid::ReferencePoint);
    assert_eq!(msg.name, "DFO2");
    assert!(msg.accuracy);
    assert!((degrees(msg.latitude.unwrap()) - 48.65457).abs() < 0.00001);
    assert!((degrees(msg.longitude.unwrap()) - (-123.429155)).abs() < 0.000001);
    assert_eq!(msg.to_bow, 0);
    assert_eq!(msg.to_stern, 0);
    assert_eq!(msg.to_port, 0);
    assert_eq!(msg.to_starboard, 0);
    assert!(msg.off_position);
    assert_eq!(msg.reserved_1, 0);
    assert!(msg.raim);
    assert!(!msg.virtual_aid);
    assert!(!msg.assigned);
    assert_eq!(msg.name_ext, None);
    assert_eq!(msg.epfd, EpfdType::Gps);
}

#[test]
fn test_full_name() {
    let msg = AidToNavigationReport::from_bytes(&binary2(
        "!AIVDM,2,1,7,B,E4eHJhPR37q0000000000000000KUOSc=rq4h00000a,0*4A",
        "!AIVDM,2,2,7,B,@20,4*54",
    ))
    .unwrap();
    assert_eq!(msg.full_name(), "DFO2");
}

#[test]
fn test_msg_type_22_broadcast() {
    let msg = ChannelManagement::from_bytes(&binary(
        "!AIVDM,1,1,,B,F030p:j2N2P5aJR0r;6f3rj10000,0*11",
    ))
    .unwrap();
    if let ChannelManagement::Broadcast(msg) = msg {
        assert_eq!(msg.msg_type, 22);
        assert_eq!(msg.mmsi, 3160107);
        assert_eq!(msg.channel_a, 2087);
        assert_eq!(msg.channel_b, 2088);
        assert_eq!(msg.txrx, 0);
        assert!(!msg.power);
        assert_eq!(msg.ne_lon as f64 / 10.0, -7710.0);
        assert_eq!(msg.ne_lat as f64 / 10.0, 3300.0);
        assert_eq!(msg.sw_lon as f64 / 10.0, -8020.0);
        assert_eq!(msg.sw_lat as f64 / 10.0, 3210.0);
        assert!(!msg.addressed);
        assert!(!msg.band_a);
        assert!(!msg.band_b);
        assert_eq!(msg.zonesize, 2);
    } else {
        panic!("Expected broadcast variant");
    }
}

#[test]
fn test_msg_type_23() {
    let msg = GroupAssignmentCommand::from_bytes(&binary(
        "!AIVDM,1,1,,B,G02:Kn01R`sn@291nj600000900,2*12",
    ))
    .unwrap();
    assert_eq!(msg.msg_type, 23);
    assert_eq!(msg.mmsi, 2268120);
    assert_eq!(msg.ne_lon as f64 / 10.0, 157.8);
    assert_eq!(msg.ship_type, ShipType::NotAvailable);
    assert_eq!(msg.ne_lat as f64 / 10.0, 3064.2);
    assert_eq!(msg.sw_lon as f64 / 10.0, 109.6);
    assert_eq!(msg.sw_lat as f64 / 10.0, 3040.8);
    assert_eq!(msg.station_type, StationType::Regional);
    assert_eq!(msg.txrx, TransmitMode::TxATxBRxARxB);
    assert_eq!(msg.interval.to_bits(), 9);
    assert_eq!(msg.quiet, 0);
}

#[test]
fn test_msg_type_24() {
    let msg =
        StaticDataReport::from_bytes(&binary("!AIVDM,1,1,,A,H52KMeDU653hhhi0000000000000,0*1A"))
            .unwrap();
    if let StaticDataReport::PartB(msg) = msg {
        assert_eq!(msg.msg_type, 24);
        assert_eq!(msg.mmsi, 338091445);
        assert_eq!(msg.partno, 1);
        assert_eq!(msg.ship_type, ShipType::PleasureCraft);
        assert_eq!(msg.vendorid, "FEC");
        assert_eq!(msg.callsign, "");
        assert_eq!(msg.to_bow, 0);
        assert_eq!(msg.to_stern, 0);
        assert_eq!(msg.to_port, 0);
        assert_eq!(msg.to_starboard, 0);
        assert_eq!(msg.spare_1, 0);
    } else {
        panic!("Expected Part B variant");
    }
}

#[test]
fn test_msg_type_24_with_160_bits() {
    let msg = StaticDataReport::from_bytes(&binary(
        "!AIVDO,1,1,,A,H1mg=5@EP4m0hF1<PU000000000,2*77",
    ))
    .unwrap();
    if let StaticDataReport::PartA(msg) = msg {
        assert_eq!(msg.msg_type, 24);
        assert_eq!(msg.partno, 0);
        assert_eq!(msg.mmsi, 123456789);
        assert_eq!(msg.spare_1, None);
    } else {
        panic!("Expected Part A variant");
    }
}

#[test]
fn test_msg_type_24_with_168_bits() {
    let msg = StaticDataReport::from_bytes(&binary(
        "!AIVDO,1,1,,A,H1mg=5@EP4m0hF1<PU0000000000,0*45",
    ))
    .unwrap();
    if let StaticDataReport::PartA(msg) = msg {
        assert_eq!(msg.msg_type, 24);
        assert_eq!(msg.partno, 0);
        assert_eq!(msg.mmsi, 123456789);
        assert_eq!(msg.spare_1, Some(0));
    } else {
        panic!("Expected Part A variant");
    }
}

#[test]
fn static_data_report_bad_part_number() {
    let mut bytes = binary("!AIVDM,1,1,,A,H52KMeDU653hhhi0000000000000,0*1A");
    bytes[4] |= 0x03;
    assert_eq!(
        StaticDataReport::from_bytes(&bytes),
        Err(rs162::decode::ais::reader::DecodeError::InvalidPartNumber(3))
    );
}

#[test]
fn test_msg_type_27_signed() {
    let msg =
        LongRangeAisBroadcastMessage::from_bytes(&binary("!AIVDO,1,1,,A,K01;FQh?PbtE3P00,0*75"))
            .unwrap();
    assert_eq!(msg.mmsi, 1234567);
    assert!((msg.longitude.unwrap() as f64 / 600.0 - (-13.368333)).abs() < 0.000001);
    assert!((msg.latitude.unwrap() as f64 / 600.0 - (-50.121667)).abs() < 0.000001);
}

#[test]
fn test_msg_type_4_fields() {
    let msg = BaseStationTimeReport::from_bytes(&binary(
        "!AIVDM,1,1,,A,403OviQuMGCqWrRO9>E6fE700@GO,0*4D",
    ))
    .unwrap();
    assert_eq!(msg.msg_type, 4);
    assert_eq!(msg.repeat, 0);
    assert!(msg.mmsi > 0);
}

#[test]
fn test_msg_type_5_fields() {
    let msg = StaticAndVoyageData::from_bytes(&binary2(
        "!AIVDM,2,1,1,A,55?MbV02;H;s<HtKR20EHE:0@T4@Dn2222222216L961O5Gf0NSQEp6ClRp8,0*1C",
        "!AIVDM,2,2,1,A,88888888880,2*25",
    ))
    .unwrap();
    assert_eq!(msg.msg_type, 5);
    assert_eq!(msg.repeat, 0);
    assert!(msg.mmsi > 0);
    assert!(!msg.callsign.is_empty());
    assert!(!msg.shipname.is_empty());
}

#[test]
fn test_msg_type_6_fields() {
    let msg =
        BinaryAddressedMessage::from_bytes(&binary("!AIVDM,1,1,,B,6B?n;be:cbapalgc;i6?Ow4,2*4A")).unwrap();
    assert_eq!(msg.msg_type, 6);
    assert_eq!(msg.repeat, 1);
    assert!(msg.mmsi > 0);
    assert!(msg.dest_mmsi > 0);
    assert!(!msg.data.is_empty());
}

#[test]
fn test_msg_type_7_fields() {
    let msg = BinaryAcknowledge::from_bytes(&binary("!AIVDM,1,1,,A,702R5`hwCjq8,0*6B")).unwrap();
    assert_eq!(msg.msg_type, 7);
    assert_eq!(msg.repeat, 0);
    assert!(msg.mmsi > 0);
}

#[test]
fn test_msg_type_7_and_13_compatibility() {
    let type7_msg = BinaryAcknowledge::from_bytes(&binary("!AIVDM,1,1,,A,702R5`hwCjq8,0*6B")).unwrap();
    let type13_msg = BinaryAcknowledge::from_bytes(&binary("!AIVDM,1,1,,A,=39UOj0jFs9R,0*65")).unwrap();
    assert_eq!(type7_msg.msg_type, 7);
    assert_eq!(type13_msg.msg_type, 13);
    assert!(type7_msg.mmsi > 0);
    assert!(type13_msg.mmsi > 0);
}

#[test]
fn test_msg_type_9_fields() {
    let msg = SarAircraftPositionReport::from_bytes(&binary(
        "!AIVDM,1,1,,B,91b55wi;hbOS@OdQAC062Ch2089h,0*30",
    ))
    .unwrap();
    assert_eq!(msg.msg_type, 9);
    assert_eq!(msg.repeat, 0);
    assert!(msg.mmsi > 0);
}

#[test]
fn test_msg_type_10_fields() {
    let msg = UtcDateInquiry::from_bytes(&binary("!AIVDM,1,1,,B,:5MlU41GMK6@,0*6C")).unwrap();
    assert_eq!(msg.msg_type, 10);
    assert_eq!(msg.repeat, 0);
    assert!(msg.mmsi > 0);
    assert!(msg.dest_mmsi > 0);
}

#[test]
fn test_msg_type_12_fields() {
    let msg = AddressedSafetyMessage::from_bytes(&binary("!AIVDM,1,1,,A,<5?SIj1;GbD07??4,0*38")).unwrap();
    assert_eq!(msg.msg_type, 12);
    assert_eq!(msg.repeat, 0);
    assert!(msg.mmsi > 0);
    assert!(msg.dest_mmsi > 0);
    assert!(!msg.text.is_empty());
}

#[test]
fn test_msg_type_14_fields() {
    let msg =
        SafetyBroadcastMessage::from_bytes(&binary("!AIVDM,1,1,,A,>5?Per18=HB1U:1@E=B0m<L,2*51")).unwrap();
    assert_eq!(msg.msg_type, 14);
    assert_eq!(msg.repeat, 0);
    assert!(msg.mmsi > 0);
    assert!(!msg.text.is_empty());
}

#[test]
fn test_msg_type_15_fields() {
    let msg = Interrogation::from_bytes(&binary("!AIVDM,1,1,,A,?5OP=l00052HD00,2*5B")).unwrap();
    assert_eq!(msg.msg_type, 15);
    assert_eq!(msg.repeat, 0);
    assert!(msg.mmsi > 0);
    assert!(msg.mmsi1 > 0);
}

#[test]
fn channel_management_variant_follows_the_addressed_field() {
    let mut bytes = binary("!AIVDM,1,1,,B,F030p:j2N2P5aJR0r;6f3rj10000,0*11");
    // bit 139 is the addressed flag
    bytes[17] |= 0x10;
    match ChannelManagement::from_bytes(&bytes).unwrap() {
        ChannelManagement::Addressed(msg) => {
            assert!(msg.addressed);
            assert_eq!(msg.mmsi, 3160107);
        }
        other => panic!("Expected Addressed variant, got {:?}", other),
    }
}

#[test]
fn single_slot_variant_follows_bits_38_and_39() {
    let mut bytes = vec![0u8; 20];
    bytes[0] = 25 << 2;
    for (flags, addressed, structured) in [(0u8, false, false), (1, false, true), (2, true, false), (3, true, true)] {
        bytes[4] = flags;
        let msg = SingleSlotBinaryMessage::from_bytes(&bytes).unwrap();
        let (a, s) = match &msg {
            SingleSlotBinaryMessage::AddressedStructured(m) => {
                assert!(addressed && structured);
                (m.addressed, m.structured)
            }
            SingleSlotBinaryMessage::BroadcastStructured(m) => {
                assert!(!addressed && structured);
                (m.addressed, m.structured)
            }
            SingleSlotBinaryMessage::AddressedUnstructured(m) => {
                assert!(addressed && !structured);
                (m.addressed, m.structured)
            }
            SingleSlotBinaryMessage::BroadcastUnstructured(m) => {
                assert!(!addressed && !structured);
                (m.addressed, m.structured)
            }
        };
        assert_eq!((a, s), (addressed, structured));
    }
}
