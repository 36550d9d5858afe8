use rs162::decode::ais::Message;
use rs162::decode::mmsi::{MmsiInfo, MmsiType};
use rs162::decode::nmea::NmeaAisMessage;

#[test]
fn test_validate_mmsi_various_formats() {
    if MmsiInfo::from_mmsi(0).is_ok() {
        panic!("Expected Err for MMSI 0, got Ok");
    }
    if let Ok(info) = MmsiInfo::from_mmsi(227456789u32) {
        assert_eq!(info.country.country, "France");
        assert_eq!(info.mmsi_type, MmsiType::StandardShipStation);
    } else {
        panic!("Expected Ok for MMSI 227456789, got Err");
    }
    if let Ok(info) = MmsiInfo::from_mmsi(2270001u32) {
        assert_eq!(info.country.country, "France");
        assert_eq!(info.mmsi_type, MmsiType::CoastStation);
    } else {
        panic!("Expected Ok for MMSI 2270001, got Err");
    }
    if let Ok(info) = MmsiInfo::from_mmsi(111227001u32) {
        assert_eq!(info.country.country, "France");
        assert_eq!(info.mmsi_type, MmsiType::SarAircraft);
    } else {
        panic!("Expected Ok for MMSI 111227001, got Err");
    }
    if let Ok(info) = MmsiInfo::from_mmsi(992270001u32) {
        assert_eq!(info.country.country, "France");
        assert_eq!(info.mmsi_type, MmsiType::AisAton);
    } else {
        panic!("Expected Ok for MMSI 992270001, got Err");
    }
    if let Ok(info) = MmsiInfo::from_mmsi(974123456u32) {
        assert_eq!(info.country.country, "Unknown");
        assert_eq!(info.mmsi_type, MmsiType::AisSartMobEpirb);
    } else {
        panic!("Expected Ok for MMSI 974123456, got Err");
    }
    if let Ok(info) = MmsiInfo::from_mmsi(22745600u32) {
        assert_eq!(info.country.country, "France");
        assert_eq!(info.mmsi_type, MmsiType::GroupOfShips);
    } else {
        panic!("Expected Ok for MMSI 22745600, got Err");
    }

    if let Ok(info) = MmsiInfo::from_mmsi(338123456u32) {
        assert_eq!(info.country.country, "United States");
        assert_eq!(info.mmsi_type, MmsiType::StandardShipStation);
    } else {
        panic!("Expected Ok for MMSI 338123456, got Err");
    }
    if MmsiInfo::from_mmsi(123456789u32).is_err() {
        // Invalid MID
    } else {
        panic!("Expected Err for MMSI 123456789, got Ok");
    }
    if MmsiInfo::from_mmsi(999999999u32).is_err() {
        // Out of range
    } else {
        panic!("Expected Err for MMSI 999999999, got Ok");
    }
    if let Ok(info) = MmsiInfo::from_mmsi(200000000u32) {
        assert_eq!(info.mmsi_type, MmsiType::StandardShipStation);
        // Lowest valid MID
    } else {
        panic!("Expected Ok for MMSI 200000000, got Err");
    }
    if let Ok(info) = MmsiInfo::from_mmsi(799999999u32) {
        assert_eq!(info.mmsi_type, MmsiType::StandardShipStation);
        // Highest valid MID
    } else {
        panic!("Expected Ok for MMSI 799999999, got Err");
    }
    if let Ok(info) = MmsiInfo::from_mmsi(970000001u32) {
        // AIS SART/MOB/EPIRB lower bound
        assert_eq!(info.mmsi_type, MmsiType::AisSartMobEpirb);
    } else {
        panic!("Expected Ok for MMSI 970000001, got Err");
    }
    if let Ok(info) = MmsiInfo::from_mmsi(979999999u32) {
        // AIS SART/MOB/EPIRB upper bound
        assert_eq!(info.mmsi_type, MmsiType::AisSartMobEpirb);
    } else {
        panic!("Expected Ok for MMSI 979999999, got Err");
    }
    if MmsiInfo::from_mmsi(800000000u32).is_err() {
        // Just outside valid MID
    } else {
        panic!("Expected Err for MMSI 800000000, got Ok");
    }
    if MmsiInfo::from_mmsi(199999999u32).is_err() {
        // Just below valid MID
    } else {
        panic!("Expected Err for MMSI 199999999, got Ok");
    }
}

#[test]
fn mmsi_error_messages_name_the_digits_at_fault() {
    assert_eq!(
        MmsiInfo::from_mmsi(1000001).unwrap_err(),
        "Invalid MID (100) for coast station"
    );
    assert_eq!(
        MmsiInfo::from_mmsi(10000001).unwrap_err(),
        "Invalid MID (100) for group"
    );
    assert_eq!(
        MmsiInfo::from_mmsi(111100001).unwrap_err(),
        "Invalid MID (100) for SAR aircraft"
    );
    assert_eq!(
        MmsiInfo::from_mmsi(991000001).unwrap_err(),
        "Invalid MID (100) for AtoN"
    );
    assert_eq!(
        MmsiInfo::from_mmsi(123456789).unwrap_err(),
        "Invalid or unrecognized MMSI (prefix = 123)"
    );
}

#[test]
fn mmsi_is_padded_to_nine_digits() {
    let info = MmsiInfo::from_mmsi(2270001).unwrap();
    assert_eq!(info.mmsi, "002270001");
    assert_eq!(info.country.iso_3166_1, "FR");
}

#[test]
fn mmsi_of_a_decoded_message() {
    let nmea = NmeaAisMessage::parse("!AIVDM,1,1,,B,15M67FC000G?ufbE`FepT@3n00Sa,0*5C").unwrap();
    let message = Message::from_bytes(&nmea.payload_to_binary().unwrap()).unwrap();
    let info = MmsiInfo::from_message(&message).unwrap();
    assert_eq!(info.mmsi, "366053209");
    assert_eq!(info.mmsi_type, MmsiType::StandardShipStation);
    assert_eq!(info.country.country, "United States");
}
