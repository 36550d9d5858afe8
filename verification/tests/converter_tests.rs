use rs162::decode::ais::common::TurnRate;
use rs162::decode::ais::converters::{
    course_tenths, from_mmsi_optional, from_sixbit_ascii, from_variable_binary_data, latitude_raw,
    longitude_raw, speed_tenths, tenth_minutes, turn_indicator,
};

#[test]
fn test_sixbit_ascii_ais_standard() {
    // AIS 6-bit ASCII uses this mapping:
    // 0 = @ (null/padding)
    // 1-31 = add 64 to get ASCII 65-95 (A-Z[\]^_)
    // 32-63 = use as-is to get ASCII 32-63 (space through ?, includes 0-9)

    // Test individual character mappings based on actual AIS standard:
    assert_eq!(from_sixbit_ascii(6 << 30, 6).chars().next().unwrap(), 'F'); // 6 + 64 = 70 = 'F'
    assert_eq!(from_sixbit_ascii(15 << 30, 6).chars().next().unwrap(), 'O'); // 15 + 64 = 79 = 'O'
    assert_eq!(from_sixbit_ascii(51 << 30, 6).chars().next().unwrap(), '3'); // 51 as-is = 51 = '3'
    assert_eq!(from_sixbit_ascii(56 << 30, 6).chars().next().unwrap(), '8');
    // 56 as-is = 56 = '8'
}

#[test]
fn test_from_mmsi_optional() {
    assert_eq!(from_mmsi_optional(0), None);
    assert_eq!(from_mmsi_optional(123456789), Some(123456789));
}

#[test]
fn test_variable_binary_data() {
    // Test with 8 bits (1 byte)
    let mut bits = Vec::new();
    // Add bits for 0xEB (11101011)
    for &bit in &[true, true, true, false, true, false, true, true] {
        bits.push(bit);
    }

    let result = from_variable_binary_data(&bits);
    assert_eq!(result, vec![0xEB]);

    // Test with partial byte (5 bits)
    let mut bits = Vec::new();
    // Add bits for 0xF0 (11110, padded to 11110000)
    for &bit in &[true, true, true, true, false] {
        bits.push(bit);
    }

    let result = from_variable_binary_data(&bits);
    assert_eq!(result, vec![0xF0]); // Padded with zeros
}

#[test]
fn turn_indicator_codes() {
    assert_eq!(turn_indicator(0x80), None);
    assert_eq!(TurnRate::NOT_AVAILABLE, -128);
    assert_eq!(turn_indicator(0x81), Some(-127));
    assert_eq!(turn_indicator(0x7f), Some(127));
    assert_eq!(turn_indicator(0), Some(TurnRate::NO_TURN));
}

#[test]
fn speed_and_course_codes() {
    assert_eq!(speed_tenths(1023), None);
    assert_eq!(speed_tenths(1022), Some(1022));
    assert_eq!(course_tenths(3600), None);
    assert_eq!(course_tenths(3599), Some(3599));
}

#[test]
fn coordinate_codes() {
    // 181 degrees is "not available" for longitudes, 91 degrees for latitudes
    assert_eq!(longitude_raw(0x6791AC0), None);
    assert_eq!(latitude_raw(0x3412140), None);
    // two's complement: the all-ones 28-bit code is -1
    assert_eq!(longitude_raw(0x0FFF_FFFF), Some(-1));
    assert_eq!(latitude_raw(0x0400_0000), Some(-0x0400_0000));
    // tenths of a minute: the all-ones code reads as 0
    assert_eq!(tenth_minutes(0x3FFFF, 18), 0);
    assert_eq!(tenth_minutes(0x3FFFE, 18), -2);
    assert_eq!(tenth_minutes(1578, 18), 1578);
}
