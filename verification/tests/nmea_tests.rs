use rs162::decode::nmea::{ais_6bit_to_binary, MessageAssembler, NmeaAisMessage, NmeaError};

#[test]
fn test_parse_single_fragment() {
    let sentence = "!AIVDM,1,1,,B,177KQJ5000G?tO`K>RA1wUbN0TKH,0*5C";
    let message = NmeaAisMessage::parse(sentence).unwrap();

    assert_eq!(message.message_type, "AIVDM");
    assert_eq!(message.fragment_count, 1);
    assert_eq!(message.fragment_number, 1);
    assert_eq!(message.message_id, None);
    assert_eq!(message.channel, 'B');
    assert_eq!(message.payload, "177KQJ5000G?tO`K>RA1wUbN0TKH");
    assert_eq!(message.fill_bits, 0);
    assert_eq!(message.checksum, 0x5C);
    assert!(message.is_complete());
}

#[test]
fn test_parse_multi_fragment() {
    let sentence1 =
        "!AIVDM,2,1,3,B,55P5TL01VIaAL@7WKO@mBplU@<PDhh000000001S;AJ::4A80?4i@E53,0*3E";
    let message1 = NmeaAisMessage::parse(sentence1).unwrap();

    assert_eq!(message1.fragment_count, 2);
    assert_eq!(message1.fragment_number, 1);
    assert_eq!(message1.message_id, Some("3".to_string()));
    assert!(message1.is_multi_fragment());
    assert!(!message1.is_complete());

    let sentence2 = "!AIVDM,2,2,3,B,1@0000000000000,2*55";
    let message2 = NmeaAisMessage::parse(sentence2).unwrap();

    assert_eq!(message2.fragment_count, 2);
    assert_eq!(message2.fragment_number, 2);
    assert_eq!(message2.message_id, Some("3".to_string()));
    assert_eq!(message2.fill_bits, 2);
}

#[test]
fn test_payload_to_binary() {
    let sentence = "!AIVDM,1,1,,B,177KQJ5000G?tO`K>RA1wUbN0TKH,0*5C";
    let message = NmeaAisMessage::parse(sentence).unwrap();
    let binary = message.payload_to_binary().unwrap();

    // Should decode to binary data
    assert!(!binary.is_empty());

    // First few bits should represent message type 1 (position report)
    // Message type is in bits 0-5, so first 6 bits should be 000001 (1)
    assert_eq!(binary[0] >> 2, 1); // First 6 bits shifted right by 2
}

#[test]
fn test_message_assembler() {
    let mut assembler = MessageAssembler::new();

    // Add first fragment
    let sentence1 =
        "!AIVDM,2,1,3,B,55P5TL01VIaAL@7WKO@mBplU@<PDhh000000001S;AJ::4A80?4i@E53,0*3E";
    let message1 = NmeaAisMessage::parse(sentence1).unwrap();
    let result1 = assembler.add_fragment(message1).unwrap();
    assert!(result1.is_none()); // Not complete yet

    // Add second fragment
    let sentence2 = "!AIVDM,2,2,3,B,1@0000000000000,2*55";
    let message2 = NmeaAisMessage::parse(sentence2).unwrap();
    let result2 = assembler.add_fragment(message2).unwrap();
    assert!(result2.is_some()); // Should be complete now

    let binary = result2.unwrap();
    assert!(!binary.is_empty());
}

#[test]
fn test_invalid_checksum() {
    let sentence = "!AIVDM,1,1,,B,177KQJ5000G?tO`K>RA1wUbN0TKH,0*FF";
    let result = NmeaAisMessage::parse(sentence);
    assert!(matches!(result, Err(NmeaError::InvalidChecksum)));
}

#[test]
fn test_6bit_conversion() {
    // Test various 6-bit characters according to AIS standard
    assert_eq!(ais_6bit_to_binary('0').unwrap(), 0); // ASCII 48
    assert_eq!(ais_6bit_to_binary('9').unwrap(), 9); // ASCII 57
    assert_eq!(ais_6bit_to_binary(':').unwrap(), 10); // ASCII 58
    assert_eq!(ais_6bit_to_binary(';').unwrap(), 11); // ASCII 59
    assert_eq!(ais_6bit_to_binary('<').unwrap(), 12); // ASCII 60
    assert_eq!(ais_6bit_to_binary('=').unwrap(), 13); // ASCII 61
    assert_eq!(ais_6bit_to_binary('>').unwrap(), 14); // ASCII 62
    assert_eq!(ais_6bit_to_binary('?').unwrap(), 15); // ASCII 63
    assert_eq!(ais_6bit_to_binary('@').unwrap(), 16); // ASCII 64
    assert_eq!(ais_6bit_to_binary('A').unwrap(), 17); // ASCII 65
    assert_eq!(ais_6bit_to_binary('W').unwrap(), 39); // ASCII 87
    assert_eq!(ais_6bit_to_binary('`').unwrap(), 40); // ASCII 96
    assert_eq!(ais_6bit_to_binary('a').unwrap(), 41); // ASCII 97
    assert_eq!(ais_6bit_to_binary('w').unwrap(), 63); // ASCII 119
}

#[test]
fn test_edge_cases_for_6bit_conversion() {
    // Test boundary characters
    assert_eq!(ais_6bit_to_binary('0').unwrap(), 0); // ASCII 48
    assert_eq!(ais_6bit_to_binary('?').unwrap(), 15); // ASCII 63
    assert_eq!(ais_6bit_to_binary('@').unwrap(), 16); // ASCII 64
    assert_eq!(ais_6bit_to_binary('W').unwrap(), 39); // ASCII 87
    assert_eq!(ais_6bit_to_binary('`').unwrap(), 40); // ASCII 96
    assert_eq!(ais_6bit_to_binary('w').unwrap(), 63); // ASCII 119

    // Test invalid characters
    assert!(ais_6bit_to_binary('/').is_err()); // ASCII 47 (too low)
    assert!(ais_6bit_to_binary('X').is_err()); // ASCII 88 (gap)
    assert!(ais_6bit_to_binary('_').is_err()); // ASCII 95 (gap)
    assert!(ais_6bit_to_binary('x').is_err()); // ASCII 120 (too high)
    assert!(ais_6bit_to_binary('€').is_err()); // Non-ASCII
}

#[test]
fn test_invalid_field_count() {
    // Test message with missing fields (should have 7 fields)
    let sentence = "!AIVDM,,A,91b77=h3h00nHt0Q3r@@07000<0b,0*69";
    let result = NmeaAisMessage::parse(sentence);
    assert!(result.is_err());
    assert!(matches!(result, Err(NmeaError::InvalidFormat)));
}

#[test]
fn test_valid_message_attributes() {
    let sentence = "!AIVDM,1,1,,B,91b55wi;hbOS@OdQAC062Ch2089h,0*30";
    let message = NmeaAisMessage::parse(sentence).unwrap();

    assert!(message.is_valid());
    assert!(message.is_complete());
    assert!(!message.is_multi_fragment());
}

#[test]
fn test_single_vs_multi_fragment() {
    let single = "!AIVDM,1,1,,B,91b55wi;hbOS@OdQAC062Ch2089h,0*30";
    let message = NmeaAisMessage::parse(single).unwrap();

    assert!(message.is_complete());
    assert!(!message.is_multi_fragment());
}

#[test]
fn test_from_string_vs_parse() {
    let sentence = "!AIVDM,1,1,,B,15M67FC000G?ufbE`FepT@3n00Sa,0*5C";

    let old = NmeaAisMessage::parse(sentence).unwrap();
    let new = NmeaAisMessage::from_string(sentence).unwrap();

    assert_eq!(old, new);
}

#[test]
fn test_assembler_from_iterable() {
    let messages = vec![
        NmeaAisMessage::parse(
            "!AIVDM,2,1,4,A,55O0W7`00001L@gCWGA2uItLth@DqtL5@F22220j1h742t0Ht0000000,0*08",
        )
        .unwrap(),
        NmeaAisMessage::parse("!AIVDM,2,2,4,A,000000000000000,2*20").unwrap(),
    ];

    let binary = MessageAssembler::assemble_from_iterable(messages).unwrap();
    assert!(!binary.is_empty());
}

#[test]
fn test_talker_extraction() {
    let msg1 = "!AIVDM,1,1,,B,91b55wi;hbOS@OdQAC062Ch2089h,0*30";
    let message1 = NmeaAisMessage::parse(msg1).unwrap();
    assert_eq!(message1.talker(), "AI");

    let msg2 = "!AIVDM,1,1,,A,8@30oni?1j020@00,0*23";
    let message2 = NmeaAisMessage::parse(msg2).unwrap();
    assert_eq!(message2.talker(), "AI");
}

#[test]
fn test_message_type_suffix() {
    let msg1 = "!AIVDM,1,1,,B,91b55wi;hbOS@OdQAC062Ch2089h,0*30";
    let message1 = NmeaAisMessage::parse(msg1).unwrap();
    assert_eq!(message1.message_type_suffix(), "VDM");

    let msg2 = "!AIVDM,1,1,,A,8@30oni?1j020@00,0*23";
    let message2 = NmeaAisMessage::parse(msg2).unwrap();
    assert_eq!(message2.message_type_suffix(), "VDM");
}

#[test]
fn test_message_attributes() {
    let sentence = "!AIVDM,1,1,,A,85Mwp`1Kf3aCnsNvBWLi=wQuNhA5t43N`5nCuI=p<IBfVqnMgPGs,0*47";
    let message = NmeaAisMessage::parse(sentence).unwrap();

    assert_eq!(message.ais_message_id().unwrap(), 8);
    assert_eq!(message.fragment_count, 1);
    assert_eq!(message.fragment_number, 1);
    assert_eq!(message.message_id, None);
    assert_eq!(message.channel, 'A');
    assert_eq!(
        message.payload,
        "85Mwp`1Kf3aCnsNvBWLi=wQuNhA5t43N`5nCuI=p<IBfVqnMgPGs"
    );
    assert_eq!(message.checksum, 0x47);
}

#[test]
fn test_message_validity() {
    let valid_msg = "!AIVDM,1,1,,A,85Mwp`1Kf3aCnsNvBWLi=wQuNhA5t43N`5nCuI=p<IBfVqnMgPGs,0*47";
    let message = NmeaAisMessage::parse(valid_msg).unwrap();
    assert!(message.is_valid());

    // Test with invalid checksum
    let invalid_msg = "!AIVDM,1,1,,A,85Mwp`1Kf3aCnsNvBWLi=wQuNhA5t43N`5nCuI=p<IBfVqnMgPGt,0*47";
    let result = NmeaAisMessage::parse(invalid_msg);
    assert!(result.is_err());
    assert!(matches!(result, Err(NmeaError::InvalidChecksum)));
}

#[test]
fn test_from_bytes() {
    let sentence = b"!AIVDM,1,1,,A,85Mwp`1Kf3aCnsNvBWLi=wQuNhA5t43N`5nCuI=p<IBfVqnMgPGs,0*47";

    let from_parse = NmeaAisMessage::parse(std::str::from_utf8(sentence).unwrap()).unwrap();
    let from_bytes = NmeaAisMessage::from_bytes(sentence).unwrap();

    assert_eq!(from_parse, from_bytes);
}

#[test]
fn test_message_equality() {
    let sentence = "!AIVDM,1,1,,B,F030p:j2N2P5aJR0r;6f3rj10000,0*11";

    let first_obj = NmeaAisMessage::parse(sentence).unwrap();
    let second_obj = NmeaAisMessage::parse(sentence).unwrap();

    // They should be equal
    assert_eq!(first_obj, second_obj);
}

#[test]
fn test_missing_checksum() {
    // Test with missing checksum (should still work if we modify the parser)
    let sentence = "!AIVDM,1,1,,A,100u3FP04r28t0<WcshcQI<H0H79,0";
    let result = NmeaAisMessage::parse(sentence);
    // This should fail with our current implementation since checksum is required
    assert!(result.is_err());
}

#[test]
fn test_valid_checksum_identification() {
    let sentence = "!AIVDM,1,1,,B,15NG6V0P01G?cFhE`R2IU?wn28R>,0*05";
    let message = NmeaAisMessage::parse(sentence).unwrap();
    assert!(message.is_valid());
}

#[test]
fn test_invalid_checksum_identification() {
    let sentence = "!AIVDM,1,1,,B,15NG6V0P01G?cFhE`R2IU?wn28R>,0*04";
    let result = NmeaAisMessage::parse(sentence);
    assert!(result.is_err());
    assert!(matches!(result, Err(NmeaError::InvalidChecksum)));
}

#[test]
fn test_valid_multi_part_checksum() {
    let messages = vec![
        NmeaAisMessage::parse(
            "!AIVDM,2,1,4,A,55O0W7`00001L@gCWGA2uItLth@DqtL5@F22220j1h742t0Ht0000000,0*08",
        )
        .unwrap(),
        NmeaAisMessage::parse("!AIVDM,2,2,4,A,000000000000000,2*20").unwrap(),
    ];

    let binary = MessageAssembler::assemble_from_iterable(messages).unwrap();
    assert!(!binary.is_empty());
}

#[test]
fn test_invalid_multi_part_checksum_first() {
    // The first sentence has an invalid checksum
    let message1 = NmeaAisMessage::parse(
        "!AIVDM,2,1,4,A,55O0W7`00001L@gCWGA2uItLth@DqtL5@F22220j1h742t0Ht0000000,0*09",
    );
    assert!(message1.is_err());
    assert!(matches!(message1, Err(NmeaError::InvalidChecksum)));
}

#[test]
fn test_invalid_multi_part_checksum_second() {
    // The second sentence has an invalid checksum
    let message2 = NmeaAisMessage::parse("!AIVDM,2,2,4,A,000000000000000,2*21");
    assert!(message2.is_err());
    assert!(matches!(message2, Err(NmeaError::InvalidChecksum)));
}

#[test]
fn test_fill_bits_validation() {
    // Test invalid fill bits (> 5)
    // Calculate correct checksum for this message
    let data_part = "AIVDM,1,1,,B,177KQJ5000G?tO`K>RA1wUbN0TKH,6";
    let calculated_checksum = data_part.bytes().fold(0u8, |acc, b| acc ^ b);
    let sentence = format!(
        "!AIVDM,1,1,,B,177KQJ5000G?tO`K>RA1wUbN0TKH,6*{:02X}",
        calculated_checksum
    );

    let result = NmeaAisMessage::parse(&sentence);
    assert!(result.is_err());
    assert!(matches!(result, Err(NmeaError::InvalidFillBits(6))));
}

#[test]
fn test_fragment_validation() {
    // Test invalid fragment number (0)
    let data_part = "AIVDM,1,0,,B,177KQJ5000G?tO`K>RA1wUbN0TKH,0";
    let calculated_checksum = data_part.bytes().fold(0u8, |acc, b| acc ^ b);
    let sentence = format!(
        "!AIVDM,1,0,,B,177KQJ5000G?tO`K>RA1wUbN0TKH,0*{:02X}",
        calculated_checksum
    );

    let result = NmeaAisMessage::parse(&sentence);
    assert!(result.is_err());
    assert!(matches!(result, Err(NmeaError::InvalidFragmentNumber(0))));

    // Test fragment number > fragment count
    let data_part = "AIVDM,1,2,,B,177KQJ5000G?tO`K>RA1wUbN0TKH,0";
    let calculated_checksum = data_part.bytes().fold(0u8, |acc, b| acc ^ b);
    let sentence = format!(
        "!AIVDM,1,2,,B,177KQJ5000G?tO`K>RA1wUbN0TKH,0*{:02X}",
        calculated_checksum
    );

    let result = NmeaAisMessage::parse(&sentence);
    assert!(result.is_err());
    assert!(matches!(result, Err(NmeaError::InvalidFragmentNumber(2))));

    // Test invalid fragment count (0)
    let data_part = "AIVDM,0,1,,B,177KQJ5000G?tO`K>RA1wUbN0TKH,0";
    let calculated_checksum = data_part.bytes().fold(0u8, |acc, b| acc ^ b);
    let sentence = format!(
        "!AIVDM,0,1,,B,177KQJ5000G?tO`K>RA1wUbN0TKH,0*{:02X}",
        calculated_checksum
    );

    let result = NmeaAisMessage::parse(&sentence);
    assert!(result.is_err());
    assert!(matches!(result, Err(NmeaError::InvalidFragmentCount(0))));
}

#[test]
fn test_non_ais_message_types() {
    // Test non-AIS message type
    // Calculate correct checksum for this message
    let data_part = "GPGGA,1,1,,B,177KQJ5000G?tO`K>RA1wUbN0TKH,0";
    let calculated_checksum = data_part.bytes().fold(0u8, |acc, b| acc ^ b);
    let sentence = format!(
        "!GPGGA,1,1,,B,177KQJ5000G?tO`K>RA1wUbN0TKH,0*{:02X}",
        calculated_checksum
    );

    let result = NmeaAisMessage::parse(&sentence);
    assert!(result.is_err());
    assert!(matches!(result, Err(NmeaError::InvalidFormat)));
}

#[test]
fn test_empty_and_malformed_sentences() {
    // Test empty sentence
    let result = NmeaAisMessage::parse("");
    assert!(result.is_err());

    // Test sentence without checksum
    let result = NmeaAisMessage::parse("!AIVDM,1,1,,B,177KQJ5000G?tO`K>RA1wUbN0TKH,0");
    assert!(result.is_err());

    // Test sentence with malformed checksum
    let result = NmeaAisMessage::parse("!AIVDM,1,1,,B,177KQJ5000G?tO`K>RA1wUbN0TKH,0*ZZ");
    assert!(result.is_err());
}

#[test]
fn test_binary_conversion_with_fill_bits() {
    // Test message with fill bits
    let sentence = "!AIVDM,2,2,3,B,1@0000000000000,2*55";
    let message = NmeaAisMessage::parse(sentence).unwrap();
    let binary = message.payload_to_binary().unwrap();

    // Should handle fill bits correctly
    assert!(!binary.is_empty());
    assert_eq!(message.fill_bits, 2);
}

#[test]
fn test_assembler_error_cases() {
    let mut assembler = MessageAssembler::new();

    // Test adding fragment without message ID for multi-fragment
    let mut message = NmeaAisMessage::parse(
        "!AIVDM,2,1,3,B,55P5TL01VIaAL@7WKO@mBplU@<PDhh000000001S;AJ::4A80?4i@E53,0*3E",
    )
    .unwrap();
    message.message_id = None; // Remove message ID

    let result = assembler.add_fragment(message);
    assert!(result.is_err());
    assert!(matches!(result, Err(NmeaError::IncompleteMessage)));
}

#[test]
fn fragments_assemble_in_any_order() {
    let first = "!AIVDM,2,1,3,B,55P5TL01VIaAL@7WKO@mBplU@<PDhh000000001S;AJ::4A80?4i@E53,0*3E";
    let second = "!AIVDM,2,2,3,B,1@0000000000000,2*55";

    let mut forward = MessageAssembler::new();
    assert_eq!(forward.add_fragment(NmeaAisMessage::parse(first).unwrap()), Ok(None));
    let in_order = forward
        .add_fragment(NmeaAisMessage::parse(second).unwrap())
        .unwrap()
        .unwrap();

    let mut backward = MessageAssembler::new();
    assert_eq!(backward.add_fragment(NmeaAisMessage::parse(second).unwrap()), Ok(None));
    let reversed = backward
        .add_fragment(NmeaAisMessage::parse(first).unwrap())
        .unwrap()
        .unwrap();

    assert_eq!(in_order, reversed);
    assert_eq!(in_order.len(), 53);
}

#[test]
fn non_ascii_payload_characters_are_invalid() {
    assert_eq!(ais_6bit_to_binary('\u{130}'), Err(NmeaError::Invalid6BitChar('\u{130}')));
    assert_eq!(ais_6bit_to_binary('\u{160}'), Err(NmeaError::Invalid6BitChar('\u{160}')));
    assert_eq!(ais_6bit_to_binary('€'), Err(NmeaError::Invalid6BitChar('€')));
}

#[test]
fn fragments_assemble_between_other_messages() {
    let first = "!AIVDM,2,1,3,B,55P5TL01VIaAL@7WKO@mBplU@<PDhh000000001S;AJ::4A80?4i@E53,0*3E";
    let second = "!AIVDM,2,2,3,B,1@0000000000000,2*55";
    let other_first = "!AIVDM,2,1,4,B,55P5TL01VIaAL@7WKO@mBplU@<PDhh000000001S;AJ::4A80?4i@E53,0*39";
    let other_second = "!AIVDM,2,2,4,B,1@0000000000000,2*52";
    let single = "!AIVDM,1,1,,B,177KQJ5000G?tO`K>RA1wUbN0TKH,0*5C";

    let mut assembler = MessageAssembler::new();
    let mut add = |s: &str| assembler.add_fragment(NmeaAisMessage::parse(s).unwrap());
    assert_eq!(add(second), Ok(None));
    assert_eq!(add(other_first), Ok(None));
    assert!(matches!(add(single), Ok(Some(_))));
    let complete = add(first).unwrap().unwrap();
    let other = add(other_second).unwrap().unwrap();
    assert_eq!(complete, other);
    assert_eq!(complete.len(), 53);
    // nothing is left pending for id 3: its second fragment starts afresh
    assert_eq!(add(second), Ok(None));
}

#[test]
fn fill_bits_end_the_last_byte() {
    // '0' = 000000, 'p' = 111000: 12 bits, 2 of them fill; the 2 data bits
    // left over the first byte head the second
    let message = NmeaAisMessage::parse("!AIVDM,1,1,,A,0p,2*64").unwrap();
    assert_eq!(message.payload_to_binary(), Ok(vec![0x03, 0x80]));
}
