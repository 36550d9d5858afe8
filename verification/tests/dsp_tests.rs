use rs162::decode::ais::Message;
use rs162::decode::nmea::NmeaAisMessage;
use rs162::dsp::ais::{
    ais_6bit_to_char, crc16, encode_ais_6bit_ascii, pack_bits_to_bytes_lsb, validate_bits,
    AisDemodulatedMessage, DecoderState, EXPECTED_CRC,
};
use rs162::dsp::rates::{plan_rate, RatePlan};
use rs162::dsp::scatter::ScatterPLL;

#[test]
fn test_encode_nmea() {
    // Example AIS message bits (each u8 is a byte, as produced by pack_bits_to_bytes_lsb)
    let bits = vec![
        20, 58, 86, 192, 110, 0, 0, 0, 1, 1, 96, 231, 124, 181, 32, 20, 212, 6, 3, 21, 20, 115,
        192, 0, 0, 0, 0, 0, 0, 99, 3, 4, 70, 15, 192, 24, 240, 0, 193, 96, 32, 21, 146, 20, 0, 0,
        0, 0, 0, 0, 0, 0, 0,
    ];
    let msg = AisDemodulatedMessage {
        bits: bits.clone(),
        channel: 'B',
        timestamp: 1_700_000_000,
        nmea_sentences: vec![],
    };

    // Validate message structure
    assert!(msg.validate(), "AIS message should be valid");

    // Convert to NMEA sentences
    let nmea_encoded = msg.encode_nmea();
    assert!(
        !nmea_encoded.nmea_sentences.is_empty(),
        "Should produce at least one NMEA sentence"
    );

    // Check sentence contents
    assert_eq!(
        nmea_encoded.nmea_sentences[0],
        "!AIVDM,2,1,1,B,53aFh6p000010F3WO;DP5=@60iDDLt000000001S0hA63t0Ht031H20E,0*7F"
    );
    assert_eq!(nmea_encoded.nmea_sentences[1], "!AIVDM,2,2,1,B,TQ@000000000000,2*53");

    let sentence_refs: Vec<&str> = nmea_encoded
        .nmea_sentences
        .iter()
        .map(|s| s.as_str())
        .collect();
    let message = Message::from_nmea(&sentence_refs).unwrap();

    if let Message::StaticAndVoyageData(msg) = message {
        assert_eq!(msg.mmsi, 244690971);
        assert_eq!(msg.destination, "LE HAVRE");
        assert_eq!(msg.shipname, "HASTA LUEGO");
        assert_eq!(msg.callsign, "PE 9725");
    } else {
        panic!("Decoded message is not StaticAndVoyageData");
    }
}

#[test]
fn single_fragment_encoding_has_no_message_id() {
    let bytes = NmeaAisMessage::parse("!AIVDM,1,1,,B,15M67FC000G?ufbE`FepT@3n00Sa,0*5C")
        .unwrap()
        .payload_to_binary()
        .unwrap();
    let msg = AisDemodulatedMessage {
        bits: bytes.clone(),
        channel: 'B',
        timestamp: 0,
        nmea_sentences: vec![],
    };
    let encoded = msg.encode_nmea();
    assert_eq!(encoded.nmea_sentences.len(), 1);
    assert_eq!(
        encoded.nmea_sentences[0],
        "!AIVDM,1,1,,B,15M67FC000G?ufbE`FepT@3n00Sa,0*5C"
    );
    assert_eq!(encoded.bits, bytes);
}

#[test]
fn armoring_then_dearmoring_gives_the_bytes_back() {
    let bytes: Vec<u8> = vec![0x04, 0x12, 0xff, 0x80, 0x7e, 0x00, 0x33];
    let payload: String = encode_ais_6bit_ascii(&bytes).into_iter().collect();
    // 56 bits: 10 characters, 4 fill bits
    assert_eq!(payload.len(), 10);
    let sentence_body = format!("AIVDM,1,1,,A,{},4", payload);
    let checksum = sentence_body.bytes().fold(0u8, |a, b| a ^ b);
    let sentence = format!("!{}*{:02X}", sentence_body, checksum);
    let back = NmeaAisMessage::parse(&sentence).unwrap().payload_to_binary().unwrap();
    assert_eq!(back, bytes);
}

#[test]
fn six_bit_characters() {
    assert_eq!(ais_6bit_to_char(0), '0');
    assert_eq!(ais_6bit_to_char(39), 'W');
    assert_eq!(ais_6bit_to_char(40), '`');
    assert_eq!(ais_6bit_to_char(63), 'w');
    assert_eq!(ais_6bit_to_char(64), '?');
}

#[test]
fn crc_of_frame_with_its_check_sequence() {
    // CRC-16/X-25 of "123456789" is 0x906E; appending the complemented
    // CRC (least significant byte first) leaves the residue 0xF0B8.
    let data = b"123456789";
    let crc = crc16(data);
    assert_eq!(!crc, 0x906E);
    let fcs = !crc;
    let mut framed = data.to_vec();
    framed.push((fcs & 0xff) as u8);
    framed.push((fcs >> 8) as u8);
    assert_eq!(crc16(&framed), EXPECTED_CRC);
}

#[test]
fn packs_bits_least_significant_first() {
    assert_eq!(pack_bits_to_bytes_lsb(&[1, 0, 0, 0, 0, 0, 0, 0]), vec![0x01]);
    assert_eq!(pack_bits_to_bytes_lsb(&[0, 0, 0, 0, 0, 0, 0, 1, 1]), vec![0x80, 0x01]);
    assert_eq!(pack_bits_to_bytes_lsb(&[]), Vec::<u8>::new());
    assert_eq!(pack_bits_to_bytes_lsb(&[1, 1, 1]), vec![0x07]);
}

#[test]
fn validation_by_type_and_length() {
    assert!(validate_bits(&[]));
    // type 0 and type 28 do not exist
    assert!(!validate_bits(&[0x00; 30]));
    assert!(!validate_bits(&[28 << 2; 30]));
    // type 1 needs 149 bits: 18 bytes are too few, 19 enough
    assert!(!validate_bits(&[1 << 2; 18]));
    assert!(validate_bits(&[1 << 2; 19]));
}

/// The NRZI symbol decisions that carry `bits`: a 1 keeps the level, a 0
/// changes it.
fn nrzi(bits: &[u8], level: &mut u8) -> Vec<u8> {
    let mut out = Vec::new();
    for &b in bits {
        if b == 0 {
            *level ^= 1;
        }
        out.push(*level);
    }
    out
}

/// HDLC bit stuffing: a 0 after every five ones.
fn stuff(bits: &[u8]) -> Vec<u8> {
    let mut out = Vec::new();
    let mut ones = 0;
    for &b in bits {
        out.push(b);
        if b == 1 {
            ones += 1;
            if ones == 5 {
                out.push(0);
                ones = 0;
            }
        } else {
            ones = 0;
        }
    }
    out
}

fn lsb_bits(bytes: &[u8]) -> Vec<u8> {
    let mut out = Vec::new();
    for &b in bytes {
        for i in 0..8 {
            out.push((b >> i) & 1);
        }
    }
    out
}

#[test]
fn frame_decoder_recovers_a_message() {
    let data = NmeaAisMessage::parse("!AIVDM,1,1,,B,15M67FC000G?ufbE`FepT@3n00Sa,0*5C")
        .unwrap()
        .payload_to_binary()
        .unwrap();
    let fcs = !crc16(&data);
    let mut frame = data.clone();
    frame.push((fcs & 0xff) as u8);
    frame.push((fcs >> 8) as u8);

    let mut bits: Vec<u8> = Vec::new();
    // preamble: alternating bits
    for i in 0..24 {
        bits.push((i % 2) as u8);
    }
    // start flag 01111110
    bits.extend_from_slice(&[0, 1, 1, 1, 1, 1, 1, 0]);
    bits.extend(stuff(&lsb_bits(&frame)));
    // end flag
    bits.extend_from_slice(&[0, 1, 1, 1, 1, 1, 1, 0]);

    let mut level = 0u8;
    let symbols = nrzi(&bits, &mut level);
    let mut decoder = DecoderState::new();
    decoder.begin_block(symbols[0]);
    let mut found = Vec::new();
    for &d in &symbols {
        if let Some(m) = decoder.step(d) {
            found.push(m);
        }
    }
    assert_eq!(found, vec![data]);
}

#[test]
fn scatter_distributes_round_robin() {
    let mut pll = ScatterPLL::new(3);
    let (out, idx) = pll.scatter(&[10, 11, 12, 13, 14, 15, 16]);
    assert_eq!(out, vec![vec![10, 13, 16], vec![11, 14], vec![12, 15]]);
    assert_eq!(idx, vec![6, 4, 5]);
    let (out, idx) = pll.scatter(&[20, 21]);
    // the next sample goes to phase 1
    assert_eq!(out, vec![vec![], vec![20], vec![21]]);
    assert_eq!(idx, vec![0, 7, 8]);
    assert_eq!(pll.phases(), 3);
    assert_eq!(pll.sample_count(), 9);
}

#[test]
fn scatter_new_has_no_samples() {
    let mut pll = ScatterPLL::new(5);
    let (out, idx) = pll.scatter::<u8>(&[]);
    assert_eq!(out.len(), 5);
    assert!(out.iter().all(|o| o.is_empty()));
    assert_eq!(idx, vec![0; 5]);
}

#[test]
fn standard_rates_need_no_upsampling() {
    assert_eq!(
        plan_rate(96_000),
        Some(RatePlan { upsample_to: None, halvings: 0, third: false })
    );
    assert_eq!(
        plan_rate(288_000),
        Some(RatePlan { upsample_to: None, halvings: 0, third: true })
    );
    assert_eq!(
        plan_rate(2_304_000),
        Some(RatePlan { upsample_to: None, halvings: 3, third: true })
    );
    assert_eq!(
        plan_rate(12_288_000),
        Some(RatePlan { upsample_to: None, halvings: 7, third: false })
    );
}

#[test]
fn other_rates_upsample_to_the_next_standard_rate() {
    assert_eq!(
        plan_rate(3_000_000),
        Some(RatePlan { upsample_to: Some(3_072_000), halvings: 5, third: false })
    );
    assert_eq!(
        plan_rate(6_000_000),
        Some(RatePlan { upsample_to: Some(6_144_000), halvings: 6, third: false })
    );
    assert_eq!(
        plan_rate(250_000),
        Some(RatePlan { upsample_to: Some(288_000), halvings: 0, third: true })
    );
    assert_eq!(
        plan_rate(1),
        Some(RatePlan { upsample_to: Some(96_000), halvings: 0, third: false })
    );
}

#[test]
fn rates_above_the_highest_are_refused() {
    assert_eq!(plan_rate(12_288_001), None);
    assert_eq!(plan_rate(0), None);
    assert_eq!(plan_rate(u32::MAX), None);
}
