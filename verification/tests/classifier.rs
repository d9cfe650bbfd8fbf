use rune_find::{
    classify_payload, classify_script, parse_rune_data, validate_rune_event, Tier, Transaction,
    TxIn, TxOut,
};

fn plain_transaction() -> Transaction {
    Transaction {
        txid: "ab".repeat(32),
        version: 2,
        vin: vec![TxIn { txid: "cd".repeat(32), vout: 0, script_sig: String::new() }],
        vout: vec![TxOut { script_pubkey: String::from("6a00"), value: 0 }],
    }
}

#[test]
fn structured_event_end_to_end() {
    let script = "6a02ff000104aabbccdd11020102";
    let event = parse_rune_data(script).expect("the script holds both records");
    assert_eq!(event.event_type, "TLV_STRUCTURED");
    assert_eq!(event.rune_id, "aabbccdd");
    assert_eq!(event.amount, 258);
    assert!(validate_rune_event(&plain_transaction(), &event));
}

#[test]
fn structured_event_from_upper_case_hex() {
    let event = parse_rune_data("6A02FF000104AABBCCDD11020102").expect("upper case decodes");
    assert_eq!(event.event_type, "TLV_STRUCTURED");
    assert_eq!(event.rune_id, "aabbccdd");
    assert_eq!(event.amount, 0x0102);
}

#[test]
fn short_script_gives_nothing() {
    assert!(parse_rune_data("").is_none());
    assert!(parse_rune_data("6a").is_none());
    assert!(parse_rune_data("6a0700010000000000").is_none());
    assert!(parse_rune_data("6a0752554e45000000").is_none());
    assert!(classify_script(&[0x6a, 0x07, 0x52, 0x55, 0x4E, 0x45, 0, 0, 0]).is_none());
}

#[test]
fn script_of_ten_bytes_is_looked_at() {
    let event = parse_rune_data("6a080004aabbccdd1100").expect("marked, with an identifier");
    assert_eq!(event.event_type, "TLV_PARTIAL");
    assert_eq!(event.rune_id, "aabbccdd");
    assert!(parse_rune_data("6a080004aabbccdd11").is_none());
}

#[test]
fn text_that_is_no_hex_gives_nothing() {
    assert!(parse_rune_data("6a02ff000104aabbccdd1102010").is_none());
    assert!(parse_rune_data("6a02ff000104aabbccdd110201zz").is_none());
    assert!(parse_rune_data("6a02ff000104aabbccdd1102 102").is_none());
    assert!(parse_rune_data("\u{442}\u{435}\u{441}\u{442}6a02ff000104aabbccdd").is_none());
}

#[test]
fn script_without_the_opcode_gives_nothing() {
    assert!(parse_rune_data("6b02ff000104aabbccdd11020102").is_none());
    assert!(parse_rune_data("0002ff000104aabbccdd11020102").is_none());
}

#[test]
fn unmarked_short_payload_gives_nothing() {
    // Same records, but nothing before them that makes a marker.
    assert!(parse_rune_data("6a0a0104aabbccdd11020102").is_none());
    assert!(classify_payload(&[0x01, 0x04, 0xAA, 0xBB, 0xCC, 0xDD, 0x11, 0x02, 0x01, 0x02])
        .is_none());
}

#[test]
fn unmarked_payload_of_twenty_bytes_is_looked_at() {
    let mut payload = vec![0x01u8, 0x04, 0xAA, 0xBB, 0xCC, 0xDD, 0x11, 0x02, 0x01, 0x02];
    payload.extend([0x30u8, 0x08, 1, 2, 3, 4, 5, 6, 7, 8]);
    assert_eq!(payload.len(), 20);
    let event = classify_payload(&payload).expect("long enough without a marker");
    assert_eq!(event.event_type, "TLV_STRUCTURED");
    assert_eq!(event.rune_id, "aabbccdd");
    assert_eq!(event.amount, 258);
    payload.pop();
    assert!(classify_payload(&payload).is_none());
}

#[test]
fn last_matching_record_counts() {
    let payload = [
        0xFFu8, 0x00, 0x01, 0x04, 0x11, 0x11, 0x11, 0x11, 0x10, 0x01, 0x07, 0x0F, 0x04, 0x22,
        0x33, 0x44, 0x55, 0x1F, 0x02, 0x01, 0x00,
    ];
    let event = classify_payload(&payload).expect("records give both fields");
    assert_eq!(event.event_type, "TLV_STRUCTURED");
    assert_eq!(event.rune_id, "22334455");
    assert_eq!(event.amount, 256);
}

#[test]
fn records_out_of_range_are_passed_over() {
    // Identifier of 3 bytes, amount of 17 bytes: neither counts.
    let mut payload = vec![0xFFu8, 0x00, 0x01, 0x03, 0xAA, 0xBB, 0xCC, 0x11, 17];
    payload.extend([0x01u8; 17]);
    let event = classify_payload(&payload).expect("falls back to the pattern");
    assert_eq!(event.event_type, "PATTERN_MATCH");
}

#[test]
fn amount_of_sixteen_bytes() {
    let mut payload = vec![0xFFu8, 0x00, 0x01, 0x04, 0xAA, 0xBB, 0xCC, 0xDD, 0x10, 16];
    payload.extend([0xFFu8; 16]);
    let event = classify_payload(&payload).expect("records give both fields");
    assert_eq!(event.event_type, "TLV_STRUCTURED");
    assert_eq!(event.amount, u128::MAX);
}

#[test]
fn identifier_of_thirty_two_bytes() {
    let mut payload = vec![0xFFu8, 0x00, 0x00, 32];
    payload.extend((0u8..32).map(|i| i * 8 + 1));
    let event = classify_payload(&payload).expect("records give the identifier");
    assert_eq!(event.event_type, "TLV_PARTIAL");
    assert_eq!(event.rune_id.len(), 64);
    assert!(event.rune_id.starts_with("0109111921"));
    assert_eq!(event.amount, 1000);
}

#[test]
fn partial_event_has_placeholder_amount() {
    let event = parse_rune_data("6a02ff000104aabbccdd20020102").expect("identifier only");
    assert_eq!(event.event_type, "TLV_PARTIAL");
    assert_eq!(event.rune_id, "aabbccdd");
    assert_eq!(event.amount, 1000);
    // Eight characters are too few for this tier.
    assert!(!validate_rune_event(&plain_transaction(), &event));
}

#[test]
fn heuristic_event_without_records() {
    // The first length byte is over the limit: no records at all.
    let mut payload = vec![0x01u8, 0xFF];
    payload.extend(2u8..20);
    assert_eq!(payload.len(), 20);
    let event = classify_payload(&payload).expect("long enough for the heuristic");
    assert_eq!(event.event_type, "HEURISTIC");
    assert_eq!(event.rune_id, "01ff02030405060708090a0b0c0d0e0f");
    assert_eq!(event.amount, 20 * 42);
    assert!(validate_rune_event(&plain_transaction(), &event));
}

#[test]
fn heuristic_needs_sixteen_bytes() {
    // Marked by four zero bytes, no records, 15 bytes.
    let mut payload = vec![0x01u8, 0xFF, 0x00, 0x00, 0x00, 0x00];
    payload.extend([0x07u8; 9]);
    assert_eq!(payload.len(), 15);
    assert!(classify_payload(&payload).is_none());
    payload.push(0x07);
    let event = classify_payload(&payload).expect("sixteen bytes");
    assert_eq!(event.event_type, "HEURISTIC");
    assert_eq!(event.rune_id, "01ff0000000007070707070707070707");
    assert_eq!(event.amount, 16 * 42);
}

#[test]
fn pattern_event_starts_at_first_plain_byte() {
    // Marked by four zero bytes; records with tags that give nothing; the
    // first byte that is neither 0x00 nor 0xFF is at offset 6.
    let payload = [
        0xFFu8, 0x00, 0x00, 0x00, 0x00, 0x00, 0x20, 0x00, 0x21, 0x00, 0x22, 0x00, 0x23, 0x00,
        0x24,
    ];
    let event = classify_payload(&payload).expect("a plain byte with room behind it");
    assert_eq!(event.event_type, "PATTERN_MATCH");
    assert_eq!(event.rune_id, "2000210022002300");
    assert_eq!(event.amount, 0x20 * 100);
    assert!(validate_rune_event(&plain_transaction(), &event));
}

#[test]
fn pattern_event_needs_eight_bytes_from_the_plain_byte() {
    // The plain byte at offset 6 with exactly eight bytes to the end.
    let mut payload = vec![
        0xFFu8, 0x00, 0x00, 0x00, 0x00, 0x00, 0x20, 0x00, 0x21, 0x00, 0x22, 0x00, 0x23, 0x00,
    ];
    let event = classify_payload(&payload).expect("eight bytes from the plain byte on");
    assert_eq!(event.event_type, "PATTERN_MATCH");
    assert_eq!(event.rune_id, "2000210022002300");
    assert_eq!(event.amount, 3200);
    // With seven there is no event.
    payload.pop();
    assert!(classify_payload(&payload).is_none());
}

#[test]
fn pattern_event_needs_a_plain_byte() {
    let payload = [0xFFu8, 0x00].repeat(10);
    assert_eq!(payload.len(), 20);
    assert!(classify_payload(&payload).is_none());
    let zeros = [0x00u8; 24];
    assert!(classify_payload(&zeros).is_none());
}

#[test]
fn amount_alone_falls_back_to_the_pattern() {
    let payload = [0xFFu8, 0x00, 0x01, 0x00, 0x11, 0x02, 0x01, 0x02, 0x30, 0x02, 0x05, 0x06];
    let event = classify_payload(&payload).expect("a plain byte with room behind it");
    assert_eq!(event.event_type, "PATTERN_MATCH");
    assert_eq!(event.rune_id, "0100110201023002");
    assert_eq!(event.amount, 100);
}

#[test]
fn classifying_twice_gives_the_same() {
    for script in [
        "6a02ff000104aabbccdd11020102",
        "6a02ff000104aabbccdd20020102",
        "6a0a0104aabbccdd11020102",
        "zz",
        "6a080004aabbccdd1100",
    ] {
        let first = parse_rune_data(script);
        let second = parse_rune_data(script);
        match (first, second) {
            (Some(a), Some(b)) => {
                assert_eq!(a.rune_id, b.rune_id);
                assert_eq!(a.amount, b.amount);
                assert_eq!(a.event_type, b.event_type);
            }
            (None, None) => {}
            _ => panic!("two results for one script differ"),
        }
    }
}

#[test]
fn tier_labels() {
    assert_eq!(Tier::TlvStructured.label(), "TLV_STRUCTURED");
    assert_eq!(Tier::TlvPartial.label(), "TLV_PARTIAL");
    assert_eq!(Tier::Heuristic.label(), "HEURISTIC");
    assert_eq!(Tier::PatternMatch.label(), "PATTERN_MATCH");
    for tier in [Tier::TlvStructured, Tier::TlvPartial, Tier::Heuristic, Tier::PatternMatch] {
        assert_eq!(Tier::from_label(&tier.label()), Some(tier));
    }
    assert_eq!(Tier::from_label(&String::from("tlv_structured")), None);
    assert_eq!(Tier::from_label(&String::new()), None);
}
