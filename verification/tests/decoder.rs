use rune_find::{extract_tlv, has_rune_marker};

#[test]
fn tlv_empty_input_has_no_records() {
    assert_eq!(extract_tlv(&[]), Vec::<(u8, Vec<u8>)>::new());
}

#[test]
fn tlv_single_byte_has_no_records() {
    assert!(extract_tlv(&[0x01]).is_empty());
}

#[test]
fn tlv_reads_records_in_order() {
    let data = [0x01, 0x02, 0xAA, 0xBB, 0x11, 0x00, 0x7F, 0x01, 0x09];
    let records = extract_tlv(&data);
    assert_eq!(
        records,
        vec![(0x01u8, vec![0xAAu8, 0xBB]), (0x11u8, vec![]), (0x7Fu8, vec![0x09u8])]
    );
}

#[test]
fn tlv_stops_where_value_runs_past_the_end() {
    let data = [0x01, 0x01, 0xAA, 0x02, 0x05, 0x01, 0x02];
    assert_eq!(extract_tlv(&data), vec![(0x01u8, vec![0xAAu8])]);
}

#[test]
fn tlv_stops_where_one_byte_is_left() {
    let data = [0x01, 0x01, 0xAA, 0x02];
    assert_eq!(extract_tlv(&data), vec![(0x01u8, vec![0xAAu8])]);
}

#[test]
fn tlv_takes_value_of_length_100() {
    let mut data = vec![0x05u8, 100];
    data.extend(std::iter::repeat(0x33u8).take(100));
    data.extend([0x06u8, 0x01, 0x44]);
    let records = extract_tlv(&data);
    assert_eq!(records.len(), 2);
    assert_eq!(records[0], (0x05u8, vec![0x33u8; 100]));
    assert_eq!(records[1], (0x06u8, vec![0x44u8]));
}

#[test]
fn tlv_stops_at_length_over_100() {
    let mut data = vec![0x01u8, 0x01, 0xAA, 0x05, 101];
    data.extend(std::iter::repeat(0x33u8).take(150));
    assert_eq!(extract_tlv(&data), vec![(0x01u8, vec![0xAAu8])]);
}

#[test]
fn tlv_first_record_too_long_gives_nothing() {
    let mut data = vec![0x01u8, 0xFF];
    data.extend(std::iter::repeat(0u8).take(300));
    assert!(extract_tlv(&data).is_empty());
}

#[test]
fn tlv_consumes_no_more_than_the_input() {
    let inputs: Vec<Vec<u8>> = vec![
        vec![],
        vec![0x00],
        vec![0x00, 0x00],
        vec![0x01, 0x03, 1, 2, 3, 0x02, 0x00, 0x03],
        vec![0x01, 0x64, 1, 2, 3],
        (0u8..=255).collect(),
        vec![0x10; 64],
    ];
    for data in inputs {
        let records = extract_tlv(&data);
        let consumed: usize = records.iter().map(|(_, v)| 2 + v.len()).sum();
        assert!(consumed <= data.len());
        assert!(records.iter().all(|(_, v)| v.len() <= 100));
    }
}

#[test]
fn tlv_decoding_twice_gives_the_same() {
    let data: Vec<u8> = (0u8..200).map(|i| i % 7).collect();
    assert_eq!(extract_tlv(&data), extract_tlv(&data));
}

#[test]
fn marker_short_input_is_unmarked() {
    assert!(!has_rune_marker(&[]));
    assert!(!has_rune_marker(&[0x00]));
    assert!(!has_rune_marker(&[0x00, 0x05]));
    assert!(!has_rune_marker(&[0x00, 0x00, 0x00]));
    assert!(!has_rune_marker(&[0x52, 0x55, 0x4E]));
}

#[test]
fn marker_four_zero_bytes() {
    assert!(has_rune_marker(&[0x00, 0x00, 0x00, 0x00]));
}

#[test]
fn marker_signature() {
    assert!(has_rune_marker(&[0x52, 0x55, 0x4E, 0x45]));
    assert!(has_rune_marker(&[0x10, 0x20, 0x52, 0x55, 0x4E, 0x45, 0x30]));
    assert!(!has_rune_marker(&[0x52, 0x55, 0x4E, 0x44]));
}

#[test]
fn marker_zero_then_small_byte() {
    assert!(has_rune_marker(&[0x00, 0x05, 0x77, 0x88]));
    assert!(has_rune_marker(&[0x99, 0x00, 0x05, 0x77, 0x88]));
    assert!(has_rune_marker(&[0x00, 0x01, 0xFF, 0xFF]));
    assert!(has_rune_marker(&[0x00, 0x09, 0xFF, 0xFF]));
}

#[test]
fn marker_second_byte_out_of_range() {
    assert!(!has_rune_marker(&[0x00, 0x0A, 0x77, 0x88]));
    assert!(!has_rune_marker(&[0x00, 0x00, 0x77, 0x88]));
    assert!(!has_rune_marker(&[0x01, 0x05, 0x77, 0x88]));
}

#[test]
fn marker_pair_without_a_full_window_is_unmarked() {
    assert!(!has_rune_marker(&[0x01, 0x01, 0x00, 0x05]));
    assert!(!has_rune_marker(&[0x01, 0x01, 0x01, 0x00, 0x05, 0x01]));
    assert!(has_rune_marker(&[0x01, 0x01, 0x01, 0x00, 0x05, 0x01, 0x01]));
}
