use glean_core::ping::{parse_queued_ping, scan_queued_pings};

#[test]
fn well_formed_record_is_parsed_into_its_two_lines() {
    let content = b"https://incoming.example/submit/the-app/baseline\n{\"seq\":1}\n";
    let parsed = parse_queued_ping(content).unwrap();
    assert_eq!(parsed.url, b"https://incoming.example/submit/the-app/baseline".to_vec());
    assert_eq!(parsed.body, b"{\"seq\":1}".to_vec());
}

#[test]
fn record_without_a_second_line_is_discarded() {
    assert!(parse_queued_ping(b"https://incoming.example/submit").is_none());
    assert!(parse_queued_ping(b"").is_none());
}

#[test]
fn record_with_an_empty_second_line_is_discarded() {
    assert!(parse_queued_ping(b"https://incoming.example/submit\n").is_none());
}

#[test]
fn record_with_unparsable_json_is_discarded() {
    assert!(parse_queued_ping(b"https://incoming.example/submit\n{not json}\n").is_none());
}

#[test]
fn bare_json_scalar_is_a_valid_payload() {
    let parsed = parse_queued_ping(b"https://incoming.example/submit\n42").unwrap();
    assert_eq!(parsed.body, b"42".to_vec());
}

#[test]
fn lines_after_the_payload_are_ignored() {
    let parsed = parse_queued_ping(b"url\n{\"a\":true}\nheaders: ignored\n").unwrap();
    assert_eq!(parsed.url, b"url".to_vec());
    assert_eq!(parsed.body, b"{\"a\":true}".to_vec());
}

#[test]
fn scan_keeps_only_the_well_formed_records() {
    let files: Vec<Vec<u8>> = vec![
        b"https://incoming.example/submit\n{\"reason\":\"baseline\"}\n".to_vec(),
        b"https://incoming.example/submit\nnot-a-json-document\n".to_vec(),
    ];
    let records = scan_queued_pings(&files);
    assert_eq!(records.len(), 1);
    assert_eq!(records[0].url, b"https://incoming.example/submit".to_vec());
    assert_eq!(records[0].body, b"{\"reason\":\"baseline\"}".to_vec());
}

#[test]
fn scan_keeps_the_order_of_the_well_formed_records() {
    let files: Vec<Vec<u8>> = vec![
        b"first\n1\n".to_vec(),
        b"no-second-line".to_vec(),
        b"second\n2\n".to_vec(),
    ];
    let records = scan_queued_pings(&files);
    assert_eq!(records.len(), 2);
    assert_eq!(records[0].url, b"first".to_vec());
    assert_eq!(records[0].body, b"1".to_vec());
    assert_eq!(records[1].url, b"second".to_vec());
    assert_eq!(records[1].body, b"2".to_vec());
}

#[test]
fn scan_of_no_files_finds_nothing() {
    let files: Vec<Vec<u8>> = Vec::new();
    assert!(scan_queued_pings(&files).is_empty());
}
