use odoh_client::dns_utils::{build_dns_query, create_dns_query, parse_dns_answer, QueryError};
use trust_dns_proto::op::Message;
use trust_dns_proto::rr::{DNSClass, Name, RecordType};
use std::str::FromStr;

fn check_round_trip(domain: &str, token: &str, expected: RecordType) {
    let bytes = create_dns_query(domain, token).unwrap();
    let msg = Message::from_vec(&bytes).unwrap();
    assert_eq!(msg.queries().len(), 1);
    let q = &msg.queries()[0];
    assert_eq!(q.name(), &Name::from_str(domain).unwrap());
    assert_eq!(q.query_type(), expected);
    assert_eq!(q.query_class(), DNSClass::IN);
    assert!(msg.recursion_desired());
    assert_eq!(msg.answers().len(), 0);
}

#[test]
fn encoded_question_matches_input() {
    check_round_trip("example.com", "AAAA", RecordType::AAAA);
    check_round_trip("example.com.", "A", RecordType::A);
    check_round_trip("odoh.cloudflare-dns.com", "HTTPS", RecordType::HTTPS);
    check_round_trip("www.google.com", "TXT", RecordType::TXT);
    check_round_trip("example.org", "TYPE45", RecordType::Unknown(45));
    check_round_trip("example.org", "TYPE1", RecordType::A);
}

#[test]
fn invalid_name_is_reported_before_type() {
    let long_label = "a".repeat(64);
    let domain = format!("{}.com", long_label);
    assert_eq!(create_dns_query(&domain, "AAAA"), Err(QueryError::InvalidName));
    assert_eq!(create_dns_query(&domain, "BOGUS"), Err(QueryError::InvalidName));
}

#[test]
fn unknown_record_type_is_reported() {
    assert_eq!(create_dns_query("example.com", "BOGUS"), Err(QueryError::UnknownRecordType));
    assert_eq!(create_dns_query("example.com", "TYPE70000"), Err(QueryError::UnknownRecordType));
}

#[test]
fn answer_parsing() {
    let bytes = create_dns_query("example.com", "A").unwrap();
    assert!(parse_dns_answer(&bytes).is_ok());
    assert_eq!(parse_dns_answer(&[0x12, 0x34, 0x01]).err(), Some(QueryError::Decode));
}

#[test]
fn wire_layout_of_a_query() {
    let b = build_dns_query("example.com", "AAAA", 0x1234).unwrap();
    let expected: Vec<u8> = vec![
        0x12, 0x34, 0x01, 0x00, 0x00, 0x01, 0, 0, 0, 0, 0, 0, 7, b'e', b'x', b'a', b'm', b'p', b'l',
        b'e', 3, b'c', b'o', b'm', 0, 0x00, 0x1c, 0x00, 0x01,
    ];
    assert_eq!(b, expected);
    let r = create_dns_query("example.com", "AAAA").unwrap();
    assert_eq!(r.len(), 29);
    assert_eq!(r[2..], expected[2..]);
}

#[test]
fn numeric_type_code_reaches_the_wire() {
    let b = build_dns_query("example.org", "TYPE4660", 7).unwrap();
    assert_eq!(b[b.len() - 4..], [0x12, 0x34, 0x00, 0x01]);
    assert_eq!(b[0..2], [0, 7]);
}

#[test]
fn two_queries_differ_only_in_id() {
    let a = create_dns_query("example.com", "MX").unwrap();
    let b = create_dns_query("example.com", "MX").unwrap();
    assert_eq!(a.len(), b.len());
    assert_eq!(a[2..], b[2..]);
    assert_eq!(build_dns_query("example.com", "MX", 9), build_dns_query("example.com", "MX", 9));
}
