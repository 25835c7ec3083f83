use odoh_client::discovery::{config_from_well_known, DiscoveryError, ODOH_CONFIG_VERSION};
use odoh_client::extract::{encode_hex, extract_config, ExtractError};

fn unhex(s: &str) -> Vec<u8> {
    (0..s.len() / 2)
        .map(|i| u8::from_str_radix(&s[2 * i..2 * i + 2], 16).unwrap())
        .collect()
}

#[test]
fn encode_hex_is_lower_case_two_digits_per_byte() {
    assert_eq!(encode_hex(&[0x00, 0x0f, 0xa0, 0xff]), b"000fa0ff".to_vec());
    assert_eq!(encode_hex(&[]), Vec::<u8>::new());
}

#[test]
fn extracts_from_length_field_through_end() {
    let payload = unhex(
        "8001002e002cff0400280020000100010020f150567d5bfd7ffbb20f52b73cce923f0654e37265d7065dc5d6bfc8912b3e5e",
    );
    let expected = unhex(
        "002cff0400280020000100010020f150567d5bfd7ffbb20f52b73cce923f0654e37265d7065dc5d6bfc8912b3e5e",
    );
    assert_eq!(extract_config(&payload, 0xff04), Ok(expected));
}

#[test]
fn repeated_tag_inside_value_is_kept() {
    let payload = unhex("000100050028ff06aabbff06ccddff06");
    let expected = unhex("0028ff06aabbff06ccddff06");
    assert_eq!(extract_config(&payload, 0xff06), Ok(expected));
}

#[test]
fn absent_tag_is_reported() {
    let payload = unhex("0001000200030004");
    assert_eq!(extract_config(&payload, 0xff06), Err(ExtractError::TagNotFound));
    assert_eq!(extract_config(&[], 0xff06), Err(ExtractError::TagNotFound));
}

#[test]
fn tag_without_length_field_is_truncated() {
    let payload = unhex("ff060001");
    assert_eq!(extract_config(&payload, 0xff06), Err(ExtractError::TruncatedPrefix));
    let payload = unhex("00ff0600");
    assert_eq!(extract_config(&payload, 0xff06), Err(ExtractError::TruncatedPrefix));
}

#[test]
fn tag_at_odd_position_is_malformed_hex() {
    // hex "12340ff06a": the tag starts at the fifth hex character
    let payload = vec![0x12, 0x34, 0x0f, 0xf0, 0x6a];
    assert_eq!(extract_config(&payload, 0xff06), Err(ExtractError::MalformedHex));
}

#[test]
fn well_known_body_uses_supported_version() {
    assert_eq!(ODOH_CONFIG_VERSION, 0xff06);
    assert_eq!(ODOH_CONFIG_VERSION, odoh_rs::protocol::ODOH_VERSION);
    let body = unhex("0024002cff0600280020");
    assert_eq!(config_from_well_known(&body), Ok(unhex("002cff0600280020")));
    assert_eq!(
        config_from_well_known(&unhex("002cff04")),
        Err(DiscoveryError::Extract(ExtractError::TagNotFound))
    );
}
