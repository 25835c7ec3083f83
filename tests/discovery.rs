use odoh_client::discovery::{
    config_from_dns_answer, dns_lookup_for, well_known_url, DiscoveryError, DNS_DISCOVERY_TARGET,
    HTTPS_RECORD_CODE,
};
use odoh_client::extract::ExtractError;

#[test]
fn well_known_url_appends_path() {
    assert_eq!(
        well_known_url("https://odoh.example.net"),
        "https://odoh.example.net/.well-known/odohconfigs"
    );
}

#[test]
fn unsupported_target_for_dns_path() {
    assert_eq!(
        dns_lookup_for("https://odoh.example.net").err(),
        Some(DiscoveryError::UnsupportedTarget)
    );
    assert_eq!(dns_lookup_for("").err(), Some(DiscoveryError::UnsupportedTarget));
}

#[test]
fn supported_target_for_dns_path() {
    let l = dns_lookup_for(DNS_DISCOVERY_TARGET).unwrap();
    assert_eq!(l.domain, "odoh.cloudflare-dns.com");
    assert_eq!(l.resolver, "1.1.1.1:53");
    assert_eq!(l.record_type, 65);
}

#[test]
fn dns_answer_outcomes() {
    assert_eq!(config_from_dns_answer(None), Err(DiscoveryError::NoResponse));
    assert_eq!(config_from_dns_answer(Some(vec![])), Err(DiscoveryError::EmptyAnswer));
    assert_eq!(
        config_from_dns_answer(Some(vec![
            (HTTPS_RECORD_CODE, vec![0, 5, 0, 2, 0xff, 0x06]),
            (HTTPS_RECORD_CODE, vec![0, 5, 0, 2, 0xff, 0x06]),
        ])),
        Err(DiscoveryError::MultipleAnswers)
    );
    assert_eq!(
        config_from_dns_answer(Some(vec![(1, vec![0, 5, 0, 2, 0xff, 0x06])])),
        Err(DiscoveryError::UnexpectedRecordType)
    );
    assert_eq!(
        config_from_dns_answer(Some(vec![(HTTPS_RECORD_CODE, vec![0, 5, 0, 2, 0xff, 0x06, 9])])),
        Ok(vec![0, 2, 0xff, 0x06, 9])
    );
    assert_eq!(
        config_from_dns_answer(Some(vec![(HTTPS_RECORD_CODE, vec![0, 5])])),
        Err(DiscoveryError::Extract(ExtractError::TagNotFound))
    );
}
