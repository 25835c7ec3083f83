use hpke::Serializable;
use odoh_client::config::{Config, Server};
use odoh_client::discovery::DiscoveryError;
use odoh_client::dns_utils::QueryError;
use odoh_client::session::{
    check_endpoints, request_headers, ClientSession, SessionError, SessionState, ODOH_MEDIA_TYPE,
};
use odoh_rs::protocol::{
    create_response_msg, parse_received_query, ObliviousDoHConfig, ObliviousDoHConfigContents,
    ObliviousDoHConfigs, ObliviousDoHKeyPair, Serialize,
};

fn key_pair() -> ObliviousDoHKeyPair {
    let (private_key, public_key) = odoh_rs::key_utils::derive_keypair_from_seed(&[7u8; 32]);
    ObliviousDoHKeyPair {
        private_key,
        public_key: ObliviousDoHConfigContents {
            kem_id: 0x0020,
            kdf_id: 0x0001,
            aead_id: 0x0001,
            public_key: public_key.to_bytes().to_vec(),
        },
    }
}

fn config_bytes(kp: &ObliviousDoHKeyPair) -> Vec<u8> {
    let contents = kp.public_key.to_bytes().unwrap();
    let configs = ObliviousDoHConfigs {
        configs: vec![ObliviousDoHConfig::new(&contents).unwrap()],
    };
    configs.to_bytes().unwrap()
}

fn config(target: &str, proxy: Option<&str>) -> Config {
    Config {
        server: Server {
            target: target.to_string(),
            proxy: proxy.map(|p| p.to_string()),
        },
    }
}

#[test]
fn new_normalizes_urls() {
    let kp = key_pair();
    let s = ClientSession::new(
        &config("https://target.example/some/path", Some("https://proxy.example/x")),
        &config_bytes(&kp),
    )
    .unwrap();
    assert_eq!(s.target.as_str(), "https://target.example/dns-query");
    assert_eq!(s.proxy.as_ref().unwrap().as_str(), "https://proxy.example/dns-query");
    assert_eq!(s.target_host, "target.example");
    assert_eq!(s.state, SessionState::Initialized);
    assert_eq!(s.destination().as_str(), "https://proxy.example/dns-query");
    assert_eq!(
        s.target_query(),
        Some(vec![
            ("targethost".to_string(), "target.example".to_string()),
            ("targetpath".to_string(), "/dns-query".to_string()),
        ])
    );
}

#[test]
fn without_proxy_posts_to_target() {
    let kp = key_pair();
    let s = ClientSession::new(&config("https://target.example", None), &config_bytes(&kp)).unwrap();
    assert_eq!(s.destination().as_str(), "https://target.example/dns-query");
    assert_eq!(s.target_query(), None);
}

#[test]
fn new_rejects_bad_input() {
    let kp = key_pair();
    let bytes = config_bytes(&kp);
    assert_eq!(
        ClientSession::new(&config("not a url", None), &bytes).err(),
        Some(SessionError::InvalidTargetUrl)
    );
    assert_eq!(
        ClientSession::new(&config("https://t.example", Some("::bad")), &bytes).err(),
        Some(SessionError::InvalidProxyUrl)
    );
    assert_eq!(
        ClientSession::new(&config("https://t.example", None), &[0]).err(),
        Some(SessionError::DiscoveryFailure(DiscoveryError::UnsupportedConfig))
    );
    assert_eq!(
        ClientSession::new(&config("https://t.example", None), &[0, 0]).err(),
        Some(SessionError::DiscoveryFailure(DiscoveryError::UnsupportedConfig))
    );
}

#[test]
fn headers_are_fixed() {
    let h = request_headers();
    assert_eq!(h[0], ("content-type".to_string(), "application/oblivious-dns-message".to_string()));
    assert_eq!(h[1], ("accept".to_string(), "application/oblivious-dns-message".to_string()));
    assert_eq!(h[2], ("cache-control".to_string(), "no-cache, no-store".to_string()));
}

#[test]
fn response_before_request_is_a_state_error() {
    let kp = key_pair();
    let mut s = ClientSession::new(&config("https://t.example", None), &config_bytes(&kp)).unwrap();
    assert_eq!(s.parse_response(200, &[1, 2, 3]), Err(SessionError::StateError));
    assert_eq!(s.state, SessionState::Initialized);
}

#[test]
fn request_errors_leave_session_fresh() {
    let kp = key_pair();
    let mut s = ClientSession::new(&config("https://t.example", None), &config_bytes(&kp)).unwrap();
    assert_eq!(
        s.create_request("example.com", "BOGUS"),
        Err(SessionError::InvalidInput(QueryError::UnknownRecordType))
    );
    assert_eq!(s.state, SessionState::Initialized);
    assert!(s.client_secret.is_none());
}

#[test]
fn non_ok_status_is_a_transport_failure() {
    let kp = key_pair();
    let mut s = ClientSession::new(&config("https://t.example", None), &config_bytes(&kp)).unwrap();
    s.create_request("example.com", "AAAA").unwrap();
    assert_eq!(s.state, SessionState::RequestBuilt);
    assert_eq!(s.parse_response(502, &[]), Err(SessionError::TransportFailure { status: 502 }));
    assert_eq!(s.parse_response(200, &[1, 2, 3]), Err(SessionError::ProtocolFailure));
    assert_eq!(s.state, SessionState::RequestBuilt);
    assert_eq!(s.create_request("example.com", "AAAA"), Err(SessionError::StateError));
}

#[test]
fn full_cycle_echoes_query() {
    let kp = key_pair();
    let mut s = ClientSession::new(
        &config("https://t.example", Some("https://p.example")),
        &config_bytes(&kp),
    )
    .unwrap();
    let request = s.create_request("example.com", "AAAA").unwrap();
    let rt = tokio::runtime::Builder::new_current_thread().build().unwrap();
    let response = rt.block_on(async {
        let (query, server_secret) = parse_received_query(&kp, &request).await.unwrap();
        create_response_msg(&server_secret, &query.dns_msg, None, None, &query)
            .await
            .unwrap()
    });
    let answer = s.parse_response(200, &response).unwrap();
    assert_eq!(&answer, s.query_msg.as_ref().unwrap());
    assert!(odoh_client::dns_utils::parse_dns_answer(&answer).is_ok());
    assert_eq!(s.state, SessionState::Completed);
    assert_eq!(s.parse_response(200, &response), Err(SessionError::StateError));
}

#[test]
fn non_ok_status_before_request_is_a_transport_failure() {
    let kp = key_pair();
    let mut s = ClientSession::new(&config("https://t.example", None), &config_bytes(&kp)).unwrap();
    assert_eq!(s.parse_response(404, &[]), Err(SessionError::TransportFailure { status: 404 }));
    assert_eq!(s.state, SessionState::Initialized);
}

#[test]
fn endpoints_are_checked_before_discovery() {
    assert_eq!(check_endpoints(&config("https://t.example", None)), Ok(()));
    assert_eq!(check_endpoints(&config("https://t.example", Some("https://p.example"))), Ok(()));
    assert_eq!(check_endpoints(&config("not a url", None)), Err(SessionError::InvalidTargetUrl));
    assert_eq!(check_endpoints(&config("mailto:someone@t.example", None)), Err(SessionError::InvalidTargetUrl));
    assert_eq!(
        check_endpoints(&config("https://t.example", Some("::bad"))),
        Err(SessionError::InvalidProxyUrl)
    );
}

#[test]
fn media_type_is_the_protocol_library_one() {
    assert_eq!(ODOH_MEDIA_TYPE, odoh_rs::protocol::ODOH_HTTP_HEADER);
}

#[test]
fn stored_query_holds_the_question() {
    let kp = key_pair();
    let mut s = ClientSession::new(&config("https://t.example", None), &config_bytes(&kp)).unwrap();
    s.create_request("example.com", "AAAA").unwrap();
    let msg = trust_dns_proto::op::Message::from_vec(s.query_msg.as_ref().unwrap()).unwrap();
    assert_eq!(msg.queries().len(), 1);
    assert_eq!(msg.queries()[0].query_type(), trust_dns_proto::rr::RecordType::AAAA);
}
