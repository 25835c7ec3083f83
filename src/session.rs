use vstd::prelude::*;
use vstd::string::*;
use crate::config::Config;
use crate::discovery::DiscoveryError;
use crate::dns_utils::{create_dns_query, name_accepted, query_outcome, QueryError};
use crate::record_type::query_type_of;
use odoh_rs::protocol::{ObliviousDoHConfigContents, ObliviousDoHQueryBody};
use url::Url;

verus! {

#[verifier::external_type_specification]
#[verifier::external_body]
pub struct ExUrl(Url);

#[verifier::external_type_specification]
#[verifier::external_body]
pub struct ExUrlParseError(url::ParseError);

#[verifier::external_type_specification]
#[verifier::external_body]
pub struct ExConfigContents(ObliviousDoHConfigContents);

#[verifier::external_type_specification]
#[verifier::external_body]
pub struct ExAnyhowError(anyhow::Error);

/// Path on the target (and on the proxy) that takes oblivious queries.
pub const QUERY_PATH: &'static str = "/dns-query";

/// Media type of oblivious DNS messages, sent as content type and accepted type.
pub const ODOH_MEDIA_TYPE: &'static str = "application/oblivious-dns-message";

/// Cache policy sent with every query.
pub const CACHE_POLICY: &'static str = "no-cache, no-store";

/// Padding length handed to encapsulation with every query.
pub const QUERY_PADDING: usize = 1;

/// HTTP status code of a successful answer.
pub const HTTP_OK: u16 = 200;

/// Where a session stands: its stages follow each other once, in this order.
#[derive(Clone, Copy, Debug, PartialEq, Eq, Structural)]
pub enum SessionState {
    /// Endpoints and the target's configuration are known.
    Initialized,
    /// A query was encoded and encapsulated; its secret is kept.
    RequestBuilt,
    /// The answer was decapsulated.
    Completed,
}

/// Why a session step failed.
#[derive(Clone, Copy, Debug, PartialEq, Eq, Structural)]
pub enum SessionError {
    /// The target URL does not parse or names no host.
    InvalidTargetUrl,
    /// The proxy URL does not parse.
    InvalidProxyUrl,
    /// The domain or record type is rejected, or the query cannot be written.
    InvalidInput(QueryError),
    /// The target's configuration could not be had.
    DiscoveryFailure(DiscoveryError),
    /// Encapsulation or decapsulation failed.
    ProtocolFailure,
    /// The HTTP answer did not carry status OK.
    TransportFailure { status: u16 },
    /// The step was invoked out of order.
    StateError,
}

/// What `Url::parse` makes of the text: `None` when it refuses it, else the
/// URL's host, if it has one.
pub uninterp spec fn parsed_url_host(s: Seq<char>) -> Option<Option<Seq<char>>>;

/// Whether the configuration bytes hold a configuration of the supported version.
pub uninterp spec fn supported_config_found(b: Seq<u8>) -> bool;

/// The DNS message that decapsulating `response` yields, for the client
/// secret and the query (DNS message and padding length) it answers; `None`
/// when decapsulation fails.
pub uninterp spec fn decapsulated(secret: Seq<u8>, response: Seq<u8>, query_msg: Seq<u8>, padding: nat) -> Option<Seq<u8>>;

/// Relies on `Url::parse` and `Url::host_str` (url): the parsed URL and its
/// host, or the refusal, depending on the text alone.
#[verifier::external_body]
fn parse_url_host(s: &str) -> (r: Result<(Url, Option<String>), url::ParseError>)
    ensures
        r is Ok <==> parsed_url_host(s@) is Some,
        r is Ok ==> (r->Ok_0.1 is Some <==> parsed_url_host(s@)->0 is Some),
        r is Ok && r->Ok_0.1 is Some ==> r->Ok_0.1->0@ == parsed_url_host(s@)->0->0,
{
    let u = Url::parse(s)?;
    let host = u.host_str().map(|h| h.to_string());
    Ok((u, host))
}

/// Relies on `Url::set_path` (url): replaces the URL's path.
#[verifier::external_body]
fn set_url_path(u: &mut Url, path: &str) {
    u.set_path(path)
}

/// Relies on `get_supported_config` (odoh-rs): decodes a list of
/// configurations and picks the one of the supported version, depending on
/// the bytes alone. It indexes the two length bytes without a check, hence
/// the bound.
#[verifier::external_body]
fn decode_supported_config(b: &[u8]) -> (r: Result<ObliviousDoHConfigContents, anyhow::Error>)
    requires
        b@.len() >= 2,
    ensures
        r is Ok <==> supported_config_found(b@),
{
    odoh_rs::protocol::get_supported_config(b)
}

/// Relies on `ObliviousDoHQueryBody::new` and `create_query_msg` (odoh-rs):
/// encrypts the DNS message, padded with `padding` zero bytes, for the
/// target's configuration with fresh randomness; the encrypted message and
/// the client secret, or an error.
#[verifier::external_body]
fn encapsulate(config: &ObliviousDoHConfigContents, dns_msg: &[u8], padding: usize)
    -> (r: Result<(Vec<u8>, Vec<u8>), anyhow::Error>)
{
    odoh_rs::protocol::create_query_msg(config, &ObliviousDoHQueryBody::new(dns_msg, Some(padding)))
}

/// Relies on `ObliviousDoHQueryBody::new` and `parse_received_response`
/// (odoh-rs): decrypts the answer with the client secret and the query it
/// answers; the DNS message it carries. Decryption depends on the arguments alone.
#[verifier::external_body]
fn decapsulate(secret: &[u8], response: &[u8], dns_msg: &[u8], padding: usize) -> (r: Result<Vec<u8>, anyhow::Error>)
    ensures
        r is Ok <==> decapsulated(secret@, response@, dns_msg@, padding as nat) is Some,
        r is Ok ==> r->Ok_0@ == decapsulated(secret@, response@, dns_msg@, padding as nat)->0,
{
    let query = ObliviousDoHQueryBody::new(dns_msg, Some(padding));
    odoh_rs::protocol::parse_received_response(secret, response, &query).map(|b| b.dns_msg)
}

/// The URLs of a configuration are usable: the target parses and has a
/// host, and the proxy, if any, parses.
pub open spec fn endpoints_valid(config: Config) -> bool {
    &&& parsed_url_host(config.server.target@) matches Some(h) && h is Some
    &&& config.server.proxy is None || parsed_url_host(config.server.proxy->0@) is Some
}

/// The error that the URLs of a configuration give, if any.
pub open spec fn endpoints_error(config: Config) -> Option<SessionError> {
    if !(parsed_url_host(config.server.target@) matches Some(h) && h is Some) {
        Some(SessionError::InvalidTargetUrl)
    } else if !(config.server.proxy is None || parsed_url_host(config.server.proxy->0@) is Some) {
        Some(SessionError::InvalidProxyUrl)
    } else {
        None
    }
}

/// Checks the target and proxy URLs, before anything is fetched for them.
pub fn check_endpoints(config: &Config) -> (r: Result<(), SessionError>)
    ensures
        r is Ok <==> endpoints_error(*config) is None,
        r is Err ==> r->Err_0 == endpoints_error(*config)->0,
{
    match parse_url_host(config.server.target.as_str()) {
        Ok((_, Some(_))) => {},
        _ => return Err(SessionError::InvalidTargetUrl),
    }
    match &config.server.proxy {
        Some(p) => match parse_url_host(p.as_str()) {
            Ok(_) => Ok(()),
            Err(_) => Err(SessionError::InvalidProxyUrl),
        },
        None => Ok(()),
    }
}

/// One oblivious query from start to end: endpoints, the target's
/// configuration, and, once built, the query and its client secret.
pub struct ClientSession {
    /// Target URL, its path set to the query path.
    pub target: Url,
    /// Host of the target URL.
    pub target_host: String,
    /// Proxy URL, its path set to the query path.
    pub proxy: Option<Url>,
    pub client_secret: Option<Vec<u8>>,
    pub target_config: ObliviousDoHConfigContents,
    /// The plaintext DNS query, once built; it is sent with `QUERY_PADDING`
    /// bytes of padding.
    pub query_msg: Option<Vec<u8>>,
    pub state: SessionState,
}

impl ClientSession {
    /// The query and its secret are held exactly once a request was built.
    pub open spec fn wf(&self) -> bool {
        match self.state {
            SessionState::Initialized => self.client_secret is None && self.query_msg is None,
            _ => self.client_secret is Some && self.query_msg is Some,
        }
    }

    /// The same endpoints and configuration.
    pub open spec fn same_endpoints(&self, other: &ClientSession) -> bool {
        self.target == other.target && self.target_host == other.target_host
            && self.proxy == other.proxy && self.target_config == other.target_config
    }

    /// Starts a session: parses the target and proxy URLs and sets their
    /// path to the query path, then decodes the target's configuration from
    /// the discovered configuration bytes.
    pub fn new(config: &Config, odohconfig: &[u8]) -> (r: Result<Self, SessionError>)
        ensures
            endpoints_error(*config) is Some ==> r == Err::<Self, SessionError>(endpoints_error(*config)->0),
            endpoints_error(*config) is None && !(odohconfig@.len() >= 2 && supported_config_found(odohconfig@))
                ==> r == Err::<Self, SessionError>(
                    SessionError::DiscoveryFailure(DiscoveryError::UnsupportedConfig)),
            endpoints_error(*config) is None && odohconfig@.len() >= 2 && supported_config_found(odohconfig@)
                ==> r is Ok,
            r is Ok ==> {
                &&& r->Ok_0.wf()
                &&& r->Ok_0.state == SessionState::Initialized
                &&& r->Ok_0.target_host@ == parsed_url_host(config.server.target@)->0->0
                &&& r->Ok_0.proxy is Some == config.server.proxy is Some
            },
    {
        let (mut target, host) = match parse_url_host(config.server.target.as_str()) {
            Ok(pair) => pair,
            Err(_) => return Err(SessionError::InvalidTargetUrl),
        };
        let target_host = match host {
            Some(h) => h,
            None => return Err(SessionError::InvalidTargetUrl),
        };
        set_url_path(&mut target, QUERY_PATH);
        let proxy = match &config.server.proxy {
            Some(p) => {
                let (mut proxy_url, _) = match parse_url_host(p.as_str()) {
                    Ok(pair) => pair,
                    Err(_) => return Err(SessionError::InvalidProxyUrl),
                };
                set_url_path(&mut proxy_url, QUERY_PATH);
                Some(proxy_url)
            },
            None => None,
        };
        if odohconfig.len() < 2 {
            return Err(SessionError::DiscoveryFailure(DiscoveryError::UnsupportedConfig));
        }
        let target_config = match decode_supported_config(odohconfig) {
            Ok(c) => c,
            Err(_) => return Err(SessionError::DiscoveryFailure(DiscoveryError::UnsupportedConfig)),
        };
        Ok(ClientSession {
            target,
            target_host,
            proxy,
            client_secret: None,
            target_config,
            query_msg: None,
            state: SessionState::Initialized,
        })
    }

    /// Encodes a DNS query for `domain` and `qtype`, encapsulates it for the
    /// target, keeps the query and its client secret, and returns the
    /// encapsulated message. Only a freshly started session builds a request;
    /// on failure the session is left as it was.
    pub fn create_request(&mut self, domain: &str, qtype: &str) -> (r: Result<Vec<u8>, SessionError>)
        requires
            old(self).wf(),
        ensures
            final(self).wf(),
            final(self).same_endpoints(old(self)),
            r is Err ==> *final(self) == *old(self),
            old(self).state != SessionState::Initialized
                ==> r == Err::<Vec<u8>, SessionError>(SessionError::StateError),
            old(self).state == SessionState::Initialized ==> {
                &&& !name_accepted(domain@) ==> r == Err::<Vec<u8>, SessionError>(
                    SessionError::InvalidInput(QueryError::InvalidName))
                &&& name_accepted(domain@) && query_type_of(qtype@) is None
                    ==> r == Err::<Vec<u8>, SessionError>(
                        SessionError::InvalidInput(QueryError::UnknownRecordType))
                &&& name_accepted(domain@) && query_type_of(qtype@) is Some ==> {
                    &&& r is Ok ==> exists|id: u16| #[trigger] query_outcome(domain@, qtype@, id)
                        == Ok::<Seq<u8>, QueryError>(final(self).query_msg->0@)
                    &&& r == Err::<Vec<u8>, SessionError>(SessionError::InvalidInput(QueryError::Encode))
                        ==> exists|id: u16| #[trigger] query_outcome(domain@, qtype@, id)
                            == Err::<Seq<u8>, QueryError>(QueryError::Encode)
                    &&& r is Err ==> r == Err::<Vec<u8>, SessionError>(SessionError::InvalidInput(QueryError::Encode))
                        || r == Err::<Vec<u8>, SessionError>(SessionError::ProtocolFailure)
                }
            },
            r is Ok ==> final(self).state == SessionState::RequestBuilt,
    {
        if self.state != SessionState::Initialized {
            return Err(SessionError::StateError);
        }
        let dns_msg = match create_dns_query(domain, qtype) {
            Ok(m) => m,
            Err(e) => return Err(SessionError::InvalidInput(e)),
        };
        let (oblivious_query, client_secret) = match encapsulate(&self.target_config, dns_msg.as_slice(), QUERY_PADDING) {
            Ok(pair) => pair,
            Err(_) => return Err(SessionError::ProtocolFailure),
        };
        self.query_msg = Some(dns_msg);
        self.client_secret = Some(client_secret);
        self.state = SessionState::RequestBuilt;
        Ok(oblivious_query)
    }

    /// Where the encapsulated query is posted: the proxy if there is one,
    /// else the target.
    pub fn destination(&self) -> (r: &Url)
        ensures
            self.proxy is Some ==> *r == self.proxy->0,
            self.proxy is None ==> *r == self.target,
    {
        match &self.proxy {
            Some(p) => p,
            None => &self.target,
        }
    }

    /// The query parameters that tell a proxy the true destination:
    /// `targethost` and `targetpath`; none when posting to the target directly.
    pub fn target_query(&self) -> (r: Option<Vec<(String, String)>>)
        ensures
            self.proxy is None ==> r is None,
            self.proxy is Some ==> r is Some && r->0@.len() == 2
                && r->0@[0].0@ == "targethost"@ && r->0@[0].1@ == self.target_host@
                && r->0@[1].0@ == "targetpath"@ && r->0@[1].1@ == QUERY_PATH@,
    {
        if self.proxy.is_none() {
            return None;
        }
        let mut params: Vec<(String, String)> = Vec::new();
        params.push((String::from_str("targethost"), self.target_host.clone()));
        params.push((String::from_str("targetpath"), String::from_str(QUERY_PATH)));
        Some(params)
    }

    /// Reads the HTTP answer to the built request: its status first, then,
    /// for status OK on a session with a built request, its body, which is
    /// decapsulated with the kept secret and query into the DNS answer
    /// message. On failure the session is left as it was.
    pub fn parse_response(&mut self, status: u16, body: &[u8]) -> (r: Result<Vec<u8>, SessionError>)
        requires
            old(self).wf(),
        ensures
            final(self).wf(),
            final(self).same_endpoints(old(self)),
            r is Err ==> *final(self) == *old(self),
            status != HTTP_OK ==> r == Err::<Vec<u8>, SessionError>(SessionError::TransportFailure { status }),
            status == HTTP_OK && old(self).state != SessionState::RequestBuilt
                ==> r == Err::<Vec<u8>, SessionError>(SessionError::StateError),
            status == HTTP_OK && old(self).state == SessionState::RequestBuilt ==> {
                let d = decapsulated(old(self).client_secret->0@, body@, old(self).query_msg->0@, QUERY_PADDING as nat);
                &&& r is Ok <==> d is Some
                &&& r is Ok ==> r->Ok_0@ == d->0
                &&& r is Err ==> r == Err::<Vec<u8>, SessionError>(SessionError::ProtocolFailure)
            },
            r is Ok ==> final(self).state == SessionState::Completed
                && final(self).client_secret == old(self).client_secret
                && final(self).query_msg == old(self).query_msg,
    {
        if status != HTTP_OK {
            return Err(SessionError::TransportFailure { status });
        }
        if self.state != SessionState::RequestBuilt {
            return Err(SessionError::StateError);
        }
        let answer = match (&self.client_secret, &self.query_msg) {
            (Some(secret), Some(query_msg)) => match decapsulate(secret.as_slice(), body, query_msg.as_slice(), QUERY_PADDING) {
                Ok(m) => m,
                Err(_) => return Err(SessionError::ProtocolFailure),
            },
            _ => return Err(SessionError::StateError),
        };
        self.state = SessionState::Completed;
        Ok(answer)
    }
}

/// The headers of every query post, as name and value: content type and
/// accepted type set to the oblivious DNS media type, and no caching.
pub fn request_headers() -> (r: Vec<(String, String)>)
    ensures
        r@.len() == 3,
        r@[0].0@ == "content-type"@ && r@[0].1@ == ODOH_MEDIA_TYPE@,
        r@[1].0@ == "accept"@ && r@[1].1@ == ODOH_MEDIA_TYPE@,
        r@[2].0@ == "cache-control"@ && r@[2].1@ == CACHE_POLICY@,
{
    let mut h: Vec<(String, String)> = Vec::new();
    h.push((String::from_str("content-type"), String::from_str(ODOH_MEDIA_TYPE)));
    h.push((String::from_str("accept"), String::from_str(ODOH_MEDIA_TYPE)));
    h.push((String::from_str("cache-control"), String::from_str(CACHE_POLICY)));
    h
}

} // verus!
