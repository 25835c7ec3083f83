use vstd::prelude::*;
use vstd::string::*;
use crate::extract::{extract_config, extracted, ExtractError};
use crate::text::same_text;

verus! {

/// Configuration version that the oblivious-encryption library supports; its
/// two bytes mark the configuration inside an HTTPS record.
pub const ODOH_CONFIG_VERSION: u16 = 0xff06;

/// The one target whose configuration can be looked up over DNS.
pub const DNS_DISCOVERY_TARGET: &'static str = "https://odoh.cloudflare-dns.com";

/// The domain whose HTTPS record carries that target's configuration.
pub const DNS_DISCOVERY_DOMAIN: &'static str = "odoh.cloudflare-dns.com";

/// The resolver asked for that record, over UDP.
pub const DNS_DISCOVERY_RESOLVER: &'static str = "1.1.1.1:53";

/// The record-type code of an HTTPS record.
pub const HTTPS_RECORD_CODE: u16 = 65;

/// Path under a target where its configurations are served over HTTP.
pub const WELL_KNOWN_PATH: &'static str = "/.well-known/odohconfigs";

/// Why the target's configuration could not be discovered.
#[derive(Clone, Copy, Debug, PartialEq, Eq, Structural)]
pub enum DiscoveryError {
    /// DNS discovery is offered for one fixed target only.
    UnsupportedTarget,
    /// The resolver's connection ended before an answer came.
    NoResponse,
    /// The answer holds no records.
    EmptyAnswer,
    /// The answer holds more than the one expected record.
    MultipleAnswers,
    /// The answer's record is not of the HTTPS type.
    UnexpectedRecordType,
    /// The configuration could not be cut out of the record.
    Extract(ExtractError),
    /// The configuration bytes hold no configuration of the supported version.
    UnsupportedConfig,
}

/// What to ask over DNS: which domain's HTTPS record, and of which resolver.
#[derive(Clone, Debug)]
pub struct DnsLookup {
    pub domain: String,
    pub resolver: String,
    pub record_type: u16,
}

/// The URL from which a target serves its configurations.
pub fn well_known_url(target: &str) -> (r: String)
    ensures
        r@ == target@ + WELL_KNOWN_PATH@,
{
    let mut r = String::from_str(target);
    r.append(WELL_KNOWN_PATH);
    r
}

/// Decides the DNS lookup for a target, before any network traffic: only the
/// fixed target is supported.
pub fn dns_lookup_for(target: &str) -> (r: Result<DnsLookup, DiscoveryError>)
    ensures
        target@ != DNS_DISCOVERY_TARGET@
            ==> (r is Err && r->Err_0 == DiscoveryError::UnsupportedTarget),
        target@ == DNS_DISCOVERY_TARGET@ ==> (r is Ok && r->Ok_0.domain@ == DNS_DISCOVERY_DOMAIN@
            && r->Ok_0.resolver@ == DNS_DISCOVERY_RESOLVER@ && r->Ok_0.record_type == HTTPS_RECORD_CODE),
{
    if !same_text(target, DNS_DISCOVERY_TARGET) {
        return Err(DiscoveryError::UnsupportedTarget);
    }
    Ok(DnsLookup {
        domain: String::from_str(DNS_DISCOVERY_DOMAIN),
        resolver: String::from_str(DNS_DISCOVERY_RESOLVER),
        record_type: HTTPS_RECORD_CODE,
    })
}

/// Lifts an extraction result into discovery's error type.
pub open spec fn extracted_for_discovery(p: Seq<u8>) -> Result<Seq<u8>, DiscoveryError> {
    match extracted(p, ODOH_CONFIG_VERSION) {
        Ok(c) => Ok(c),
        Err(e) => Err(DiscoveryError::Extract(e)),
    }
}

fn extract_for_discovery(p: &[u8]) -> (r: Result<Vec<u8>, DiscoveryError>)
    requires
        p@.len() * 2 <= usize::MAX,
    ensures
        match r {
            Ok(v) => extracted_for_discovery(p@) == Ok::<Seq<u8>, DiscoveryError>(v@),
            Err(e) => extracted_for_discovery(p@) == Err::<Seq<u8>, DiscoveryError>(e),
        },
{
    match extract_config(p, ODOH_CONFIG_VERSION) {
        Ok(v) => Ok(v),
        Err(e) => Err(DiscoveryError::Extract(e)),
    }
}

/// The configuration bytes carried in the body served at the well-known path.
pub fn config_from_well_known(body: &[u8]) -> (r: Result<Vec<u8>, DiscoveryError>)
    requires
        body@.len() * 2 <= usize::MAX,
    ensures
        match r {
            Ok(v) => extracted_for_discovery(body@) == Ok::<Seq<u8>, DiscoveryError>(v@),
            Err(e) => extracted_for_discovery(body@) == Err::<Seq<u8>, DiscoveryError>(e),
        },
{
    extract_for_discovery(body)
}

/// The configuration bytes carried in a DNS answer, given as the record type
/// code and record data of each answer record, or `None` when the resolver's
/// connection ended first. The answer must hold exactly one record, an HTTPS
/// record.
pub fn config_from_dns_answer(answer: Option<Vec<(u16, Vec<u8>)>>) -> (r: Result<Vec<u8>, DiscoveryError>)
    requires
        answer is Some && answer->0@.len() > 0 ==> answer->0@[0].1@.len() * 2 <= usize::MAX,
    ensures
        answer is None ==> (r is Err && r->Err_0 == DiscoveryError::NoResponse),
        answer is Some && answer->0@.len() == 0 ==> (r is Err && r->Err_0 == DiscoveryError::EmptyAnswer),
        answer is Some && answer->0@.len() > 1 ==> (r is Err && r->Err_0 == DiscoveryError::MultipleAnswers),
        answer is Some && answer->0@.len() == 1 && answer->0@[0].0 != HTTPS_RECORD_CODE
            ==> (r is Err && r->Err_0 == DiscoveryError::UnexpectedRecordType),
        answer is Some && answer->0@.len() == 1 && answer->0@[0].0 == HTTPS_RECORD_CODE ==> match r {
            Ok(v) => extracted_for_discovery(answer->0@[0].1@) == Ok::<Seq<u8>, DiscoveryError>(v@),
            Err(e) => extracted_for_discovery(answer->0@[0].1@) == Err::<Seq<u8>, DiscoveryError>(e),
        },
{
    match answer {
        None => Err(DiscoveryError::NoResponse),
        Some(records) => {
            if records.len() == 0 {
                return Err(DiscoveryError::EmptyAnswer);
            }
            if records.len() > 1 {
                return Err(DiscoveryError::MultipleAnswers);
            }
            let first = &records[0];
            if first.0 != HTTPS_RECORD_CODE {
                return Err(DiscoveryError::UnexpectedRecordType);
            }
            extract_for_discovery(first.1.as_slice())
        },
    }
}

} // verus!
