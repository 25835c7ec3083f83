use vstd::prelude::*;
use crate::record_type::{decimal_digits, get_qtype, lemma_numeric_token_round_trip, query_type_of, type_prefix};
use trust_dns_proto::error::ProtoError;
use trust_dns_proto::op::{Message, Query};
use std::str::FromStr;
use trust_dns_proto::rr::{DNSClass, Name, RecordType};

verus! {

#[verifier::external_type_specification]
#[verifier::external_body]
pub struct ExName(Name);

#[verifier::external_type_specification]
#[verifier::external_body]
pub struct ExMessage(Message);

#[verifier::external_type_specification]
#[verifier::external_body]
pub struct ExProtoError(ProtoError);

/// Why a DNS query could not be built, or a DNS message not read.
#[derive(Clone, Copy, Debug, PartialEq, Eq, Structural)]
pub enum QueryError {
    /// The domain is not a well-formed DNS name.
    InvalidName,
    /// The record-type token is neither a known mnemonic nor `TYPE<digits>`.
    UnknownRecordType,
    /// The DNS codec could not write the message.
    Encode,
    /// The bytes are not a DNS message.
    Decode,
}

/// Whether the DNS codec reads `s` as a domain name.
pub uninterp spec fn name_accepted(s: Seq<char>) -> bool;

/// The wire form of a query message with one question: the name `name`,
/// record-type code `code`, class IN, recursion desired, transaction id `id`;
/// `None` when the codec refuses to write it.
pub uninterp spec fn query_wire(name: Seq<char>, code: u16, id: u16) -> Option<Seq<u8>>;

/// The fixed parts of a one-question query in wire format: the 12-byte
/// header (the id, a query with only recursion desired set, one question and
/// no other records), then the name, then the type code and class IN.
pub open spec fn query_layout(b: Seq<u8>, code: u16, id: u16) -> bool {
    &&& b.len() >= 17
    &&& b[0] == (id / 256) as u8 && b[1] == (id % 256) as u8
    &&& b[2] == 1 && b[3] == 0
    &&& b[4] == 0 && b[5] == 1
    &&& forall|i: int| 6 <= i < 12 ==> b[i] == 0
    &&& b[b.len() - 4] == (code / 256) as u8 && b[b.len() - 3] == (code % 256) as u8
    &&& b[b.len() - 2] == 0 && b[b.len() - 1] == 1
}

/// Whether the DNS codec reads `b` as a whole DNS message.
pub uninterp spec fn message_decodes(b: Seq<u8>) -> bool;

/// Relies on `Name::from_str` (trust-dns-proto): it parses a textual domain
/// name, or fails, depending on the text alone.
#[verifier::external_body]
fn parse_name(domain: &str) -> (r: Result<Name, ProtoError>)
    ensures
        r is Ok <==> name_accepted(domain@),
{
    Name::from_str(domain)
}

/// Relies on trust-dns-proto's message codec: `Name::from_str`,
/// `Query::query` with `RecordType::from(code)` and class IN, `Message::new`
/// with that one question, the recursion-desired flag and the id, then
/// `Message::to_vec`. The bytes, or the refusal, depend on the arguments alone.
#[verifier::external_body]
fn encode_query(domain: &str, code: u16, id: u16) -> (r: Result<Vec<u8>, ProtoError>)
    ensures
        r is Ok <==> query_wire(domain@, code, id) is Some,
        r is Ok ==> r->Ok_0@ == query_wire(domain@, code, id)->0,
        r is Ok ==> query_layout(r->Ok_0@, code, id),
{
    let mut query = Query::query(Name::from_str(domain)?, RecordType::from(code));
    query.set_query_class(DNSClass::IN);
    let mut msg = Message::new();
    msg.add_query(query).set_recursion_desired(true).set_id(id);
    msg.to_vec()
}

/// Relies on `Message::from_vec` (trust-dns-proto): reads a wire-format
/// message, or fails, depending on the bytes alone.
#[verifier::external_body]
fn message_from_vec(b: &[u8]) -> (r: Result<Message, ProtoError>)
    ensures
        r is Ok <==> message_decodes(b@),
{
    Message::from_vec(b)
}

/// rand's `random`: a value drawn from the thread-local generator; nothing
/// is known of it.
pub assume_specification<T>[ rand::random::<T> ]() -> (r: T)
    where
        rand::distributions::Standard: rand::distributions::Distribution<T>,
;

/// A result with its bytes seen as a sequence.
pub open spec fn bytes_view<E>(r: Result<Vec<u8>, E>) -> Result<Seq<u8>, E> {
    match r {
        Ok(b) => Ok(b@),
        Err(e) => Err(e),
    }
}

/// What encoding yields for an accepted name, a resolved record type and an id.
pub open spec fn query_outcome(domain: Seq<char>, query_type: Seq<char>, id: u16) -> Result<Seq<u8>, QueryError> {
    match query_wire(domain, query_type_of(query_type)->0.spec_code(), id) {
        Some(b) => Ok(b),
        None => Err(QueryError::Encode),
    }
}

/// Builds a wire-format DNS query with one question for `domain` of the
/// record type `query_type`, class IN, recursion desired, and the given
/// transaction id. The name is checked first, then the record type.
pub fn build_dns_query(domain: &str, query_type: &str, id: u16) -> (r: Result<Vec<u8>, QueryError>)
    ensures
        !name_accepted(domain@) ==> r == Err::<Vec<u8>, QueryError>(QueryError::InvalidName),
        name_accepted(domain@) && query_type_of(query_type@) is None
            ==> r == Err::<Vec<u8>, QueryError>(QueryError::UnknownRecordType),
        name_accepted(domain@) && query_type_of(query_type@) is Some
            ==> bytes_view(r) == query_outcome(domain@, query_type@, id),
        r is Ok ==> query_layout(r->Ok_0@, query_type_of(query_type@)->0.spec_code(), id),
{
    if parse_name(domain).is_err() {
        return Err(QueryError::InvalidName);
    }
    let qtype = match get_qtype(query_type) {
        Ok(t) => t,
        Err(_) => return Err(QueryError::UnknownRecordType),
    };
    match encode_query(domain, qtype.code(), id) {
        Ok(bytes) => Ok(bytes),
        Err(_) => Err(QueryError::Encode),
    }
}

/// Builds a wire-format DNS query as `build_dns_query` does, with a random
/// transaction id.
pub fn create_dns_query(domain: &str, query_type: &str) -> (r: Result<Vec<u8>, QueryError>)
    ensures
        !name_accepted(domain@) ==> r == Err::<Vec<u8>, QueryError>(QueryError::InvalidName),
        name_accepted(domain@) && query_type_of(query_type@) is None
            ==> r == Err::<Vec<u8>, QueryError>(QueryError::UnknownRecordType),
        name_accepted(domain@) && query_type_of(query_type@) is Some
            ==> exists|id: u16| #[trigger] query_outcome(domain@, query_type@, id) == bytes_view(r)
                && (r is Ok ==> query_layout(r->Ok_0@, query_type_of(query_type@)->0.spec_code(), id)),
{
    let id: u16 = rand::random();
    let r = build_dns_query(domain, query_type, id);
    assert(name_accepted(domain@) && query_type_of(query_type@) is Some
        ==> query_outcome(domain@, query_type@, id) == bytes_view(r)
            && (r is Ok ==> query_layout(r->Ok_0@, query_type_of(query_type@)->0.spec_code(), id)));
    r
}

/// A query built for the token `TYPE<n>` carries the code `n`, big-endian,
/// in the type field of its question.
pub proof fn lemma_numeric_type_on_wire(domain: Seq<char>, n: u16, id: u16, b: Seq<u8>)
    requires
        name_accepted(domain),
        query_outcome(domain, type_prefix() + decimal_digits(n as nat), id) == Ok::<Seq<u8>, QueryError>(b),
        query_layout(b, query_type_of(type_prefix() + decimal_digits(n as nat))->0.spec_code(), id),
    ensures
        b[b.len() - 4] == (n / 256) as u8,
        b[b.len() - 3] == (n % 256) as u8,
{
    lemma_numeric_token_round_trip(n);
}

/// Reads a wire-format DNS answer message.
pub fn parse_dns_answer(msg: &[u8]) -> (r: Result<Message, QueryError>)
    ensures
        r is Ok <==> message_decodes(msg@),
        r is Err ==> r == Err::<Message, QueryError>(QueryError::Decode),
{
    match message_from_vec(msg) {
        Ok(m) => Ok(m),
        Err(_) => Err(QueryError::Decode),
    }
}

} // verus!
