use vstd::prelude::*;
use vstd::string::*;
use crate::text::same_text;

verus! {

/// A DNS record type as named on the command line: one of a fixed set of
/// mnemonics, or a numeric code written `TYPE<digits>`.
#[derive(Clone, Copy, Debug, PartialEq, Eq, Structural)]
pub enum QueryType {
    A,
    AAAA,
    ANAME,
    ANY,
    AXFR,
    CAA,
    CNAME,
    HINFO,
    HTTPS,
    IXFR,
    MX,
    NAPTR,
    NS,
    NULL,
    OPENPGPKEY,
    OPT,
    PTR,
    SOA,
    SRV,
    SSHFP,
    SVCB,
    TLSA,
    TXT,
    ZERO,
    Unknown(u16),
}

impl QueryType {
    /// The record-type code written on the wire (IANA's registry; ANAME has
    /// no registered code and takes the private-use 65305).
    pub open spec fn spec_code(self) -> u16 {
        match self {
            QueryType::A => 1,
            QueryType::AAAA => 28,
            QueryType::ANAME => 65305,
            QueryType::ANY => 255,
            QueryType::AXFR => 252,
            QueryType::CAA => 257,
            QueryType::CNAME => 5,
            QueryType::HINFO => 13,
            QueryType::HTTPS => 65,
            QueryType::IXFR => 251,
            QueryType::MX => 15,
            QueryType::NAPTR => 35,
            QueryType::NS => 2,
            QueryType::NULL => 10,
            QueryType::OPENPGPKEY => 61,
            QueryType::OPT => 41,
            QueryType::PTR => 12,
            QueryType::SOA => 6,
            QueryType::SRV => 33,
            QueryType::SSHFP => 44,
            QueryType::SVCB => 64,
            QueryType::TLSA => 52,
            QueryType::TXT => 16,
            QueryType::ZERO => 0,
            QueryType::Unknown(n) => n,
        }
    }

    /// The record-type code written on the wire.
    #[verifier::when_used_as_spec(spec_code)]
    pub fn code(self) -> (r: u16)
        ensures
            r == self.spec_code(),
    {
        match self {
            QueryType::A => 1,
            QueryType::AAAA => 28,
            QueryType::ANAME => 65305,
            QueryType::ANY => 255,
            QueryType::AXFR => 252,
            QueryType::CAA => 257,
            QueryType::CNAME => 5,
            QueryType::HINFO => 13,
            QueryType::HTTPS => 65,
            QueryType::IXFR => 251,
            QueryType::MX => 15,
            QueryType::NAPTR => 35,
            QueryType::NS => 2,
            QueryType::NULL => 10,
            QueryType::OPENPGPKEY => 61,
            QueryType::OPT => 41,
            QueryType::PTR => 12,
            QueryType::SOA => 6,
            QueryType::SRV => 33,
            QueryType::SSHFP => 44,
            QueryType::SVCB => 64,
            QueryType::TLSA => 52,
            QueryType::TXT => 16,
            QueryType::ZERO => 0,
            QueryType::Unknown(n) => n,
        }
    }
}

/// Why a record-type token was not accepted.
#[derive(Clone, Copy, Debug, PartialEq, Eq, Structural)]
pub enum TypeTokenError {
    UnknownRecordType,
}

pub open spec fn is_ascii_digit(c: char) -> bool {
    '0' <= c && c <= '9'
}

pub open spec fn all_ascii_digits(s: Seq<char>) -> bool {
    forall|i: int| 0 <= i < s.len() ==> is_ascii_digit(#[trigger] s[i])
}

/// The number that a string of decimal digits denotes.
pub open spec fn digits_value(s: Seq<char>) -> nat
    decreases s.len(),
{
    if s.len() == 0 {
        0
    } else {
        digits_value(s.drop_last()) * 10 + (s.last() as nat - '0' as nat) as nat
    }
}

pub open spec fn type_prefix() -> Seq<char> {
    seq!['T', 'Y', 'P', 'E']
}

/// `s` has the shape `TYPE<digits>` with at least one ASCII digit.
pub open spec fn is_numeric_token(s: Seq<char>) -> bool {
    s.len() > 4 && s.subrange(0, 4) == type_prefix() && all_ascii_digits(s.subrange(4, s.len() as int))
}

/// The code that a `TYPE<digits>` token stands for, when its digits fit in 16 bits.
pub open spec fn numeric_token_code(s: Seq<char>) -> Option<u16> {
    if is_numeric_token(s) && digits_value(s.subrange(4, s.len() as int)) < 0x10000 {
        Some(digits_value(s.subrange(4, s.len() as int)) as u16)
    } else {
        None
    }
}

/// The record type a token names: a mnemonic of the table, else a numeric code.
pub open spec fn query_type_of(s: Seq<char>) -> Option<QueryType> {
    if s == "A"@ { Some(QueryType::A) }
    else if s == "AAAA"@ { Some(QueryType::AAAA) }
    else if s == "ANAME"@ { Some(QueryType::ANAME) }
    else if s == "ANY"@ { Some(QueryType::ANY) }
    else if s == "AXFR"@ { Some(QueryType::AXFR) }
    else if s == "CAA"@ { Some(QueryType::CAA) }
    else if s == "CNAME"@ { Some(QueryType::CNAME) }
    else if s == "HINFO"@ { Some(QueryType::HINFO) }
    else if s == "HTTPS"@ { Some(QueryType::HTTPS) }
    else if s == "IXFR"@ { Some(QueryType::IXFR) }
    else if s == "MX"@ { Some(QueryType::MX) }
    else if s == "NAPTR"@ { Some(QueryType::NAPTR) }
    else if s == "NS"@ { Some(QueryType::NS) }
    else if s == "NULL"@ { Some(QueryType::NULL) }
    else if s == "OPENPGPKEY"@ { Some(QueryType::OPENPGPKEY) }
    else if s == "OPT"@ { Some(QueryType::OPT) }
    else if s == "PTR"@ { Some(QueryType::PTR) }
    else if s == "SOA"@ { Some(QueryType::SOA) }
    else if s == "SRV"@ { Some(QueryType::SRV) }
    else if s == "SSHFP"@ { Some(QueryType::SSHFP) }
    else if s == "SVCB"@ { Some(QueryType::SVCB) }
    else if s == "TLSA"@ { Some(QueryType::TLSA) }
    else if s == "TXT"@ { Some(QueryType::TXT) }
    else if s == "ZERO"@ { Some(QueryType::ZERO) }
    else {
        match numeric_token_code(s) {
            Some(n) => Some(QueryType::Unknown(n)),
            None => None,
        }
    }
}

/// Relies on regex::Regex::captures with the pattern `^(TYPE)(\d+)$`: it
/// matches exactly the whole strings "TYPE" followed by one or more decimal
/// digits (Unicode `\d`, a superset of the ASCII digits), and group 2 holds
/// those digits.
#[verifier::external_body]
fn type_token_digits(qtype: &str) -> (r: Option<String>)
    ensures
        r is Some ==> qtype@ == type_prefix() + r->0@ && r->0@.len() > 0,
        is_numeric_token(qtype@) ==> r is Some && r->0@ == qtype@.subrange(4, qtype@.len() as int),
{
    let re = regex::Regex::new(r"^(TYPE)(\d+)$").unwrap();
    re.captures(qtype).map(|c| c[2].to_string())
}

proof fn lemma_digits_value_push(s: Seq<char>, c: char)
    ensures
        digits_value(s.push(c)) == digits_value(s) * 10 + (c as nat - '0' as nat) as nat,
{
    assert(s.push(c).drop_last() == s);
}

/// Reads a decimal number of 16 bits; `None` for an empty string, a
/// character that is not an ASCII digit, or a value above 65535.
pub fn parse_decimal_u16(d: &str) -> (r: Option<u16>)
    ensures
        r == (if d@.len() > 0 && all_ascii_digits(d@) && digits_value(d@) < 0x10000 {
            Some(digits_value(d@) as u16)
        } else {
            None::<u16>
        }),
{
    let n = d.unicode_len();
    if n == 0 {
        return None;
    }
    let mut acc: u32 = 0;
    let mut i: usize = 0;
    while i < n
        invariant
            n == d@.len(),
            i <= n,
            all_ascii_digits(d@.subrange(0, i as int)),
            acc as nat == if digits_value(d@.subrange(0, i as int)) < 0x10000 {
                digits_value(d@.subrange(0, i as int))
            } else {
                0x10000nat
            },
        decreases n - i,
    {
        let c = d.get_char(i);
        if !('0' <= c && c <= '9') {
            assert(!all_ascii_digits(d@)) by {
                assert(!is_ascii_digit(d@[i as int]));
            }
            return None;
        }
        let ghost pre = d@.subrange(0, i as int);
        assert(d@.subrange(0, i + 1) == pre.push(c));
        proof {
            lemma_digits_value_push(pre, c);
        }
        let digit: u32 = (c as u32) - ('0' as u32);
        let next: u32 = acc * 10 + digit;
        assert(next as nat == acc as nat * 10 + digit as nat);
        if next >= 0x10000 {
            acc = 0x10000;
        } else {
            acc = next;
        }
        assert(acc as nat == if digits_value(pre.push(c)) < 0x10000 {
            digits_value(pre.push(c))
        } else {
            0x10000nat
        }) by (nonlinear_arith)
            requires
                digits_value(pre.push(c)) == digits_value(pre) * 10 + digit as nat,
                next as nat == (if digits_value(pre) < 0x10000 { digits_value(pre) } else { 0x10000nat }) * 10 + digit as nat,
                acc as nat == if next >= 0x10000 { 0x10000nat } else { next as nat },
        ;
        i = i + 1;
    }
    assert(d@.subrange(0, n as int) == d@);
    if acc >= 0x10000 {
        None
    } else {
        Some(acc as u16)
    }
}

/// Reads a `TYPE<digits>` token as its numeric record-type code.
pub fn parse_unknown_qtype(qtype: &str) -> (r: Result<u16, TypeTokenError>)
    ensures
        r == match numeric_token_code(qtype@) {
            Some(n) => Ok::<u16, TypeTokenError>(n),
            None => Err(TypeTokenError::UnknownRecordType),
        },
{
    match type_token_digits(qtype) {
        Some(digits) => {
            let code = parse_decimal_u16(digits.as_str());
            assert(qtype@.subrange(4, qtype@.len() as int) == digits@);
            assert(qtype@.subrange(0, 4) == type_prefix());
            match code {
                Some(n) => Ok(n),
                None => Err(TypeTokenError::UnknownRecordType),
            }
        },
        None => Err(TypeTokenError::UnknownRecordType),
    }
}

/// Resolves a record-type token: an exact mnemonic of the table first, then
/// the `TYPE<digits>` form.
pub fn get_qtype(qtype: &str) -> (r: Result<QueryType, TypeTokenError>)
    ensures
        r == match query_type_of(qtype@) {
            Some(t) => Ok::<QueryType, TypeTokenError>(t),
            None => Err(TypeTokenError::UnknownRecordType),
        },
{
    let t = if same_text(qtype, "A") { QueryType::A }
    else if same_text(qtype, "AAAA") { QueryType::AAAA }
    else if same_text(qtype, "ANAME") { QueryType::ANAME }
    else if same_text(qtype, "ANY") { QueryType::ANY }
    else if same_text(qtype, "AXFR") { QueryType::AXFR }
    else if same_text(qtype, "CAA") { QueryType::CAA }
    else if same_text(qtype, "CNAME") { QueryType::CNAME }
    else if same_text(qtype, "HINFO") { QueryType::HINFO }
    else if same_text(qtype, "HTTPS") { QueryType::HTTPS }
    else if same_text(qtype, "IXFR") { QueryType::IXFR }
    else if same_text(qtype, "MX") { QueryType::MX }
    else if same_text(qtype, "NAPTR") { QueryType::NAPTR }
    else if same_text(qtype, "NS") { QueryType::NS }
    else if same_text(qtype, "NULL") { QueryType::NULL }
    else if same_text(qtype, "OPENPGPKEY") { QueryType::OPENPGPKEY }
    else if same_text(qtype, "OPT") { QueryType::OPT }
    else if same_text(qtype, "PTR") { QueryType::PTR }
    else if same_text(qtype, "SOA") { QueryType::SOA }
    else if same_text(qtype, "SRV") { QueryType::SRV }
    else if same_text(qtype, "SSHFP") { QueryType::SSHFP }
    else if same_text(qtype, "SVCB") { QueryType::SVCB }
    else if same_text(qtype, "TLSA") { QueryType::TLSA }
    else if same_text(qtype, "TXT") { QueryType::TXT }
    else if same_text(qtype, "ZERO") { QueryType::ZERO }
    else {
        match parse_unknown_qtype(qtype) {
            Ok(n) => QueryType::Unknown(n),
            Err(e) => return Err(e),
        }
    };
    Ok(t)
}

/// The ASCII digit of a value below ten.
pub open spec fn digit_char(d: nat) -> char {
    seq!['0', '1', '2', '3', '4', '5', '6', '7', '8', '9'][d as int]
}

/// The usual decimal spelling of a number, without leading zeros.
pub open spec fn decimal_digits(n: nat) -> Seq<char>
    decreases n,
{
    if n < 10 {
        seq![digit_char(n)]
    } else {
        decimal_digits(n / 10).push(digit_char(n % 10))
    }
}

proof fn lemma_decimal_digits(n: nat)
    ensures
        decimal_digits(n).len() > 0,
        all_ascii_digits(decimal_digits(n)),
        digits_value(decimal_digits(n)) == n,
    decreases n,
{
    let ds = seq!['0', '1', '2', '3', '4', '5', '6', '7', '8', '9'];
    assert(forall|d: int| 0 <= d < 10 ==> is_ascii_digit(#[trigger] ds[d]) && ds[d] as nat - '0' as nat == d);
    if n < 10 {
        assert(digit_char(n) == ds[n as int]);
        assert(seq![digit_char(n)].drop_last() == Seq::<char>::empty());
        assert(digits_value(seq![digit_char(n)]) == digits_value(Seq::<char>::empty()) * 10
            + (digit_char(n) as nat - '0' as nat) as nat);
    } else {
        assert(digit_char(n % 10) == ds[(n % 10) as int]);
        assert(n == (n / 10) * 10 + n % 10);
        lemma_decimal_digits(n / 10);
        lemma_digits_value_push(decimal_digits(n / 10), digit_char(n % 10));
        let s = decimal_digits(n);
        assert forall|i: int| 0 <= i < s.len() implies is_ascii_digit(#[trigger] s[i]) by {
            if i < s.len() - 1 {
                assert(s[i] == decimal_digits(n / 10)[i]);
            }
        }
    }
}

/// Every 16-bit code, written `TYPE` followed by its decimal digits, is read
/// back as that code, both by the numeric reader and by the full token
/// resolver.
pub proof fn lemma_numeric_token_round_trip(n: u16)
    ensures
        numeric_token_code(type_prefix() + decimal_digits(n as nat)) == Some(n),
        query_type_of(type_prefix() + decimal_digits(n as nat)) == Some(QueryType::Unknown(n)),
{
    let s = type_prefix() + decimal_digits(n as nat);
    lemma_decimal_digits(n as nat);
    assert(s.subrange(0, 4) == type_prefix());
    assert(s.subrange(4, s.len() as int) == decimal_digits(n as nat));
    assert(s.len() >= 5 && s[0] == 'T');
    reveal_strlit("A");
    reveal_strlit("AAAA");
    reveal_strlit("ANAME");
    reveal_strlit("ANY");
    reveal_strlit("AXFR");
    reveal_strlit("CAA");
    reveal_strlit("CNAME");
    reveal_strlit("HINFO");
    reveal_strlit("HTTPS");
    reveal_strlit("IXFR");
    reveal_strlit("MX");
    reveal_strlit("NAPTR");
    reveal_strlit("NS");
    reveal_strlit("NULL");
    reveal_strlit("OPENPGPKEY");
    reveal_strlit("OPT");
    reveal_strlit("PTR");
    reveal_strlit("SOA");
    reveal_strlit("SRV");
    reveal_strlit("SSHFP");
    reveal_strlit("SVCB");
    reveal_strlit("TLSA");
    reveal_strlit("TXT");
    reveal_strlit("ZERO");
}

/// A token of the `TYPE<digits>` shape whose digits denote a number above
/// 65535 is refused by the numeric reader.
pub proof fn lemma_numeric_token_out_of_range(digits: Seq<char>)
    requires
        digits.len() > 0,
        all_ascii_digits(digits),
        digits_value(digits) > 0xffff,
    ensures
        numeric_token_code(type_prefix() + digits) is None,
{
    let s = type_prefix() + digits;
    assert(s.subrange(4, s.len() as int) == digits);
}

} // verus!
