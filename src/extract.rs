use vstd::prelude::*;

verus! {

/// Why the configuration could not be recovered from a record payload.
#[derive(Clone, Copy, Debug, PartialEq, Eq, Structural)]
pub enum ExtractError {
    /// The version tag does not occur in the hex form of the payload.
    TagNotFound,
    /// Fewer than four hex characters precede the tag, so there is no length field.
    TruncatedPrefix,
    /// The reassembled hex text has an odd length and decodes to no bytes.
    MalformedHex,
}

/// The lower-case ASCII hex digit of a nibble.
pub open spec fn hex_digit(n: u8) -> u8 {
    if n < 10 { (n + 48) as u8 } else { (n + 87) as u8 }
}

/// Lower-case hex text of a byte string, two ASCII characters per byte.
pub open spec fn hex_of(b: Seq<u8>) -> Seq<u8> {
    Seq::new(2 * b.len(), |i: int| if i % 2 == 0 { hex_digit(b[i / 2] / 16) } else { hex_digit(b[i / 2] % 16) })
}

/// Hex text of a two-byte tag, big-endian: four characters.
pub open spec fn tag_hex(tag: u16) -> Seq<u8> {
    hex_of(seq![(tag / 256) as u8, (tag % 256) as u8])
}

pub open spec fn occurs_at(h: Seq<u8>, t: Seq<u8>, i: int) -> bool {
    0 <= i && i + t.len() <= h.len() && h.subrange(i, i + t.len()) == t
}

/// The first position at or after `k` where `t` occurs in `h`.
pub open spec fn first_from(h: Seq<u8>, t: Seq<u8>, k: nat) -> Option<nat>
    decreases h.len() - k,
{
    if k >= h.len() || k + t.len() > h.len() {
        None
    } else if occurs_at(h, t, k as int) {
        Some(k)
    } else {
        first_from(h, t, k + 1)
    }
}

/// What extraction yields: split the hex form at the first occurrence of the
/// tag, keep the four hex characters before it and everything from it on,
/// and decode that text.
pub open spec fn extracted(p: Seq<u8>, tag: u16) -> Result<Seq<u8>, ExtractError> {
    match first_from(hex_of(p), tag_hex(tag), 0) {
        None => Err(ExtractError::TagNotFound),
        Some(i) => if i < 4 {
            Err(ExtractError::TruncatedPrefix)
        } else if i % 2 == 1 {
            Err(ExtractError::MalformedHex)
        } else {
            Ok(p.subrange((i - 4) / 2, p.len() as int))
        },
    }
}

fn hex_digit_exec(n: u8) -> (r: u8)
    requires
        n < 16,
    ensures
        r == hex_digit(n),
{
    if n < 10 { n + 48 } else { n + 87 }
}

/// The lower-case hex text of `b`, as ASCII bytes.
pub fn encode_hex(b: &[u8]) -> (r: Vec<u8>)
    requires
        b@.len() * 2 <= usize::MAX,
    ensures
        r@ == hex_of(b@),
{
    let mut r: Vec<u8> = Vec::new();
    let mut i: usize = 0;
    while i < b.len()
        invariant
            i <= b@.len(),
            b@.len() * 2 <= usize::MAX,
            r@.len() == 2 * i,
            forall|j: int| 0 <= j < 2 * i ==> r@[j] == #[trigger] hex_of(b@)[j],
        decreases b@.len() - i,
    {
        let x = b[i];
        r.push(hex_digit_exec(x / 16));
        r.push(hex_digit_exec(x % 16));
        i = i + 1;
    }
    assert(r@ == hex_of(b@));
    r
}

fn tag_bytes_hex(tag: u16) -> (r: Vec<u8>)
    ensures
        r@ == tag_hex(tag),
{
    let pair: [u8; 2] = [(tag / 256) as u8, (tag % 256) as u8];
    let r = encode_hex(&pair);
    assert(pair@ == seq![(tag / 256) as u8, (tag % 256) as u8]);
    r
}

/// Position of the first occurrence of `t` in `h`, if any.
pub fn find_first(h: &Vec<u8>, t: &Vec<u8>) -> (r: Option<usize>)
    requires
        t@.len() > 0,
    ensures
        r is None <==> first_from(h@, t@, 0) is None,
        r is Some ==> first_from(h@, t@, 0) == Some(r->0 as nat) && r->0 < h@.len(),
{
    let n = h.len();
    let m = t.len();
    if m > n {
        return None;
    }
    let mut i: usize = 0;
    while i <= n - m
        invariant
            n == h@.len(),
            m == t@.len(),
            m > 0,
            m <= n,
            i + m <= n + 1,
            first_from(h@, t@, 0) == first_from(h@, t@, i as nat),
        decreases n - i,
    {
        let mut j: usize = 0;
        let mut same = true;
        while j < m
            invariant
                j <= m,
                i + m <= n,
                n == h@.len(),
                m == t@.len(),
                same == (forall|k: int| 0 <= k < j ==> h@[i + k] == t@[k]),
            decreases m - j,
        {
            if h[i + j] != t[j] {
                same = false;
            }
            j = j + 1;
        }
        if same {
            assert(h@.subrange(i as int, i + m) == t@);
            return Some(i);
        }
        assert(!occurs_at(h@, t@, i as int)) by {
            if h@.subrange(i as int, i + m) == t@ {
                assert(forall|k: int| 0 <= k < m ==> h@[i + k] == #[trigger] h@.subrange(i as int, i + m)[k]);
            }
        }
        i = i + 1;
    }
    None
}

fn copy_from(p: &[u8], start: usize) -> (r: Vec<u8>)
    requires
        start <= p@.len(),
    ensures
        r@ == p@.subrange(start as int, p@.len() as int),
{
    let mut out: Vec<u8> = Vec::new();
    let mut k: usize = start;
    while k < p.len()
        invariant
            start <= k <= p@.len(),
            out@ == p@.subrange(start as int, k as int),
        decreases p@.len() - k,
    {
        out.push(p[k]);
        assert(p@.subrange(start as int, k + 1) == p@.subrange(start as int, k as int).push(p@[k as int]));
        k = k + 1;
    }
    out
}

/// Recovers the configuration bytes from a record payload: the payload's hex
/// form is split once, at the first occurrence of `tag`; the four hex
/// characters before the split (the length field), the tag and all that
/// follows it are decoded back into bytes.
pub fn extract_config(record_payload: &[u8], tag: u16) -> (r: Result<Vec<u8>, ExtractError>)
    requires
        record_payload@.len() * 2 <= usize::MAX,
    ensures
        match r {
            Ok(v) => extracted(record_payload@, tag) == Ok::<Seq<u8>, ExtractError>(v@),
            Err(e) => extracted(record_payload@, tag) == Err::<Seq<u8>, ExtractError>(e),
        },
{
    let h = encode_hex(record_payload);
    let t = tag_bytes_hex(tag);
    match find_first(&h, &t) {
        None => Err(ExtractError::TagNotFound),
        Some(i) => {
            if i < 4 {
                Err(ExtractError::TruncatedPrefix)
            } else if i % 2 == 1 {
                Err(ExtractError::MalformedHex)
            } else {
                Ok(copy_from(record_payload, (i - 4) / 2))
            }
        },
    }
}

proof fn lemma_hex_of_suffix(p: Seq<u8>, s: int)
    requires
        0 <= s <= p.len(),
    ensures
        hex_of(p.subrange(s, p.len() as int)) == hex_of(p).subrange(2 * s, 2 * p.len() as int),
{
    let q = p.subrange(s, p.len() as int);
    assert forall|i: int| 0 <= i < 2 * q.len() implies #[trigger] hex_of(q)[i] == hex_of(p)[2 * s + i] by {
        assert((2 * s + i) / 2 == s + i / 2);
        assert((2 * s + i) % 2 == i % 2);
    }
    assert(hex_of(q) == hex_of(p).subrange(2 * s, 2 * p.len() as int));
}

proof fn lemma_first_from_none(h: Seq<u8>, t: Seq<u8>, k: nat)
    requires
        t.len() > 0,
    ensures
        first_from(h, t, k) is None <==> forall|j: int| k <= j ==> !#[trigger] occurs_at(h, t, j),
        first_from(h, t, k) matches Some(i) ==> k <= i && occurs_at(h, t, i as int)
            && forall|j: int| k <= j < i ==> !#[trigger] occurs_at(h, t, j),
    decreases h.len() - k,
{
    if k >= h.len() || k + t.len() > h.len() {
    } else if occurs_at(h, t, k as int) {
    } else {
        lemma_first_from_none(h, t, k + 1);
        assert forall|j: int| k <= j < k + 1 implies !#[trigger] occurs_at(h, t, j) by {
            assert(j == k);
        }
    }
}

/// Extraction fails with `TagNotFound` exactly when the tag's hex text occurs
/// nowhere in the payload's hex form.
pub proof fn lemma_tag_absent(record_payload: Seq<u8>, tag: u16)
    ensures
        extracted(record_payload, tag) == Err::<Seq<u8>, ExtractError>(ExtractError::TagNotFound)
            <==> forall|j: int| !#[trigger] occurs_at(hex_of(record_payload), tag_hex(tag), j),
{
    lemma_first_from_none(hex_of(record_payload), tag_hex(tag), 0);
    if !(forall|j: int| !#[trigger] occurs_at(hex_of(record_payload), tag_hex(tag), j)) {
        let j = choose|j: int| occurs_at(hex_of(record_payload), tag_hex(tag), j);
        assert(0 <= j);
    }
}

/// When the first occurrence of the tag sits at an even position `i` with a
/// full length field before it, extraction succeeds, and the hex text of the
/// result is the payload's hex text from `i - 4` to the end. Every later
/// occurrence of the tag, inside the value, is kept in the result at the
/// same distance from its start.
pub proof fn lemma_split_at_first_occurrence(record_payload: Seq<u8>, tag: u16, i: int)
    requires
        occurs_at(hex_of(record_payload), tag_hex(tag), i),
        forall|j: int| 0 <= j < i ==> !#[trigger] occurs_at(hex_of(record_payload), tag_hex(tag), j),
        i >= 4,
        i % 2 == 0,
    ensures
        extracted(record_payload, tag) is Ok,
        hex_of(extracted(record_payload, tag)->Ok_0) == hex_of(record_payload).subrange(i - 4, hex_of(record_payload).len() as int),
        forall|j: int| i <= j && #[trigger] occurs_at(hex_of(record_payload), tag_hex(tag), j)
            ==> occurs_at(hex_of(extracted(record_payload, tag)->Ok_0), tag_hex(tag), j - (i - 4)),
{
    let h = hex_of(record_payload);
    let t = tag_hex(tag);
    lemma_first_from_none(h, t, 0);
    let f = first_from(h, t, 0);
    assert(f is Some) by {
        assert(occurs_at(h, t, i));
    }
    let fi = f->0;
    assert(fi == i) by {
        if fi < i {
            assert(!occurs_at(h, t, fi as int));
        } else if fi > i {
            assert(!occurs_at(h, t, i));
        }
    }
    lemma_hex_of_suffix(record_payload, (i - 4) / 2);
    let q = record_payload.subrange((i - 4) / 2, record_payload.len() as int);
    assert(hex_of(q) == h.subrange(i - 4, h.len() as int));
    assert forall|j: int| i <= j && #[trigger] occurs_at(h, t, j)
        implies occurs_at(hex_of(q), t, j - (i - 4)) by {
        assert(hex_of(q).subrange(j - (i - 4), j - (i - 4) + t.len()) == h.subrange(j, j + t.len()));
    }
}

} // verus!
