use vstd::prelude::*;
use vstd::string::*;
use crate::trusted::{hmac_sha256_of, lossy_utf8_of, hex_lower};

verus! {

broadcast use vstd::string::group_string_axioms;

/// Largest distance, in seconds, between the signed timestamp and now.
pub const TIMESTAMP_TOLERANCE_SECS: i64 = 300;

const COMMA: u8 = 44;
const EQUALS: u8 = 61;
const MINUS: u8 = 45;
const PLUS: u8 = 43;
const DOT: u8 = 46;
const DIGIT_ZERO: u8 = 48;
const DIGIT_NINE: u8 = 57;

/// Why a locally signed notification was refused.
#[derive(Debug, Clone, Copy, PartialEq, Eq, Structural)]
pub enum SignatureError {
    /// The header has no `t=` entry.
    MissingTimestamp,
    /// The header has no `v1=` entry.
    MissingSignature,
    /// The `t` entry is not a decimal integer that fits in an `i64`.
    InvalidTimestamp,
    /// The timestamp is more than the tolerance away from now.
    StaleOrFutureTimestamp,
    /// The `v1` entry is not the expected signature.
    SignatureMismatch,
}

/// An ASCII decimal digit.
pub open spec fn is_digit(c: u8) -> bool {
    48 <= c <= 57
}

pub open spec fn all_digits(d: Seq<u8>) -> bool {
    forall|i: int| 0 <= i < d.len() ==> is_digit(#[trigger] d[i])
}

/// The number that a string of decimal digits writes.
pub open spec fn digits_value(d: Seq<u8>) -> int
    decreases d.len(),
{
    if d.len() == 0 {
        0
    } else {
        digits_value(d.drop_last()) * 10 + (d.last() - 48)
    }
}

/// An optional `+` or `-`, then one or more decimal digits, whose value fits
/// in an `i64` (the text that `i64::from_str` accepts).
pub open spec fn decimal_i64(s: Seq<u8>) -> Option<i64> {
    let signed = s.len() > 0 && (s[0] == 45 || s[0] == 43);
    let d = if signed { s.drop_first() } else { s };
    let v = if s.len() > 0 && s[0] == 45 { -digits_value(d) } else { digits_value(d) };
    if d.len() > 0 && all_digits(d) && i64::MIN <= v <= i64::MAX {
        Some(v as i64)
    } else {
        None
    }
}

/// The comma-separated segments of a header, empty ones included.
pub open spec fn split_commas(h: Seq<u8>) -> Seq<Seq<u8>>
    decreases h.len(),
{
    if h.len() == 0 {
        seq![Seq::empty()]
    } else {
        let init = split_commas(h.drop_last());
        if h.last() == 44 {
            init.push(Seq::empty())
        } else {
            init.update(init.len() - 1, init.last().push(h.last()))
        }
    }
}

/// The value of a `key=value` segment for `key`; a segment splits at its
/// first `=`, and `key` holds none.
pub open spec fn segment_value(seg: Seq<u8>, key: Seq<u8>) -> Option<Seq<u8>> {
    if seg.len() > key.len() && seg.subrange(0, key.len() as int) == key && seg[key.len() as int] == 61 {
        Some(seg.subrange(key.len() as int + 1, seg.len() as int))
    } else {
        None
    }
}

/// The value of the last segment that has `key`.
pub open spec fn last_value(segs: Seq<Seq<u8>>, key: Seq<u8>) -> Option<Seq<u8>>
    decreases segs.len(),
{
    if segs.len() == 0 {
        None
    } else {
        match segment_value(segs.last(), key) {
            Some(v) => Some(v),
            None => last_value(segs.drop_last(), key),
        }
    }
}

/// The value that a signature header gives to `key`.
pub open spec fn header_value(h: Seq<u8>, key: Seq<u8>) -> Option<Seq<u8>> {
    last_value(split_commas(h), key)
}

/// `t`, the key of the timestamp.
pub open spec fn timestamp_key() -> Seq<u8> {
    seq![116u8]
}

/// `v1`, the key of the signature.
pub open spec fn signature_key() -> Seq<u8> {
    seq![118u8, 49u8]
}

/// `|now - ts|` is at most the tolerance.
pub open spec fn within_tolerance(now: int, ts: int) -> bool {
    -(TIMESTAMP_TOLERANCE_SECS as int) <= now - ts <= TIMESTAMP_TOLERANCE_SECS as int
}

/// The bytes that are signed: the timestamp text, a dot, then the body.
pub open spec fn signed_message(t: Seq<u8>, payload: Seq<u8>) -> Seq<u8> {
    t + seq![46u8] + lossy_utf8_of(payload)
}

/// The `v1` value that the shared secret gives for timestamp text `t`.
pub open spec fn expected_signature(secret: Seq<u8>, t: Seq<u8>, payload: Seq<u8>) -> Seq<u8> {
    hex_lower(hmac_sha256_of(secret, signed_message(t, payload)))
}

/// The timestamp text, its value and the `v1` value of a signature header.
pub open spec fn header_fields(header: Seq<u8>) -> Result<(Seq<u8>, i64, Seq<u8>), SignatureError> {
    match header_value(header, timestamp_key()) {
        None => Err(SignatureError::MissingTimestamp),
        Some(t) => match header_value(header, signature_key()) {
            None => Err(SignatureError::MissingSignature),
            Some(v1) => match decimal_i64(t) {
                None => Err(SignatureError::InvalidTimestamp),
                Some(ts) => Ok((t, ts, v1)),
            },
        },
    }
}

/// The outcome of checking a signed notification at time `now`.
pub open spec fn signature_check(payload: Seq<u8>, header: Seq<u8>, secret: Seq<u8>, now: i64) -> Result<(), SignatureError> {
    match header_fields(header) {
        Err(e) => Err(e),
        Ok((t, ts, v1)) => if !within_tolerance(now as int, ts as int) {
            Err(SignatureError::StaleOrFutureTimestamp)
        } else if expected_signature(secret, t, payload) == v1 {
            Ok(())
        } else {
            Err(SignatureError::SignatureMismatch)
        },
    }
}

/// The short text reported for each refusal.
pub open spec fn error_text(e: SignatureError) -> Seq<char> {
    match e {
        SignatureError::MissingTimestamp => "Missing timestamp in signature"@,
        SignatureError::MissingSignature => "Missing v1 signature"@,
        SignatureError::InvalidTimestamp => "Invalid timestamp format"@,
        SignatureError::StaleOrFutureTimestamp => "Webhook timestamp outside the 300s tolerance"@,
        SignatureError::SignatureMismatch => "Invalid webhook signature"@,
    }
}

impl SignatureError {
    pub fn message(&self) -> (r: String)
        ensures
            r@ == error_text(*self),
    {
        match self {
            SignatureError::MissingTimestamp => String::from_str("Missing timestamp in signature"),
            SignatureError::MissingSignature => String::from_str("Missing v1 signature"),
            SignatureError::InvalidTimestamp => String::from_str("Invalid timestamp format"),
            SignatureError::StaleOrFutureTimestamp => String::from_str("Webhook timestamp outside the 300s tolerance"),
            SignatureError::SignatureMismatch => String::from_str("Invalid webhook signature"),
        }
    }
}

/// The fields of a signature header `t=<timestamp>,v1=<hex signature>`.
pub struct SignatureHeader {
    pub timestamp_text: Vec<u8>,
    pub timestamp: i64,
    pub signature: Vec<u8>,
}

proof fn lemma_split_commas_nonempty(h: Seq<u8>)
    ensures
        split_commas(h).len() >= 1,
    decreases h.len(),
{
    if h.len() > 0 {
        lemma_split_commas_nonempty(h.drop_last());
    }
}

fn copy_range(b: &[u8], start: usize, end: usize) -> (r: Vec<u8>)
    requires
        start <= end <= b@.len(),
    ensures
        r@ == b@.subrange(start as int, end as int),
{
    let mut r: Vec<u8> = Vec::new();
    let mut i: usize = start;
    while i < end
        invariant
            start <= i <= end <= b@.len(),
            r@ == b@.subrange(start as int, i as int),
        decreases end - i,
    {
        r.push(b[i]);
        assert(b@.subrange(start as int, i + 1) =~= b@.subrange(start as int, i as int).push(b@[i as int]));
        i = i + 1;
    }
    r
}

/// Whether `h[start..end]` is a segment with `key`.
fn segment_has_key(h: &[u8], start: usize, end: usize, key: &[u8]) -> (r: bool)
    requires
        start <= end <= h@.len(),
    ensures
        r == segment_value(h@.subrange(start as int, end as int), key@).is_some(),
        r ==> segment_value(h@.subrange(start as int, end as int), key@) == Some(
            h@.subrange(start + key@.len() + 1, end as int),
        ),
{
    let ghost seg = h@.subrange(start as int, end as int);
    let k = key.len();
    if end - start <= k {
        return false;
    }
    let mut j: usize = 0;
    while j < k
        invariant
            k == key@.len(),
            start + k < end <= h@.len(),
            j <= k,
            seg == h@.subrange(start as int, end as int),
            seg.subrange(0, j as int) == key@.subrange(0, j as int),
        decreases k - j,
    {
        if h[start + j] != key[j] {
            assert(seg.subrange(0, k as int)[j as int] != key@[j as int]);
            return false;
        }
        assert(seg.subrange(0, j + 1) =~= seg.subrange(0, j as int).push(seg[j as int]));
        assert(key@.subrange(0, j + 1) =~= key@.subrange(0, j as int).push(key@[j as int]));
        j = j + 1;
    }
    assert(key@.subrange(0, k as int) =~= key@);
    assert(seg.subrange(k + 1, seg.len() as int) =~= h@.subrange(start + k + 1, end as int));
    h[start + k] == EQUALS
}

/// Where the value of `key` stands in header `h`.
fn find_header_value(h: &[u8], key: &[u8]) -> (r: Option<(usize, usize)>)
    ensures
        match r {
            Some((a, b)) => a <= b <= h@.len() && header_value(h@, key@) == Some(h@.subrange(a as int, b as int)),
            None => header_value(h@, key@).is_none(),
        },
{
    let n = h.len();
    let mut found: Option<(usize, usize)> = None;
    let mut start: usize = 0;
    let mut i: usize = 0;
    proof {
        assert(h@.subrange(0, 0) =~= Seq::<u8>::empty());
    }
    while i < n
        invariant
            n == h@.len(),
            start <= i <= n,
            split_commas(h@.subrange(0, i as int)).len() >= 1,
            split_commas(h@.subrange(0, i as int)).last() == h@.subrange(start as int, i as int),
            match found {
                Some((a, b)) => a <= b <= n && last_value(split_commas(h@.subrange(0, i as int)).drop_last(), key@)
                    == Some(h@.subrange(a as int, b as int)),
                None => last_value(split_commas(h@.subrange(0, i as int)).drop_last(), key@).is_none(),
            },
        decreases n - i,
    {
        let ghost pre = h@.subrange(0, i as int);
        let ghost next = h@.subrange(0, i + 1);
        proof {
            assert(next.drop_last() =~= pre);
            assert(next.last() == h@[i as int]);
            lemma_split_commas_nonempty(pre);
        }
        if h[i] == COMMA {
            if segment_has_key(h, start, i, key) {
                found = Some((start + key.len() + 1, i));
            }
            proof {
                assert(split_commas(next).drop_last() =~= split_commas(pre));
                assert(split_commas(next).last() =~= h@.subrange(i + 1, i + 1));
            }
            start = i + 1;
        } else {
            proof {
                let init = split_commas(pre);
                assert(split_commas(next).drop_last() =~= init.drop_last());
                assert(split_commas(next).last() =~= h@.subrange(start as int, i + 1));
            }
        }
        i = i + 1;
    }
    proof {
        assert(h@.subrange(0, n as int) =~= h@);
    }
    if segment_has_key(h, start, n, key) {
        Some((start + key.len() + 1, n))
    } else {
        found
    }
}

/// Reads the text that `i64::from_str` accepts: an optional sign, then
/// decimal digits.
pub fn parse_decimal_i64(s: &[u8]) -> (r: Option<i64>)
    ensures
        r == decimal_i64(s@),
{
    let n = s.len();
    if n == 0 {
        return None;
    }
    let neg = s[0] == MINUS;
    let start: usize = if s[0] == MINUS || s[0] == PLUS { 1 } else { 0 };
    let ghost d = if start == 1 { s@.drop_first() } else { s@ };
    proof {
        assert(d =~= s@.subrange(start as int, n as int));
    }
    if start == n {
        return None;
    }
    let cap: u128 = 9223372036854775809;
    let mut acc: u128 = 0;
    let mut i: usize = start;
    proof {
        assert(s@.subrange(start as int, start as int) =~= Seq::<u8>::empty());
    }
    while i < n
        invariant
            n == s@.len(),
            start <= i <= n,
            cap == 9223372036854775809,
            d == s@.subrange(start as int, n as int),
            neg == (s@[0] == 45),
            start == (if s@[0] == 45 || s@[0] == 43 { 1usize } else { 0usize }),
            all_digits(s@.subrange(start as int, i as int)),
            digits_value(s@.subrange(start as int, i as int)) >= 0,
            acc == if digits_value(s@.subrange(start as int, i as int)) < cap {
                digits_value(s@.subrange(start as int, i as int))
            } else {
                cap as int
            },
        decreases n - i,
    {
        let c = s[i];
        let ghost pre = s@.subrange(start as int, i as int);
        let ghost next = s@.subrange(start as int, i + 1);
        proof {
            assert(next.drop_last() =~= pre);
            assert(next.last() == c);
        }
        if c < DIGIT_ZERO || c > DIGIT_NINE {
            proof {
                assert(d[i - start] == c);
            }
            return None;
        }
        let digit = (c - DIGIT_ZERO) as u128;
        proof {
            let v = digits_value(pre);
            assert(digits_value(next) == v * 10 + digit);
            if v >= cap {
                assert(v * 10 + digit >= cap) by (nonlinear_arith)
                    requires
                        v >= cap,
                        digit >= 0,
                        cap > 0,
                ;
            }
            assert(v * 10 + digit >= 0) by (nonlinear_arith)
                requires
                    v >= 0,
                    digit >= 0,
            ;
            assert forall|j: int| 0 <= j < next.len() implies is_digit(#[trigger] next[j]) by {
                if j < pre.len() {
                    assert(next[j] == pre[j]);
                }
            }
        }
        acc = acc * 10 + digit;
        if acc > cap {
            acc = cap;
        }
        i = i + 1;
    }
    proof {
        assert(s@.subrange(start as int, n as int) =~= d);
    }
    if neg {
        if acc <= 9223372036854775808 {
            Some((0i128 - acc as i128) as i64)
        } else {
            None
        }
    } else {
        if acc <= 9223372036854775807 {
            Some(acc as i64)
        } else {
            None
        }
    }
}

/// Reads the timestamp and signature out of a signature header. Segments are
/// separated by commas; for a key given twice the last segment counts.
pub fn parse_signature_header(header: &str) -> (r: Result<SignatureHeader, SignatureError>)
    ensures
        match (r, header_fields(header.spec_bytes())) {
            (Ok(p), Ok((t, ts, v1))) => p.timestamp_text@ == t && p.timestamp == ts && p.signature@ == v1,
            (Err(e), Err(f)) => e == f,
            _ => false,
        },
{
    let h = header.as_bytes();
    let t_key: [u8; 1] = [116u8];
    let v1_key: [u8; 2] = [118u8, 49u8];
    proof {
        assert(t_key@ =~= timestamp_key());
        assert(v1_key@ =~= signature_key());
    }
    let (ta, tb) = match find_header_value(h, t_key.as_slice()) {
        None => return Err(SignatureError::MissingTimestamp),
        Some(range) => range,
    };
    let (va, vb) = match find_header_value(h, v1_key.as_slice()) {
        None => return Err(SignatureError::MissingSignature),
        Some(range) => range,
    };
    let timestamp_text = copy_range(h, ta, tb);
    let signature = copy_range(h, va, vb);
    match parse_decimal_i64(timestamp_text.as_slice()) {
        None => Err(SignatureError::InvalidTimestamp),
        Some(timestamp) => Ok(SignatureHeader { timestamp_text, timestamp, signature }),
    }
}

/// Whether `timestamp` lies within the tolerance of `now`, both ways.
pub fn timestamp_within_tolerance(now: i64, timestamp: i64) -> (r: bool)
    ensures
        r == within_tolerance(now as int, timestamp as int),
{
    let diff: i128 = now as i128 - timestamp as i128;
    -(TIMESTAMP_TOLERANCE_SECS as i128) <= diff && diff <= TIMESTAMP_TOLERANCE_SECS as i128
}

/// The bytes that are signed for a timestamp text and a body.
pub fn signed_payload(timestamp_text: &[u8], payload: &[u8]) -> (r: Vec<u8>)
    ensures
        r@ == signed_message(timestamp_text@, payload@),
{
    let body = crate::trusted::utf8_lossy(payload);
    let mut r: Vec<u8> = Vec::new();
    let mut i: usize = 0;
    while i < timestamp_text.len()
        invariant
            i <= timestamp_text@.len(),
            r@ == timestamp_text@.subrange(0, i as int),
        decreases timestamp_text@.len() - i,
    {
        r.push(timestamp_text[i]);
        assert(timestamp_text@.subrange(0, i + 1) =~= timestamp_text@.subrange(0, i as int).push(timestamp_text@[i as int]));
        i = i + 1;
    }
    r.push(DOT);
    let ghost head = r@;
    let mut j: usize = 0;
    while j < body.len()
        invariant
            j <= body@.len(),
            r@ == head + body@.subrange(0, j as int),
        decreases body@.len() - j,
    {
        r.push(body[j]);
        assert(body@.subrange(0, j + 1) =~= body@.subrange(0, j as int).push(body@[j as int]));
        assert(head + body@.subrange(0, j + 1) =~= (head + body@.subrange(0, j as int)).push(body@[j as int]));
        j = j + 1;
    }
    assert(timestamp_text@.subrange(0, timestamp_text@.len() as int) =~= timestamp_text@);
    assert(body@.subrange(0, body@.len() as int) =~= body@);
    r
}

/// Compares two byte strings in time that depends on their lengths only.
pub fn constant_time_eq(a: &[u8], b: &[u8]) -> (r: bool)
    ensures
        r == (a@ == b@),
{
    if a.len() != b.len() {
        return false;
    }
    let mut diff: u8 = 0;
    let mut i: usize = 0;
    assert(a@.subrange(0, 0) =~= b@.subrange(0, 0));
    while i < a.len()
        invariant
            a@.len() == b@.len(),
            i <= a@.len(),
            (diff == 0) == (a@.subrange(0, i as int) == b@.subrange(0, i as int)),
        decreases a@.len() - i,
    {
        let x = a[i];
        let y = b[i];
        let d = diff;
        assert((d | (x ^ y)) == 0u8 <==> (d == 0u8 && x == y)) by (bit_vector);
        proof {
            assert(a@.subrange(0, i + 1) =~= a@.subrange(0, i as int).push(x));
            assert(b@.subrange(0, i + 1) =~= b@.subrange(0, i as int).push(y));
            if a@.subrange(0, i + 1) == b@.subrange(0, i + 1) {
                assert(a@.subrange(0, i + 1).drop_last() =~= a@.subrange(0, i as int));
                assert(b@.subrange(0, i + 1).drop_last() =~= b@.subrange(0, i as int));
                assert(a@.subrange(0, i + 1).last() == x);
                assert(b@.subrange(0, i + 1).last() == y);
            }
            if d == 0 && x == y {
                assert(a@.subrange(0, i + 1) == b@.subrange(0, i + 1));
            }
        }
        diff = d | (x ^ y);
        i = i + 1;
    }
    assert(a@.subrange(0, a@.len() as int) =~= a@);
    assert(b@.subrange(0, b@.len() as int) =~= b@);
    diff == 0
}

/// Whether `expected_hex` is the lower-case hexadecimal form of `mac`.
pub fn signature_matches(mac: &[u8], expected_hex: &[u8]) -> (r: bool)
    ensures
        r == (hex_lower(mac@) == expected_hex@),
{
    let hexed = crate::trusted::hex_encode(mac);
    constant_time_eq(hexed.as_slice(), expected_hex)
}

/// Checks a locally signed notification at time `now` against the shared
/// secret.
pub fn verify_signature_at(payload: &[u8], signature_header: &str, webhook_secret: &str, now: i64) -> (r: Result<(), SignatureError>)
    ensures
        r == signature_check(payload@, signature_header.spec_bytes(), webhook_secret.spec_bytes(), now),
{
    let fields = parse_signature_header(signature_header)?;
    if !timestamp_within_tolerance(now, fields.timestamp) {
        return Err(SignatureError::StaleOrFutureTimestamp);
    }
    let message = signed_payload(fields.timestamp_text.as_slice(), payload);
    let mac = match crate::trusted::hmac_sha256(webhook_secret.as_bytes(), message.as_slice()) {
        Some(mac) => mac,
        None => return Err(SignatureError::SignatureMismatch),
    };
    if signature_matches(mac.as_slice(), fields.signature.as_slice()) {
        Ok(())
    } else {
        Err(SignatureError::SignatureMismatch)
    }
}

/// Checks a locally signed notification against the shared secret at the
/// current time, reporting a refusal as a short text.
pub fn verify_webhook_signature(payload: &[u8], signature_header: &str, webhook_secret: &str) -> (r: Result<(), String>)
    ensures
        exists|now: i64|
            match (#[trigger] signature_check(payload@, signature_header.spec_bytes(), webhook_secret.spec_bytes(), now), r) {
                (Ok(()), Ok(())) => true,
                (Err(e), Err(m)) => m@ == error_text(e),
                _ => false,
            },
{
    let now = crate::trusted::unix_now();
    match verify_signature_at(payload, signature_header, webhook_secret, now) {
        Ok(()) => Ok(()),
        Err(e) => Err(e.message()),
    }
}

} // verus!
