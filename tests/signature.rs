use hmac::Mac;
use payments_backend::signature::{
    constant_time_eq, parse_decimal_i64, parse_signature_header, signature_matches, signed_payload,
    timestamp_within_tolerance, verify_signature_at, verify_webhook_signature, SignatureError,
};

fn expected_hmac_hex(secret: &str, t: &str, body: &str) -> String {
    let mut mac = hmac::Hmac::<sha2::Sha256>::new_from_slice(secret.as_bytes()).unwrap();
    mac.update(format!("{}.{}", t, body).as_bytes());
    hex::encode(mac.finalize().into_bytes())
}

fn header(t: i64, secret: &str, body: &str) -> String {
    let ts = t.to_string();
    format!("t={},v1={}", ts, expected_hmac_hex(secret, &ts, body))
}

const SECRET: &str = "whsec_test_secret";
const BODY: &str = "{\"id\":\"evt_1\",\"type\":\"invoice.paid\"}";
const NOW: i64 = 1_700_000_000;

#[test]
fn correctly_signed_body_is_accepted() {
    let h = header(NOW - 10, SECRET, BODY);
    assert_eq!(verify_signature_at(BODY.as_bytes(), &h, SECRET, NOW), Ok(()));
}

#[test]
fn flipping_any_body_byte_is_rejected() {
    let h = header(NOW, SECRET, BODY);
    for i in 0..BODY.len() {
        let mut bytes = BODY.as_bytes().to_vec();
        bytes[i] ^= 0x01;
        assert_eq!(
            verify_signature_at(&bytes, &h, SECRET, NOW),
            Err(SignatureError::SignatureMismatch),
            "byte {}",
            i
        );
    }
}

#[test]
fn wrong_secret_is_rejected() {
    let h = header(NOW, "another_secret", BODY);
    assert_eq!(verify_signature_at(BODY.as_bytes(), &h, SECRET, NOW), Err(SignatureError::SignatureMismatch));
}

#[test]
fn timestamp_301_seconds_old_is_rejected() {
    let h = header(NOW - 301, SECRET, BODY);
    assert_eq!(
        verify_signature_at(BODY.as_bytes(), &h, SECRET, NOW),
        Err(SignatureError::StaleOrFutureTimestamp)
    );
}

#[test]
fn timestamp_300_seconds_old_is_accepted() {
    let h = header(NOW - 300, SECRET, BODY);
    assert_eq!(verify_signature_at(BODY.as_bytes(), &h, SECRET, NOW), Ok(()));
}

#[test]
fn timestamp_from_the_future_is_bounded_too() {
    let ahead = header(NOW + 300, SECRET, BODY);
    assert_eq!(verify_signature_at(BODY.as_bytes(), &ahead, SECRET, NOW), Ok(()));
    let too_far = header(NOW + 301, SECRET, BODY);
    assert_eq!(
        verify_signature_at(BODY.as_bytes(), &too_far, SECRET, NOW),
        Err(SignatureError::StaleOrFutureTimestamp)
    );
}

#[test]
fn tolerance_boundary() {
    assert!(timestamp_within_tolerance(NOW, NOW - 300));
    assert!(!timestamp_within_tolerance(NOW, NOW - 301));
    assert!(timestamp_within_tolerance(NOW, NOW + 300));
    assert!(!timestamp_within_tolerance(NOW, NOW + 301));
    assert!(!timestamp_within_tolerance(i64::MAX, i64::MIN));
}

#[test]
fn header_without_timestamp_is_malformed() {
    assert_eq!(
        verify_signature_at(BODY.as_bytes(), "v1=abcd", SECRET, NOW),
        Err(SignatureError::MissingTimestamp)
    );
    assert_eq!(verify_signature_at(BODY.as_bytes(), "", SECRET, NOW), Err(SignatureError::MissingTimestamp));
}

#[test]
fn header_without_signature_is_malformed() {
    assert_eq!(
        verify_signature_at(BODY.as_bytes(), "t=1700000000", SECRET, NOW),
        Err(SignatureError::MissingSignature)
    );
    assert_eq!(
        verify_signature_at(BODY.as_bytes(), "t=1700000000,v0=abcd", SECRET, NOW),
        Err(SignatureError::MissingSignature)
    );
}

#[test]
fn non_numeric_timestamp_is_invalid() {
    assert_eq!(
        verify_signature_at(BODY.as_bytes(), "t=12ab,v1=00", SECRET, NOW),
        Err(SignatureError::InvalidTimestamp)
    );
}

#[test]
fn last_segment_for_a_key_counts() {
    let good = header(NOW, SECRET, BODY);
    let h = format!("t=5,{},extra", good);
    assert_eq!(verify_signature_at(BODY.as_bytes(), &h, SECRET, NOW), Ok(()));
}

#[test]
fn header_fields_are_read() {
    let p = parse_signature_header("t=-42,v1=a=b,x").ok().unwrap();
    assert_eq!(p.timestamp, -42);
    assert_eq!(p.timestamp_text, b"-42".to_vec());
    assert_eq!(p.signature, b"a=b".to_vec());
}

#[test]
fn decimal_parsing_follows_i64_from_str() {
    assert_eq!(parse_decimal_i64(b"+12"), Some(12));
    assert_eq!(parse_decimal_i64(b"-7"), Some(-7));
    assert_eq!(parse_decimal_i64(b"007"), Some(7));
    assert_eq!(parse_decimal_i64(b"-"), None);
    assert_eq!(parse_decimal_i64(b"+"), None);
    assert_eq!(parse_decimal_i64(b""), None);
    assert_eq!(parse_decimal_i64(b" 1"), None);
    assert_eq!(parse_decimal_i64(b"9223372036854775807"), Some(i64::MAX));
    assert_eq!(parse_decimal_i64(b"9223372036854775808"), None);
    assert_eq!(parse_decimal_i64(b"-9223372036854775808"), Some(i64::MIN));
    assert_eq!(parse_decimal_i64(b"-9223372036854775809"), None);
    assert_eq!(parse_decimal_i64(b"123456789012345678901234567890"), None);
}

#[test]
fn signature_is_compared_as_lower_case_hex() {
    assert!(signature_matches(&[0xab, 0x01], b"ab01"));
    assert!(!signature_matches(&[0xab, 0x01], b"AB01"));
    assert!(!signature_matches(&[0xab, 0x01], &[0xab, 0x01]));
    assert!(signature_matches(&[], b""));
}

#[test]
fn constant_time_comparison() {
    assert!(constant_time_eq(b"abc", b"abc"));
    assert!(!constant_time_eq(b"abc", b"abd"));
    assert!(!constant_time_eq(b"abc", b"ab"));
}

#[test]
fn signed_payload_is_timestamp_dot_body() {
    assert_eq!(signed_payload(b"17", b"{}"), b"17.{}".to_vec());
    assert_eq!(signed_payload(b"1", &[0xff]), "1.\u{fffd}".as_bytes().to_vec());
}

#[test]
fn verification_against_the_clock() {
    let now = chrono::Utc::now().timestamp();
    let h = header(now, SECRET, BODY);
    assert_eq!(verify_webhook_signature(BODY.as_bytes(), &h, SECRET), Ok(()));
    let stale = header(now - 3600, SECRET, BODY);
    assert_eq!(
        verify_webhook_signature(BODY.as_bytes(), &stale, SECRET),
        Err("Webhook timestamp outside the 300s tolerance".to_string())
    );
    assert_eq!(
        verify_webhook_signature(BODY.as_bytes(), "v1=00", SECRET),
        Err("Missing timestamp in signature".to_string())
    );
}

#[test]
fn error_messages() {
    assert_eq!(SignatureError::MissingSignature.message(), "Missing v1 signature");
    assert_eq!(SignatureError::InvalidTimestamp.message(), "Invalid timestamp format");
    assert_eq!(SignatureError::SignatureMismatch.message(), "Invalid webhook signature");
}
