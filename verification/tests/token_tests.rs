use auth_core::token::{create_token, create_token_at, decode_token, decode_token_at, TokenError};

const SECRET: &[u8] = b"test-signing-secret";
const NANOS_PER_SECOND: u64 = 1_000_000_000;

#[test]
fn round_trip_returns_original_subject() {
    let issued_at: u64 = 1_000;
    let ttl_seconds: u64 = 3_600;
    let token = create_token_at("alice", SECRET, ttl_seconds, issued_at).unwrap();
    let exp = issued_at + ttl_seconds * NANOS_PER_SECOND;

    for now in [issued_at, issued_at + 1, exp / 2, exp - 1] {
        let claims = decode_token_at(&token, SECRET, now).unwrap();
        assert_eq!(claims.sub, "alice");
        assert_eq!(claims.iat, issued_at);
        assert_eq!(claims.exp, exp);
    }
}

#[test]
fn empty_subject_is_rejected() {
    for ttl in [1u64, 60, 3_600, u64::MAX] {
        assert_eq!(create_token_at("", SECRET, ttl, 5), Err(TokenError::InvalidSubject));
        assert_eq!(create_token("", b"another-secret", ttl), Err(TokenError::InvalidSubject));
    }
}

#[test]
fn expiry_boundary() {
    let issued_at: u64 = 50;
    let ttl_seconds: u64 = 2;
    let token = create_token_at("bob", SECRET, ttl_seconds, issued_at).unwrap();
    let exp = issued_at + ttl_seconds * NANOS_PER_SECOND;

    let just_before = decode_token_at(&token, SECRET, exp - 1).unwrap();
    assert_eq!(just_before.sub, "bob");

    assert_eq!(decode_token_at(&token, SECRET, exp), Err(TokenError::Expired));
    assert_eq!(decode_token_at(&token, SECRET, exp + 1), Err(TokenError::Expired));
}

#[test]
fn wrong_secret_is_a_signature_mismatch() {
    let token = create_token_at("carol", b"secret-a", 3_600, 7).unwrap();
    assert_eq!(decode_token_at(&token, b"secret-b", 8), Err(TokenError::SignatureMismatch));
}

#[test]
fn garbage_is_malformed() {
    for bad in ["", "not-a-token", "a.b", "a.b.c", "!!.!!.!!"] {
        assert_eq!(decode_token_at(bad, SECRET, 0), Err(TokenError::MalformedToken));
    }
}

#[test]
fn tampered_payload_does_not_verify() {
    let token = create_token_at("dave", SECRET, 3_600, 9).unwrap();
    let mut parts: Vec<&str> = token.split('.').collect();
    assert_eq!(parts.len(), 3);
    let other = create_token_at("mallory", SECRET, 3_600, 9).unwrap();
    let other_parts: Vec<&str> = other.split('.').collect();
    parts[1] = other_parts[1];
    let forged = parts.join(".");
    let verdict = decode_token_at(&forged, SECRET, 10);
    assert!(verdict.is_err());
    assert_ne!(verdict, Err(TokenError::Expired));
}

#[test]
fn long_ttl_saturates_instead_of_wrapping() {
    let token = create_token_at("erin", SECRET, u64::MAX, 123).unwrap();
    let claims = decode_token_at(&token, SECRET, u64::MAX - 1).unwrap();
    assert_eq!(claims.exp, u64::MAX);
    assert_eq!(claims.iat, 123);
}

#[test]
fn wall_clock_issue_and_decode() {
    let token = create_token("frank", SECRET, 3_600).unwrap();
    let subject = decode_token(&token, SECRET).unwrap();
    assert_eq!(subject, "frank");
}

#[test]
fn wall_clock_decode_failure_is_unauthorized() {
    let err = decode_token("garbage", SECRET).unwrap_err();
    assert_eq!(err.status, 401);
    assert_eq!(err.message, "Authentication token is invalid or expired");

    let expired = create_token_at("gina", SECRET, 1, 1).unwrap();
    let err = decode_token(&expired, SECRET).unwrap_err();
    assert_eq!(err.status, 401);
    assert_eq!(err.message, "Authentication token is invalid or expired");
}
