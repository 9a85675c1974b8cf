//! Token codec: issues and verifies signed, time-bound tokens that carry a
//! subject identifier and a validity window.
//!
//! Timestamps are nanoseconds since the Unix epoch. A token is valid strictly
//! before its expiry instant. The signed encoding itself is done by an
//! outside JWT implementation (HS256); what that encoding looks like is left
//! abstract, and everything around it — when issuance fails, how a decoded
//! token is classified, when it counts as expired — is specified exactly.

use vstd::prelude::*;

use jsonwebtoken::errors::ErrorKind;
use jsonwebtoken::Algorithm;
use jsonwebtoken::DecodingKey;
use jsonwebtoken::Validation;
use serde_json::Value;

use crate::error::ErrorMessage;
use crate::error::HttpError;

verus! {

/// The payload of a token: the subject it names, when it was issued and when
/// it expires (both in nanoseconds since the Unix epoch).
#[derive(Debug, Clone, PartialEq, Eq)]
pub struct TokenClaims {
    pub sub: String,
    pub iat: u64,
    pub exp: u64,
}

/// The mathematical value of a claims record.
pub ghost struct ClaimsView {
    pub sub: Seq<char>,
    pub iat: u64,
    pub exp: u64,
}

impl View for TokenClaims {
    type V = ClaimsView;

    open spec fn view(&self) -> ClaimsView {
        ClaimsView { sub: self.sub@, iat: self.iat, exp: self.exp }
    }
}

/// Why issuing or verifying a token failed.
#[derive(Clone, Copy, Debug, PartialEq, Eq, Structural)]
pub enum TokenError {
    /// The subject handed to issuance was empty.
    InvalidSubject,
    /// The token is not structurally a signed claims record.
    MalformedToken,
    /// The signature does not match the verification secret.
    SignatureMismatch,
    /// The token was structurally sound and correctly signed, but its expiry
    /// has passed.
    Expired,
}

/// Why the outside decoder rejected a token, before any expiry check.
#[derive(Clone, Copy, Debug, PartialEq, Eq, Structural)]
pub enum DecodeFailure {
    Malformed,
    BadSignature,
}

/// The signed encoding of a claims record under a secret.
pub uninterp spec fn token_of(sub: Seq<char>, iat: u64, exp: u64, secret: Seq<u8>) -> Seq<char>;

/// What decoding a token under a secret yields: the claims it carries, or the
/// reason it is rejected. Decoding is a function of the token and the secret
/// alone; expiry is judged separately.
pub uninterp spec fn decode_of(token: Seq<char>, secret: Seq<u8>) -> Result<
    (Seq<char>, u64, u64),
    DecodeFailure,
>;

/// A decoding outcome that carries the given claims.
pub open spec fn decoded_claims(sub: Seq<char>, iat: u64, exp: u64) -> Result<
    (Seq<char>, u64, u64),
    DecodeFailure,
> {
    Ok((sub, iat, exp))
}

/// A decoding outcome that rejects the token for the given reason.
pub open spec fn decoded_failure(f: DecodeFailure) -> Result<(Seq<char>, u64, u64), DecodeFailure> {
    Err(f)
}

/// Relies on jsonwebtoken::encode with the default (HS256) header: the token
/// is a function of the claims and the secret alone, and jsonwebtoken::decode
/// with the same secret yields the same claims back. For the HMAC family the
/// signer accepts any secret and signing cannot fail.
#[verifier::external_body]
fn jwt_encode(sub: &str, iat: u64, exp: u64, secret: &[u8]) -> (r: String)
    ensures
        r@ == token_of(sub@, iat, exp, secret@),
        decode_of(r@, secret@) == decoded_claims(sub@, iat, exp),
{
    let mut claims = serde_json::Map::new();
    claims.insert("sub".to_owned(), serde_json::Value::from(sub));
    claims.insert("iat".to_owned(), serde_json::Value::from(iat));
    claims.insert("exp".to_owned(), serde_json::Value::from(exp));
    let key = jsonwebtoken::EncodingKey::from_secret(secret);
    let header = jsonwebtoken::Header::default();
    jsonwebtoken::encode(&header, &serde_json::Value::Object(claims), &key).unwrap_or_default()
}

/// Relies on jsonwebtoken::decode over HS256 with its own expiry check turned
/// off: the outcome is a function of the token and the secret alone. A
/// correctly framed token whose signature does not match the secret is
/// reported as a signature mismatch; any structural fault — wrong framing,
/// wrong algorithm, a missing or non-numeric claim — as malformed.
#[verifier::external_body]
fn jwt_decode(token: &str, secret: &[u8]) -> (r: Result<(String, u64, u64), DecodeFailure>)
    ensures
        (match r {
            Ok(t) => decode_of(token@, secret@) == decoded_claims(t.0@, t.1, t.2),
            Err(f) => decode_of(token@, secret@) == decoded_failure(f),
        }),
{
    let mut val = Validation::new(Algorithm::HS256);
    val.validate_exp = false;
    let c = match jsonwebtoken::decode::<Value>(token, &DecodingKey::from_secret(secret), &val) {
        Ok(t) => t.claims,
        Err(e) => return Err(match e.kind() {
            ErrorKind::InvalidSignature => DecodeFailure::BadSignature,
            _ => DecodeFailure::Malformed,
        }),
    };
    let fields = (c.get("sub").map(Value::as_str), c.get("iat").map(Value::as_u64));
    match (fields.0.flatten(), fields.1.flatten(), c.get("exp").map(Value::as_u64).flatten()) {
        (Some(s), Some(i), Some(e)) => Ok((s.to_owned(), i, e)),
        _ => Err(DecodeFailure::Malformed),
    }
}

/// Relies on chrono's Utc clock: nanoseconds since the Unix epoch, which fit
/// in the non-negative half of a 64-bit signed value for every date chrono
/// can represent in nanoseconds.
#[verifier::external_body]
fn clock_now_nanos() -> (r: u64)
    ensures
        r <= 0x7fff_ffff_ffff_ffff,
{
    u64::try_from(chrono::Utc::now().timestamp_nanos_opt().unwrap_or(0)).unwrap_or(0)
}

/// The instant at which a token issued at `now` with the given time to live
/// stops being valid; saturates at the top of the representable range, so a
/// long-lived token never wraps around into the past.
pub open spec fn spec_expiry(now: u64, ttl_seconds: u64) -> u64 {
    if now + ttl_seconds * 1_000_000_000 <= u64::MAX {
        (now + ttl_seconds * 1_000_000_000) as u64
    } else {
        u64::MAX
    }
}

fn expiry_nanos(now: u64, ttl_seconds: u64) -> (r: u64)
    ensures
        r == spec_expiry(now, ttl_seconds),
{
    match ttl_seconds.checked_mul(1_000_000_000) {
        Some(n) => match now.checked_add(n) {
            Some(e) => e,
            None => u64::MAX,
        },
        None => u64::MAX,
    }
}

/// Issues a signed token for `user_id` as of the instant `now`, valid for
/// `expires_in_seconds` from then. An empty subject is rejected; any other
/// subject is issued a token that decodes, under the same secret, back to
/// exactly the claims written into it.
pub fn create_token_at(
    user_id: &str,
    secret: &[u8],
    expires_in_seconds: u64,
    now: u64,
) -> (r: Result<String, TokenError>)
    ensures
        user_id@.len() == 0 <==> r == Err::<String, TokenError>(TokenError::InvalidSubject),
        user_id@.len() > 0 ==> (r matches Ok(t) && t@ == token_of(
            user_id@,
            now,
            spec_expiry(now, expires_in_seconds),
            secret@,
        ) && decode_of(t@, secret@) == Ok::<(Seq<char>, u64, u64), DecodeFailure>(
            (user_id@, now, spec_expiry(now, expires_in_seconds)),
        )),
{
    if user_id.is_empty() {
        Err(TokenError::InvalidSubject)
    } else {
        let exp = expiry_nanos(now, expires_in_seconds);
        Ok(jwt_encode(user_id, now, exp, secret))
    }
}

/// Issues a signed token for `user_id` as of the current instant, valid for
/// `expires_in_seconds` from now.
pub fn create_token(user_id: &str, secret: &[u8], expires_in_seconds: u64) -> (r: Result<
    String,
    TokenError,
>)
    ensures
        user_id@.len() == 0 <==> r == Err::<String, TokenError>(TokenError::InvalidSubject),
        user_id@.len() > 0 ==> (r matches Ok(t) && exists|now: u64|
            decode_of(t@, secret@) == Ok::<(Seq<char>, u64, u64), DecodeFailure>(
                (user_id@, now, spec_expiry(now, expires_in_seconds)),
            )),
{
    let now = clock_now_nanos();
    create_token_at(user_id, secret, expires_in_seconds, now)
}

/// How a decoding outcome is judged at the instant `now`: decoder rejections
/// keep their classification, and a decoded claims record is accepted exactly
/// when `now` is strictly before its expiry.
pub open spec fn spec_verify(
    d: Result<(Seq<char>, u64, u64), DecodeFailure>,
    now: u64,
) -> Result<ClaimsView, TokenError> {
    match d {
        Err(DecodeFailure::Malformed) => Err(TokenError::MalformedToken),
        Err(DecodeFailure::BadSignature) => Err(TokenError::SignatureMismatch),
        Ok(c) => if now >= c.2 {
            Err(TokenError::Expired)
        } else {
            Ok(ClaimsView { sub: c.0, iat: c.1, exp: c.2 })
        },
    }
}

/// The mathematical value of a verification result.
pub open spec fn spec_claims_result(r: Result<TokenClaims, TokenError>) -> Result<
    ClaimsView,
    TokenError,
> {
    match r {
        Ok(c) => Ok(c@),
        Err(e) => Err(e),
    }
}

/// Verifies a token under a secret as of the instant `now` and returns the
/// claims it carries, unchanged.
pub fn decode_token_at(token: &str, secret: &[u8], now: u64) -> (r: Result<
    TokenClaims,
    TokenError,
>)
    ensures
        spec_claims_result(r) == spec_verify(decode_of(token@, secret@), now),
{
    match jwt_decode(token, secret) {
        Err(DecodeFailure::Malformed) => Err(TokenError::MalformedToken),
        Err(DecodeFailure::BadSignature) => Err(TokenError::SignatureMismatch),
        Ok((sub, iat, exp)) => {
            if now >= exp {
                Err(TokenError::Expired)
            } else {
                Ok(TokenClaims { sub, iat, exp })
            }
        },
    }
}

/// Verifies a token under a secret as of the current instant and returns the
/// subject it names, or a single unauthorized error that does not say which
/// internal check failed.
pub fn decode_token(token: &str, secret: &[u8]) -> (r: Result<String, HttpError>)
    ensures
        r matches Ok(s) ==> (decode_of(token@, secret@) matches Ok(c) && c.0 == s@),
        r matches Err(h) ==> h.status == 401 && h.message@ == crate::error::spec_message(
            ErrorMessage::InvalidToken,
        ),
        decode_of(token@, secret@) is Err ==> r is Err,
{
    let now = clock_now_nanos();
    match decode_token_at(token, secret, now) {
        Ok(claims) => Ok(claims.sub),
        Err(_) => Err(HttpError::new(ErrorMessage::InvalidToken.to_str(), 401)),
    }
}

/// Law: a positive time to live puts the expiry strictly after the issuance
/// instant, even when the expiry saturates at the top of the range; a
/// freshly issued token is never already expired.
pub proof fn lemma_expiry_after_issuance(now: u64, ttl_seconds: u64)
    requires
        ttl_seconds >= 1,
        now < u64::MAX,
    ensures
        spec_expiry(now, ttl_seconds) > now,
{
}

/// Law: a token that decodes to a given claims record under a secret is
/// accepted at every instant strictly before its expiry, and yields exactly
/// the subject, issuance instant and expiry it was issued with.
pub proof fn lemma_issued_token_verifies(
    token: Seq<char>,
    secret: Seq<u8>,
    sub: Seq<char>,
    iat: u64,
    exp: u64,
    now: u64,
)
    requires
        decode_of(token, secret) == Ok::<(Seq<char>, u64, u64), DecodeFailure>((sub, iat, exp)),
        now < exp,
    ensures
        spec_verify(decode_of(token, secret), now) == Ok::<ClaimsView, TokenError>(
            (ClaimsView { sub, iat, exp }),
        ),
{
}

/// Law: a token that decodes to a given claims record is rejected as expired
/// exactly at the instants at or after its expiry, and only then.
pub proof fn lemma_expiry_boundary(
    token: Seq<char>,
    secret: Seq<u8>,
    sub: Seq<char>,
    iat: u64,
    exp: u64,
    now: u64,
)
    requires
        decode_of(token, secret) == Ok::<(Seq<char>, u64, u64), DecodeFailure>((sub, iat, exp)),
    ensures
        now >= exp <==> spec_verify(decode_of(token, secret), now) == Err::<
            ClaimsView,
            TokenError,
        >(TokenError::Expired),
{
}

} // verus!
