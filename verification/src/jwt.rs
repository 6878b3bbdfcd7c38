//! Session tokens: their claims, their expiry, signing and checking.
use vstd::prelude::*;
use crate::constants::{JWT_EXPIRATION_DAYS, JWT_EXPIRATION_DAYS_FALLBACK_IN_MILLISECONDS};

verus! {

/// The claims a session token carries: the user it was issued to and its expiry
/// time in seconds since the epoch.
#[derive(Debug, Clone, Copy, PartialEq, Eq, Structural)]
pub struct Claims {
    pub sub: u128,
    pub exp: usize,
}

/// A token that could not be signed, or was refused when read back (bad
/// signature, expired, malformed), whatever the cause.
#[derive(Debug, Clone, Copy, PartialEq, Eq, Structural)]
pub struct TokenFailure;

/// The last second chrono can represent: 262142-12-31T23:59:59 UTC, in seconds
/// since the epoch (`NaiveDateTime::MAX`, year `(i32::MAX >> 13) - 1`).
pub const LAST_REPRESENTABLE_SECOND: i64 = 8_210_266_876_799;

/// The length of the token lifetime in seconds.
pub open spec fn lifetime_seconds() -> int {
    JWT_EXPIRATION_DAYS * 86400
}

/// The expiry time of a token issued at `now` (seconds since the epoch), where
/// chrono can represent it: adding whole days to a representable time succeeds
/// exactly when the result does not pass chrono's last second.
pub open spec fn expiry_seconds(now: i64) -> Option<int> {
    if now + lifetime_seconds() <= LAST_REPRESENTABLE_SECOND {
        Some(now + lifetime_seconds())
    } else {
        None
    }
}

/// The expiry claim of a token: the expiry time's seconds (cast to `usize`, as the
/// claim is), or the fallback where the expiry time could not be computed.
pub open spec fn expiry_claim(expiry: Option<int>) -> usize {
    match expiry {
        Some(t) => t as i64 as usize,
        None => JWT_EXPIRATION_DAYS_FALLBACK_IN_MILLISECONDS,
    }
}

/// The claims of a token for a user, issued at `now`.
pub open spec fn claims_at(user_id: u128, now: i64) -> Claims {
    Claims { sub: user_id, exp: expiry_claim(expiry_seconds(now)) }
}

/// Calls `chrono::Utc::now` and reads it as whole seconds since the epoch
/// (`DateTime::timestamp`). It is the clock: nothing is promised of it.
#[verifier::external_body]
fn now_seconds() -> i64 {
    chrono::Utc::now().timestamp()
}

/// The claims of a token for a user issued at `now`: it expires seven days later,
/// or carries the fallback expiry where that time is past chrono's range.
pub fn claims_for(user_id: u128, now: i64) -> (c: Claims)
    ensures
        c == claims_at(user_id, now),
{
    let exp: usize = if now <= LAST_REPRESENTABLE_SECOND - JWT_EXPIRATION_DAYS * 86400 {
        let t: i64 = now + JWT_EXPIRATION_DAYS * 86400;
        t as usize
    } else {
        JWT_EXPIRATION_DAYS_FALLBACK_IN_MILLISECONDS
    };
    Claims { sub: user_id, exp }
}

/// The claims of a new session token for a user, issued now: they are the claims
/// at some time the clock gave.
pub fn generate_claims(user_id: u128) -> (c: Claims)
    ensures
        exists|now: i64| c == claims_at(user_id, now),
{
    let now = now_seconds();
    let c = claims_for(user_id, now);
    assert(c == claims_at(user_id, now));
    c
}

/// The token that signs claims `(sub, exp)` with a secret: HS256, the default
/// header, the claims as a JSON object. Its definition is jsonwebtoken's.
pub uninterp spec fn signed_token(sub: u128, exp: usize, secret: Seq<char>) -> Seq<char>;

/// The claims a token carries where its HS256 signature checks with the secret and
/// its payload holds a UUID `sub` and an unsigned `exp`; `None` otherwise. Its
/// definition is jsonwebtoken's (expiry is not part of it).
pub uninterp spec fn token_claims(token: Seq<char>, secret: Seq<char>) -> Option<(u128, usize)>;

/// Calls `jsonwebtoken::encode` with the default header (HS256) and an HMAC key made
/// from the secret, on the claims as the JSON object `{"sub": <UUID text>, "exp": <n>}`
/// (keys in that order). The crate's source shows it succeeds here: the HMAC key
/// matches the HS256 header, a header and a string-keyed map always serialize, and
/// HMAC signing always returns `Ok`. The token is `signed_token` of the claims and
/// secret, and carries those claims back (`token_claims`).
#[verifier::external_body]
fn sign_token(claims: Claims, secret: &str) -> (r: Result<String, TokenFailure>)
    ensures
        r is Ok,
        r matches Ok(t) ==> t@ == signed_token(claims.sub, claims.exp, secret@) && token_claims(
            t@,
            secret@,
        ) == Some((claims.sub, claims.exp)),
{
    let mut payload = serde_json::Map::new();
    payload.insert("sub".to_string(), uuid::Uuid::from_u128(claims.sub).to_string().into());
    payload.insert("exp".to_string(), claims.exp.into());
    jsonwebtoken::encode(
        &jsonwebtoken::Header::default(),
        &payload,
        &jsonwebtoken::EncodingKey::from_secret(secret.as_bytes()),
    ).map_err(|_| TokenFailure)
}

/// Calls `jsonwebtoken::decode` with an HMAC key made from the secret and the
/// default validation (HS256, unexpired `exp` with 60 s leeway), and reads the
/// payload as a UUID `sub` and an unsigned `exp`. Claims it returns are
/// `token_claims` of the token and secret. Whether it succeeds depends on the clock
/// and is left open.
#[verifier::external_body]
fn decode_token(token: &str, secret: &str) -> (r: Result<Claims, TokenFailure>)
    ensures
        r matches Ok(c) ==> token_claims(token@, secret@) == Some((c.sub, c.exp)),
{
    let data = jsonwebtoken::decode::<serde_json::Map<String, serde_json::Value>>(
        token,
        &jsonwebtoken::DecodingKey::from_secret(secret.as_bytes()),
        &jsonwebtoken::Validation::default(),
    ).map_err(|_| TokenFailure)?;
    let sub = data.claims.get("sub").and_then(|v| v.as_str()).and_then(|s| uuid::Uuid::parse_str(s).ok());
    let exp = data.claims.get("exp").and_then(|v| v.as_u64());
    match (sub, exp) {
        (Some(sub), Some(exp)) => Ok(Claims { sub: sub.as_u128(), exp: exp as usize }),
        _ => Err(TokenFailure),
    }
}

/// A signed session token for a user, expiring seven days after the clock's time;
/// it carries the user and that expiry back. Signing always succeeds.
pub fn generate_jwt(user_id: u128, secret: &str) -> (r: Result<String, TokenFailure>)
    ensures
        r is Ok,
        r matches Ok(t) ==> exists|now: i64|
            #![trigger claims_at(user_id, now)]
            t@ == signed_token(user_id, claims_at(user_id, now).exp, secret@) && token_claims(
                t@,
                secret@,
            ) == Some((user_id, claims_at(user_id, now).exp)),
{
    let claims = generate_claims(user_id);
    let r = sign_token(claims, secret);
    proof {
        let now = choose|now: i64| claims == claims_at(user_id, now);
        assert(claims_at(user_id, now) == claims);
    }
    r
}

/// The claims of a token, where its signature checks with the secret and it has
/// not expired; they are the claims the token carries.
pub fn verify_jwt(token: &str, secret: &str) -> (r: Result<Claims, TokenFailure>)
    ensures
        r matches Ok(c) ==> token_claims(token@, secret@) == Some((c.sub, c.exp)),
        token_claims(token@, secret@) is None ==> r is Err,
{
    decode_token(token, secret)
}

} // verus!
