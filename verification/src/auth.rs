//! Token validation for the server half of the auth handshake: a token is a
//! signed credential carrying a subject and an expiration timestamp, verified
//! against a pre-shared secret, with the expiry judged against a clock value
//! the caller supplies.

use vstd::prelude::*;
use vstd::utf8::{decode_utf8, valid_utf8};

verus! {

/// The decoded, verified content of an auth token: a subject identifier and
/// an expiration timestamp in Unix epoch seconds.
#[derive(Debug)]
pub struct Claims {
    pub sub: String,
    pub exp: u64,
}

/// Why a handshake failed: a malformed token or bad signature, an expired
/// token, or an I/O failure while exchanging the handshake bytes.
#[derive(Clone, Copy, PartialEq, Eq, Structural, Debug)]
pub enum AuthError {
    InvalidToken,
    TokenExpired,
    IoError,
}

/// The subject and expiration that the token-decoding library yields for a
/// given token text and pre-shared secret, or `None` where the token is
/// malformed or its signature does not match the secret. The result depends
/// on the token text and the secret alone.
pub uninterp spec fn jwt_claims(token: Seq<char>, secret: Seq<u8>) -> Option<(Seq<char>, u64)>;

/// Relies on jsonwebtoken::decode with HMAC-SHA256: it accepts exactly the
/// tokens whose signature matches `secret` and whose claims carry a subject
/// and an expiration, and its result depends on the token text and the
/// secret alone. Expiry is deliberately not checked here (`validate_exp` is
/// off), so no clock enters the call: the verified caller judges the
/// expiration against its own clock value.
#[verifier::external_body]
fn decode_claims(token: &str, secret: &[u8]) -> (r: Option<Claims>)
    ensures
        (match r {
            Some(c) => jwt_claims(token@, secret@) == Some((c.sub@, c.exp)),
            None => jwt_claims(token@, secret@) is None,
        }),
{
    let mut validation = jsonwebtoken::Validation::new(jsonwebtoken::Algorithm::HS256);
    validation.validate_exp = false;
    let key = jsonwebtoken::DecodingKey::from_secret(secret);
    let data = jsonwebtoken::decode::<serde_json::Value>(token, &key, &validation).ok()?;
    let sub = data.claims.get("sub")?.as_str()?.to_string();
    let exp = data.claims.get("exp")?.as_u64()?;
    Some(Claims { sub, exp })
}

/// Relies on String::from_utf8: it succeeds exactly on valid UTF-8 input, and
/// then returns the decoded text.
#[verifier::external_body]
fn string_from_utf8(bytes: Vec<u8>) -> (r: Option<String>)
    ensures
        r is Some <==> valid_utf8(bytes@),
        (r matches Some(s) ==> s@ == decode_utf8(bytes@)),
{
    String::from_utf8(bytes).ok()
}

/// What validating a token text decides, given the secret and the current
/// time: the claims when the signature matches and the expiration is still in
/// the future, else which of the two checks failed.
pub open spec fn spec_validate(token: Seq<char>, secret: Seq<u8>, now: u64) -> Result<
    (Seq<char>, u64),
    AuthError,
> {
    match jwt_claims(token, secret) {
        None => Err(AuthError::InvalidToken),
        Some(p) => if p.1 > now {
            Ok(p)
        } else {
            Err(AuthError::TokenExpired)
        },
    }
}

/// What validating a raw token byte string decides: the bytes must be UTF-8
/// text, and that text must validate.
pub open spec fn spec_validate_bytes(bytes: Seq<u8>, secret: Seq<u8>, now: u64) -> Result<
    (Seq<char>, u64),
    AuthError,
> {
    if valid_utf8(bytes) {
        spec_validate(decode_utf8(bytes), secret, now)
    } else {
        Err(AuthError::InvalidToken)
    }
}

/// Validates a token against the pre-shared secret and the current time. The
/// claims come back exactly when the signature matches and the expiration
/// lies in the future; otherwise the error says which check failed.
pub fn validate_token(token: &str, secret: &[u8], now: u64) -> (r: Result<Claims, AuthError>)
    ensures
        (r matches Ok(c) ==> spec_validate(token@, secret@, now) == Ok::<_, AuthError>(
            (c.sub@, c.exp),
        )),
        (r matches Err(e) ==> spec_validate(token@, secret@, now) == Err::<(Seq<char>, u64), _>(
            e,
        )),
{
    match decode_claims(token, secret) {
        None => Err(AuthError::InvalidToken),
        Some(c) => {
            if c.exp > now {
                Ok(c)
            } else {
                Err(AuthError::TokenExpired)
            }
        },
    }
}

/// Validates the raw token bytes read off the wire: they must be UTF-8 text
/// whose signature matches the secret and whose expiration lies in the
/// future.
pub fn validate_token_bytes(bytes: Vec<u8>, secret: &[u8], now: u64) -> (r: Result<
    Claims,
    AuthError,
>)
    ensures
        (r matches Ok(c) ==> spec_validate_bytes(bytes@, secret@, now) == Ok::<_, AuthError>(
            (c.sub@, c.exp),
        )),
        (r matches Err(e) ==> spec_validate_bytes(bytes@, secret@, now) == Err::<
            (Seq<char>, u64),
            _,
        >(e)),
{
    match string_from_utf8(bytes) {
        None => Err(AuthError::InvalidToken),
        Some(s) => validate_token(s.as_str(), secret, now),
    }
}

} // verus!
