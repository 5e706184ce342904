//! Session tokens: claims signed with the service's secret, and the check
//! that a presented token is genuine and has not expired.

use crate::bearer::is_word;
use crate::models::text;
use crate::otp::Fatal;
use jsonwebtoken::{DecodingKey, EncodingKey, Header, Validation};
use serde_json::Value;
use vstd::prelude::*;

verus! {

/// How long a session token is valid unless configured otherwise: 120 hours.
pub const TOKEN_LIFETIME_SECS: usize = 432000;

/// What a session token states: whom it was issued to, when, and until when.
/// Times are seconds since the epoch.
#[derive(Debug, Clone)]
pub struct Claims {
    pub exp: usize,
    pub iat: usize,
    pub email: String,
}

/// The claims as mathematical values.
pub struct ClaimsView {
    pub exp: nat,
    pub iat: nat,
    pub email: Seq<char>,
}

impl View for Claims {
    type V = ClaimsView;

    open spec fn view(&self) -> ClaimsView {
        ClaimsView { exp: self.exp as nat, iat: self.iat as nat, email: self.email@ }
    }
}

/// The signing secret and the token lifetime, fixed when the service starts.
#[derive(Debug, Clone)]
pub struct AuthConfig {
    pub secret: String,
    pub token_lifetime: usize,
}

/// Why a token was turned down.
#[derive(Debug, Clone, Copy, PartialEq, Eq, Structural)]
pub enum DecodeError {
    /// Malformed, or not signed with the secret.
    Invalid,
    /// Genuine, but past its expiry.
    Expired,
}

/// The error type of the token library.
#[verifier::external_type_specification]
#[verifier::external_body]
pub struct ExTokenError(jsonwebtoken::errors::Error);

/// What the payload of a token holds under the names `exp`, `iat` and
/// `email`: a number, a number and a text, each only where the payload has
/// an entry of that name and kind.
#[derive(Debug, Clone)]
pub struct Payload {
    pub exp: Option<u64>,
    pub iat: Option<u64>,
    pub email: Option<String>,
}

/// A payload as mathematical values.
pub struct PayloadView {
    pub exp: Option<u64>,
    pub iat: Option<u64>,
    pub email: Option<Seq<char>>,
}

impl View for Payload {
    type V = PayloadView;

    open spec fn view(&self) -> PayloadView {
        PayloadView { exp: self.exp, iat: self.iat, email: text(self.email) }
    }
}

/// The token that signing `claims` with `secret` yields, `None` where the
/// token library fails.
pub uninterp spec fn signed_token(claims: ClaimsView, secret: Seq<char>) -> Option<Seq<char>>;

/// The payload of `token` if the token is well formed and signed with
/// `secret`; `None` otherwise. The current time plays no part.
pub uninterp spec fn signed_payload(token: Seq<char>, secret: Seq<char>) -> Option<PayloadView>;

/// The payload that holds exactly these claims.
pub open spec fn payload_of(claims: ClaimsView) -> PayloadView {
    PayloadView {
        exp: Some(claims.exp as u64),
        iat: Some(claims.iat as u64),
        email: Some(claims.email),
    }
}

/// The claims that a payload states: it must hold all three, and the two
/// times must fit a `usize`.
pub open spec fn claims_of(payload: PayloadView) -> Option<ClaimsView> {
    match (payload.exp, payload.iat, payload.email) {
        (Some(exp), Some(iat), Some(email)) => if exp <= usize::MAX && iat <= usize::MAX {
            Some(ClaimsView { exp: exp as nat, iat: iat as nat, email })
        } else {
            None
        },
        _ => None,
    }
}

/// The claims that `token` carries if it is well formed, signed with
/// `secret` and states an expiry, an issue time and an address; `None`
/// otherwise.
pub open spec fn signed_claims(token: Seq<char>, secret: Seq<char>) -> Option<ClaimsView> {
    match signed_payload(token, secret) {
        Some(p) => claims_of(p),
        None => None,
    }
}

/// The claims of an optional value, as mathematical values.
pub open spec fn claims_view(c: Option<Claims>) -> Option<ClaimsView> {
    match c {
        Some(c) => Some(c@),
        None => None,
    }
}

/// The payload of an optional value, as mathematical values.
pub open spec fn payload_view(p: Option<Payload>) -> Option<PayloadView> {
    match p {
        Some(p) => Some(p@),
        None => None,
    }
}

/// The text of a successful result.
pub open spec fn ok_text<E>(r: Result<String, E>) -> Option<Seq<char>> {
    match r {
        Ok(t) => Some(t@),
        Err(_) => None,
    }
}

/// Calls `jsonwebtoken::encode` with the default header (HMAC-SHA-256) on a
/// JSON object holding the three claims. Signing is deterministic, so the
/// token has a name; a token so made, read back with the same secret, has
/// the payload it was made from; and it consists of three base64url parts
/// joined by dots, so it is a single word.
#[verifier::external_body]
fn sign_claims(claims: &Claims, secret: &str) -> (r: Result<String, jsonwebtoken::errors::Error>)
    ensures
        ok_text(r) == signed_token(claims@, secret@),
        r matches Ok(t) ==> signed_payload(t@, secret@) == Some(payload_of(claims@)),
        r matches Ok(t) ==> is_word(t@),
{
    let mut body = serde_json::Map::new();
    body.insert("exp".to_string(), Value::from(claims.exp));
    body.insert("iat".to_string(), Value::from(claims.iat));
    body.insert("email".to_string(), Value::from(claims.email.as_str()));
    jsonwebtoken::encode(&Header::default(), &body, &EncodingKey::from_secret(secret.as_bytes()))
}

/// Calls `jsonwebtoken::decode` with the default validation, except that
/// the library's own comparison of the expiry with the system clock is
/// switched off, and picks the three entries out of the JSON object it
/// returns. The answer depends on the token and the secret alone.
#[verifier::external_body]
fn read_payload(token: &str, secret: &str) -> (r: Option<Payload>)
    ensures
        payload_view(r) == signed_payload(token@, secret@),
{
    let mut rules = Validation::default();
    rules.validate_exp = false;
    let key = DecodingKey::from_secret(secret.as_bytes());
    let body = jsonwebtoken::decode::<Value>(token, &key, &rules).ok()?.claims;
    Some(Payload {
        exp: body.get("exp").and_then(Value::as_u64),
        iat: body.get("iat").and_then(Value::as_u64),
        email: body.get("email").and_then(Value::as_str).map(str::to_string),
    })
}

/// Reads the claims out of a payload: all three must be there, and the
/// times must fit the machine's integers.
pub fn claims_from(payload: Payload) -> (r: Option<Claims>)
    ensures
        claims_view(r) == claims_of(payload@),
{
    match (payload.exp, payload.iat, payload.email) {
        (Some(exp), Some(iat), Some(email)) => {
            if exp <= usize::MAX as u64 && iat <= usize::MAX as u64 {
                Some(Claims { exp: exp as usize, iat: iat as usize, email })
            } else {
                None
            }
        },
        _ => None,
    }
}

impl AuthConfig {
    /// A configuration with the given secret and the default lifetime.
    pub fn new(secret: String) -> (config: AuthConfig)
        ensures
            config.secret == secret,
            config.token_lifetime == TOKEN_LIFETIME_SECS,
    {
        AuthConfig { secret, token_lifetime: TOKEN_LIFETIME_SECS }
    }
}

/// The claims of a session that starts at `now` and lasts `lifetime`.
pub open spec fn session(email: Seq<char>, now: nat, lifetime: nat) -> ClaimsView {
    ClaimsView { exp: now + lifetime, iat: now, email }
}

/// The token minted for `email` at `now` with the given lifetime and
/// secret, or the reason there is none: the expiry must fit a `usize`, and
/// signing must succeed.
pub open spec fn minted(email: Seq<char>, now: nat, lifetime: nat, secret: Seq<char>) -> Result<
    Seq<char>,
    Fatal,
> {
    if now + lifetime > usize::MAX {
        Err(Fatal::Clock)
    } else {
        match signed_token(session(email, now, lifetime), secret) {
            Some(t) => Ok(t),
            None => Err(Fatal::Signing),
        }
    }
}

/// Turns the token library's answer into the service's own.
pub fn token_or_fatal(signed: Result<String, jsonwebtoken::errors::Error>) -> (r: Result<
    String,
    Fatal,
>)
    ensures
        match signed {
            Ok(t) => r == Ok::<String, Fatal>(t),
            Err(_) => r == Err::<String, Fatal>(Fatal::Signing),
        },
{
    match signed {
        Ok(t) => Ok(t),
        Err(_) => Err(Fatal::Signing),
    }
}

/// Mints a session token for `email`, issued at `now` and expiring one
/// configured lifetime later.
///
/// The token is the one that signing those claims yields. It is a single
/// word, and read back with the same secret it gives those claims again.
pub fn encode_jwt(email: String, now: usize, config: &AuthConfig) -> (r: Result<String, Fatal>)
    ensures
        match minted(email@, now as nat, config.token_lifetime as nat, config.secret@) {
            Ok(t) => {
                &&& r matches Ok(s)
                &&& s@ == t
                &&& is_word(t)
                &&& signed_claims(t, config.secret@) == Some(
                    session(email@, now as nat, config.token_lifetime as nat),
                )
            },
            Err(e) => r == Err::<String, Fatal>(e),
        },
{
    if config.token_lifetime > usize::MAX - now {
        return Err(Fatal::Clock);
    }
    let claims = Claims { exp: now + config.token_lifetime, iat: now, email };
    token_or_fatal(sign_claims(&claims, config.secret.as_str()))
}

/// What becomes of a token whose signed claims are `claims` when it is
/// presented at `now`: it is invalid if there are none, expired if `now` is
/// past the expiry, and accepted otherwise.
pub open spec fn judged(claims: Option<ClaimsView>, now: nat) -> Result<ClaimsView, DecodeError> {
    match claims {
        None => Err(DecodeError::Invalid),
        Some(c) => if c.exp < now {
            Err(DecodeError::Expired)
        } else {
            Ok(c)
        },
    }
}

/// The claims of a decoding result, as mathematical values.
pub open spec fn decoded(r: Result<Claims, DecodeError>) -> Result<ClaimsView, DecodeError> {
    match r {
        Ok(c) => Ok(c@),
        Err(e) => Err(e),
    }
}

/// Checks the expiry of claims that were read from a token.
pub fn check_expiry(claims: Option<Claims>, now: usize) -> (r: Result<Claims, DecodeError>)
    ensures
        decoded(r) == judged(claims_view(claims), now as nat),
        r matches Ok(c) ==> claims == Some(c),
{
    match claims {
        None => Err(DecodeError::Invalid),
        Some(c) => {
            if c.exp < now {
                Err(DecodeError::Expired)
            } else {
                Ok(c)
            }
        },
    }
}

/// Reads a presented token at time `now`.
///
/// Fails with `Invalid` when the token is malformed, not signed with the
/// configured secret, or does not state all three claims; with `Expired`
/// when it is genuine and `now` is past its expiry; and returns its claims
/// otherwise. A token is still good in the second of its expiry.
pub fn decode_jwt(jwt_token: String, now: usize, config: &AuthConfig) -> (r: Result<
    Claims,
    DecodeError,
>)
    ensures
        decoded(r) == judged(signed_claims(jwt_token@, config.secret@), now as nat),
{
    let payload = read_payload(jwt_token.as_str(), config.secret.as_str());
    let claims = match payload {
        Some(p) => claims_from(p),
        None => None,
    };
    check_expiry(claims, now)
}

} // verus!
