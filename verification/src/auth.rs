//! The guard before every protected request: it reads the bearer token,
//! checks it, and lets the account in only while no code is outstanding.

use crate::bearer::{bearer_of, bearer_token};
use crate::models::{seen, User, UserView};
pub use crate::token::{decode_jwt, Claims};
use crate::token::{judged, signed_claims, AuthConfig, ClaimsView};
use vstd::prelude::*;

verus! {

/// The identity that a protected handler acts for.
#[derive(Debug, Clone)]
pub struct CurrentUser {
    pub email: String,
    pub id: String,
}

/// A refusal as the client sees it: a message and an HTTP status.
#[derive(Debug, Clone)]
pub struct AuthError {
    pub message: String,
    pub status_code: u16,
}

/// The `Authorization` header of a request.
#[derive(Debug, Clone)]
pub enum AuthHeader {
    /// The request has none.
    Absent,
    /// The header is there but is not printable text.
    Unreadable,
    /// The header's text.
    Text(String),
}

/// The header as mathematical values.
pub enum HeaderView {
    Absent,
    Unreadable,
    Text(Seq<char>),
}

impl View for AuthHeader {
    type V = HeaderView;

    open spec fn view(&self) -> HeaderView {
        match *self {
            AuthHeader::Absent => HeaderView::Absent,
            AuthHeader::Unreadable => HeaderView::Unreadable,
            AuthHeader::Text(h) => HeaderView::Text(h@),
        }
    }
}

/// Why the guard refused a request.
#[derive(Debug, Clone, Copy, PartialEq, Eq, Structural)]
pub enum AccessError {
    MissingCredentials,
    MalformedCredentials,
    InvalidToken,
    UnknownSubject,
    UnverifiedAccount,
}

/// What the guard makes of a header at time `now`, before it looks at the
/// account: the claims of the token, or the refusal.
///
/// An expired token and one that is not genuine are refused alike.
pub open spec fn access_verdict(header: HeaderView, now: nat, secret: Seq<char>) -> Result<
    ClaimsView,
    AccessError,
> {
    match header {
        HeaderView::Absent => Err(AccessError::MissingCredentials),
        HeaderView::Unreadable => Err(AccessError::MalformedCredentials),
        HeaderView::Text(h) => match bearer_of(h) {
            None => Err(AccessError::MalformedCredentials),
            Some(t) => match judged(signed_claims(t, secret), now) {
                Ok(c) => Ok(c),
                Err(_) => Err(AccessError::InvalidToken),
            },
        },
    }
}

/// The claims of the guard, as mathematical values.
pub open spec fn access_view(r: Result<Claims, AccessError>) -> Result<ClaimsView, AccessError> {
    match r {
        Ok(c) => Ok(c@),
        Err(e) => Err(e),
    }
}

/// The first half of the guard: from the header to the claims of a token
/// that is genuine and unexpired at `now`.
///
/// On success the caller looks the account up by the claims' address and
/// hands it to [`grant`].
pub fn authorize(header: &AuthHeader, now: usize, config: &AuthConfig) -> (r: Result<
    Claims,
    AccessError,
>)
    ensures
        access_view(r) == access_verdict(header@, now as nat, config.secret@),
{
    match header {
        AuthHeader::Absent => Err(AccessError::MissingCredentials),
        AuthHeader::Unreadable => Err(AccessError::MalformedCredentials),
        AuthHeader::Text(h) => match bearer_token(h.as_str()) {
            None => Err(AccessError::MalformedCredentials),
            Some(t) => match decode_jwt(t, now, config) {
                Ok(c) => Ok(c),
                Err(_) => Err(AccessError::InvalidToken),
            },
        },
    }
}

/// Whether the guard lets in the account found for a token's address.
pub open spec fn admission(user: Option<UserView>) -> Result<(), AccessError> {
    match user {
        None => Err(AccessError::UnknownSubject),
        Some(u) => if u.verification_code is Some {
            Err(AccessError::UnverifiedAccount)
        } else {
            Ok(())
        },
    }
}

/// The second half of the guard: the account must exist and have no code
/// outstanding. The identity handed on is read from the account.
pub fn grant(user: Option<&User>) -> (r: Result<CurrentUser, AccessError>)
    ensures
        match admission(seen(user)) {
            Ok(_) => r matches Ok(who) && user matches Some(u) && who.email@ == u.email@ && who.id@
                == u.id@,
            Err(e) => r matches Err(f) && f == e,
        },
{
    match user {
        None => Err(AccessError::UnknownSubject),
        Some(u) => {
            if u.verification_code.is_some() {
                Err(AccessError::UnverifiedAccount)
            } else {
                Ok(CurrentUser { email: u.email.clone(), id: u.id.clone() })
            }
        },
    }
}

impl AccessError {
    /// The HTTP status of a refusal: 403 where the credentials are missing
    /// or malformed, 401 otherwise.
    pub open spec fn status(self) -> u16 {
        match self {
            AccessError::MissingCredentials => 403,
            AccessError::MalformedCredentials => 403,
            AccessError::InvalidToken => 401,
            AccessError::UnknownSubject => 401,
            AccessError::UnverifiedAccount => 401,
        }
    }

    /// The message of a refusal.
    pub open spec fn message(self) -> Seq<char> {
        match self {
            AccessError::MissingCredentials => "Please add the JWT token to the header"@,
            AccessError::MalformedCredentials => "Empty header is not allowed"@,
            AccessError::InvalidToken => "Unable to decode token"@,
            AccessError::UnknownSubject => "User not found"@,
            AccessError::UnverifiedAccount => "User is not verified"@,
        }
    }

    /// The refusal as the client sees it.
    pub fn to_auth_error(self) -> (r: AuthError)
        ensures
            r.status_code == self.status(),
            r.message@ == self.message(),
    {
        match self {
            AccessError::MissingCredentials => AuthError {
                message: String::from_str("Please add the JWT token to the header"),
                status_code: 403,
            },
            AccessError::MalformedCredentials => AuthError {
                message: String::from_str("Empty header is not allowed"),
                status_code: 403,
            },
            AccessError::InvalidToken => AuthError {
                message: String::from_str("Unable to decode token"),
                status_code: 401,
            },
            AccessError::UnknownSubject => AuthError {
                message: String::from_str("User not found"),
                status_code: 401,
            },
            AccessError::UnverifiedAccount => AuthError {
                message: String::from_str("User is not verified"),
                status_code: 401,
            },
        }
    }
}

} // verus!
