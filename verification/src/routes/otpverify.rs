//! `POST /otp-verify`: redeem a one-time code for a session token.

use crate::bearer::is_word;
use crate::models::{seen, StoreAction, StoreActionView, User, UserView};
use crate::otp::{hash_accepts, verify_code, Fatal};
pub use crate::token::{encode_jwt, Claims};
use crate::token::{minted, session, signed_claims, AuthConfig};
use vstd::prelude::*;

verus! {

/// The body of the request.
#[derive(Debug, Clone)]
pub struct OtpVerifyRequest {
    pub email: String,
    pub verification_code: String,
}

/// The body of the response: the token, or nothing where the code was not
/// redeemed.
#[derive(Debug, Clone)]
pub struct OtpVerifyResponse {
    pub access_token: Option<String>,
}

/// Why a code was not redeemed.
#[derive(Debug, Clone, Copy, PartialEq, Eq, Structural)]
pub enum VerifyError {
    /// No code was presented.
    InvalidInput,
    /// The store has no account for the address.
    NotFound,
    /// The account has no code outstanding.
    NoPendingCode,
    /// The presented code is not the one outstanding.
    CodeMismatch,
    /// The code was right, but no token could be minted.
    Fatal,
}

/// A redeemed code: the session token, and the store action that spends the
/// code. The token is to be handed out only once the action has been
/// carried out.
#[derive(Debug, Clone)]
pub struct Redeemed {
    pub token: String,
    pub action: StoreAction,
}

/// The outcome of presenting `code` for the account `user`, where
/// `accepted` says whether the stored hash accepts the code: the first
/// reason against redeeming it, or `Ok`.
pub open spec fn ruling(code: Seq<char>, user: Option<UserView>, accepted: bool) -> Result<
    (),
    VerifyError,
> {
    if code.len() == 0 {
        Err(VerifyError::InvalidInput)
    } else {
        match user {
            None => Err(VerifyError::NotFound),
            Some(u) => match u.verification_code {
                None => Err(VerifyError::NoPendingCode),
                Some(_) => if accepted {
                    Ok(())
                } else {
                    Err(VerifyError::CodeMismatch)
                },
            },
        }
    }
}

/// Whether the hash stored for `user` accepts `code`; `false` where there
/// is no account or no hash.
pub open spec fn stored_hash_accepts(code: Seq<char>, user: Option<UserView>) -> bool {
    match user {
        Some(u) => match u.verification_code {
            Some(h) => hash_accepts(h, code),
            None => false,
        },
        None => false,
    }
}

/// Whether `code`, presented for the account `user`, is the outstanding
/// code: the first reason against it, or `Ok`.
pub open spec fn verdict(code: Seq<char>, user: Option<UserView>) -> Result<(), VerifyError> {
    ruling(code, user, stored_hash_accepts(code, user))
}

/// Whether `action` spends the outstanding code of `user`: it clears the
/// code of that account on condition that the stored hash is still the one
/// that was checked.
pub open spec fn spends(action: StoreActionView, user: Option<UserView>) -> bool {
    &&& user matches Some(u)
    &&& u.verification_code matches Some(h)
    &&& action == (StoreActionView::ClearCode { id: u.id, expected: h })
}

/// Whether the store has to be asked for the account at all: not when no
/// code was presented, since the request then fails whatever the store
/// holds.
pub fn needs_lookup(payload: &OtpVerifyRequest) -> (r: bool)
    ensures
        r == (payload.verification_code@.len() > 0),
        !r ==> forall|user: Option<UserView>|
            verdict(payload.verification_code@, user) == Err::<(), VerifyError>(
                VerifyError::InvalidInput,
            ),
{
    !payload.verification_code.as_str().is_empty()
}

/// Decides a redemption from the hasher's answer. `accepted` is what the
/// hasher said of the presented code and the stored hash; it is read only
/// where a code was presented and the account has one outstanding.
pub fn judge(code: &str, user: Option<&User>, accepted: bool) -> (r: Result<
    StoreAction,
    VerifyError,
>)
    ensures
        match ruling(code@, seen(user), accepted) {
            Ok(_) => r matches Ok(action) && spends(action@, seen(user)),
            Err(e) => r matches Err(f) && f == e,
        },
{
    if code.is_empty() {
        return Err(VerifyError::InvalidInput);
    }
    match user {
        None => Err(VerifyError::NotFound),
        Some(u) => match &u.verification_code {
            None => Err(VerifyError::NoPendingCode),
            Some(h) => {
                if accepted {
                    Ok(StoreAction::ClearCode { id: u.id.clone(), expected: h.clone() })
                } else {
                    Err(VerifyError::CodeMismatch)
                }
            },
        },
    }
}

/// Checks a presented code against the account that the store holds for the
/// address, if any.
///
/// Fails with the first reason that applies: no code presented, no account,
/// no code outstanding, or a code that the stored hash does not accept.
/// Succeeds otherwise, with the action that spends the code.
pub fn check_code(code: &str, user: Option<&User>) -> (r: Result<StoreAction, VerifyError>)
    ensures
        match verdict(code@, seen(user)) {
            Ok(_) => r matches Ok(action) && spends(action@, seen(user)),
            Err(e) => r matches Err(f) && f == e,
        },
{
    let accepted = match user {
        Some(u) => match &u.verification_code {
            Some(h) => !code.is_empty() && verify_code(h.as_str(), code),
            None => false,
        },
        None => false,
    };
    judge(code, user, accepted)
}

/// What redeeming `code` against `user` at `now` comes to: the token, or
/// the reason there is none.
pub open spec fn redemption(
    code: Seq<char>,
    user: Option<UserView>,
    now: nat,
    lifetime: nat,
    secret: Seq<char>,
) -> Result<Seq<char>, VerifyError> {
    match verdict(code, user) {
        Err(e) => Err(e),
        Ok(_) => match minted(user.unwrap().email, now, lifetime, secret) {
            Ok(t) => Ok(t),
            Err(_) => Err(VerifyError::Fatal),
        },
    }
}

/// Redeems the code in `payload` against the account that the store holds
/// for the address, at time `now`.
///
/// On success the token is the one minted for the account's address at
/// `now`: a single word which, read back with the configured secret, names
/// that address, with an expiry one lifetime after `now`. The action spends
/// the code.
pub fn redeem(
    payload: &OtpVerifyRequest,
    user: Option<&User>,
    now: usize,
    config: &AuthConfig,
) -> (r: Result<Redeemed, VerifyError>)
    ensures
        match redemption(
            payload.verification_code@,
            seen(user),
            now as nat,
            config.token_lifetime as nat,
            config.secret@,
        ) {
            Ok(t) => {
                &&& r matches Ok(out)
                &&& out.token@ == t
                &&& spends(out.action@, seen(user))
                &&& user matches Some(u)
                &&& is_word(t)
                &&& signed_claims(t, config.secret@) == Some(
                    session(u.email@, now as nat, config.token_lifetime as nat),
                )
            },
            Err(e) => r matches Err(f) && f == e,
        },
{
    match check_code(payload.verification_code.as_str(), user) {
        Err(e) => Err(e),
        Ok(action) => {
            let email = match user {
                Some(u) => u.email.clone(),
                None => String::new(),
            };
            match encode_jwt(email, now, config) {
                Ok(token) => Ok(Redeemed { token, action }),
                Err(_) => Err(VerifyError::Fatal),
            }
        },
    }
}

impl VerifyError {
    /// The HTTP status of a failed redemption: 500 where minting failed,
    /// 400 for every other reason, so that the response does not tell them
    /// apart.
    pub open spec fn status(self) -> u16 {
        if self == VerifyError::Fatal {
            500
        } else {
            400
        }
    }
}

/// Handles a redemption: the status, the body, and the store action to
/// carry out before the body is sent.
///
/// The status is 200 and the body holds the token exactly when the code
/// was redeemed. Every failure has an empty body and no action.
pub fn handler(
    payload: &OtpVerifyRequest,
    user: Option<&User>,
    now: usize,
    config: &AuthConfig,
) -> (r: (u16, OtpVerifyResponse, Option<StoreAction>))
    ensures
        match redemption(
            payload.verification_code@,
            seen(user),
            now as nat,
            config.token_lifetime as nat,
            config.secret@,
        ) {
            Ok(t) => {
                &&& r.0 == 200
                &&& crate::models::text(r.1.access_token) == Some(t)
                &&& r.2 matches Some(action)
                &&& spends(action@, seen(user))
            },
            Err(e) => {
                &&& r.0 == e.status()
                &&& r.1.access_token is None
                &&& r.2 is None
            },
        },
{
    match redeem(payload, user, now, config) {
        Ok(out) => (200, OtpVerifyResponse { access_token: Some(out.token) }, Some(out.action)),
        Err(e) => {
            let status: u16 = if e == VerifyError::Fatal {
                500
            } else {
                400
            };
            (status, OtpVerifyResponse { access_token: None }, None)
        },
    }
}

/// The response once the store has answered the action of a redemption.
///
/// The store clears the code only if the hash that was checked is still the
/// one it holds. Where it did, the token is sent with status 200; where it
/// did not, another redemption came first, and the answer is that of any
/// failed redemption.
pub fn confirm(token: String, cleared: bool) -> (r: (u16, OtpVerifyResponse))
    ensures
        cleared ==> r.0 == 200 && r.1.access_token == Some(token),
        !cleared ==> r.0 == 400 && r.1.access_token is None,
{
    if cleared {
        (200, OtpVerifyResponse { access_token: Some(token) })
    } else {
        (400, OtpVerifyResponse { access_token: None })
    }
}

} // verus!
