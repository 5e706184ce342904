//! What holds of the sign-in flow as a whole, proved from the contracts of
//! its steps. The store is taken to carry out each action as
//! `StoreActionView::carried_out` describes.

use crate::auth::{access_verdict, admission, AccessError, HeaderView};
use crate::bearer::{bearer_of, is_word, lemma_plain_header_reads_back};
use crate::models::{StoreActionView, UserView};
use crate::otp::hash_accepts;
use crate::routes::otp::issued_for;
use crate::routes::otpverify::{redemption, spends, verdict, VerifyError};
use crate::token::{minted, session, signed_claims, ClaimsView};
use vstd::prelude::*;

verus! {

/// A code issued for an address that the store did not know, presented for
/// the account that the store then holds, is redeemed: the code is accepted,
/// and the outcome is the token minted for that address, unless minting
/// itself fails.
pub proof fn fresh_code_redeems(
    email: Seq<char>,
    code: Seq<char>,
    action: StoreActionView,
    stored: UserView,
    now: nat,
    lifetime: nat,
    secret: Seq<char>,
)
    requires
        issued_for(email, None, code, action),
        action.carried_out(None, stored),
    ensures
        stored.email == email,
        verdict(code, Some(stored)) is Ok,
        redemption(code, Some(stored), now, lifetime, secret) == match minted(
            email,
            now,
            lifetime,
            secret,
        ) {
            Ok(t) => Ok::<Seq<char>, VerifyError>(t),
            Err(_) => Err::<Seq<char>, VerifyError>(VerifyError::Fatal),
        },
{
}

/// A token as a redemption hands it out (a single word that reads back as
/// the session of an address), presented after `Bearer` and a space, is let
/// through the first half of the guard, with that address as its subject,
/// at every time up to its expiry.
pub proof fn session_token_passes(
    token: Seq<char>,
    email: Seq<char>,
    now: nat,
    lifetime: nat,
    later: nat,
    secret: Seq<char>,
)
    requires
        is_word(token),
        signed_claims(token, secret) == Some(session(email, now, lifetime)),
        later <= now + lifetime,
    ensures
        access_verdict(HeaderView::Text("Bearer "@ + token), later, secret) == Ok::<
            ClaimsView,
            AccessError,
        >(session(email, now, lifetime)),
        session(email, now, lifetime).email == email,
{
    lemma_plain_header_reads_back(token);
}

/// A code is good for one redemption: once the action that spends it has
/// been carried out, no code at all is redeemed for the account until
/// another is issued.
pub proof fn spent_code_is_refused(
    user: UserView,
    action: StoreActionView,
    after: UserView,
    code: Seq<char>,
)
    requires
        spends(action, Some(user)),
        action.carried_out(Some(user), after),
    ensures
        verdict(code, Some(after)) == Err::<(), VerifyError>(
            if code.len() == 0 {
                VerifyError::InvalidInput
            } else {
                VerifyError::NoPendingCode
            },
        ),
{
}

/// Only the latest code is valid: after a second code has been issued for
/// an address, the first is refused as a mismatch, unless the hash of the
/// second happens to accept it too; the second is good.
pub proof fn only_latest_code_redeems(
    email: Seq<char>,
    before: Option<UserView>,
    first_code: Seq<char>,
    first_action: StoreActionView,
    mid: UserView,
    second_code: Seq<char>,
    second_action: StoreActionView,
    last: UserView,
)
    requires
        issued_for(email, before, first_code, first_action),
        first_action.carried_out(before, mid),
        issued_for(email, Some(mid), second_code, second_action),
        second_action.carried_out(Some(mid), last),
        !hash_accepts(second_action.new_hash().unwrap(), first_code),
    ensures
        verdict(first_code, Some(last)) == Err::<(), VerifyError>(VerifyError::CodeMismatch),
        verdict(second_code, Some(last)) is Ok,
{
}

/// A token past its expiry is refused by the guard with the same error as a
/// token that is not genuine.
pub proof fn expired_is_refused_like_forged(
    header: Seq<char>,
    token: Seq<char>,
    now: nat,
    secret: Seq<char>,
)
    requires
        bearer_of(header) == Some(token),
        signed_claims(token, secret) matches Some(c) ==> c.exp < now,
    ensures
        access_verdict(HeaderView::Text(header), now, secret) == Err::<ClaimsView, AccessError>(
            AccessError::InvalidToken,
        ),
{
}

/// Asking for a new code revokes access: once the action of a new issuance
/// has been carried out on an account, the guard refuses it as unverified,
/// whatever token is presented.
pub proof fn reissue_revokes_access(
    email: Seq<char>,
    user: UserView,
    code: Seq<char>,
    action: StoreActionView,
    after: UserView,
)
    requires
        issued_for(email, Some(user), code, action),
        action.carried_out(Some(user), after),
    ensures
        admission(Some(after)) == Err::<(), AccessError>(AccessError::UnverifiedAccount),
{
}

} // verus!
