//! `POST /otp`: issue a one-time code for an address.

use crate::models::{seen, CreateUser, StoreAction, StoreActionView, UpdateUser, User, UserView};
use crate::otp::{generate_code, hash_accepts, is_code, Fatal};
use vstd::prelude::*;

verus! {

/// The body of the request.
#[derive(Debug, Clone)]
pub struct OtpRequest {
    pub email: String,
}

/// The body of the response: empty, whether or not the address was known.
#[derive(Debug, Clone)]
pub struct OtpResponse {}

/// A message that carries a code to its address.
#[derive(Debug, Clone)]
pub struct Mail {
    pub to: String,
    pub subject: String,
    pub html: String,
}

/// What issuing a code asks of the caller: carry `action` out on the store,
/// then send `mail`, which carries `code`, whether or not sending succeeds.
#[derive(Debug, Clone)]
pub struct Issuance {
    pub code: String,
    pub action: StoreAction,
    pub mail: Mail,
}

/// The subject line of the message for `code`.
pub open spec fn mail_subject(code: Seq<char>) -> Seq<char> {
    "Your OTP Code: "@ + code
}

/// The HTML body of the message for `code`.
pub open spec fn mail_html(code: Seq<char>) -> Seq<char> {
    "<h3>Hello! \u{1F44B}</h3><p>Your OTP code for <strong>Notes - Helpedby AI</strong> is: "@
        + code + "</p>"@
}

/// Whether `mail` carries `code` to `email`.
pub open spec fn carries(mail: Mail, email: Seq<char>, code: Seq<char>) -> bool {
    &&& mail.to@ == email
    &&& mail.subject@ == mail_subject(code)
    &&& mail.html@ == mail_html(code)
}

/// Whether `action` stores `hash` for `email`: by updating the account that
/// was found, leaving its address as it is, or by inserting a new one where
/// none was.
pub open spec fn stores_hash(
    email: Seq<char>,
    found: Option<UserView>,
    hash: Seq<char>,
    action: StoreActionView,
) -> bool {
    match found {
        Some(u) => action == (StoreActionView::Update {
            id: u.id,
            new_email: None,
            verification_code: Some(hash),
        }),
        None => action == (StoreActionView::Insert { email, verification_code: Some(hash) }),
    }
}

/// Whether `code` and `action` are what issuing a code for `email` hands
/// out, given the account `found`: the code is six decimal digits from the
/// range of codes, and the action stores a hash that accepts it.
pub open spec fn issued_for(
    email: Seq<char>,
    found: Option<UserView>,
    code: Seq<char>,
    action: StoreActionView,
) -> bool {
    &&& is_code(code)
    &&& code.len() == 6
    &&& action.new_hash() matches Some(h)
    &&& hash_accepts(h, code)
    &&& stores_hash(email, found, h, action)
}

/// Writes the message that carries `code` to `to`.
pub fn compose_mail(to: &str, code: &str) -> (mail: Mail)
    ensures
        carries(mail, to@, code@),
{
    let subject = String::from_str("Your OTP Code: ").concat(code);
    let html = String::from_str(
        "<h3>Hello! \u{1F44B}</h3><p>Your OTP code for <strong>Notes - Helpedby AI</strong> is: ",
    ).concat(code).concat("</p>");
    Mail { to: String::from_str(to), subject, html }
}

/// The store action that records `hash` as the one outstanding code of
/// `email`.
pub fn plan(email: &str, found: Option<&User>, hash: String) -> (action: StoreAction)
    ensures
        stores_hash(email@, seen(found), hash@, action@),
{
    match found {
        Some(u) => StoreAction::Update {
            id: u.id.clone(),
            changes: UpdateUser { email: None, verification_code: Some(hash) },
        },
        None => StoreAction::Insert(
            CreateUser { email: String::from_str(email), verification_code: Some(hash) },
        ),
    }
}

/// Issues a code for the address in `payload`, given the account that the
/// store holds for it, if any.
///
/// On success the code is six decimal digits, and the action stores a hash
/// that accepts it, replacing any code issued before. When hashing fails
/// there is no action, so the store is left as it was.
pub fn request_code(payload: &OtpRequest, found: Option<&User>) -> (r: Result<Issuance, Fatal>)
    ensures
        match r {
            Ok(out) => {
                &&& issued_for(payload.email@, seen(found), out.code@, out.action@)
                &&& carries(out.mail, payload.email@, out.code@)
            },
            Err(e) => e == Fatal::Hashing,
        },
{
    match generate_code() {
        Ok((code, hash)) => {
            let action = plan(payload.email.as_str(), found, hash);
            let mail = compose_mail(payload.email.as_str(), code.as_str());
            Ok(Issuance { code, action, mail })
        },
        Err(e) => Err(e),
    }
}

/// Handles a request for a code: the status, the empty body, and what the
/// caller has to store and deliver, if a code was issued.
///
/// The status is 200 whenever a code was issued, whether the account was
/// new or known, and 500 when issuing failed. Delivery comes after and
/// does not change the answer.
pub fn handler(payload: &OtpRequest, found: Option<&User>) -> (r: (
    u16,
    OtpResponse,
    Option<Issuance>,
))
    ensures
        match r.2 {
            Some(out) => {
                &&& r.0 == 200
                &&& issued_for(payload.email@, seen(found), out.code@, out.action@)
                &&& carries(out.mail, payload.email@, out.code@)
            },
            None => r.0 == 500,
        },
{
    match request_code(payload, found) {
        Ok(out) => (200, OtpResponse {  }, Some(out)),
        Err(_) => (500, OtpResponse {  }, None),
    }
}

} // verus!
