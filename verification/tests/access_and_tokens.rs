use otp_auth::auth::{authorize, grant, AccessError, AuthHeader, CurrentUser};
use otp_auth::bearer::{bearer_token, is_whitespace};
use otp_auth::models::{StoreAction, User};
use otp_auth::otp::{pair_code, Fatal};
use otp_auth::routes::me::handler as me_handler;
use otp_auth::routes::otp::plan;
use otp_auth::routes::otpverify::{judge, VerifyError};
use otp_auth::token::{
    check_expiry, claims_from, decode_jwt, encode_jwt, token_or_fatal, AuthConfig, Claims,
    DecodeError, Payload, TOKEN_LIFETIME_SECS,
};

fn cfg() -> AuthConfig {
    AuthConfig::new("door secret".to_string())
}

fn account(code: Option<&str>) -> User {
    User {
        id: "id-1".to_string(),
        email: "g@example.com".to_string(),
        verification_code: code.map(|c| c.to_string()),
        created_at: "2024-05-05".to_string(),
    }
}

/// Signs an arbitrary JSON body with the secret of `cfg`.
fn sign_body(body: &serde_json::Map<String, serde_json::Value>, secret: &str) -> String {
    jsonwebtoken::encode(
        &jsonwebtoken::Header::default(),
        body,
        &jsonwebtoken::EncodingKey::from_secret(secret.as_bytes()),
    )
    .unwrap()
}

#[test]
fn default_lifetime_is_120_hours() {
    assert_eq!(TOKEN_LIFETIME_SECS, 120 * 3600);
    let c = AuthConfig::new("s".to_string());
    assert_eq!(c.token_lifetime, 432000);
    assert_eq!(c.secret, "s");
}

#[test]
fn token_round_trip_gives_exact_claims() {
    let token = encode_jwt("t@example.com".to_string(), 1000, &cfg()).unwrap();
    assert_ne!(token, "t@example.com");
    assert_eq!(token.matches('.').count(), 2);
    let claims = decode_jwt(token, 1000, &cfg()).unwrap();
    assert_eq!(claims.email, "t@example.com");
    assert_eq!(claims.iat, 1000);
    assert_eq!(claims.exp, 433000);
}

#[test]
fn token_is_the_signed_json_of_its_claims() {
    let mut body = serde_json::Map::new();
    body.insert("exp".to_string(), serde_json::Value::from(433000u64));
    body.insert("iat".to_string(), serde_json::Value::from(1000u64));
    body.insert("email".to_string(), serde_json::Value::from("t@example.com"));
    let by_hand = sign_body(&body, "door secret");
    let token = encode_jwt("t@example.com".to_string(), 1000, &cfg()).unwrap();
    assert_eq!(token, by_hand);
}

#[test]
fn token_is_a_single_word_that_a_plain_header_carries() {
    let token = encode_jwt("t@example.com".to_string(), 1000, &cfg()).unwrap();
    assert!(!token.is_empty());
    assert!(!token.chars().any(|c| c.is_whitespace()));
    assert_eq!(bearer_token(&format!("Bearer {}", token)), Some(token));
}

#[test]
fn token_is_valid_up_to_its_expiry_and_not_after() {
    let token = encode_jwt("t@example.com".to_string(), 1000, &cfg()).unwrap();
    assert!(decode_jwt(token.clone(), 433000, &cfg()).is_ok());
    assert_eq!(decode_jwt(token.clone(), 433001, &cfg()).unwrap_err(), DecodeError::Expired);
    assert_eq!(decode_jwt(token, usize::MAX, &cfg()).unwrap_err(), DecodeError::Expired);
}

#[test]
fn forged_and_malformed_tokens_are_invalid() {
    let other = AuthConfig::new("another secret".to_string());
    let forged = encode_jwt("t@example.com".to_string(), 1000, &other).unwrap();
    assert_eq!(decode_jwt(forged, 1000, &cfg()).unwrap_err(), DecodeError::Invalid);
    assert_eq!(decode_jwt("".to_string(), 1000, &cfg()).unwrap_err(), DecodeError::Invalid);
    assert_eq!(decode_jwt("a.b.c".to_string(), 1000, &cfg()).unwrap_err(), DecodeError::Invalid);
    let token = encode_jwt("t@example.com".to_string(), 1000, &cfg()).unwrap();
    let mut tampered = token.clone();
    tampered.pop();
    assert_eq!(decode_jwt(tampered, 1000, &cfg()).unwrap_err(), DecodeError::Invalid);
}

#[test]
fn token_without_all_three_claims_is_invalid() {
    let mut body = serde_json::Map::new();
    body.insert("exp".to_string(), serde_json::Value::from(433000u64));
    body.insert("iat".to_string(), serde_json::Value::from(1000u64));
    let no_email = sign_body(&body, "door secret");
    assert_eq!(decode_jwt(no_email, 1000, &cfg()).unwrap_err(), DecodeError::Invalid);

    let mut body = serde_json::Map::new();
    body.insert("iat".to_string(), serde_json::Value::from(1000u64));
    body.insert("email".to_string(), serde_json::Value::from("t@example.com"));
    let no_exp = sign_body(&body, "door secret");
    assert_eq!(decode_jwt(no_exp, 1000, &cfg()).unwrap_err(), DecodeError::Invalid);

    let mut body = serde_json::Map::new();
    body.insert("exp".to_string(), serde_json::Value::from(433000u64));
    body.insert("iat".to_string(), serde_json::Value::from("soon"));
    body.insert("email".to_string(), serde_json::Value::from("t@example.com"));
    let bad_iat = sign_body(&body, "door secret");
    assert_eq!(decode_jwt(bad_iat, 1000, &cfg()).unwrap_err(), DecodeError::Invalid);
}

#[test]
fn claims_need_all_three_entries() {
    let full = Payload { exp: Some(50), iat: Some(10), email: Some("x@example.com".to_string()) };
    let c = claims_from(full.clone()).unwrap();
    assert_eq!((c.exp, c.iat, c.email.as_str()), (50, 10, "x@example.com"));
    assert!(claims_from(Payload { exp: None, ..full.clone() }).is_none());
    assert!(claims_from(Payload { iat: None, ..full.clone() }).is_none());
    assert!(claims_from(Payload { email: None, ..full.clone() }).is_none());
    let top = claims_from(Payload { exp: Some(u64::MAX), ..full }).map(|c| c.exp as u64);
    assert_eq!(top, usize::try_from(u64::MAX).ok().map(|n| n as u64));
}

#[test]
fn token_with_further_entries_still_reads() {
    let mut body = serde_json::Map::new();
    body.insert("exp".to_string(), serde_json::Value::from(433000u64));
    body.insert("iat".to_string(), serde_json::Value::from(1000u64));
    body.insert("email".to_string(), serde_json::Value::from("t@example.com"));
    body.insert("role".to_string(), serde_json::Value::from("admin"));
    let token = sign_body(&body, "door secret");
    let claims = decode_jwt(token, 1000, &cfg()).unwrap();
    assert_eq!(claims.email, "t@example.com");
    assert_eq!(claims.exp, 433000);
}

#[test]
fn expiry_that_overflows_is_fatal() {
    assert_eq!(
        encode_jwt("t@example.com".to_string(), usize::MAX, &cfg()).unwrap_err(),
        Fatal::Clock
    );
    assert_eq!(
        encode_jwt("t@example.com".to_string(), usize::MAX - 431999, &cfg()).unwrap_err(),
        Fatal::Clock
    );
    assert!(encode_jwt("t@example.com".to_string(), usize::MAX - 432000, &cfg()).is_ok());
}

#[test]
fn check_expiry_on_given_claims() {
    let c = Claims { exp: 50, iat: 10, email: "x".to_string() };
    assert_eq!(check_expiry(None, 0).unwrap_err(), DecodeError::Invalid);
    assert_eq!(check_expiry(Some(c.clone()), 51).unwrap_err(), DecodeError::Expired);
    let ok = check_expiry(Some(c.clone()), 50).unwrap();
    assert_eq!((ok.exp, ok.iat, ok.email.as_str()), (50, 10, "x"));
    assert!(check_expiry(Some(c), 0).is_ok());
}

#[test]
fn signing_error_becomes_fatal() {
    let err: jsonwebtoken::errors::Error = jsonwebtoken::errors::ErrorKind::InvalidAlgorithm.into();
    assert_eq!(token_or_fatal(Err(err)).unwrap_err(), Fatal::Signing);
    assert_eq!(token_or_fatal(Ok("tok".to_string())).unwrap(), "tok");
}

#[test]
fn hashing_error_becomes_fatal() {
    let r = pair_code("123456".to_string(), Err(argon2::password_hash::Error::Password));
    assert_eq!(r.unwrap_err(), Fatal::Hashing);
    let r = pair_code("123456".to_string(), Ok("hash".to_string()));
    assert_eq!(r.unwrap(), ("123456".to_string(), "hash".to_string()));
}

#[test]
fn bearer_header_forms() {
    assert_eq!(bearer_token("Bearer abc"), Some("abc".to_string()));
    assert_eq!(bearer_token("Bearer abc.def.ghi"), Some("abc.def.ghi".to_string()));
    assert_eq!(bearer_token("  Bearer \t abc   def "), Some("abc".to_string()));
    assert_eq!(bearer_token("Bearer\u{3000}abc"), Some("abc".to_string()));
    assert_eq!(bearer_token("Bearer"), None);
    assert_eq!(bearer_token("Bearer   "), None);
    assert_eq!(bearer_token(""), None);
    assert_eq!(bearer_token("   "), None);
    assert_eq!(bearer_token("Basic abc"), None);
    assert_eq!(bearer_token("bearer abc"), None);
    assert_eq!(bearer_token("Bearerabc def"), None);
    assert_eq!(bearer_token("abc"), None);
}

#[test]
fn white_space_is_what_std_calls_white_space() {
    let mut n: u32 = 0;
    while n <= 0x3100 {
        if let Some(c) = char::from_u32(n) {
            assert_eq!(is_whitespace(c), c.is_whitespace(), "U+{:04X}", n);
        }
        n += 1;
    }
    assert!(!is_whitespace('\u{10FFFF}'));
    assert!(!is_whitespace('\u{200B}'));
}

#[test]
fn access_refuses_missing_and_malformed_headers() {
    assert_eq!(
        authorize(&AuthHeader::Absent, 0, &cfg()).unwrap_err(),
        AccessError::MissingCredentials
    );
    assert_eq!(
        authorize(&AuthHeader::Unreadable, 0, &cfg()).unwrap_err(),
        AccessError::MalformedCredentials
    );
    assert_eq!(
        authorize(&AuthHeader::Text("Bearer".to_string()), 0, &cfg()).unwrap_err(),
        AccessError::MalformedCredentials
    );
    assert_eq!(
        authorize(&AuthHeader::Text("Token abc".to_string()), 0, &cfg()).unwrap_err(),
        AccessError::MalformedCredentials
    );
}

#[test]
fn access_refuses_expired_like_forged() {
    let token = encode_jwt("g@example.com".to_string(), 1000, &cfg()).unwrap();
    let other = AuthConfig::new("another secret".to_string());
    let forged = encode_jwt("g@example.com".to_string(), 1000, &other).unwrap();
    let expired = authorize(&AuthHeader::Text(format!("Bearer {}", token)), 433001, &cfg());
    let forged = authorize(&AuthHeader::Text(format!("Bearer {}", forged)), 1000, &cfg());
    let junk = authorize(&AuthHeader::Text("Bearer junk".to_string()), 1000, &cfg());
    assert_eq!(expired.unwrap_err(), AccessError::InvalidToken);
    assert_eq!(forged.unwrap_err(), AccessError::InvalidToken);
    assert_eq!(junk.unwrap_err(), AccessError::InvalidToken);
    assert_eq!(
        AccessError::InvalidToken.to_auth_error().message,
        "Unable to decode token".to_string()
    );
}

#[test]
fn access_passes_a_good_token_and_reads_identity_from_the_account() {
    let token = encode_jwt("g@example.com".to_string(), 1000, &cfg()).unwrap();
    let claims = authorize(&AuthHeader::Text(format!("Bearer {}", token)), 2000, &cfg()).unwrap();
    assert_eq!(claims.email, "g@example.com");
    let who = grant(Some(&account(None))).unwrap();
    assert_eq!(who.email, "g@example.com");
    assert_eq!(who.id, "id-1");
}

#[test]
fn access_refuses_unknown_and_unverified_accounts() {
    assert_eq!(grant(None).unwrap_err(), AccessError::UnknownSubject);
    assert_eq!(
        grant(Some(&account(Some("$argon2id$...")))).unwrap_err(),
        AccessError::UnverifiedAccount
    );
}

#[test]
fn refusals_have_their_status_and_message() {
    let cases = [
        (AccessError::MissingCredentials, 403, "Please add the JWT token to the header"),
        (AccessError::MalformedCredentials, 403, "Empty header is not allowed"),
        (AccessError::InvalidToken, 401, "Unable to decode token"),
        (AccessError::UnknownSubject, 401, "User not found"),
        (AccessError::UnverifiedAccount, 401, "User is not verified"),
    ];
    for (e, status, message) in cases {
        let shown = e.to_auth_error();
        assert_eq!(shown.status_code, status);
        assert_eq!(shown.message, message);
    }
}

#[test]
fn judge_on_given_answers() {
    let pending = account(Some("stored"));
    let cleared = account(None);
    assert_eq!(judge("", Some(&pending), true).unwrap_err(), VerifyError::InvalidInput);
    assert_eq!(judge("123456", None, true).unwrap_err(), VerifyError::NotFound);
    assert_eq!(judge("123456", Some(&cleared), true).unwrap_err(), VerifyError::NoPendingCode);
    assert_eq!(judge("123456", Some(&pending), false).unwrap_err(), VerifyError::CodeMismatch);
    match judge("123456", Some(&pending), true).unwrap() {
        StoreAction::ClearCode { id, expected } => {
            assert_eq!(id, "id-1");
            assert_eq!(expected, "stored");
        }
        other => panic!("expected a conditional clear, got {:?}", other),
    }
}

#[test]
fn plan_inserts_or_updates() {
    match plan("n@example.com", None, "h".to_string()) {
        StoreAction::Insert(c) => {
            assert_eq!(c.email, "n@example.com");
            assert_eq!(c.verification_code, Some("h".to_string()));
        }
        other => panic!("expected an insert, got {:?}", other),
    }
    match plan("g@example.com", Some(&account(None)), "h".to_string()) {
        StoreAction::Update { id, changes } => {
            assert_eq!(id, "id-1");
            assert_eq!(changes.email, None);
            assert_eq!(changes.verification_code, Some("h".to_string()));
        }
        other => panic!("expected an update, got {:?}", other),
    }
}

#[test]
fn me_shows_the_attached_identity() {
    let who = CurrentUser { email: "g@example.com".to_string(), id: "id-1".to_string() };
    let (status, body) = me_handler(&who);
    assert_eq!(status, 200);
    assert_eq!(body.user.id, "id-1");
    assert_eq!(body.user.email, "g@example.com");
}
