use imagegen::auth::{
    accept_claims, claims_from_clock, auth_user, hash_password, issue_claims, require_bearer, token_expiry,
    verify_password, Claims, TOKEN_LIFETIME_HOURS,
};
use imagegen::errors::AppError;

fn auth_message(e: AppError) -> String {
    match e {
        AppError::Auth(m) => m,
        other => panic!("expected an authentication error, got {:?}", other),
    }
}

#[test]
fn hashed_password_verifies() {
    let h = hash_password("correct horse").unwrap();
    assert_eq!(h.len(), 60);
    assert!(h.starts_with("$2b$12$"));
    assert!(verify_password("correct horse", &h).unwrap());
}

#[test]
fn wrong_password_does_not_verify() {
    let h = hash_password("correct horse").unwrap();
    assert!(!verify_password("battery staple", &h).unwrap());
}

#[test]
fn hashing_is_salted() {
    let a = hash_password("same").unwrap();
    let b = hash_password("same").unwrap();
    assert_ne!(a, b);
}

#[test]
fn known_hash_verifies() {
    let hash = "$2b$04$EGdrhbKUv8Oc9vGiXX0HQOxSg445d458Muh7DAHskb6QbtCvdxcie";
    assert!(verify_password("correctbatteryhorsestapler", hash).unwrap());
    assert!(!verify_password("wrong", hash).unwrap());
}

#[test]
fn malformed_hash_is_an_auth_error() {
    let e = verify_password("pw", "not a hash").unwrap_err();
    let m = auth_message(e);
    assert!(m.starts_with("failed to verify password: "), "{}", m);
    assert!(m.len() > "failed to verify password: ".len());
}

#[test]
fn token_lasts_one_week() {
    assert_eq!(TOKEN_LIFETIME_HOURS, 168);
    assert_eq!(token_expiry(1_700_000_000), 1_700_604_800);
    assert_eq!(token_expiry(0), 604_800);
}

#[test]
fn claims_for_user() {
    let c = Claims::for_user(42, 1_000);
    assert_eq!(c.sub, 42);
    assert_eq!(c.exp, 605_800);
}

#[test]
fn issued_claims_expire_a_week_from_now() {
    let before = chrono::Utc::now().timestamp() as usize;
    let c = issue_claims(7).unwrap();
    let after = chrono::Utc::now().timestamp() as usize;
    assert_eq!(c.sub, 7);
    assert!(c.exp >= before + 604_800);
    assert!(c.exp <= after + 604_800);
}

#[test]
fn missing_header_is_rejected() {
    let m = auth_message(require_bearer(None).unwrap_err());
    assert_eq!(m, "missing or malformed Authorization header");
    assert_eq!(require_bearer(Some("abc.def".to_string())).unwrap(), "abc.def");
}

#[test]
fn invalid_token_is_rejected() {
    let m = auth_message(accept_claims(None).unwrap_err());
    assert_eq!(m, "invalid or expired token");
    let c = accept_claims(Some(Claims { sub: 9, exp: 10 })).unwrap();
    assert_eq!(c.sub, 9);
    assert_eq!(c.exp, 10);
    assert_eq!(auth_user(&c).user_id, 9);
}

#[test]
fn claims_from_clock_readings() {
    let c = claims_from_clock(7, Some(1_000)).unwrap();
    assert_eq!(c.sub, 7);
    assert_eq!(c.exp, 605_800);
    let m = auth_message(claims_from_clock(7, None).unwrap_err());
    assert_eq!(m, "failed to create token: system clock out of range");
    let m = auth_message(claims_from_clock(7, Some(1 << 48)).unwrap_err());
    assert_eq!(m, "failed to create token: system clock out of range");
    assert!(claims_from_clock(7, Some((1 << 48) - 1)).is_ok());
}

#[test]
fn short_hash_is_refused() {
    let m = auth_message(verify_password("pw", "$2b$12$short").unwrap_err());
    assert!(m.starts_with("failed to verify password: "), "{}", m);
}
