use vstd::prelude::*;

use crate::errors::AppError;

verus! {

/// How long an issued token stays valid.
pub const TOKEN_LIFETIME_HOURS: i64 = 24 * 7;

/// Bound on the Unix timestamps (in seconds) at which tokens are issued: 2^48
/// seconds, far beyond any real clock reading (chrono's own dates end near
/// 8.3e12 seconds), and small enough that adding a token lifetime stays within
/// `i64`.
pub open spec fn timestamp_bound() -> int {
    0x1_0000_0000_0000
}

/// What `bcrypt::verify(password, hash)` returns: whether `password` matches
/// the bcrypt `hash`, or the text of the error when `hash` is not a valid
/// bcrypt hash.
pub uninterp spec fn bcrypt_verify_outcome(password: Seq<char>, hash: Seq<char>) -> Result<
    bool,
    Seq<char>,
>;

/// Calls `bcrypt::hash(password, bcrypt::DEFAULT_COST)`, which salts with fresh
/// OS randomness. Claimed: a hash it returns has the 60 characters of the
/// `$2b$12$<salt><digest>` form (`DEFAULT_COST` is 12, and `format_for_version`
/// writes version `2b` and a two-digit cost), and `bcrypt::verify` accepts
/// `password` against it (the source recomputes the digest from the stored cost
/// and salt). The salt itself is random, so nothing more is said of the text,
/// nor that it differs from `password`. An error can only be the randomness
/// source failing (the cost is valid, and this entry point truncates rather
/// than refuses long passwords), so its message is `BcryptError::Rand`'s
/// display, which begins `Rand error: `.
#[verifier::external_body]
fn bcrypt_hash_default_cost(password: &str) -> (r: Result<String, String>)
    ensures
        r matches Err(m) ==> m@.len() >= 12 && m@.subrange(0, 12) == "Rand error: "@,
        r matches Ok(h) ==> {
            &&& h@.len() == 60
            &&& h@.subrange(0, 7) == "$2b$12$"@
            &&& bcrypt_verify_outcome(password@, h@) == Ok::<bool, Seq<char>>(true)
        },
{
    match bcrypt::hash(password, bcrypt::DEFAULT_COST) {
        Ok(h) => Ok(h),
        Err(e) => Err(e.to_string()),
    }
}

/// Calls `bcrypt::verify(password, hash)`; its outcome, with the error turned
/// into its message, is `bcrypt_verify_outcome` of the two arguments. Also
/// claimed: a `hash` of fewer than 53 characters is refused with an error
/// (`split_hash` wants a 53-byte salt-and-digest part, and base64 decoding
/// refuses the non-ASCII characters that alone could make up the bytes).
#[verifier::external_body]
fn bcrypt_verify(password: &str, hash: &str) -> (r: Result<bool, String>)
    ensures
        hash@.len() < 53 ==> r is Err,
        match r {
            Ok(b) => bcrypt_verify_outcome(password@, hash@) == Ok::<bool, Seq<char>>(b),
            Err(m) => bcrypt_verify_outcome(password@, hash@) == Err::<bool, Seq<char>>(m@),
        },
{
    match bcrypt::verify(password, hash) {
        Ok(b) => Ok(b),
        Err(e) => Err(e.to_string()),
    }
}

/// The system clock, as std represents it.
#[verifier::external_type_specification]
#[verifier::external_body]
pub struct ExSystemTime(std::time::SystemTime);

/// Calls `std::time::SystemTime::now()`. Nothing is claimed: the value depends
/// on the clock. It does not panic.
#[verifier::external_body]
fn system_now() -> std::time::SystemTime {
    std::time::SystemTime::now()
}

/// Calls `t.duration_since(std::time::UNIX_EPOCH)` and keeps the whole seconds
/// (`Duration::as_secs`); `None` where std reports that `t` lies before the
/// epoch. Nothing is claimed of the number: `t` is opaque here.
#[verifier::external_body]
fn whole_seconds_since_epoch(t: &std::time::SystemTime) -> Option<u64> {
    match t.duration_since(std::time::UNIX_EPOCH) {
        Ok(d) => Some(d.as_secs()),
        Err(_) => None,
    }
}

/// `e` is an authentication error with message `msg`.
pub open spec fn is_auth_error(e: AppError, msg: Seq<char>) -> bool {
    e matches AppError::Auth(m) && m@ == msg
}

/// `h` is a bcrypt hash of `password` at cost 12: 60 characters beginning
/// with `$2b$12$`, against which `password` verifies.
pub open spec fn is_hash_of(password: Seq<char>, h: Seq<char>) -> bool {
    &&& h.len() == 60
    &&& h.subrange(0, 7) == "$2b$12$"@
    &&& bcrypt_verify_outcome(password, h) == Ok::<bool, Seq<char>>(true)
}

/// `e` reports that hashing failed because the randomness source failed: no
/// password is refused for what it contains.
pub open spec fn is_randomness_failure(e: AppError) -> bool {
    exists|d: Seq<char>| is_auth_error(e, "failed to hash password: "@ + "Rand error: "@ + d)
}

/// Hashes a password for storage, with bcrypt's default cost and a random salt.
pub fn hash_password(password: &str) -> (r: Result<String, AppError>)
    ensures
        r matches Ok(h) ==> is_hash_of(password@, h@),
        r matches Err(e) ==> exists|detail: Seq<char>|
            is_auth_error(e, "failed to hash password: "@ + detail),
        r matches Err(e) ==> is_randomness_failure(e),
{
    match bcrypt_hash_default_cost(password) {
        Ok(h) => Ok(h),
        Err(detail) => {
            let msg = String::from_str("failed to hash password: ").concat(detail.as_str());
            proof {
                let rest = detail@.subrange(12, detail@.len() as int);
                assert(detail@ =~= "Rand error: "@ + rest);
                assert(msg@ =~= "failed to hash password: "@ + "Rand error: "@ + rest);
                assert(is_auth_error(AppError::Auth(msg), "failed to hash password: "@ + "Rand error: "@ + rest));
            }
            Err(AppError::Auth(msg))
        },
    }
}

/// Checks a password against a stored bcrypt hash.
pub fn verify_password(password: &str, hash: &str) -> (r: Result<bool, AppError>)
    ensures
        hash@.len() < 53 ==> (r matches Err(e) && exists|d: Seq<char>|
            is_auth_error(e, "failed to verify password: "@ + d)),
        match bcrypt_verify_outcome(password@, hash@) {
            Ok(b) => r matches Ok(v) && v == b,
            Err(detail) => r matches Err(e) && is_auth_error(
                e,
                "failed to verify password: "@ + detail,
            ),
        },
{
    match bcrypt_verify(password, hash) {
        Ok(b) => Ok(b),
        Err(detail) => {
            let msg = String::from_str("failed to verify password: ").concat(detail.as_str());
            Err(AppError::Auth(msg))
        },
    }
}

/// The claims that a token carries: the user it was issued to and the Unix
/// time (seconds) at which it expires.
#[derive(Debug)]
pub struct Claims {
    pub sub: u128,
    pub exp: usize,
}

/// Expiry of a token issued at Unix time `now`: one lifetime later.
pub open spec fn spec_token_expiry(now: i64) -> usize {
    (now + TOKEN_LIFETIME_HOURS * 3600) as usize
}

/// Expiry time of a token issued at `now`.
pub fn token_expiry(now: i64) -> (exp: usize)
    requires
        -timestamp_bound() < now < timestamp_bound(),
    ensures
        exp == spec_token_expiry(now),
{
    let later: i64 = now + TOKEN_LIFETIME_HOURS * 3600;
    later as usize
}

impl Claims {
    /// Claims of a token for `user_id` issued at Unix time `now`.
    pub fn for_user(user_id: u128, now: i64) -> (c: Claims)
        requires
            -timestamp_bound() < now < timestamp_bound(),
        ensures
            c.sub == user_id,
            c.exp == spec_token_expiry(now),
    {
        Claims { sub: user_id, exp: token_expiry(now) }
    }
}

/// Message of the error that refuses to issue a token when the system clock
/// reads before the Unix epoch or beyond `timestamp_bound()`.
pub open spec fn clock_error_message() -> Seq<char> {
    "failed to create token: system clock out of range"@
}

/// Whether a clock reading (whole seconds since the Unix epoch, `None` before
/// the epoch) is one at which tokens are issued.
pub open spec fn clock_usable(reading: Option<u64>) -> bool {
    reading matches Some(s) && s < timestamp_bound()
}

/// Claims of a token for `user_id` issued at clock reading `reading`.
pub fn claims_from_clock(user_id: u128, reading: Option<u64>) -> (r: Result<Claims, AppError>)
    ensures
        clock_usable(reading) ==> (r matches Ok(c) && c.sub == user_id && c.exp
            == spec_token_expiry(reading->0 as i64)),
        !clock_usable(reading) ==> (r matches Err(e) && is_auth_error(e, clock_error_message())),
{
    match reading {
        Some(secs) => {
            if secs < 0x1_0000_0000_0000 {
                let now: i64 = secs as i64;
                Ok(Claims::for_user(user_id, now))
            } else {
                Err(AppError::Auth(String::from_str("failed to create token: system clock out of range")))
            }
        },
        None => Err(AppError::Auth(String::from_str("failed to create token: system clock out of range"))),
    }
}

/// Claims of a token for `user_id` issued now, by the system clock; refused
/// when the clock reads before the Unix epoch or beyond `timestamp_bound()`.
pub fn issue_claims(user_id: u128) -> (r: Result<Claims, AppError>)
    ensures
        r matches Ok(c) ==> c.sub == user_id && exists|now: u64|
            now < timestamp_bound() && c.exp == #[trigger] spec_token_expiry(now as i64),
        r matches Err(e) ==> is_auth_error(e, clock_error_message()),
{
    let now = system_now();
    let reading = whole_seconds_since_epoch(&now);
    claims_from_clock(user_id, reading)
}

/// The caller that a verified token names.
#[derive(Debug)]
pub struct AuthUser {
    pub user_id: u128,
}

/// Requires a bearer token: `extracted` is the token of a well-formed
/// `Authorization: Bearer <token>` header, or `None` when the header is
/// missing or malformed.
pub fn require_bearer(extracted: Option<String>) -> (r: Result<String, AppError>)
    ensures
        match extracted {
            Some(t) => r matches Ok(u) && u@ == t@,
            None => r matches Err(e) && is_auth_error(
                e,
                "missing or malformed Authorization header"@,
            ),
        },
{
    match extracted {
        Some(t) => Ok(t),
        None => Err(AppError::Auth(String::from_str("missing or malformed Authorization header"))),
    }
}

/// Accepts the claims of a token that decoded and verified under the service's
/// secret (`None` when the token was invalid or expired).
pub fn accept_claims(decoded: Option<Claims>) -> (r: Result<Claims, AppError>)
    ensures
        match decoded {
            Some(c) => r matches Ok(d) && d == c,
            None => r matches Err(e) && is_auth_error(e, "invalid or expired token"@),
        },
{
    match decoded {
        Some(c) => Ok(c),
        None => Err(AppError::Auth(String::from_str("invalid or expired token"))),
    }
}

/// The authenticated caller named by accepted claims.
pub fn auth_user(claims: &Claims) -> (u: AuthUser)
    ensures
        u.user_id == claims.sub,
{
    AuthUser { user_id: claims.sub }
}

} // verus!
