//! Accounts: registration, email verification, login with account locking,
//! password resets, sign-out and the claims of access tokens.

use vstd::prelude::*;

use crate::error::AppError;
use crate::model::{AuthToken, AuthUser, Claims, LoginRequest, Timestamp, User, UserId, MICROS_PER_SECOND};
use crate::rules::{check_account_lock, is_locked_at, should_lock_account, ACCOUNT_LOCK_MICROS, ACCOUNT_LOCK_THRESHOLD};
use crate::text::{concat, decimal, i64_to_decimal, parse_i64, parse_i64_spec, starts_with, strip_prefix};

verus! {

/// Seconds an access token lives: one day.
pub const ACCESS_TOKEN_TTL_SECS: i64 = 86400;

/// Seconds a password-reset token is kept: thirty minutes.
pub const RESET_TOKEN_TTL_SECS: u64 = 1800;

/// Seconds a signed-out token stays refused: one day.
pub const BLACKLIST_TTL_SECS: u64 = 86400;

// ---- Password hashing ----

/// Name for what `bcrypt::verify` says of a password and a stored hash:
/// whether they match, or nothing when the hash cannot be read.
pub uninterp spec fn bcrypt_verdict(password: Seq<char>, hash: Seq<char>) -> Option<bool>;

/// Calls `bcrypt::verify`. Claimed: it fails exactly when the named verdict is
/// missing and otherwise returns that verdict. The error's text is not
/// described.
#[verifier::external_body]
fn bcrypt_verify(password: &str, hash: &str) -> (r: Result<bool, String>)
    ensures
        r is Ok <==> bcrypt_verdict(password@, hash@) is Some,
        r matches Ok(b) ==> bcrypt_verdict(password@, hash@) == Some(b),
{
    bcrypt::verify(password, hash).map_err(|e| e.to_string())
}

/// Calls `bcrypt::hash` at `bcrypt::DEFAULT_COST` (12), which draws a random
/// salt. Claimed of a success: the hash is 60 characters long, starts with
/// `$2b$12$`, and `bcrypt::verify` accepts the same password against it, as
/// the crate's source shows (verify re-hashes with the stored salt and cost).
/// It can fail only when the system's randomness does; the error's text is
/// not described.
#[verifier::external_body]
fn bcrypt_hash(password: &str) -> (r: Result<String, String>)
    ensures
        r matches Ok(h) ==> {
            &&& h@.len() == 60
            &&& h@.subrange(0, 7) == "$2b$12$"@
            &&& bcrypt_verdict(password@, h@) == Some(true)
        },
{
    bcrypt::hash(password, bcrypt::DEFAULT_COST).map_err(|e| e.to_string())
}

/// Hashes a password for storage; a failure is an internal error.
pub fn hash_password(password: &str) -> (r: Result<String, AppError>)
    ensures
        r matches Ok(h) ==> bcrypt_verdict(password@, h@) == Some(true) && h@.len() == 60,
        r matches Err(e) ==> e is Internal,
{
    match bcrypt_hash(password) {
        Ok(h) => Ok(h),
        Err(m) => Err(AppError::Internal(m)),
    }
}

// ---- Registration and verification ----

/// Refuses to register an email that already has an account.
pub fn check_email_available(existing: Option<&User>) -> (r: Result<(), AppError>)
    ensures
        existing is None ==> r is Ok,
        existing is Some ==> r == Err::<(), AppError>(AppError::EmailAlreadyExists),
{
    match existing {
        Some(_) => Err(AppError::EmailAlreadyExists),
        None => Ok(()),
    }
}

/// The user an email-verification token names: `verify:` followed by the
/// user id in decimal.
pub open spec fn verification_target(token: Seq<char>) -> Option<i64> {
    if starts_with(token, "verify:"@) {
        parse_i64_spec(token.skip(7))
    } else {
        None
    }
}

/// Reads the user id out of an email-verification token; anything else is an
/// invalid token.
pub fn verification_user_id(token: &str) -> (r: Result<UserId, AppError>)
    ensures
        verification_target(token@) matches Some(id) ==> r == Ok::<UserId, AppError>(id),
        verification_target(token@) is None ==> r == Err::<UserId, AppError>(AppError::InvalidToken),
{
    proof { reveal_strlit("verify:"); }
    match strip_prefix(token, "verify:") {
        Some(rest) => {
            proof {
                assert(rest@ =~= token@.skip(7));
            }
            match parse_i64(rest) {
                Some(id) => Ok(id),
                None => Err(AppError::InvalidToken),
            }
        },
        None => Err(AppError::InvalidToken),
    }
}

/// The token that verifies `user_id`'s email is read back as that user.
pub proof fn lemma_verification_roundtrip(user_id: i64)
    ensures
        verification_target("verify:"@ + decimal(user_id as int)) == Some(user_id),
{
    reveal_strlit("verify:");
    let t = "verify:"@ + decimal(user_id as int);
    assert(t.subrange(0, 7) =~= "verify:"@);
    assert(t.skip(7) =~= decimal(user_id as int));
    crate::text::lemma_parse_decimal_roundtrip(user_id);
}

// ---- Login ----

/// Where a login stands.
#[derive(Debug)]
pub enum Login {
    /// Waiting for the account of the email, to check `password` at `now`.
    AwaitUser { password: String, now: Timestamp },
    /// Waiting for the failure count after a wrong password.
    AwaitFailCount { user_id: UserId },
    /// Waiting for the account to be locked.
    AwaitLock,
    /// Waiting for the failure count to be cleared.
    AwaitReset { user_id: UserId },
    /// Waiting for the signed token.
    AwaitToken,
    Finished,
}

/// An operation a login asks for.
#[derive(Debug)]
pub enum LoginCall {
    FindUserByEmail(String),
    /// Add one to the account's failure count and say the new count.
    IncrementFailCount(UserId),
    LockAccount { user_id: UserId, until: Timestamp },
    /// Clear the failure count and any lock.
    ResetFailCount(UserId),
    /// Sign an access token for the user.
    IssueToken(UserId),
    Finish(Result<AuthToken, AppError>),
}

/// What an operation of a login gave back.
#[derive(Debug)]
pub enum LoginReply {
    User(Option<User>),
    /// The new failure count, and the time it was read at.
    FailCount { count: i32, now: Timestamp },
    Saved,
    Token(Result<String, String>),
}

/// The answer of a successful login.
pub open spec fn is_bearer_token(t: AuthToken, access: Seq<char>) -> bool {
    t.access_token@ == access && t.token_type@ == "Bearer"@ && t.expires_in == ACCESS_TOKEN_TTL_SECS
}

pub open spec fn login_protocol_error(a: LoginCall) -> bool {
    a matches LoginCall::Finish(Err(AppError::Internal(_)))
}

/// One step of a login: from `s`, given `r`, the login moves to `s2` and asks
/// for `a`.
pub open spec fn login_step(s: Login, r: LoginReply, s2: Login, a: LoginCall) -> bool {
    match s {
        Login::AwaitUser { password, now } => match r {
            LoginReply::User(None) => s2 is Finished && a == LoginCall::Finish(Err(AppError::InvalidCredentials)),
            LoginReply::User(Some(u)) => if is_locked_at(u.locked_until, now) {
                s2 is Finished && a == LoginCall::Finish(Err(AppError::AccountLocked { until: u.locked_until.unwrap() }))
            } else {
                match bcrypt_verdict(password@, u.password_hash@) {
                    None => s2 is Finished && (a matches LoginCall::Finish(Err(e)) && e is Internal),
                    Some(false) => s2 == (Login::AwaitFailCount { user_id: u.id })
                        && a == LoginCall::IncrementFailCount(u.id),
                    Some(true) => s2 == (Login::AwaitReset { user_id: u.id })
                        && a == LoginCall::ResetFailCount(u.id),
                }
            },
            _ => s2 is Finished && login_protocol_error(a),
        },
        Login::AwaitFailCount { user_id } => match r {
            LoginReply::FailCount { count, now } => if count >= ACCOUNT_LOCK_THRESHOLD {
                s2 is AwaitLock && a == (LoginCall::LockAccount { user_id, until: (now + ACCOUNT_LOCK_MICROS) as i64 })
            } else {
                s2 is Finished && a == LoginCall::Finish(Err(AppError::InvalidCredentials))
            },
            _ => s2 is Finished && login_protocol_error(a),
        },
        Login::AwaitLock => match r {
            LoginReply::Saved => s2 is Finished && a == LoginCall::Finish(Err(AppError::InvalidCredentials)),
            _ => s2 is Finished && login_protocol_error(a),
        },
        Login::AwaitReset { user_id } => match r {
            LoginReply::Saved => s2 is AwaitToken && a == LoginCall::IssueToken(user_id),
            _ => s2 is Finished && login_protocol_error(a),
        },
        Login::AwaitToken => match r {
            LoginReply::Token(Ok(t)) => s2 is Finished
                && (a matches LoginCall::Finish(Ok(tok)) && is_bearer_token(tok, t@)),
            LoginReply::Token(Err(m)) => s2 is Finished && a == LoginCall::Finish(Err(AppError::Internal(m))),
            _ => s2 is Finished && login_protocol_error(a),
        },
        Login::Finished => s2 is Finished && login_protocol_error(a),
    }
}

/// Starts a login at `now`: the first thing to do is to find the account.
pub fn begin_login(req: LoginRequest, now: Timestamp) -> (r: (Login, LoginCall))
    ensures
        r.0 == (Login::AwaitUser { password: req.password, now }),
        r.1 == LoginCall::FindUserByEmail(req.email),
{
    (Login::AwaitUser { password: req.password, now }, LoginCall::FindUserByEmail(req.email))
}

fn login_protocol_failure() -> (r: (Login, LoginCall))
    ensures
        r.0 is Finished,
        login_protocol_error(r.1),
{
    (Login::Finished, LoginCall::Finish(Err(AppError::Internal(String::from_str("unexpected reply")))))
}

/// One step of a login.
pub fn login_next(s: Login, r: LoginReply) -> (out: (Login, LoginCall))
    requires
        r matches LoginReply::FailCount { now, .. } ==> now <= i64::MAX - ACCOUNT_LOCK_MICROS,
    ensures
        login_step(s, r, out.0, out.1),
{
    match s {
        Login::AwaitUser { password, now } => match r {
            LoginReply::User(None) => (Login::Finished, LoginCall::Finish(Err(AppError::InvalidCredentials))),
            LoginReply::User(Some(u)) => {
                if let Err(e) = check_account_lock(&u, now) {
                    return (Login::Finished, LoginCall::Finish(Err(e)));
                }
                match bcrypt_verify(password.as_str(), u.password_hash.as_str()) {
                    Err(m) => (Login::Finished, LoginCall::Finish(Err(AppError::Internal(m)))),
                    Ok(false) => (Login::AwaitFailCount { user_id: u.id }, LoginCall::IncrementFailCount(u.id)),
                    Ok(true) => (Login::AwaitReset { user_id: u.id }, LoginCall::ResetFailCount(u.id)),
                }
            },
            _ => login_protocol_failure(),
        },
        Login::AwaitFailCount { user_id } => match r {
            LoginReply::FailCount { count, now } => match should_lock_account(count) {
                Some(d) => (Login::AwaitLock, LoginCall::LockAccount { user_id, until: now + d }),
                None => (Login::Finished, LoginCall::Finish(Err(AppError::InvalidCredentials))),
            },
            _ => login_protocol_failure(),
        },
        Login::AwaitLock => match r {
            LoginReply::Saved => (Login::Finished, LoginCall::Finish(Err(AppError::InvalidCredentials))),
            _ => login_protocol_failure(),
        },
        Login::AwaitReset { user_id } => match r {
            LoginReply::Saved => (Login::AwaitToken, LoginCall::IssueToken(user_id)),
            _ => login_protocol_failure(),
        },
        Login::AwaitToken => match r {
            LoginReply::Token(Ok(t)) => (
                Login::Finished,
                LoginCall::Finish(Ok(AuthToken {
                    access_token: t,
                    token_type: String::from_str("Bearer"),
                    expires_in: ACCESS_TOKEN_TTL_SECS,
                })),
            ),
            LoginReply::Token(Err(m)) => (Login::Finished, LoginCall::Finish(Err(AppError::Internal(m)))),
            _ => login_protocol_failure(),
        },
        Login::Finished => login_protocol_failure(),
    }
}

/// A login clears the failure count, and so goes on to a token, only for an
/// unlocked account whose password checked out; it locks an account only at
/// five failures or more, for fifteen minutes from when the count was read.
pub proof fn lemma_login_guarded(s: Login, r: LoginReply, s2: Login, a: LoginCall)
    requires
        login_step(s, r, s2, a),
        r matches LoginReply::FailCount { now, .. } ==> now <= i64::MAX - ACCOUNT_LOCK_MICROS,
    ensures
        s2 is AwaitReset ==> (s matches Login::AwaitUser { password, now } && r matches LoginReply::User(Some(u))
            && !is_locked_at(u.locked_until, now) && bcrypt_verdict(password@, u.password_hash@) == Some(true)),
        a is LockAccount ==> (r matches LoginReply::FailCount { count, now } && count >= ACCOUNT_LOCK_THRESHOLD
            && a->until == now + ACCOUNT_LOCK_MICROS),
        a matches LoginCall::Finish(Ok(_)) ==> s is AwaitToken,
{
}

/// Every wrong password from the fifth failure on locks the account for
/// fifteen minutes from the time of the failure, not only the fifth; before
/// the fifth, the login is refused without a lock.
pub proof fn lemma_failures_lock_from_fifth(user_id: UserId, count: i32, now: Timestamp, s2: Login, a: LoginCall)
    requires
        login_step(Login::AwaitFailCount { user_id }, LoginReply::FailCount { count, now }, s2, a),
    ensures
        count >= 5 ==> a == (LoginCall::LockAccount { user_id, until: (now + 900_000_000) as i64 }) && s2 is AwaitLock,
        count < 5 ==> a == LoginCall::Finish(Err(AppError::InvalidCredentials)) && s2 is Finished,
{
}

// ---- Password reset and sign-out ----

/// The key a password-reset token is kept under: `reset:{token}`.
pub fn reset_key(token: &str) -> (r: String)
    ensures
        r@ == "reset:"@ + token@,
{
    concat("reset:", token)
}

/// The key a signed-out token is refused under: `blacklist:{token}`.
pub fn blacklist_key(token: &str) -> (r: String)
    ensures
        r@ == "blacklist:"@ + token@,
{
    concat("blacklist:", token)
}

/// Calls `uuid::Uuid::new_v4()` and renders it with `to_string`. Claimed: the
/// text is 36 characters long (the hyphenated form the crate's `Display`
/// writes). Its characters are random and not otherwise described.
#[verifier::external_body]
fn random_token() -> (r: String)
    ensures
        r@.len() == 36,
{
    uuid::Uuid::new_v4().to_string()
}

/// What a password-reset request stores: under `key`, the user id in decimal,
/// kept for `ttl_secs` seconds.
#[derive(Debug)]
pub struct ResetTicket {
    pub key: String,
    pub user_value: String,
    pub ttl_secs: u64,
}

/// The ticket a password-reset request stores, or nothing when no account has
/// the email (which the caller does not learn).
pub fn plan_reset_request(user: Option<&User>) -> (r: Option<ResetTicket>)
    ensures
        user is None ==> r is None,
        user matches Some(u) ==> (r matches Some(t) && {
            &&& t.key@.len() == 42
            &&& t.key@.subrange(0, 6) == "reset:"@
            &&& t.user_value@ == decimal(u.id as int)
            &&& t.ttl_secs == RESET_TOKEN_TTL_SECS
        }),
{
    match user {
        None => None,
        Some(u) => {
            let token = random_token();
            let key = reset_key(token.as_str());
            proof {
                reveal_strlit("reset:");
                assert(key@.subrange(0, 6) =~= "reset:"@);
            }
            Some(ResetTicket { key, user_value: i64_to_decimal(u.id), ttl_secs: RESET_TOKEN_TTL_SECS })
        },
    }
}

/// The user a stored reset ticket names; a missing or unreadable one is an
/// invalid token.
pub fn reset_target(stored: Option<String>) -> (r: Result<UserId, AppError>)
    ensures
        stored matches Some(v) && parse_i64_spec(v@) is Some ==> r == Ok::<UserId, AppError>(parse_i64_spec(stored.unwrap()@).unwrap()),
        !(stored matches Some(v) && parse_i64_spec(v@) is Some) ==> r == Err::<UserId, AppError>(AppError::InvalidToken),
{
    match stored {
        Some(v) => match parse_i64(v.as_str()) {
            Some(id) => Ok(id),
            None => Err(AppError::InvalidToken),
        },
        None => Err(AppError::InvalidToken),
    }
}

/// A reset ticket is read back as the user it was stored for.
pub proof fn lemma_reset_ticket_roundtrip(user_id: i64)
    ensures
        parse_i64_spec(decimal(user_id as int)) == Some(user_id),
{
    crate::text::lemma_parse_decimal_roundtrip(user_id);
}

// ---- Access tokens ----

/// Whole seconds since the epoch at `t`, rounded down.
pub open spec fn seconds_of(t: int) -> int {
    t / (MICROS_PER_SECOND as int)
}

fn floor_seconds(t: Timestamp) -> (r: i64)
    ensures
        r == seconds_of(t as int),
{
    let q = t / MICROS_PER_SECOND;
    let rem = t % MICROS_PER_SECOND;
    if rem < 0 {
        q - 1
    } else {
        q
    }
}

/// The claims of a token issued at `now` for `user_id`: the id in decimal,
/// and an expiry one day later, in seconds.
pub fn claims_for(user_id: UserId, now: Timestamp) -> (r: Claims)
    requires
        seconds_of(now as int) + ACCESS_TOKEN_TTL_SECS <= i64::MAX,
    ensures
        r.sub@ == decimal(user_id as int),
        r.exp == (seconds_of(now as int) + ACCESS_TOKEN_TTL_SECS) as usize,
{
    let secs = floor_seconds(now);
    Claims { sub: i64_to_decimal(user_id), exp: (secs + ACCESS_TOKEN_TTL_SECS) as usize }
}

/// The token in an `Authorization` header: what follows `Bearer `.
pub fn bearer_token(header: &str) -> (r: Option<&str>)
    ensures
        r is Some <==> starts_with(header@, "Bearer "@),
        r matches Some(t) ==> header@ == "Bearer "@ + t@,
{
    strip_prefix(header, "Bearer ")
}

/// The caller a verified token names; a subject that is not a user id is
/// refused as unauthorized.
pub fn authenticate(claims: &Claims) -> (r: Result<AuthUser, AppError>)
    ensures
        parse_i64_spec(claims.sub@) matches Some(id) ==> (r matches Ok(u) && u.user_id == id),
        parse_i64_spec(claims.sub@) is None ==> r == Err::<AuthUser, AppError>(AppError::Unauthorized),
{
    match parse_i64(claims.sub.as_str()) {
        Some(user_id) => Ok(AuthUser { user_id }),
        None => Err(AppError::Unauthorized),
    }
}

/// A token issued for a user authenticates that user.
pub proof fn lemma_claims_roundtrip(user_id: UserId, sub: Seq<char>)
    requires
        sub == decimal(user_id as int),
    ensures
        parse_i64_spec(sub) == Some(user_id),
{
    crate::text::lemma_parse_decimal_roundtrip(user_id);
}

} // verus!
