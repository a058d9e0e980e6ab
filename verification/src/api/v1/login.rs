use vstd::prelude::*;
use crate::api::auth::{password_matches, verify_password_sha1};
use crate::api::ResponseStructureError;
use crate::common::fun::{login_plaintext, sha1_salt_of, sm4_decrypt_login, try_sm4_decrypt_login};
use crate::common::text::{decimal, decimal_string, text_eq};
use crate::models::structure::rp_users::Users;

verus! {

/// The login form, with username and password encrypted by the browser.
pub struct LoginAuthData {
    pub username: String,
    pub password: String,
    pub timestamp: u64,
}

/// Whether a login stamped `timestamp_ms` (milliseconds since the epoch) is
/// older than a minute at `now_nanos` (nanoseconds since the epoch). A stamp
/// from the future is not old.
pub open spec fn timestamp_expired_at(now_nanos: u128, timestamp_ms: u64) -> bool {
    now_nanos >= timestamp_ms * 1_000_000 && now_nanos - timestamp_ms * 1_000_000 > 60_000_000_000
}

/// Whether a login stamped `timestamp_ms` is more than a minute old at `now_nanos`.
pub fn timestamp_expired(now_nanos: u128, timestamp_ms: u64) -> (r: bool)
    ensures
        r == timestamp_expired_at(now_nanos, timestamp_ms),
{
    let stamped = (timestamp_ms as u128) * 1_000_000;
    now_nanos >= stamped && now_nanos - stamped > 60_000_000_000
}

/// What a login request leads to before the database is asked.
pub enum SignStep {
    /// The security directory in the path is not the configured one.
    NotFound,
    /// The login is more than a minute old.
    InvalidTimestamp,
    /// The credentials are to be decrypted and checked.
    Credentials,
}

/// The first decision on a login: the security directory must match, then
/// the timestamp must be at most a minute old.
pub open spec fn sign_step_of(configured_dir: Seq<char>, requested_dir: Seq<char>, now_nanos: u128, timestamp_ms: u64) -> SignStep {
    if configured_dir != requested_dir {
        SignStep::NotFound
    } else if timestamp_expired_at(now_nanos, timestamp_ms) {
        SignStep::InvalidTimestamp
    } else {
        SignStep::Credentials
    }
}

/// Decides how a login request proceeds.
pub fn sign_step(configured_dir: &str, requested_dir: &str, now_nanos: u128, timestamp_ms: u64) -> (r: SignStep)
    ensures
        r == sign_step_of(configured_dir@, requested_dir@, now_nanos, timestamp_ms),
{
    if !text_eq(configured_dir, requested_dir) {
        SignStep::NotFound
    } else if timestamp_expired(now_nanos, timestamp_ms) {
        SignStep::InvalidTimestamp
    } else {
        SignStep::Credentials
    }
}

/// Whether both the username and the password of a login decrypt.
pub open spec fn credentials_decrypt(auth: LoginAuthData, security_dir: Seq<char>) -> bool {
    &&& login_plaintext(auth.username@, security_dir, decimal(auth.timestamp as nat)) is Some
    &&& login_plaintext(auth.password@, security_dir, decimal(auth.timestamp as nat)) is Some
}

/// The decrypted credentials of a login, with a zero timestamp. The login's
/// key is the security directory and its token the decimal timestamp.
pub fn login_credentials(auth: &LoginAuthData, security_dir: &str) -> (r: LoginAuthData)
    requires
        credentials_decrypt(*auth, security_dir@),
    ensures
        login_plaintext(auth.username@, security_dir@, decimal(auth.timestamp as nat)) == Some(r.username@),
        login_plaintext(auth.password@, security_dir@, decimal(auth.timestamp as nat)) == Some(r.password@),
        r.timestamp == 0,
{
    let username = sm4_decrypt_login(auth.username.clone(), String::from_str(security_dir), decimal_string(auth.timestamp));
    let password = sm4_decrypt_login(auth.password.clone(), String::from_str(security_dir), decimal_string(auth.timestamp));
    LoginAuthData { username, password, timestamp: 0 }
}

/// The decrypted credentials of a login, or none when they do not decrypt.
pub fn try_login_credentials(auth: &LoginAuthData, security_dir: &str) -> (r: Option<LoginAuthData>)
    ensures
        r is Some <==> credentials_decrypt(*auth, security_dir@),
        r matches Some(c) ==> {
            &&& login_plaintext(auth.username@, security_dir@, decimal(auth.timestamp as nat)) == Some(c.username@)
            &&& login_plaintext(auth.password@, security_dir@, decimal(auth.timestamp as nat)) == Some(c.password@)
            &&& c.timestamp == 0
        },
{
    let user_ok = try_sm4_decrypt_login(auth.username.clone(), String::from_str(security_dir), decimal_string(auth.timestamp)).is_some();
    let pass_ok = try_sm4_decrypt_login(auth.password.clone(), String::from_str(security_dir), decimal_string(auth.timestamp)).is_some();
    if user_ok && pass_ok {
        Some(login_credentials(auth, security_dir))
    } else {
        None
    }
}

/// The answer to the security-directory check: 200 when the query's `v`
/// is the configured directory, 400 when the query has no `v`, and 404 when
/// `v` names another directory; a refusal carries code 101.
pub fn security_dir_answer(configured_dir: &str, v: Option<&str>) -> (r: (u16, ResponseStructureError))
    ensures
        (v matches Some(d) && d@ == configured_dir@) ==> {
            &&& r.0 == 200
            &&& r.1.success
            &&& r.1.code == 200
            &&& r.1.message@ == "success"@
        },
        v is None ==> r.0 == 400,
        (v matches Some(d) && d@ != configured_dir@) ==> r.0 == 404,
        !(v matches Some(d) && d@ == configured_dir@) ==> {
            &&& !r.1.success
            &&& r.1.code == 101
            &&& r.1.message@ == "Security directory does not match the query parameter"@
        },
{
    let refusal = ResponseStructureError {
        success: false,
        code: 101,
        message: String::from_str("Security directory does not match the query parameter"),
    };
    match v {
        None => (400, refusal),
        Some(d) => {
            if text_eq(d, configured_dir) {
                (200, ResponseStructureError { success: true, code: 200, message: String::from_str("success") })
            } else {
                (404, refusal)
            }
        },
    }
}

/// The failure count at which an account is locked.
pub open spec fn max_failures() -> int {
    5
}

/// What a login attempt does to the account and how it is answered.
#[derive(PartialEq, Eq, Structural)]
pub enum LoginOutcome {
    /// The account has failed too often: it is locked (its status set to -1)
    /// and the login is refused.
    Locked { id: i32 },
    /// The password matches: the failure count is reset to 0 and the user logged in.
    Accepted { id: i32 },
    /// The password does not match: the failure count becomes `error_count`
    /// and `remaining` attempts are left.
    Rejected { id: i32, error_count: i32, remaining: i32 },
    /// There is no such user.
    UnknownUser,
}

/// The outcome of an attempt on an account with this id, failure count and
/// whether the password matched.
pub open spec fn attempt_outcome(id: i32, error_count: i32, matched: bool) -> LoginOutcome {
    if error_count >= 5 {
        LoginOutcome::Locked { id }
    } else if matched {
        LoginOutcome::Accepted { id }
    } else {
        LoginOutcome::Rejected { id, error_count: (error_count + 1) as i32, remaining: (5 - (error_count + 1)) as i32 }
    }
}

/// The outcome of a login with `password` for the account found, if any.
pub open spec fn login_outcome(user: Option<Users>, password: Seq<char>) -> LoginOutcome {
    match user {
        None => LoginOutcome::UnknownUser,
        Some(u) => attempt_outcome(u.id, u.error_count, password_matches(u.password@, u.salt@, password)),
    }
}

/// Decides a login attempt on the account found for the username (the last
/// row with that name), as the database query of the login does.
pub fn login_decision(user: Option<&Users>, password: &str) -> (r: LoginOutcome)
    requires
        user matches Some(u) ==> (!password_matches(u.password@, u.salt@, password@)
            ==> u.error_count >= i32::MIN + 5),
    ensures
        r == login_outcome(
            match user {
                Some(u) => Some(*u),
                None => None,
            },
            password@,
        ),
{
    match user {
        None => LoginOutcome::UnknownUser,
        Some(u) => {
            if u.error_count >= 5 {
                return LoginOutcome::Locked { id: u.id };
            }
            let matched = match verify_password_sha1(u.password.as_str(), u.salt.as_str(), password) {
                Ok(m) => m,
                Err(_) => false,
            };
            if matched {
                LoginOutcome::Accepted { id: u.id }
            } else {
                LoginOutcome::Rejected { id: u.id, error_count: u.error_count + 1, remaining: 5 - (u.error_count + 1) }
            }
        },
    }
}

/// The failure count of an account after `k` more rejected attempts.
pub open spec fn count_after_rejections(id: i32, count: i32, k: nat) -> i32
    decreases k,
{
    if k == 0 {
        count
    } else {
        match attempt_outcome(id, count, false) {
            LoginOutcome::Rejected { error_count, .. } => count_after_rejections(id, error_count, (k - 1) as nat),
            _ => count,
        }
    }
}

/// Once an account has failed five times it stays locked: every further
/// attempt, with the right password or not, is refused and changes nothing
/// but the lock.
pub proof fn lemma_locked_stays_locked(id: i32, count: i32, matched: bool)
    requires
        count >= 5,
    ensures
        attempt_outcome(id, count, matched) == (LoginOutcome::Locked { id }),
{
}

/// From an account with `count` failures (fewer than five), each wrong
/// password adds one failure and reports one attempt fewer left, and after
/// `5 - count` wrong passwords the account is locked, so that even the right
/// password is refused.
pub proof fn lemma_five_failures_lock(id: i32, count: i32, matched: bool)
    requires
        i32::MIN + 5 <= count < 5,
    ensures
        attempt_outcome(id, count, false) == (LoginOutcome::Rejected {
            id,
            error_count: (count + 1) as i32,
            remaining: (4 - count) as i32,
        }),
        count_after_rejections(id, count, (5 - count) as nat) == 5,
        attempt_outcome(id, count_after_rejections(id, count, (5 - count) as nat), matched) == (LoginOutcome::Locked { id }),
    decreases 5 - count,
{
    if count < 4 {
        lemma_five_failures_lock(id, (count + 1) as i32, matched);
        assert(count_after_rejections(id, count, (5 - count) as nat) == count_after_rejections(
            id,
            (count + 1) as i32,
            (5 - (count + 1)) as nat,
        ));
    } else {
        assert(count_after_rejections(id, 5, 0) == 5);
    }
}

/// The right password logs in: on an account with fewer than five failures
/// whose stored hash is the salted SHA-1 of `password`, the login is
/// accepted for that account, however many failures came before.
pub proof fn lemma_right_password_accepted(user: Users, password: Seq<char>)
    requires
        user.error_count < 5,
        user.password@ == sha1_salt_of(password, user.salt@),
    ensures
        login_outcome(Some(user), password) == (LoginOutcome::Accepted { id: user.id }),
{
}

/// A wrong password is counted: on an account with fewer than five failures
/// whose stored hash is not the salted SHA-1 of `password`, the login is
/// refused, the account has one failure more, and the attempts left are the
/// five allowed less the failures now counted.
pub proof fn lemma_wrong_password_counted(user: Users, password: Seq<char>)
    requires
        i32::MIN + 5 <= user.error_count < 5,
        user.password@ != sha1_salt_of(password, user.salt@),
    ensures
        login_outcome(Some(user), password) == (LoginOutcome::Rejected {
            id: user.id,
            error_count: (user.error_count + 1) as i32,
            remaining: (4 - user.error_count) as i32,
        }),
{
}

/// No one gets into an unknown account, and a locked account stays shut:
/// without an account the answer is `UnknownUser`, and an account with five
/// failures or more is `Locked` whatever the password.
pub proof fn lemma_unknown_or_locked_refused(user: Option<Users>, password: Seq<char>)
    ensures
        user is None ==> login_outcome(user, password) == LoginOutcome::UnknownUser,
        (user matches Some(u) && u.error_count >= 5) ==> login_outcome(user, password) == (LoginOutcome::Locked {
            id: user->0.id,
        }),
{
}

/// A login gets past the first checks exactly when it names the configured
/// security directory and is stamped no more than a minute (60 000 000 000
/// ns) before now; a wrong directory is not found, whatever the time, and
/// a right one with an older stamp is refused for its timestamp.
pub proof fn lemma_sign_step_checks(configured_dir: Seq<char>, requested_dir: Seq<char>, now_nanos: u128, timestamp_ms: u64)
    ensures
        configured_dir != requested_dir ==> sign_step_of(configured_dir, requested_dir, now_nanos, timestamp_ms) is NotFound,
        configured_dir == requested_dir ==> (sign_step_of(configured_dir, requested_dir, now_nanos, timestamp_ms) is Credentials
            <==> now_nanos <= timestamp_ms * 1_000_000 + 60_000_000_000),
        configured_dir == requested_dir ==> (sign_step_of(configured_dir, requested_dir, now_nanos, timestamp_ms) is InvalidTimestamp
            <==> now_nanos > timestamp_ms * 1_000_000 + 60_000_000_000),
{
}

} // verus!
