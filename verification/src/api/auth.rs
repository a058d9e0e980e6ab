use vstd::prelude::*;
use crate::common::fun::{sha1_salt, sha1_salt_of};
use crate::common::text::text_eq;
use crate::errors::common::CommonError;
use crate::models::structure::rp_users::SlimUser;

verus! {

/// The user that a request acts for.
pub type AuthUser = SlimUser;

/// Failures of password checking.
#[derive(Debug)]
pub enum AuthError {
    HashError,
    VerificationError,
}

/// Whether `password` salted with `salt` hashes to the stored `hash`.
pub open spec fn password_matches(hash: Seq<char>, salt: Seq<char>, password: Seq<char>) -> bool {
    hash == sha1_salt_of(password, salt)
}

/// Checks a password against the stored salted SHA-1 hash. Never fails.
pub fn verify_password_sha1(hash: &str, salt: &str, password: &str) -> (r: Result<bool, AuthError>)
    ensures
        r matches Ok(b) && b == password_matches(hash@, salt@, password@),
{
    let expected = sha1_salt(String::from_str(password), String::from_str(salt));
    Ok(text_eq(hash, expected.as_str()))
}

/// The moment a session token issued at `now_secs` (seconds since the
/// epoch) expires, for sessions of `session_ttl` hours, as a machine word.
pub open spec fn token_expiry_of(now_secs: u64, session_ttl: i64) -> usize {
    (now_secs + ((session_ttl * 60 * 60) as u64)) as usize
}

/// The expiry of a session token issued at `now_secs` for sessions of
/// `session_ttl` hours. The arithmetic must not overflow.
pub fn token_expiry(now_secs: u64, session_ttl: i64) -> (r: usize)
    requires
        i64::MIN <= session_ttl * 60 * 60 <= i64::MAX,
        now_secs + ((session_ttl * 60 * 60) as u64) <= u64::MAX,
    ensures
        r == token_expiry_of(now_secs, session_ttl),
{
    let lifetime = (session_ttl * 60 * 60) as u64;
    (now_secs + lifetime) as usize
}

/// What `jsonwebtoken::decode` reads from `token` when it is checked with
/// HS256 under the secret `key` and its expiry is left unchecked: the
/// subject and the expiry (seconds since the epoch) of its claims, or none
/// where the token is malformed, its signature or algorithm does not verify,
/// it has an audience, or its claims are not a JSON object with a string
/// `sub` and an unsigned integer `exp`.
pub uninterp spec fn jwt_claims_of(token: Seq<char>, key: Seq<u8>) -> Option<(Seq<char>, u64)>;

/// Calls `jsonwebtoken::decode` on `token` with an HS256 key made from the
/// secret `key`, under the default validation with the expiry check turned
/// off, reading the claims as a map and picking `sub` as a string and `exp`
/// as an unsigned integer. The contract claims that what comes back is
/// `jwt_claims_of` of the token and the key; the expiry is compared with the
/// clock by the caller.
#[verifier::external_body]
pub(crate) fn decode_jwt(token: &str, key: &[u8]) -> (r: Option<(String, u64)>)
    ensures
        match r {
            Some(c) => jwt_claims_of(token@, key@) == Some((c.0@, c.1)),
            None => jwt_claims_of(token@, key@) is None,
        },
{
    let mut validation = jsonwebtoken::Validation::new(jsonwebtoken::Algorithm::HS256);
    validation.validate_exp = false;
    let key = jsonwebtoken::DecodingKey::from_secret(key);
    match jsonwebtoken::decode::<std::collections::HashMap<String, serde_json::Value>>(token, &key, &validation) {
        Ok(data) => match (data.claims.get("sub"), data.claims.get("exp")) {
            (Some(serde_json::Value::String(sub)), Some(exp)) => exp.as_u64().map(|exp| (sub.clone(), exp)),
            _ => None,
        },
        Err(_) => None,
    }
}

/// Whether a token that expires at `exp` has expired at `now_secs`: past
/// its expiry by more than the leeway of 60 seconds.
pub open spec fn token_expired(exp: u64, now_secs: u64) -> bool {
    exp < now_secs - 60
}

/// The subject that a session token signed under `key` carries at
/// `now_secs`: none when it does not decode or has expired.
pub open spec fn session_subject(token: Seq<char>, key: Seq<u8>, now_secs: u64) -> Option<Seq<char>> {
    match jwt_claims_of(token, key) {
        Some(c) => if token_expired(c.1, now_secs) { None } else { Some(c.0) },
        None => None,
    }
}

/// The subject of decoded claims, unless they have expired at `now_secs`.
pub fn live_subject(claims: Option<(String, u64)>, now_secs: u64) -> (r: Option<String>)
    ensures
        match claims {
            Some(c) => if token_expired(c.1, now_secs) {
                r is None
            } else {
                r matches Some(s) && s@ == c.0@
            },
            None => r is None,
        },
{
    match claims {
        Some((sub, exp)) => {
            if now_secs >= 60 && exp < now_secs - 60 {
                None
            } else {
                Some(sub)
            }
        },
        None => None,
    }
}

/// The subject of a session token signed under `key`, unless the token does
/// not decode or has expired at `now_secs` (seconds since the epoch).
pub fn token_subject(token: &str, key: &[u8], now_secs: u64) -> (r: Option<String>)
    ensures
        match r {
            Some(s) => session_subject(token@, key@, now_secs) == Some(s@),
            None => session_subject(token@, key@, now_secs) is None,
        },
{
    live_subject(decode_jwt(token, key), now_secs)
}

/// The session token that `jsonwebtoken::encode` makes for the claims
/// `{"sub": sub, "exp": exp}` under an HS256 header, signed with the
/// secret `key`.
pub uninterp spec fn jwt_encoded(sub: Seq<char>, exp: u64, key: Seq<u8>) -> Seq<char>;

/// Calls `jsonwebtoken::encode` with an HS256 header, the claims `sub` and
/// `exp` and an HS256 key made from the secret `key`. The claims go in a
/// map ordered by `std::cmp::Reverse` of their names, which serde writes as
/// the bare names, so the JSON reads `{"sub":…,"exp":…}`, the order of a
/// struct with the fields `sub` and `exp`. The result is named
/// `jwt_encoded`. The second clause states what the source shows: HMAC
/// signing cannot fail, and decoding the token under the same key verifies
/// its signature, finds the required `exp` and no audience, and reads back
/// `sub` and `exp`.
#[verifier::external_body]
fn encode_jwt(sub: &str, exp: u64, key: &[u8]) -> (r: String)
    ensures
        r@ == jwt_encoded(sub@, exp, key@),
        jwt_claims_of(r@, key@) == Some((sub@, exp)),
{
    let mut claims = std::collections::BTreeMap::new();
    claims.insert(std::cmp::Reverse("sub"), serde_json::Value::from(sub));
    claims.insert(std::cmp::Reverse("exp"), serde_json::Value::from(exp));
    let header = jsonwebtoken::Header::new(jsonwebtoken::Algorithm::HS256);
    jsonwebtoken::encode(&header, &claims, &jsonwebtoken::EncodingKey::from_secret(key)).expect("HMAC signing does not fail")
}

/// The moment, in seconds since the epoch, at which a session token issued
/// at `now_secs` for sessions of `session_ttl` hours expires.
pub open spec fn session_expiry(now_secs: u64, session_ttl: i64) -> u64 {
    token_expiry_of(now_secs, session_ttl) as u64
}

/// A session token for `subject`, issued at `now_secs` (seconds since the
/// epoch) for sessions of `session_ttl` hours and signed under `key`. The
/// arithmetic of its expiry must not overflow.
pub fn generate_jwt(subject: &str, now_secs: u64, session_ttl: i64, key: &[u8]) -> (r: String)
    requires
        i64::MIN <= session_ttl * 60 * 60 <= i64::MAX,
        now_secs + ((session_ttl * 60 * 60) as u64) <= u64::MAX,
    ensures
        r@ == jwt_encoded(subject@, session_expiry(now_secs, session_ttl), key@),
        jwt_claims_of(r@, key@) == Some((subject@, session_expiry(now_secs, session_ttl))),
{
    let exp = token_expiry(now_secs, session_ttl);
    encode_jwt(subject, exp as u64, key)
}

/// A session token gives back the subject it was issued for, under the key
/// it was signed with, until its expiry has passed by more than the leeway.
pub proof fn lemma_issued_token_reads_back(token: Seq<char>, key: Seq<u8>, subject: Seq<char>, exp: u64, now_secs: u64)
    requires
        jwt_claims_of(token, key) == Some((subject, exp)),
        !token_expired(exp, now_secs),
    ensures
        session_subject(token, key, now_secs) == Some(subject),
{
}

/// What a request's session token gave.
pub enum TokenCheck {
    /// The request carries no `Authorization` header.
    Missing,
    /// The token does not decode, or does not hold a user.
    Invalid,
    /// The token is valid and names this user.
    Valid(SlimUser),
}

/// What the database holds of the user that a token names.
pub enum StoredUser {
    /// The user exists with this password hash.
    Found(String),
    /// The user does not exist.
    Absent,
    /// The database could not be asked.
    Unavailable,
}

/// The decision on a request's user: no token or an invalid one is
/// refused; a valid token is refused when the user's stored password hash
/// has changed since it was issued, and accepted otherwise (also when the
/// database cannot be asked).
pub open spec fn token_decision_ok(token: TokenCheck, stored: StoredUser) -> Option<SlimUser> {
    match token {
        TokenCheck::Valid(user) => match stored {
            StoredUser::Found(p) => if p@ == user.password@ { Some(user) } else { None },
            _ => Some(user),
        },
        _ => None,
    }
}

/// The reason with which a request's user is refused.
pub open spec fn token_refusal(token: TokenCheck) -> Seq<char> {
    match token {
        TokenCheck::Missing => "token is None"@,
        TokenCheck::Invalid => "token error"@,
        TokenCheck::Valid(_) => "password error"@,
    }
}

/// Decides whether a request acts for the user its token names. A valid
/// token for a user that no longer exists is left out (the lookup result is
/// unwrapped there).
pub fn authorize(token: TokenCheck, stored: StoredUser) -> (r: Result<AuthUser, CommonError>)
    requires
        token is Valid ==> !(stored is Absent),
    ensures
        match token_decision_ok(token, stored) {
            Some(u) => r == Ok::<SlimUser, CommonError>(u),
            None => r matches Err(CommonError::Unauthorized(m)) && m@ == token_refusal(token),
        },
{
    match token {
        TokenCheck::Missing => Err(CommonError::Unauthorized(String::from_str("token is None"))),
        TokenCheck::Invalid => Err(CommonError::Unauthorized(String::from_str("token error"))),
        TokenCheck::Valid(user) => match stored {
            StoredUser::Found(p) => {
                if text_eq(p.as_str(), user.password.as_str()) {
                    Ok(user)
                } else {
                    Err(CommonError::Unauthorized(String::from_str("password error")))
                }
            },
            _ => Ok(user),
        },
    }
}

/// A password checks against its own salted hash: storing
/// `sha1_salt(password, salt)` lets exactly that password log in.
pub proof fn lemma_salted_hash_verifies(password: Seq<char>, salt: Seq<char>)
    ensures
        password_matches(sha1_salt_of(password, salt), salt, password),
{
}

/// A session token is honoured while it decodes and the clock is at most
/// 60 seconds past its expiry, and refused once the clock is further on.
pub proof fn lemma_session_window(token: Seq<char>, key: Seq<u8>, now_secs: u64)
    ensures
        session_subject(token, key, now_secs) is Some <==> (jwt_claims_of(token, key) matches Some(c) && now_secs <= c.1 + 60),
        jwt_claims_of(token, key) matches Some(c) ==> (now_secs <= c.1 + 60 ==> session_subject(token, key, now_secs) == Some(c.0)),
{
}

/// A request acts only for the user its valid token names: without a
/// token, or with an invalid one, it is refused; with a valid token it is
/// refused exactly when the database holds another password hash for the
/// user, and otherwise (also when the database cannot be asked) it acts for
/// that user.
pub proof fn lemma_request_user(token: TokenCheck, stored: StoredUser)
    ensures
        token_decision_ok(token, stored) matches Some(u) ==> token == TokenCheck::Valid(u),
        token is Missing ==> token_decision_ok(token, stored) is None && token_refusal(token) == "token is None"@,
        token is Invalid ==> token_decision_ok(token, stored) is None && token_refusal(token) == "token error"@,
        token matches TokenCheck::Valid(u) ==> (stored matches StoredUser::Found(p) ==> (token_decision_ok(token, stored) is Some
            <==> p@ == u.password@)),
        token matches TokenCheck::Valid(u) ==> (stored is Unavailable ==> token_decision_ok(token, stored) == Some(u)),
        token is Valid ==> token_refusal(token) == "password error"@,
{
}

} // verus!
