use vstd::prelude::*;
use crate::common::text::{chars_of, contains, has_infix, has_prefix, occurs_at_exec, string_of};

verus! {

/// The middleware that guards the API with a bearer token.
pub struct Auth;

/// The guarded service.
pub struct AuthMiddleware<S> {
    service: S,
}

impl Auth {
    /// Wraps `service` in the guard.
    pub fn new_transform<S>(&self, service: S) -> (r: AuthMiddleware<S>)
        ensures
            r.wrapped() == service,
    {
        AuthMiddleware { service }
    }
}

impl<S> AuthMiddleware<S> {
    /// The service that the guard wraps.
    pub closed spec fn wrapped(&self) -> S {
        self.service
    }

    /// The guarded service.
    pub fn service(&self) -> (r: &S)
        ensures
            *r == self.wrapped(),
    {
        &self.service
    }
}

/// What the guard does with a request.
pub enum AuthAction {
    /// Pass the request on unchecked.
    Forward,
    /// Answer 401.
    Unauthorized,
    /// Pass the request on if this token decodes.
    Verify(String),
}

/// `s` with every leading repetition of `p` removed.
pub open spec fn strip_leading(s: Seq<char>, p: Seq<char>) -> Seq<char>
    decreases s.len(),
{
    if p.len() > 0 && has_prefix(s, p) {
        strip_leading(s.skip(p.len() as int), p)
    } else {
        s
    }
}

/// `s` without every leading repetition of `p`, as `str::trim_start_matches` does.
pub fn trim_start_matches(s: &str, p: &str) -> (r: String)
    ensures
        r@ == strip_leading(s@, p@),
{
    let sv = chars_of(s);
    let pv = chars_of(p);
    if pv.len() == 0 {
        return String::from_str(s);
    }
    let mut i: usize = 0;
    assert(sv@.skip(0) =~= sv@);
    while occurs_at_exec(&sv, &pv, i)
        invariant
            sv@ == s@,
            pv@ == p@,
            pv.len() > 0,
            i <= sv.len(),
            strip_leading(s@, p@) == strip_leading(sv@.skip(i as int), p@),
        decreases sv.len() - i,
    {
        let ghost rest = sv@.skip(i as int);
        assert(rest.take(pv@.len() as int) =~= sv@.subrange(i as int, i + pv@.len()));
        assert(rest.skip(pv@.len() as int) =~= sv@.skip(i + pv@.len()));
        i = i + pv.len();
    }
    let ghost rest = sv@.skip(i as int);
    proof {
        if has_prefix(rest, p@) {
            assert(rest.take(pv@.len() as int) =~= sv@.subrange(i as int, i + pv@.len()));
        }
    }
    let mut out: Vec<char> = Vec::new();
    let mut k: usize = i;
    while k < sv.len()
        invariant
            i <= k <= sv.len(),
            out@ == sv@.subrange(i as int, k as int),
        decreases sv.len() - k,
    {
        out.push(sv[k]);
        k = k + 1;
        assert(out@ =~= sv@.subrange(i as int, k as int));
    }
    assert(out@ =~= rest);
    string_of(&out)
}

/// Decides what the guard does with a request for `path` whose
/// `Authorization` header is `authorization` (none when missing or not
/// visible ASCII): the login routes and everything outside the API pass;
/// other API requests need a token, the header without its leading
/// `Bearer ` prefixes.
pub fn auth_action(path: &str, authorization: Option<&str>) -> (r: AuthAction)
    ensures
        (has_infix(path@, "/api/v1/login"@) || !has_infix(path@, "/api"@)) ==> r is Forward,
        !(has_infix(path@, "/api/v1/login"@) || !has_infix(path@, "/api"@)) ==> match authorization {
            None => r is Unauthorized,
            Some(h) => r matches AuthAction::Verify(t) && t@ == strip_leading(h@, "Bearer "@),
        },
{
    if contains(path, "/api/v1/login") || !contains(path, "/api") {
        return AuthAction::Forward;
    }
    match authorization {
        None => AuthAction::Unauthorized,
        Some(h) => AuthAction::Verify(trim_start_matches(h, "Bearer ")),
    }
}

/// Calls `jsonwebtoken::decode` on `token` with an HS256 key made from the
/// secret `key` and the default validation, asking for the claims as a
/// JSON string, and says whether it succeeded. The contract claims that it
/// never does: after reading the claims as a string, `decode` reads them
/// again as the structure of registered claims that it validates, which a
/// JSON string cannot be, so every call ends in an error.
#[verifier::external_body]
fn decodes_as_text(token: &str, key: &[u8]) -> (r: bool)
    ensures
        !r,
{
    let key = jsonwebtoken::DecodingKey::from_secret(key);
    jsonwebtoken::decode::<String>(token, &key, &jsonwebtoken::Validation::default()).is_ok()
}

/// Whether the guard accepts a bearer token: its claims must decode, under
/// the guard's secret, as a JSON string. No token does.
pub fn guard_token_valid(token: &str) -> (r: bool)
    ensures
        !r,
{
    decodes_as_text(token, "your_secret".as_bytes())
}

} // verus!
