//! Access-token checks of every request: the `Authorization` header must carry
//! `Bearer <token>`, and the token's claims become the caller's identity.
use vstd::prelude::*;
use vstd::string::*;
use crate::common::UserData;

verus! {

/// The claims of an access token.
#[derive(Debug)]
pub struct JWTClaims {
    pub sub: u64,
    pub iat: i64,
    pub exp: i64,
    pub role: String,
    pub projects: Vec<u64>,
}

/// A refused request: always status 401, with a code and a message.
#[derive(Debug)]
pub struct AuthRejection {
    pub status: u16,
    pub error: String,
    pub message: String,
}

pub open spec fn rejection(r: AuthRejection, error: Seq<char>, message: Seq<char>) -> bool {
    r.status == 401 && r.error@ == error && r.message@ == message
}

fn reject(error: &str, message: &str) -> (r: AuthRejection)
    ensures
        rejection(r, error@, message@),
{
    AuthRejection { status: 401, error: String::from_str(error), message: String::from_str(message) }
}

/// The scheme prefix of the header.
pub open spec fn bearer_prefix() -> Seq<char> {
    "Bearer "@
}

/// Whether `s` starts with `Bearer `.
pub open spec fn has_bearer_prefix(s: Seq<char>) -> bool {
    s.len() >= 7 && s.subrange(0, 7) == bearer_prefix()
}

fn starts_with_bearer(s: &str) -> (r: bool)
    ensures
        r == has_bearer_prefix(s@),
{
    proof {
        reveal_strlit("Bearer ");
    }
    let prefix = "Bearer ";
    let n = s.unicode_len();
    if n < 7 {
        return false;
    }
    let mut i: usize = 0;
    while i < 7
        invariant
            n == s@.len(),
            n >= 7,
            i <= 7,
            prefix@ == bearer_prefix(),
            prefix@.len() == 7,
            forall|j: int| 0 <= j < i ==> s@[j] == prefix@[j],
        decreases 7 - i,
    {
        if s.get_char(i) != prefix.get_char(i) {
            assert(s@.subrange(0, 7)[i as int] != bearer_prefix()[i as int]);
            return false;
        }
        i = i + 1;
    }
    assert(s@.subrange(0, 7) =~= bearer_prefix());
    true
}

/// The token of the `Authorization` header (absent when the request has none;
/// a header value that is not visible ASCII is taken as empty). A missing
/// header is refused with `NO_TOKEN`; one without the `Bearer ` prefix with
/// `INVALID_FORMAT`; otherwise the token is what follows the prefix.
pub fn bearer_token(header: &Option<String>) -> (r: Result<String, AuthRejection>)
    ensures
        match header.deep_view() {
            None => r matches Err(x) && rejection(x, "NO_TOKEN"@, "Authorization header not found"@),
            Some(h) => if has_bearer_prefix(h) {
                r matches Ok(t) && t@ == h.subrange(7, h.len() as int)
            } else {
                r matches Err(x) && rejection(x, "INVALID_FORMAT"@, "Authorization header must be Bearer <token>"@)
            },
        },
{
    match header {
        None => Err(reject("NO_TOKEN", "Authorization header not found")),
        Some(h) => {
            let s = h.as_str();
            if !starts_with_bearer(s) {
                return Err(reject("INVALID_FORMAT", "Authorization header must be Bearer <token>"));
            }
            let n = s.unicode_len();
            let rest = s.substring_char(7, n);
            Ok(String::from_str(rest))
        },
    }
}

/// The caller's identity from the outcome of token validation: a token that
/// failed validation is refused with `INVALID_TOKEN`; otherwise the user is the
/// token's subject, with its role and projects.
pub fn authorize(claims: Result<JWTClaims, String>) -> (r: Result<UserData, AuthRejection>)
    ensures
        match claims {
            Err(_) => r matches Err(x) && rejection(x, "INVALID_TOKEN"@, "Token validation failed"@),
            Ok(c) => r matches Ok(u) && u.id == c.sub && u.role@ == c.role@ && u.projects_list@ == c.projects@,
        },
{
    match claims {
        Err(_) => Err(reject("INVALID_TOKEN", "Token validation failed")),
        Ok(c) => Ok(UserData { id: c.sub, role: c.role, projects_list: c.projects }),
    }
}

} // verus!
