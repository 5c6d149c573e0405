//! Session tokens: the claims a token carries and the bearer header that
//! brings it.

use vstd::prelude::*;
use vstd::string::*;
use crate::text::{has_text_prefix, text_starts_with};

verus! {

/// How long an issued token stays valid, in seconds (24 hours).
pub const TOKEN_LIFETIME_SECS: usize = 86400;

/// The claims of a session token.
#[derive(Clone, Debug)]
pub struct Claims {
    /// The account id.
    pub sub: String,
    /// Expiry, seconds since the Unix epoch.
    pub exp: usize,
    /// Issue time, seconds since the Unix epoch.
    pub iat: usize,
}

impl Claims {
    /// The claims of a token issued to `user_id` at `now` (seconds since
    /// the Unix epoch), valid for `TOKEN_LIFETIME_SECS`.
    pub fn issue(user_id: &str, now: usize) -> (r: Claims)
        requires
            now + TOKEN_LIFETIME_SECS <= usize::MAX,
        ensures
            r.sub@ == user_id@,
            r.iat == now,
            r.exp == now + TOKEN_LIFETIME_SECS,
    {
        Claims { sub: user_id.to_owned(), exp: now + TOKEN_LIFETIME_SECS, iat: now }
    }
}

/// The scheme word that opens a bearer authorization header.
pub open spec fn bearer_prefix() -> Seq<char> {
    "Bearer "@
}

/// Takes the token out of an `Authorization: Bearer <token>` header value;
/// `None` where the value does not start with `Bearer `.
pub fn extract_bearer_token(auth_header: &str) -> (r: Option<&str>)
    ensures
        match r {
            Some(t) => has_text_prefix(auth_header@, bearer_prefix()) && t@ == auth_header@.subrange(
                bearer_prefix().len() as int,
                auth_header@.len() as int,
            ),
            None => !has_text_prefix(auth_header@, bearer_prefix()),
        },
{
    if text_starts_with(auth_header, "Bearer ") {
        proof {
            reveal_strlit("Bearer ");
        }
        Some(auth_header.substring_char(7, auth_header.unicode_len()))
    } else {
        None
    }
}

} // verus!
