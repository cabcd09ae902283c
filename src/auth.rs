//! Claims of a bearer token.
use vstd::prelude::*;

verus! {

/// How long an issued token stays valid, in seconds.
pub const TOKEN_LIFETIME_SECS: usize = 86400;

#[derive(Clone, Debug, PartialEq, Eq)]
pub struct Claims {
    /// Subject (user id).
    pub sub: String,
    /// Expiry, in seconds since the Unix epoch.
    pub exp: usize,
    /// Issue time, in seconds since the Unix epoch.
    pub iat: usize,
    /// Role of the user, such as "admin" or "user".
    pub role: String,
}

impl Claims {
    /// Claims for `user_id` in `role`, issued at `now` and expiring one day later.
    pub fn issue(user_id: &str, role: &str, now: usize) -> (c: Claims)
        requires
            now + TOKEN_LIFETIME_SECS <= usize::MAX,
        ensures
            c.sub@ == user_id@,
            c.role@ == role@,
            c.iat == now,
            c.exp == now + TOKEN_LIFETIME_SECS,
    {
        Claims {
            sub: user_id.to_owned(),
            exp: now + TOKEN_LIFETIME_SECS,
            iat: now,
            role: role.to_owned(),
        }
    }
}

} // verus!
