//! Authentication data: token claims with their expiry arithmetic, and the
//! middleware and guard shells around them. Signing and verifying tokens is
//! done by the surrounding program; the claims a token carries are built
//! here.

use vstd::prelude::*;
use crate::clock::now_unix_secs;

verus! {

/// Transport-layer middleware shell carrying the signing secret.
#[derive(Clone, Debug)]
pub struct AuthMiddleware {
    pub secret: String,
}

impl AuthMiddleware {
    /// A middleware shell for the given signing secret.
    pub fn new(secret: String) -> (r: Self)
        ensures
            r.secret == secret,
    {
        AuthMiddleware { secret }
    }
}

/// The middleware shell bound to an inner service.
pub struct AuthMiddlewareService<S> {
    pub service: S,
    pub secret: String,
}

/// How long a fresh token lives, in seconds.
pub open spec fn token_lifetime_secs() -> int {
    86400
}

/// The expiry stamp for a token issued at `now`: one day later, clamped
/// into the representable range.
pub open spec fn expiry_for(now: int) -> int {
    if now + token_lifetime_secs() < 0 {
        0
    } else if now + token_lifetime_secs() > usize::MAX {
        usize::MAX as int
    } else {
        now + token_lifetime_secs()
    }
}

/// The claims carried inside a token.
#[derive(Clone, Debug)]
pub struct Claims {
    /// Subject: the user the token speaks for.
    pub sub: String,
    /// The subject's role.
    pub role: String,
    /// Expiry as a Unix timestamp in seconds.
    pub exp: usize,
}

impl Claims {
    /// Claims issued at the given clock reading, expiring one day later.
    pub fn with_expiry(sub: String, role: String, now_secs: i64) -> (r: Claims)
        ensures
            r.sub == sub,
            r.role == role,
            r.exp == expiry_for(now_secs as int),
    {
        let total: i128 = now_secs as i128 + 86400;
        let exp: usize = if total < 0 {
            0
        } else if total > usize::MAX as i128 {
            usize::MAX
        } else {
            total as usize
        };
        Claims { sub, role, exp }
    }

    /// Claims issued now, expiring one day later. The clock is read once;
    /// the expiry follows that reading as [`expiry_for`] says.
    pub fn new(sub: String, role: String) -> (r: Claims)
        ensures
            r.sub == sub,
            r.role == role,
            exists|now: i64| r.exp == expiry_for(now as int),
    {
        let now = now_unix_secs();
        let r = Claims::with_expiry(sub, role, now);
        proof {
            assert(r.exp == expiry_for(now as int));
        }
        r
    }

    /// Whether the claims are expired at the given clock reading.
    pub fn expired_at(&self, now_secs: i64) -> (r: bool)
        ensures
            r == (now_secs >= 0 && self.exp < now_secs as int),
    {
        now_secs >= 0 && (self.exp as i128) < (now_secs as i128)
    }
}

/// What the token guard is configured with.
pub struct AuthConfig {
    /// Secret the tokens are signed with.
    pub secret_key: String,
    /// Lifetime of issued tokens, in seconds.
    pub token_expiration_secs: u64,
}

/// Verifies and issues tokens; the cryptographic work happens in the
/// surrounding program with this configuration.
pub struct AuthGuard {
    pub config: AuthConfig,
}

impl AuthGuard {
    /// A guard over the given configuration.
    pub fn new(config: AuthConfig) -> (r: AuthGuard)
        ensures
            r.config == config,
    {
        AuthGuard { config }
    }
}

} // verus!
