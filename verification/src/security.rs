//! Security policy as data and decisions: which protections are on, the
//! response headers they imply, and the request-level checks. Attaching the
//! headers and reading requests is transport work done by the surrounding
//! program.

use vstd::prelude::*;
use vstd::string::*;
use crate::text::{contains_seq, str_contains, str_to_chars, chars_match_at};

verus! {

/// Which protections are switched on.
#[derive(Clone, Copy, Debug, PartialEq, Eq, Structural)]
pub struct SecurityConfig {
    pub enabled: bool,
    pub headers: bool,
    pub cors: bool,
    pub xss_protection: bool,
    pub hsts: bool,
    pub content_security_policy: bool,
}

impl Default for SecurityConfig {
    /// Every protection on.
    fn default() -> (r: Self)
        ensures
            r == (SecurityConfig {
                enabled: true,
                headers: true,
                cors: true,
                xss_protection: true,
                hsts: true,
                content_security_policy: true,
            }),
    {
        SecurityConfig {
            enabled: true,
            headers: true,
            cors: true,
            xss_protection: true,
            hsts: true,
            content_security_policy: true,
        }
    }
}

/// Transport-layer middleware shell carrying the security configuration.
#[derive(Clone, Copy, Debug)]
pub struct SecurityMiddleware {
    pub config: SecurityConfig,
}

impl SecurityMiddleware {
    /// A middleware shell for the given configuration.
    pub fn new(config: SecurityConfig) -> (r: Self)
        ensures
            r.config == config,
    {
        SecurityMiddleware { config }
    }
}

/// The middleware shell bound to an inner service.
pub struct SecurityMiddlewareService<S> {
    pub service: S,
    pub config: SecurityConfig,
}

/// Middleware shell that attaches the security headers to responses.
#[derive(Clone, Copy, Debug)]
pub struct SecurityHeadersMiddleware;

/// The header-attaching shell bound to an inner service.
pub struct SecurityHeadersMiddlewareService<S> {
    pub service: S,
}

/// Request-guard marker for handlers that passed the security checks.
#[derive(Clone, Copy, Debug)]
pub struct SecurityGuard;

/// The security headers attached to every response.
pub fn security_headers() -> (r: Vec<(String, String)>)
    ensures
        r@.len() == 5,
        r@[0].0@ == "Strict-Transport-Security"@ && r@[0].1@
            == "max-age=31536000; includeSubDomains; preload"@,
        r@[1].0@ == "X-Frame-Options"@ && r@[1].1@ == "DENY"@,
        r@[2].0@ == "X-Content-Type-Options"@ && r@[2].1@ == "nosniff"@,
        r@[3].0@ == "X-XSS-Protection"@ && r@[3].1@ == "1; mode=block"@,
        r@[4].0@ == "Content-Security-Policy"@ && r@[4].1@
            == "default-src 'self'; script-src 'self' 'unsafe-inline' 'unsafe-eval'; style-src 'self' 'unsafe-inline'; img-src 'self' data:; connect-src 'self' ws: wss:;"@,
{
    let mut headers: Vec<(String, String)> = Vec::new();
    headers.push(
        (
            String::from_str("Strict-Transport-Security"),
            String::from_str("max-age=31536000; includeSubDomains; preload"),
        ),
    );
    headers.push((String::from_str("X-Frame-Options"), String::from_str("DENY")));
    headers.push((String::from_str("X-Content-Type-Options"), String::from_str("nosniff")));
    headers.push((String::from_str("X-XSS-Protection"), String::from_str("1; mode=block")));
    headers.push(
        (
            String::from_str("Content-Security-Policy"),
            String::from_str(
                "default-src 'self'; script-src 'self' 'unsafe-inline' 'unsafe-eval'; style-src 'self' 'unsafe-inline'; img-src 'self' data:; connect-src 'self' ws: wss:;",
            ),
        ),
    );
    headers
}

/// Whether a request passes the security checks: preflight requests always
/// pass; a content type mentioning `javascript` is rejected; a referer not
/// starting with `https://` is rejected.
pub open spec fn request_allowed(
    method: Seq<char>,
    content_type: Option<Seq<char>>,
    referer: Option<Seq<char>>,
) -> bool {
    if method == "OPTIONS"@ {
        true
    } else {
        &&& match content_type {
            Some(ct) => !contains_seq(ct, "javascript"@),
            None => true,
        }
        &&& match referer {
            Some(rf) => rf.len() >= 8 && rf.subrange(0, 8) == "https://"@,
            None => true,
        }
    }
}

/// The request-level check, exactly as [`request_allowed`] says.
pub fn guard_request(method: &str, content_type: Option<&str>, referer: Option<&str>) -> (r: bool)
    ensures
        r == request_allowed(
            method@,
            match content_type {
                Some(ct) => Some(ct@),
                None => None,
            },
            match referer {
                Some(rf) => Some(rf@),
                None => None,
            },
        ),
{
    if crate::text::str_eq(method, "OPTIONS") {
        return true;
    }
    match content_type {
        Some(ct) => {
            if str_contains(ct, "javascript") {
                return false;
            }
        },
        None => {},
    }
    match referer {
        Some(rf) => {
            proof {
                reveal_strlit("https://");
            }
            let chars = str_to_chars(rf);
            let prefix = str_to_chars("https://");
            if chars.len() < 8 {
                return false;
            }
            chars_match_at(&chars, &prefix, 0)
        },
        None => true,
    }
}

} // verus!
