//! Admission control at the boundary: a rolling time window combined with a
//! burst allowance, tracked per `(endpoint, client)` key.
//!
//! Each key carries two counters. The burst counter admits up to `burst`
//! requests within any one-second sub-window; the sub-window is anchored at
//! the first request it admitted and resets one second later. The window
//! counter admits up to `limit` requests within `window_ms`; it resets once
//! the window has elapsed since its start. A request is admitted only when
//! both counters admit it, and the burst counter is consulted first.
//!
//! The whole step is the pure function [`check_step`]; the executable
//! methods are proved to follow it exactly, with the clock reading supplied
//! either by the caller or by one trusted reading per check.

use vstd::prelude::*;
use vstd::pervasive::VecAdditionalExecFns;
use crate::text::str_eq;
use crate::clock::now_millis;

verus! {

/// Limits for one endpoint.
#[derive(Clone, Copy, Debug, PartialEq, Eq, Structural)]
pub struct LimitConfig {
    /// Requests admitted within one window.
    pub limit: u32,
    /// Window length in milliseconds.
    pub window_ms: u64,
    /// Requests admitted within any one-second sub-window.
    pub burst: u32,
}

/// The counters of one `(endpoint, client)` key.
#[derive(Clone, Copy, Debug, PartialEq, Eq, Structural)]
pub struct RateLimitState {
    pub count: u32,
    pub last_reset_ms: u64,
    pub burst_count: u32,
    pub last_burst_ms: u64,
}

/// Why a request was rejected; a rejection is recoverable by retrying later.
#[derive(Clone, Copy, Debug, PartialEq, Eq, Structural)]
pub enum RateLimitError {
    /// The burst allowance for the current one-second sub-window is spent.
    BurstExceeded,
    /// The window allowance is spent until the window elapses.
    WindowExceeded,
}

/// The state of a key seen for the first time at `now`.
pub open spec fn fresh_state(now: u64) -> RateLimitState {
    RateLimitState { count: 0, last_reset_ms: now, burst_count: 0, last_burst_ms: now }
}

/// The burst half of one admission check: the successor state and whether
/// the burst counter admits the request.
pub open spec fn burst_step(st: RateLimitState, cfg: LimitConfig, now: u64) -> (
    RateLimitState,
    bool,
) {
    if now > st.last_burst_ms + 1000 {
        (RateLimitState { burst_count: 1, last_burst_ms: now, ..st }, true)
    } else if st.burst_count >= cfg.burst {
        (st, false)
    } else {
        (RateLimitState { burst_count: (st.burst_count + 1) as u32, ..st }, true)
    }
}

/// The window half of one admission check.
pub open spec fn window_step(st: RateLimitState, cfg: LimitConfig, now: u64) -> (
    RateLimitState,
    bool,
) {
    if now > st.last_reset_ms + cfg.window_ms {
        (RateLimitState { count: 1, last_reset_ms: now, ..st }, true)
    } else if st.count >= cfg.limit {
        (st, false)
    } else {
        (RateLimitState { count: (st.count + 1) as u32, ..st }, true)
    }
}

/// One whole admission check: burst first, then window.
pub open spec fn check_step(st: RateLimitState, cfg: LimitConfig, now: u64) -> (
    RateLimitState,
    Result<(), RateLimitError>,
) {
    let (st1, burst_ok) = burst_step(st, cfg, now);
    if !burst_ok {
        (st1, Err(RateLimitError::BurstExceeded))
    } else {
        let (st2, window_ok) = window_step(st1, cfg, now);
        if !window_ok {
            (st2, Err(RateLimitError::WindowExceeded))
        } else {
            (st2, Ok(()))
        }
    }
}

/// One tracked key with its counters.
#[derive(Clone, Debug)]
pub struct RateEntry {
    pub endpoint: String,
    pub ip: String,
    pub state: RateLimitState,
}

/// The limit configuration registered first for the given endpoint name.
pub open spec fn find_limit(v: Seq<(String, LimitConfig)>, ep: Seq<char>) -> Option<LimitConfig>
    decreases v.len(),
{
    if v.len() == 0 {
        None
    } else if v[0].0@ == ep {
        Some(v[0].1)
    } else {
        find_limit(v.drop_first(), ep)
    }
}

/// Whether an entry tracks the given key.
pub open spec fn entry_matches(e: RateEntry, ep: Seq<char>, ip: Seq<char>) -> bool {
    e.endpoint@ == ep && e.ip@ == ip
}

/// The index of the entry for the given key, scanning from the front.
pub open spec fn find_entry_idx(s: Seq<RateEntry>, ep: Seq<char>, ip: Seq<char>) -> Option<int>
    decreases s.len(),
{
    if s.len() == 0 {
        None
    } else if entry_matches(s[0], ep, ip) {
        Some(0int)
    } else {
        match find_entry_idx(s.drop_first(), ep, ip) {
            Some(i) => Some(i + 1),
            None => None,
        }
    }
}

/// What `find_entry_idx` finds: the first matching index, if any.
proof fn lemma_find_entry_idx(s: Seq<RateEntry>, ep: Seq<char>, ip: Seq<char>)
    ensures
        match find_entry_idx(s, ep, ip) {
            Some(i) => 0 <= i < s.len() && entry_matches(s[i], ep, ip) && forall|j: int|
                0 <= j < i ==> !entry_matches(#[trigger] s[j], ep, ip),
            None => forall|j: int| 0 <= j < s.len() ==> !entry_matches(#[trigger] s[j], ep, ip),
        },
    decreases s.len(),
{
    if s.len() > 0 {
        lemma_find_entry_idx(s.drop_first(), ep, ip);
        assert(forall|j: int| 1 <= j < s.len() ==> #[trigger] s[j] == s.drop_first()[j - 1]);
    }
}

/// The rate limiter: per-endpoint limits and per-key counters.
pub struct RateLimiter {
    /// Endpoint name to limits; the `query` entry doubles as the default.
    pub limits: Vec<(String, LimitConfig)>,
    /// Counters per key, created lazily on first use.
    pub state: Vec<RateEntry>,
}

impl RateLimiter {
    /// A default configuration must be registered under `query`.
    pub open spec fn wf(self) -> bool {
        find_limit(self.limits@, "query"@) is Some
    }

    /// The limits consulted for an endpoint: its own entry, or the `query`
    /// entry for endpoints without one.
    pub open spec fn config_for(self, ep: Seq<char>) -> LimitConfig {
        match find_limit(self.limits@, ep) {
            Some(c) => c,
            None => match find_limit(self.limits@, "query"@) {
                Some(c) => c,
                None => LimitConfig { limit: 0, window_ms: 0, burst: 0 },
            },
        }
    }

    /// How one admission check at time `now` relates the limiter before and
    /// after, and the verdict it returns: the key's counters take one
    /// [`check_step`], a fresh key starting from [`fresh_state`]; all other
    /// keys and the limits are unchanged.
    pub open spec fn check_transition(
        pre: RateLimiter,
        post: RateLimiter,
        ep: Seq<char>,
        ip: Seq<char>,
        now: u64,
        r: Result<(), RateLimitError>,
    ) -> bool {
        let cfg = pre.config_for(ep);
        &&& post.limits == pre.limits
        &&& match find_entry_idx(pre.state@, ep, ip) {
            Some(i) => {
                &&& r == check_step(pre.state@[i].state, cfg, now).1
                &&& post.state@.len() == pre.state@.len()
                &&& forall|j: int|
                    0 <= j < pre.state@.len() && j != i ==> post.state@[j] == pre.state@[j]
                &&& post.state@[i].endpoint@ == ep
                &&& post.state@[i].ip@ == ip
                &&& post.state@[i].state == check_step(pre.state@[i].state, cfg, now).0
            },
            None => {
                &&& r == check_step(fresh_state(now), cfg, now).1
                &&& post.state@.len() == pre.state@.len() + 1
                &&& post.state@.take(pre.state@.len() as int) == pre.state@
                &&& post.state@.last().endpoint@ == ep
                &&& post.state@.last().ip@ == ip
                &&& post.state@.last().state == check_step(fresh_state(now), cfg, now).0
            },
        }
    }

    /// A limiter with the built-in limits: 100 per minute with a burst of 5
    /// for `query`, 50 per minute with a burst of 3 for `subscription`, and
    /// the `query` limits as the default for other endpoints.
    pub fn new() -> (r: RateLimiter)
        ensures
            r.wf(),
            r.state@.len() == 0,
            r.limits@.len() == 2,
            r.limits@[0].0@ == "query"@,
            r.limits@[0].1 == (LimitConfig { limit: 100, window_ms: 60000, burst: 5 }),
            r.limits@[1].0@ == "subscription"@,
            r.limits@[1].1 == (LimitConfig { limit: 50, window_ms: 60000, burst: 3 }),
    {
        let mut limits: Vec<(String, LimitConfig)> = Vec::new();
        limits.push(
            (String::from_str("query"), LimitConfig { limit: 100, window_ms: 60000, burst: 5 }),
        );
        limits.push(
            (
                String::from_str("subscription"),
                LimitConfig { limit: 50, window_ms: 60000, burst: 3 },
            ),
        );
        let r = RateLimiter { limits, state: Vec::new() };
        proof {
            assert(r.limits@[0].0@ == "query"@);
            assert(find_limit(r.limits@, "query"@) is Some);
        }
        r
    }

    /// The registered limits for an endpoint, with the `query` limits as the
    /// fallback.
    fn lookup_config(&self, endpoint: &str) -> (r: LimitConfig)
        requires
            self.wf(),
        ensures
            r == self.config_for(endpoint@),
    {
        proof {
            assert(self.limits@.skip(0) =~= self.limits@);
        }
        let mut i: usize = 0;
        while i < self.limits.len()
            invariant
                i <= self.limits@.len(),
                find_limit(self.limits@, endpoint@) == find_limit(
                    self.limits@.skip(i as int),
                    endpoint@,
                ),
            decreases self.limits@.len() - i,
        {
            if str_eq(self.limits[i].0.as_str(), endpoint) {
                proof {
                    assert(self.limits@.skip(i as int)[0] == self.limits@[i as int]);
                }
                return self.limits[i].1;
            }
            proof {
                assert(self.limits@.skip(i as int).drop_first() =~= self.limits@.skip(i + 1));
                assert(self.limits@.skip(i as int)[0] == self.limits@[i as int]);
            }
            i = i + 1;
        }
        proof {
            assert(self.limits@.skip(self.limits@.len() as int) =~= Seq::<
                (String, LimitConfig),
            >::empty());
            assert(find_limit(self.limits@, endpoint@) is None);
        }
        proof {
            assert(self.limits@.skip(0) =~= self.limits@);
        }
        let mut j: usize = 0;
        while j < self.limits.len()
            invariant
                j <= self.limits@.len(),
                self.wf(),
                find_limit(self.limits@, endpoint@) is None,
                find_limit(self.limits@, "query"@) == find_limit(
                    self.limits@.skip(j as int),
                    "query"@,
                ),
            decreases self.limits@.len() - j,
        {
            if str_eq(self.limits[j].0.as_str(), "query") {
                proof {
                    assert(self.limits@.skip(j as int)[0] == self.limits@[j as int]);
                }
                return self.limits[j].1;
            }
            proof {
                assert(self.limits@.skip(j as int).drop_first() =~= self.limits@.skip(j + 1));
                assert(self.limits@.skip(j as int)[0] == self.limits@[j as int]);
            }
            j = j + 1;
        }
        proof {
            assert(self.limits@.skip(self.limits@.len() as int) =~= Seq::<
                (String, LimitConfig),
            >::empty());
            assert(false);
        }
        LimitConfig { limit: 0, window_ms: 0, burst: 0 }
    }

    /// The index of the entry for this key, if the key has been seen.
    fn lookup_entry(&self, endpoint: &str, ip: &str) -> (r: Option<usize>)
        ensures
            match r {
                Some(i) => find_entry_idx(self.state@, endpoint@, ip@) == Some(i as int),
                None => find_entry_idx(self.state@, endpoint@, ip@) is None,
            },
    {
        proof {
            lemma_find_entry_idx(self.state@, endpoint@, ip@);
        }
        let mut i: usize = 0;
        while i < self.state.len()
            invariant
                i <= self.state@.len(),
                forall|j: int| 0 <= j < i ==> !entry_matches(#[trigger] self.state@[j], endpoint@, ip@),
            decreases self.state@.len() - i,
        {
            if str_eq(self.state[i].endpoint.as_str(), endpoint) && str_eq(
                self.state[i].ip.as_str(),
                ip,
            ) {
                proof {
                    lemma_find_entry_idx(self.state@, endpoint@, ip@);
                }
                return Some(i);
            }
            i = i + 1;
        }
        proof {
            lemma_find_entry_idx(self.state@, endpoint@, ip@);
        }
        None
    }

    /// One admission check for the key `(endpoint, ip)` at the given clock
    /// reading, exactly as [`RateLimiter::check_transition`] states.
    pub fn check_at(&mut self, endpoint: &str, ip: &str, now_ms: u64) -> (r: Result<
        (),
        RateLimitError,
    >)
        requires
            old(self).wf(),
        ensures
            final (self).wf(),
            RateLimiter::check_transition(*old(self), *final (self), endpoint@, ip@, now_ms, r),
    {
        let cfg = self.lookup_config(endpoint);
        let ghost pre = *self;
        proof {
            lemma_find_entry_idx(self.state@, endpoint@, ip@);
        }
        match self.lookup_entry(endpoint, ip) {
            Some(i) => {
                let st = self.state[i].state;
                let (st2, verdict) = check_step_x(st, cfg, now_ms);
                let updated = RateEntry {
                    endpoint: self.state[i].endpoint.clone(),
                    ip: self.state[i].ip.clone(),
                    state: st2,
                };
                self.state.set(i, updated);
                proof {
                    lemma_find_entry_idx(pre.state@, endpoint@, ip@);
                }
                verdict
            },
            None => {
                let fresh = RateLimitState {
                    count: 0,
                    last_reset_ms: now_ms,
                    burst_count: 0,
                    last_burst_ms: now_ms,
                };
                let (st2, verdict) = check_step_x(fresh, cfg, now_ms);
                let entry = RateEntry {
                    endpoint: String::from_str(endpoint),
                    ip: String::from_str(ip),
                    state: st2,
                };
                self.state.push(entry);
                proof {
                    assert(self.state@.take(pre.state@.len() as int) =~= pre.state@);
                }
                verdict
            },
        }
    }

    /// One admission check at the current clock reading. The clock is read
    /// once, and the check relates the limiter before and after exactly as
    /// [`RateLimiter::check_transition`] states for that reading.
    pub fn check_limit(&mut self, endpoint: &str, ip: &str) -> (r: Result<(), RateLimitError>)
        requires
            old(self).wf(),
        ensures
            final (self).wf(),
            exists|now: u64|
                RateLimiter::check_transition(*old(self), *final (self), endpoint@, ip@, now, r),
    {
        let now = now_millis();
        let r = self.check_at(endpoint, ip, now);
        proof {
            assert(RateLimiter::check_transition(
                *old(self),
                *self,
                endpoint@,
                ip@,
                now,
                r,
            ));
        }
        r
    }
}

/// The state of a key whose first request arrived at `t0` and that has since
/// admitted `k` requests, all within one second of `t0`.
pub open spec fn saturated_state(k: u32, t0: u64) -> RateLimitState {
    RateLimitState { count: k, last_reset_ms: t0, burst_count: k, last_burst_ms: t0 }
}

/// The state after one admission check for each time, in order.
pub open spec fn run_checks(st: RateLimitState, cfg: LimitConfig, times: Seq<u64>) -> RateLimitState
    decreases times.len(),
{
    if times.len() == 0 {
        st
    } else {
        run_checks(check_step(st, cfg, times[0]).0, cfg, times.drop_first())
    }
}

/// Whether every check in the run is admitted.
pub open spec fn all_admitted(st: RateLimitState, cfg: LimitConfig, times: Seq<u64>) -> bool
    decreases times.len(),
{
    if times.len() == 0 {
        true
    } else {
        check_step(st, cfg, times[0]).1 is Ok && all_admitted(
            check_step(st, cfg, times[0]).0,
            cfg,
            times.drop_first(),
        )
    }
}

/// Whether the burst counter admits every check in the run.
pub open spec fn burst_admits_all(st: RateLimitState, cfg: LimitConfig, times: Seq<u64>) -> bool
    decreases times.len(),
{
    if times.len() == 0 {
        true
    } else {
        burst_step(st, cfg, times[0]).1 && burst_admits_all(
            check_step(st, cfg, times[0]).0,
            cfg,
            times.drop_first(),
        )
    }
}

proof fn lemma_burst_run(cfg: LimitConfig, t0: u64, k: u32, times: Seq<u64>)
    requires
        cfg.burst <= cfg.limit,
        cfg.window_ms >= 1000,
        1 <= k,
        k + times.len() <= cfg.burst,
        forall|i: int| 0 <= i < times.len() ==> #[trigger] times[i] <= t0 + 1000,
    ensures
        all_admitted(saturated_state(k, t0), cfg, times),
        run_checks(saturated_state(k, t0), cfg, times) == saturated_state(
            (k + times.len()) as u32,
            t0,
        ),
    decreases times.len(),
{
    if times.len() > 0 {
        let st = saturated_state(k, t0);
        let t = times[0];
        assert(check_step(st, cfg, t).0 == saturated_state((k + 1) as u32, t0));
        assert(check_step(st, cfg, t).1 is Ok);
        assert(forall|i: int|
            0 <= i < times.drop_first().len() ==> #[trigger] times.drop_first()[i] <= t0 + 1000);
        lemma_burst_run(cfg, t0, (k + 1) as u32, times.drop_first());
    }
}

/// Burst allowance: for a fresh key, `burst` requests all arriving within
/// one second of the first are all admitted, and one more request within
/// that same second is rejected with `BurstExceeded`.
pub proof fn lemma_burst_allowance(cfg: LimitConfig, times: Seq<u64>, t_extra: u64)
    requires
        1 <= cfg.burst <= cfg.limit,
        cfg.window_ms >= 1000,
        times.len() == cfg.burst,
        forall|i: int| 0 <= i < times.len() ==> #[trigger] times[i] <= times[0] + 1000,
        t_extra <= times[0] + 1000,
    ensures
        all_admitted(fresh_state(times[0]), cfg, times),
        check_step(run_checks(fresh_state(times[0]), cfg, times), cfg, t_extra).1 == Err::<
            (),
            RateLimitError,
        >(RateLimitError::BurstExceeded),
{
    let t0 = times[0];
    let st0 = fresh_state(t0);
    assert(check_step(st0, cfg, t0).0 == saturated_state(1, t0));
    assert(check_step(st0, cfg, t0).1 is Ok);
    assert(forall|i: int|
        0 <= i < times.drop_first().len() ==> #[trigger] times.drop_first()[i] <= t0 + 1000);
    lemma_burst_run(cfg, t0, 1, times.drop_first());
    assert(run_checks(st0, cfg, times) == saturated_state(cfg.burst, t0));
}

proof fn lemma_window_run(cfg: LimitConfig, t0: u64, st: RateLimitState, times: Seq<u64>)
    requires
        st.count + times.len() <= cfg.limit,
        st.last_reset_ms == t0,
        burst_admits_all(st, cfg, times),
        forall|i: int| 0 <= i < times.len() ==> #[trigger] times[i] <= t0 + cfg.window_ms,
    ensures
        all_admitted(st, cfg, times),
        run_checks(st, cfg, times).count == st.count + times.len(),
        run_checks(st, cfg, times).last_reset_ms == t0,
    decreases times.len(),
{
    if times.len() > 0 {
        let t = times[0];
        let st2 = check_step(st, cfg, t).0;
        assert(st2.count == st.count + 1 && st2.last_reset_ms == t0);
        assert(check_step(st, cfg, t).1 is Ok);
        assert(forall|i: int|
            0 <= i < times.drop_first().len() ==> #[trigger] times.drop_first()[i] <= t0
                + cfg.window_ms);
        lemma_window_run(cfg, t0, st2, times.drop_first());
    }
}

/// Window allowance: for a fresh key, `limit` requests within the window are
/// all admitted, provided the burst counter admits each of them; one more
/// request before the window elapses, again past the burst counter, is
/// rejected with `WindowExceeded`.
pub proof fn lemma_window_allowance(cfg: LimitConfig, times: Seq<u64>, t_extra: u64)
    requires
        1 <= cfg.limit,
        times.len() == cfg.limit,
        burst_admits_all(fresh_state(times[0]), cfg, times),
        forall|i: int| 0 <= i < times.len() ==> #[trigger] times[i] <= times[0] + cfg.window_ms,
        t_extra <= times[0] + cfg.window_ms,
        burst_step(run_checks(fresh_state(times[0]), cfg, times), cfg, t_extra).1,
    ensures
        all_admitted(fresh_state(times[0]), cfg, times),
        check_step(run_checks(fresh_state(times[0]), cfg, times), cfg, t_extra).1 == Err::<
            (),
            RateLimitError,
        >(RateLimitError::WindowExceeded),
{
    let t0 = times[0];
    let st0 = fresh_state(t0);
    lemma_window_run(cfg, t0, st0, times);
}

/// After the window elapses, admission resumes: a request after
/// `window_ms` past the window's start, admitted by the burst counter, is
/// admitted outright, and it counts as the first request of the fresh
/// window.
pub proof fn lemma_window_resumes(cfg: LimitConfig, st: RateLimitState, t: u64)
    requires
        1 <= cfg.limit,
        t > st.last_reset_ms + cfg.window_ms,
        burst_step(st, cfg, t).1,
    ensures
        check_step(st, cfg, t).1 is Ok,
        check_step(st, cfg, t).0.count == 1,
        check_step(st, cfg, t).0.last_reset_ms == t,
{
}

/// Rate limiting configuration for the server surface.
#[derive(Clone, Copy, Debug, PartialEq, Eq, Structural)]
pub struct RateLimitConfig {
    /// Window length in milliseconds.
    pub window_ms: u64,
    /// Requests admitted within one window.
    pub limit: u32,
    /// Requests admitted within any one-second sub-window.
    pub burst: u32,
    /// Whether keys are tracked per client address.
    pub ip_tracking: bool,
    /// Whether rate-limit headers are attached to responses.
    pub headers: bool,
}

impl Default for RateLimitConfig {
    /// 100 requests per minute with a burst of 5, per-address tracking, and
    /// response headers on.
    fn default() -> (r: Self)
        ensures
            r == (RateLimitConfig {
                window_ms: 60000,
                limit: 100,
                burst: 5,
                ip_tracking: true,
                headers: true,
            }),
    {
        RateLimitConfig { window_ms: 60000, limit: 100, burst: 5, ip_tracking: true, headers: true }
    }
}

/// Transport-layer middleware shell around the limiter configuration; the
/// transport adapter consults [`RateLimiter::check_limit`] per request.
#[derive(Clone, Copy, Debug)]
pub struct RateLimitMiddleware {
    pub config: RateLimitConfig,
}

impl RateLimitMiddleware {
    /// A middleware shell for the given configuration.
    pub fn new(config: RateLimitConfig) -> (r: Self)
        ensures
            r.config == config,
    {
        RateLimitMiddleware { config }
    }
}

/// The middleware shell bound to an inner service.
pub struct RateLimitMiddlewareService<S> {
    pub service: S,
    pub config: RateLimitConfig,
}

/// Request-guard marker for handlers that passed admission control.
#[derive(Clone, Copy, Debug)]
pub struct RateLimitGuard;

/// One whole admission check, computed as [`check_step`] says.
fn check_step_x(st: RateLimitState, cfg: LimitConfig, now: u64) -> (r: (
    RateLimitState,
    Result<(), RateLimitError>,
))
    ensures
        r == check_step(st, cfg, now),
{
    let mut next = st;
    if now > 1000 && now - 1000 > st.last_burst_ms {
        next.burst_count = 1;
        next.last_burst_ms = now;
    } else if st.burst_count >= cfg.burst {
        return (next, Err(RateLimitError::BurstExceeded));
    } else {
        next.burst_count = next.burst_count + 1;
    }
    if now > st.last_reset_ms && now - st.last_reset_ms > cfg.window_ms {
        next.count = 1;
        next.last_reset_ms = now;
    } else if st.count >= cfg.limit {
        return (next, Err(RateLimitError::WindowExceeded));
    } else {
        next.count = next.count + 1;
    }
    (next, Ok(()))
}

} // verus!
