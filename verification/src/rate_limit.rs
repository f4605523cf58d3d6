//! Per-credential rate-limit state and the registry that tracks it.
//!
//! Headers from the server are authoritative when present; an exponential
//! backoff with jitter is the fallback heuristic when they are not. All
//! queries take the current time in milliseconds, and backoff queries take
//! the jitter factor in permille, as explicit arguments.

use vstd::arithmetic::div_mod::{lemma_div_is_ordered, lemma_div_multiples_vanish};
use vstd::arithmetic::power2::{lemma2_to64, lemma_pow2_pos, lemma_pow2_strictly_increases, pow2};
use vstd::prelude::*;

verus! {

/// Rate-limit knowledge for one credential.
///
/// All timestamps are milliseconds on the same clock that callers pass to
/// the query methods; the library never reads the clock inside its logic.
#[derive(Debug)]
pub struct RateLimitState {
    /// Number of remaining requests in the current window, if the server said.
    pub remaining: Option<u32>,
    /// When the window resets (absolute milliseconds), if known.
    pub reset_at: Option<u64>,
    /// Total request budget of the window, if the server said.
    pub limit: Option<u32>,
    /// When this state last changed because of a rate-limit observation.
    pub last_updated: u64,
    /// Timestamps of recent successful requests, oldest first, at most 20.
    pub recent_requests: Vec<u64>,
    /// How many rate-limit responses arrived since the last success.
    pub consecutive_rate_limits: u32,
    /// Whether the credential is currently considered limited.
    pub is_rate_limited: bool,
}

/// Most recent successes a state retains; older entries are evicted.
pub const RECENT_REQUEST_CAP: usize = 20;

/// First backoff step, one second.
pub const BASE_BACKOFF_MS: u64 = 1000;

/// Backoff ceiling, five minutes.
pub const MAX_BACKOFF_MS: u64 = 300000;

/// Largest exponent the backoff doubling may reach.
pub const MAX_BACKOFF_EXPONENT: u32 = 10;

/// Smallest accepted jitter factor, permille (a 25% shortening).
pub const JITTER_MIN_PERMILLE: u64 = 750;

/// Largest accepted jitter factor, permille (a 25% lengthening).
pub const JITTER_MAX_PERMILLE: u64 = 1250;

/// Milliseconds elapsed from `last` to `now`, zero if the clock went back.
pub open spec fn spec_elapsed_ms(last: u64, now: u64) -> int {
    if now >= last {
        now - last
    } else {
        0
    }
}

/// Addition on u64 that stops at the largest value instead of wrapping.
pub open spec fn spec_saturating_add(a: u64, b: u64) -> u64 {
    if a + b <= u64::MAX {
        (a + b) as u64
    } else {
        u64::MAX
    }
}

/// Multiplication on u64 that stops at the largest value instead of wrapping.
pub open spec fn spec_saturating_mul(a: u64, b: u64) -> u64 {
    if a * b <= u64::MAX {
        (a * b) as u64
    } else {
        u64::MAX
    }
}

/// Backoff before jitter: `BASE_BACKOFF_MS` doubled once per consecutive
/// rate limit, the exponent capped at `MAX_BACKOFF_EXPONENT`, the product
/// capped at `MAX_BACKOFF_MS`.
pub open spec fn spec_base_backoff_ms(n: u32) -> int {
    let e = if n <= MAX_BACKOFF_EXPONENT {
        n as nat
    } else {
        MAX_BACKOFF_EXPONENT as nat
    };
    let raw = BASE_BACKOFF_MS * pow2(e);
    if raw <= MAX_BACKOFF_MS {
        raw as int
    } else {
        MAX_BACKOFF_MS as int
    }
}

/// The base backoff scaled by a jitter factor given in permille.
pub open spec fn spec_jittered_backoff_ms(n: u32, jitter_permille: u64) -> int {
    spec_base_backoff_ms(n) * jitter_permille / 1000
}

/// Whether the backoff heuristic admits a request at `now_ms`: either no
/// consecutive rate limits were seen, or the jittered backoff has elapsed
/// since the state last changed.
pub open spec fn spec_backoff_allows(s: RateLimitState, now_ms: u64, jitter_permille: u64) -> bool {
    s.consecutive_rate_limits == 0 || spec_elapsed_ms(s.last_updated, now_ms)
        >= spec_jittered_backoff_ms(s.consecutive_rate_limits, jitter_permille)
}

/// Admission rule for one credential: allowed when not limited; else when
/// the known reset time has passed; else, when the remaining budget is
/// known, iff it is positive; else whatever the backoff heuristic says.
pub open spec fn spec_should_allow(s: RateLimitState, now_ms: u64, jitter_permille: u64) -> bool {
    if !s.is_rate_limited {
        true
    } else if s.reset_at matches Some(reset) && now_ms > reset {
        true
    } else {
        match s.remaining {
            Some(rem) => rem > 0,
            None => spec_backoff_allows(s, now_ms, jitter_permille),
        }
    }
}

/// Seconds until the known reset time, clamped to zero once it has passed;
/// nothing when no reset time is known.
pub open spec fn spec_time_until_reset(s: RateLimitState, now_ms: u64) -> Option<u64> {
    match s.reset_at {
        Some(reset) => Some(
            if now_ms >= reset {
                0u64
            } else {
                ((reset - now_ms) / 1000) as u64
            },
        ),
        None => None,
    }
}

/// Recommended wait in milliseconds before the next attempt: zero when not
/// limited; the distance to a known future reset; else the jittered backoff.
pub open spec fn spec_recommended_delay_ms(
    s: RateLimitState,
    now_ms: u64,
    jitter_permille: u64,
) -> int {
    if !s.is_rate_limited {
        0
    } else {
        match s.reset_at {
            Some(reset) => if reset > now_ms {
                reset - now_ms
            } else {
                spec_jittered_backoff_ms(s.consecutive_rate_limits, jitter_permille)
            },
            None => spec_jittered_backoff_ms(s.consecutive_rate_limits, jitter_permille),
        }
    }
}

/// The success history after recording one more success: the timestamp is
/// appended and, past the cap, the oldest entry is evicted.
pub open spec fn spec_record_recent(history: Seq<u64>, now_ms: u64) -> Seq<u64> {
    let pushed = history.push(now_ms);
    if pushed.len() > RECENT_REQUEST_CAP {
        pushed.subrange(1, pushed.len() as int)
    } else {
        pushed
    }
}

/// The state after a rate-limit observation at `now_ms`: the counter grows,
/// the limited flag is set, the header-derived fields are overwritten, and
/// the reset time is recomputed only when the response carried one.
pub open spec fn spec_after_rate_limit(
    s: RateLimitState,
    now_ms: u64,
    reset_seconds: Option<u64>,
    remaining: Option<u32>,
    limit: Option<u32>,
) -> RateLimitState {
    RateLimitState {
        remaining,
        reset_at: match reset_seconds {
            Some(secs) => Some(
                spec_saturating_add(now_ms, spec_saturating_mul(secs, MILLIS_PER_SECOND)),
            ),
            None => s.reset_at,
        },
        limit,
        last_updated: now_ms,
        recent_requests: s.recent_requests,
        consecutive_rate_limits: if s.consecutive_rate_limits < u32::MAX {
            (s.consecutive_rate_limits + 1) as u32
        } else {
            u32::MAX
        },
        is_rate_limited: true,
    }
}

/// Milliseconds in one second.
pub const MILLIS_PER_SECOND: u64 = 1000;

impl Clone for RateLimitState {
    /// A clone carries exactly the same knowledge as the original.
    fn clone(&self) -> (s: Self)
        ensures
            s.remaining == self.remaining,
            s.reset_at == self.reset_at,
            s.limit == self.limit,
            s.last_updated == self.last_updated,
            s.recent_requests@ == self.recent_requests@,
            s.consecutive_rate_limits == self.consecutive_rate_limits,
            s.is_rate_limited == self.is_rate_limited,
    {
        let recent = clone_u64_vec(&self.recent_requests);
        proof {
            assert(recent@ =~= self.recent_requests@);
        }
        RateLimitState {
            remaining: self.remaining,
            reset_at: self.reset_at,
            limit: self.limit,
            last_updated: self.last_updated,
            recent_requests: recent,
            consecutive_rate_limits: self.consecutive_rate_limits,
            is_rate_limited: self.is_rate_limited,
        }
    }
}

/// A copy of a vector of timestamps, element for element.
fn clone_u64_vec(v: &Vec<u64>) -> (r: Vec<u64>)
    ensures
        r@ =~= v@,
{
    let mut r: Vec<u64> = Vec::new();
    let mut i: usize = 0;
    while i < v.len()
        invariant
            i <= v.len(),
            r@ =~= v@.subrange(0, i as int),
        decreases v.len() - i,
    {
        r.push(v[i]);
        proof {
            assert(r@ =~= v@.subrange(0, i + 1 as int));
        }
        i = i + 1;
    }
    proof {
        assert(v@.subrange(0, v@.len() as int) =~= v@);
    }
    r
}

impl RateLimitState {
    /// A fresh state: nothing known, not limited.
    pub fn new(now_ms: u64) -> (s: RateLimitState)
        ensures
            s.remaining is None,
            s.reset_at is None,
            s.limit is None,
            s.last_updated == now_ms,
            s.recent_requests@ == Seq::<u64>::empty(),
            s.consecutive_rate_limits == 0,
            !s.is_rate_limited,
    {
        RateLimitState {
            remaining: None,
            reset_at: None,
            limit: None,
            last_updated: now_ms,
            recent_requests: Vec::new(),
            consecutive_rate_limits: 0,
            is_rate_limited: false,
        }
    }

    /// Whether a new request may be attempted at `now_ms`.
    pub fn should_allow_request(&self, now_ms: u64, jitter_permille: u64) -> (allow: bool)
        requires
            jitter_permille <= JITTER_MAX_PERMILLE,
        ensures
            allow == spec_should_allow(*self, now_ms, jitter_permille),
    {
        if !self.is_rate_limited {
            return true;
        }
        if let Some(reset) = self.reset_at {
            if now_ms > reset {
                return true;
            }
        }
        if let Some(rem) = self.remaining {
            return rem > 0;
        }
        self.backoff_allows_request(now_ms, jitter_permille)
    }

    /// The backoff fallback: admit once the jittered delay has elapsed.
    pub fn backoff_allows_request(&self, now_ms: u64, jitter_permille: u64) -> (allow: bool)
        requires
            jitter_permille <= JITTER_MAX_PERMILLE,
        ensures
            allow == spec_backoff_allows(*self, now_ms, jitter_permille),
    {
        if self.consecutive_rate_limits == 0 {
            return true;
        }
        let delay = jittered_backoff_ms(self.consecutive_rate_limits, jitter_permille);
        let elapsed = elapsed_ms(self.last_updated, now_ms);
        elapsed >= delay
    }

    /// Record a successful request at `now_ms`: the limited flag and the
    /// consecutive counter clear, and the success history grows (capped).
    pub fn record_success(&mut self, now_ms: u64)
        ensures
            final(self).consecutive_rate_limits == 0,
            !final(self).is_rate_limited,
            final(self).recent_requests@ == spec_record_recent(
                old(self).recent_requests@,
                now_ms,
            ),
            final(self).remaining == old(self).remaining,
            final(self).reset_at == old(self).reset_at,
            final(self).limit == old(self).limit,
            final(self).last_updated == old(self).last_updated,
    {
        self.consecutive_rate_limits = 0;
        self.is_rate_limited = false;
        self.recent_requests.push(now_ms);
        if self.recent_requests.len() > RECENT_REQUEST_CAP {
            self.recent_requests.remove(0);
            proof {
                assert(self.recent_requests@ =~= spec_record_recent(
                    old(self).recent_requests@,
                    now_ms,
                ));
            }
        }
    }

    /// Record a rate-limit response at `now_ms`, with whatever the reset,
    /// remaining and limit headers said (absent headers overwrite the known
    /// remaining and limit with "unknown", but leave a known reset alone).
    pub fn record_rate_limit(
        &mut self,
        now_ms: u64,
        reset_seconds: Option<u64>,
        remaining: Option<u32>,
        limit: Option<u32>,
    )
        ensures
            *final(self) == spec_after_rate_limit(
                *old(self),
                now_ms,
                reset_seconds,
                remaining,
                limit,
            ),
    {
        self.consecutive_rate_limits = if self.consecutive_rate_limits < u32::MAX {
            self.consecutive_rate_limits + 1
        } else {
            u32::MAX
        };
        self.is_rate_limited = true;
        self.last_updated = now_ms;
        self.remaining = remaining;
        self.limit = limit;
        if let Some(secs) = reset_seconds {
            let offset = match secs.checked_mul(MILLIS_PER_SECOND) {
                Some(v) => v,
                None => u64::MAX,
            };
            self.reset_at = Some(now_ms.saturating_add(offset));
        }
    }

    /// Seconds until the known reset time, if one is known.
    pub fn time_until_reset(&self, now_ms: u64) -> (r: Option<u64>)
        ensures
            r == spec_time_until_reset(*self, now_ms),
    {
        match self.reset_at {
            Some(reset) => {
                if now_ms >= reset {
                    Some(0)
                } else {
                    Some((reset - now_ms) / 1000)
                }
            },
            None => None,
        }
    }

    /// Recommended wait in milliseconds before the next attempt.
    pub fn get_recommended_delay(&self, now_ms: u64, jitter_permille: u64) -> (delay_ms: u64)
        requires
            jitter_permille <= JITTER_MAX_PERMILLE,
        ensures
            delay_ms == spec_recommended_delay_ms(*self, now_ms, jitter_permille),
    {
        if !self.is_rate_limited {
            return 0;
        }
        if let Some(reset) = self.reset_at {
            if reset > now_ms {
                return reset - now_ms;
            }
        }
        jittered_backoff_ms(self.consecutive_rate_limits, jitter_permille)
    }
}

/// Milliseconds elapsed from `last` to `now`, zero if the clock went back.
pub fn elapsed_ms(last: u64, now: u64) -> (e: u64)
    ensures
        e == spec_elapsed_ms(last, now),
{
    if now >= last {
        now - last
    } else {
        0
    }
}

/// Backoff before jitter for `n` consecutive rate limits.
pub fn base_backoff_ms(n: u32) -> (b: u64)
    ensures
        b == spec_base_backoff_ms(n),
        b <= MAX_BACKOFF_MS,
{
    proof {
        lemma2_to64();
    }
    if n == 0 {
        1000
    } else if n == 1 {
        2000
    } else if n == 2 {
        4000
    } else if n == 3 {
        8000
    } else if n == 4 {
        16000
    } else if n == 5 {
        32000
    } else if n == 6 {
        64000
    } else if n == 7 {
        128000
    } else if n == 8 {
        256000
    } else {
        300000
    }
}

/// The jittered backoff in milliseconds. Any jitter factor is accepted; the
/// factors the library draws lie between `JITTER_MIN_PERMILLE` and
/// `JITTER_MAX_PERMILLE`.
pub fn jittered_backoff_ms(n: u32, jitter_permille: u64) -> (b: u64)
    requires
        jitter_permille <= JITTER_MAX_PERMILLE,
    ensures
        b == spec_jittered_backoff_ms(n, jitter_permille),
{
    let base = base_backoff_ms(n);
    proof {
        assert(base * jitter_permille <= MAX_BACKOFF_MS * JITTER_MAX_PERMILLE) by (nonlinear_arith)
            requires
                base <= MAX_BACKOFF_MS,
                jitter_permille <= JITTER_MAX_PERMILLE,
                0 <= base,
                0 <= jitter_permille,
        ;
    }
    (base * jitter_permille) / 1000
}

/// The backoff is non-decreasing in the number of consecutive rate limits,
/// for any fixed jitter factor, up to the cap.
pub proof fn lemma_backoff_non_decreasing(n1: u32, n2: u32, jitter_permille: u64)
    requires
        n1 <= n2,
    ensures
        spec_jittered_backoff_ms(n1, jitter_permille) <= spec_jittered_backoff_ms(
            n2,
            jitter_permille,
        ),
{
    let e1 = if n1 <= MAX_BACKOFF_EXPONENT {
        n1 as nat
    } else {
        MAX_BACKOFF_EXPONENT as nat
    };
    let e2 = if n2 <= MAX_BACKOFF_EXPONENT {
        n2 as nat
    } else {
        MAX_BACKOFF_EXPONENT as nat
    };
    if e1 < e2 {
        lemma_pow2_strictly_increases(e1, e2);
    }
    assert(BASE_BACKOFF_MS * pow2(e1) <= BASE_BACKOFF_MS * pow2(e2)) by (nonlinear_arith)
        requires
            pow2(e1) <= pow2(e2),
    ;
    let b1 = spec_base_backoff_ms(n1);
    let b2 = spec_base_backoff_ms(n2);
    assert(b1 <= b2);
    assert(b1 * jitter_permille <= b2 * jitter_permille) by (nonlinear_arith)
        requires
            0 <= b1 <= b2,
            0 <= jitter_permille,
    ;
    lemma_div_is_ordered(b1 * jitter_permille, b2 * jitter_permille, 1000);
}

/// The base backoff is always a whole number of seconds: a multiple of
/// `BASE_BACKOFF_MS`, between one step and the cap.
proof fn lemma_base_backoff_shape(n: u32) -> (k: int)
    ensures
        spec_base_backoff_ms(n) == 1000 * k,
        1 <= k <= 300,
{
    lemma2_to64();
    let e = if n <= MAX_BACKOFF_EXPONENT {
        n as nat
    } else {
        MAX_BACKOFF_EXPONENT as nat
    };
    lemma_pow2_pos(e);
    if e < 10 {
        lemma_pow2_strictly_increases(e, 10);
    }
    if BASE_BACKOFF_MS * pow2(e) <= MAX_BACKOFF_MS {
        pow2(e) as int
    } else {
        300
    }
}

/// Jitter shifts the backoff by at most a quarter in either direction:
/// for any jitter factor in the accepted band, the jittered backoff lies
/// between three quarters and five quarters of the base backoff.
pub proof fn lemma_backoff_jitter_bounds(n: u32, jitter_permille: u64)
    requires
        JITTER_MIN_PERMILLE <= jitter_permille <= JITTER_MAX_PERMILLE,
    ensures
        BASE_BACKOFF_MS <= spec_base_backoff_ms(n) <= MAX_BACKOFF_MS,
        4 * spec_jittered_backoff_ms(n, jitter_permille) >= 3 * spec_base_backoff_ms(n),
        4 * spec_jittered_backoff_ms(n, jitter_permille) <= 5 * spec_base_backoff_ms(n),
{
    let k = lemma_base_backoff_shape(n);
    let b = spec_base_backoff_ms(n);
    let j = jitter_permille as int;
    assert(b * j == 1000 * (k * j)) by (nonlinear_arith)
        requires
            b == 1000 * k,
    ;
    lemma_div_multiples_vanish(k * j, 1000);
    assert(spec_jittered_backoff_ms(n, jitter_permille) == k * j);
    assert(4 * (k * j) >= 3 * (1000 * k)) by (nonlinear_arith)
        requires
            1 <= k,
            750 <= j,
    ;
    assert(4 * (k * j) <= 5 * (1000 * k)) by (nonlinear_arith)
        requires
            1 <= k,
            j <= 1250,
    ;
}

/// A rate-limit observation that carried a reset header blocks admission
/// until that reset passes, provided the response also said the remaining
/// budget is exhausted; once the reset has passed, admission returns. The
/// predicted wait never exceeds the header's value.
pub proof fn lemma_rate_limit_blocks_until_reset(
    s: RateLimitState,
    now_ms: u64,
    later_ms: u64,
    reset_seconds: u64,
    limit: Option<u32>,
    jitter_permille: u64,
)
    requires
        now_ms <= later_ms,
        now_ms + reset_seconds * MILLIS_PER_SECOND <= u64::MAX,
    ensures
        ({
            let s1 = spec_after_rate_limit(s, now_ms, Some(reset_seconds), Some(0u32), limit);
            let reset = now_ms + reset_seconds * MILLIS_PER_SECOND;
            &&& s1.reset_at == Some(reset as u64)
            &&& (spec_time_until_reset(s1, later_ms) matches Some(t) && t <= reset_seconds)
            &&& later_ms <= reset ==> !spec_should_allow(s1, later_ms, jitter_permille)
            &&& later_ms > reset ==> spec_should_allow(s1, later_ms, jitter_permille)
        }),
{
    let s1 = spec_after_rate_limit(s, now_ms, Some(reset_seconds), Some(0u32), limit);
    assert(spec_saturating_mul(reset_seconds, MILLIS_PER_SECOND) == reset_seconds
        * MILLIS_PER_SECOND);
    let reset = now_ms + reset_seconds * MILLIS_PER_SECOND;
    assert(s1.reset_at == Some(reset as u64));
    if later_ms < reset {
        lemma_div_is_ordered(
            reset - later_ms,
            reset_seconds * MILLIS_PER_SECOND as int,
            1000,
        );
        assert(1000 * reset_seconds == reset_seconds * MILLIS_PER_SECOND) by (nonlinear_arith);
        lemma_div_multiples_vanish(reset_seconds as int, 1000);
    }
}

/// Recording a success restores admission: the resulting state allows every
/// request and recommends no delay, whatever the clock and jitter say.
pub proof fn lemma_success_restores_admission(
    s: RateLimitState,
    at_ms: u64,
    jitter_permille: u64,
)
    requires
        !s.is_rate_limited,
    ensures
        spec_should_allow(s, at_ms, jitter_permille),
        spec_recommended_delay_ms(s, at_ms, jitter_permille) == 0,
{
}

/// The view of an optional header value.
pub open spec fn spec_view_opt(h: Option<&str>) -> Option<Seq<char>> {
    match h {
        Some(s) => Some(s@),
        None => None,
    }
}

/// The reset header holds an absolute epoch timestamp in seconds; the
/// library keeps "seconds from now", clamped to zero once it has passed.
pub open spec fn spec_reset_seconds_from_now(
    header: Option<Seq<char>>,
    now_epoch_seconds: u64,
) -> Option<u64> {
    match header {
        Some(h) => match crate::strutil::spec_parsed_u64(h) {
            Some(ts) => Some(
                if ts > now_epoch_seconds {
                    (ts - now_epoch_seconds) as u64
                } else {
                    0u64
                },
            ),
            None => None,
        },
        None => None,
    }
}

/// The parse of an optional header as a `u32`.
pub open spec fn spec_parsed_u32_opt(header: Option<Seq<char>>) -> Option<u32> {
    match header {
        Some(h) => crate::strutil::spec_parsed_u32(h),
        None => None,
    }
}

/// Read the three standard rate-limit headers, given as the text of the
/// limit, remaining and reset headers (absent or unreadable headers yield
/// nothing). Returns, in this order: seconds until the reset, the remaining
/// budget, and the total limit.
pub fn extract_rate_limit_headers(
    limit_header: Option<&str>,
    remaining_header: Option<&str>,
    reset_header: Option<&str>,
    now_epoch_seconds: u64,
) -> (r: (Option<u64>, Option<u32>, Option<u32>))
    ensures
        r.0 == spec_reset_seconds_from_now(spec_view_opt(reset_header), now_epoch_seconds),
        r.1 == spec_parsed_u32_opt(spec_view_opt(remaining_header)),
        r.2 == spec_parsed_u32_opt(spec_view_opt(limit_header)),
{
    let limit = match limit_header {
        Some(h) => crate::strutil::parse_u32(h),
        None => None,
    };
    let remaining = match remaining_header {
        Some(h) => crate::strutil::parse_u32(h),
        None => None,
    };
    let reset = match reset_header {
        Some(h) => match crate::strutil::parse_u64(h) {
            Some(ts) => Some(
                if ts > now_epoch_seconds {
                    ts - now_epoch_seconds
                } else {
                    0
                },
            ),
            None => None,
        },
        None => None,
    };
    (reset, remaining, limit)
}

/// The user-facing text for a rate-limited credential: a fixed notice plus
/// a wait estimate, in seconds, minutes or hours (rounded up), from the
/// known reset time when there is one, else from the backoff estimate.
pub open spec fn spec_rate_limit_message(
    s: RateLimitState,
    now_ms: u64,
    jitter_permille: u64,
) -> Seq<char> {
    let base = "You've reached Notion's API rate limit."@;
    match spec_time_until_reset(s, now_ms) {
        Some(secs) => {
            if secs < 60 {
                base + " Please try again in "@ + crate::strutil::spec_dec_seq(secs as int)
                    + " seconds."@
            } else if secs < 3600 {
                let minutes = (secs + 59) / 60;
                base + " Please try again in "@ + crate::strutil::spec_dec_seq(minutes) + (
                if minutes == 1 {
                    " minute."@
                } else {
                    " minutes."@
                })
            } else {
                let hours = (secs + 3599) / 3600;
                base + " Please try again in "@ + crate::strutil::spec_dec_seq(hours) + (
                if hours == 1 {
                    " hour."@
                } else {
                    " hours."@
                })
            }
        },
        None => {
            let secs = spec_recommended_delay_ms(s, now_ms, jitter_permille) / 1000;
            if secs < 60 {
                base + " Please wait a few seconds before trying again."@
            } else if secs < 300 {
                base + " Please wait a few minutes before trying again."@
            } else {
                base + " Please try again later."@
            }
        },
    }
}

/// Compose the user-facing text for a rate-limited credential.
pub fn get_rate_limit_message(state: &RateLimitState, now_ms: u64, jitter_permille: u64) -> (msg:
    String)
    requires
        jitter_permille <= JITTER_MAX_PERMILLE,
    ensures
        msg@ == spec_rate_limit_message(*state, now_ms, jitter_permille),
{
    let mut msg = "You've reached Notion's API rate limit.".to_owned();
    match state.time_until_reset(now_ms) {
        Some(seconds) => {
            proof {
                match state.reset_at {
                    Some(reset) => {
                        if now_ms < reset {
                            lemma_div_is_ordered(reset - now_ms, u64::MAX as int, 1000);
                        }
                    },
                    None => {},
                }
                assert(seconds <= u64::MAX / 1000);
            }
            if seconds < 60 {
                msg.append(" Please try again in ");
                msg.append(crate::strutil::dec_string(seconds).as_str());
                msg.append(" seconds.");
            } else if seconds < 3600 {
                let minutes = (seconds + 59) / 60;
                msg.append(" Please try again in ");
                msg.append(crate::strutil::dec_string(minutes).as_str());
                if minutes == 1 {
                    msg.append(" minute.");
                } else {
                    msg.append(" minutes.");
                }
            } else {
                let hours = (seconds + 3599) / 3600;
                msg.append(" Please try again in ");
                msg.append(crate::strutil::dec_string(hours).as_str());
                if hours == 1 {
                    msg.append(" hour.");
                } else {
                    msg.append(" hours.");
                }
            }
        },
        None => {
            let delay_ms = state.get_recommended_delay(now_ms, jitter_permille);
            let secs = delay_ms / 1000;
            if secs < 60 {
                msg.append(" Please wait a few seconds before trying again.");
            } else if secs < 300 {
                msg.append(" Please wait a few minutes before trying again.");
            } else {
                msg.append(" Please try again later.");
            }
        },
    }
    proof {
        assert(msg@ =~= spec_rate_limit_message(*state, now_ms, jitter_permille));
    }
    msg
}

/// `post` is `pre` with one success recorded at `now_ms`.
pub open spec fn spec_success_applied(
    pre: RateLimitState,
    post: RateLimitState,
    now_ms: u64,
) -> bool {
    &&& post.consecutive_rate_limits == 0
    &&& !post.is_rate_limited
    &&& post.recent_requests@ == spec_record_recent(pre.recent_requests@, now_ms)
    &&& post.remaining == pre.remaining
    &&& post.reset_at == pre.reset_at
    &&& post.limit == pre.limit
    &&& post.last_updated == pre.last_updated
}

/// `post` is `pre` with one rate-limit observation recorded at `now_ms`.
pub open spec fn spec_rate_limit_applied(
    pre: RateLimitState,
    post: RateLimitState,
    now_ms: u64,
    reset_seconds: Option<u64>,
    remaining: Option<u32>,
    limit: Option<u32>,
) -> bool {
    &&& post.remaining == remaining
    &&& post.limit == limit
    &&& post.last_updated == now_ms
    &&& post.is_rate_limited
    &&& post.recent_requests@ == pre.recent_requests@
    &&& post.consecutive_rate_limits == (if pre.consecutive_rate_limits < u32::MAX {
        pre.consecutive_rate_limits + 1
    } else {
        u32::MAX as int
    })
    &&& post.reset_at == (match reset_seconds {
        Some(secs) => Some(
            spec_saturating_add(now_ms, spec_saturating_mul(secs, MILLIS_PER_SECOND)),
        ),
        None => pre.reset_at,
    })
}

/// A state as it looks when created for a credential first observed at
/// `now_ms`: nothing known, nothing recorded.
pub open spec fn spec_fresh_state(s: RateLimitState, now_ms: u64) -> bool {
    &&& s.remaining is None
    &&& s.reset_at is None
    &&& s.limit is None
    &&& s.last_updated == now_ms
    &&& s.recent_requests@ == Seq::<u64>::empty()
    &&& s.consecutive_rate_limits == 0
    &&& !s.is_rate_limited
}

/// `a` holds the same rate-limit knowledge as `b`.
pub open spec fn spec_same_observation(a: RateLimitState, b: RateLimitState) -> bool {
    &&& a.remaining == b.remaining
    &&& a.reset_at == b.reset_at
    &&& a.limit == b.limit
    &&& a.last_updated == b.last_updated
    &&& a.recent_requests@ == b.recent_requests@
    &&& a.consecutive_rate_limits == b.consecutive_rate_limits
    &&& a.is_rate_limited == b.is_rate_limited
}

/// Rate-limit status as reported to the presentation layer.
#[derive(Clone, Copy, Debug, PartialEq, Eq, Structural)]
pub struct RateLimitInfo {
    /// Total request budget of the window, if known.
    pub limit: Option<u64>,
    /// Remaining requests in the window, if known.
    pub remaining: Option<u64>,
    /// When the window resets, as epoch seconds, if known.
    pub reset_at: Option<u64>,
    /// Whether admission is currently denied for the credential.
    pub is_limited: bool,
    /// Recommended wait in whole seconds, when limited and positive.
    pub retry_after: Option<u64>,
}

/// The status projection for `token` at `now_ms` (epoch milliseconds):
/// whether admission is denied, the recommended wait in whole seconds when
/// it is, the known budget, and the reset time as an epoch second.
pub open spec fn spec_rate_limit_info(
    m: RateLimitManager,
    token: Seq<char>,
    now_ms: u64,
    jitter_permille: u64,
) -> RateLimitInfo {
    let known = m.spec_contains(token);
    let s = m.spec_get(token);
    let is_limited = !(if known {
        spec_should_allow(s, now_ms, jitter_permille)
    } else {
        true
    });
    RateLimitInfo {
        limit: if known && s.limit is Some {
            Some(s.limit->0 as u64)
        } else {
            None
        },
        remaining: if known && s.remaining is Some {
            Some(s.remaining->0 as u64)
        } else {
            None
        },
        reset_at: if known && spec_time_until_reset(s, now_ms) is Some {
            Some((now_ms / 1000 + spec_time_until_reset(s, now_ms)->0) as u64)
        } else {
            None
        },
        is_limited,
        retry_after: if is_limited && spec_recommended_delay_ms(s, now_ms, jitter_permille) > 0 {
            Some((spec_recommended_delay_ms(s, now_ms, jitter_permille) / 1000) as u64)
        } else {
            None
        },
    }
}

/// Registry of rate-limit states, one per credential.
///
/// Unseen credentials default to "allowed, not limited". The registry is a
/// plain value; a caller that shares it between tasks guards it with a lock
/// held only around these short, non-blocking calls.
pub struct RateLimitManager {
    states: Vec<(String, RateLimitState)>,
}

impl RateLimitManager {
    /// The registry's entries, keys paired with states, in insertion order.
    pub closed spec fn entries(self) -> Seq<(String, RateLimitState)> {
        self.states@
    }

    /// Each credential occurs at most once.
    pub open spec fn wf(self) -> bool {
        forall|i: int, k: int|
            0 <= i < k < self.entries().len() ==> self.entries()[i].0@ != self.entries()[k].0@
    }

    /// Whether the registry holds a state for `token`.
    pub open spec fn spec_contains(self, token: Seq<char>) -> bool {
        exists|i: int| 0 <= i < self.entries().len() && self.entries()[i].0@ == token
    }

    /// The state held for `token`; meaningful only when `spec_contains`.
    pub open spec fn spec_get(self, token: Seq<char>) -> RateLimitState {
        self.entries()[choose|i: int|
            0 <= i < self.entries().len() && self.entries()[i].0@ == token].1
    }

    /// In a well-formed registry the entry at a given index is the entry
    /// looked up under its own key.
    proof fn lemma_get_at_index(self, i: int)
        requires
            self.wf(),
            0 <= i < self.entries().len(),
        ensures
            self.spec_contains(self.entries()[i].0@),
            self.spec_get(self.entries()[i].0@) == self.entries()[i].1,
    {
        let token = self.entries()[i].0@;
        assert(self.spec_contains(token));
        let k = choose|k: int|
            0 <= k < self.entries().len() && self.entries()[k].0@ == token;
        if k < i {
            assert(self.entries()[k].0@ != self.entries()[i].0@);
        } else if i < k {
            assert(self.entries()[i].0@ != self.entries()[k].0@);
        }
    }

    /// An empty registry: no credential observed.
    pub fn new() -> (m: RateLimitManager)
        ensures
            m.wf(),
            m.entries().len() == 0,
            forall|t: Seq<char>| !m.spec_contains(t),
    {
        RateLimitManager { states: Vec::new() }
    }

    /// The index of `token`'s entry, if the registry holds one.
    fn find_index(&self, token: &str) -> (r: Option<usize>)
        ensures
            match r {
                Some(i) => i < self.entries().len() && self.entries()[i as int].0@ == token@,
                None => !self.spec_contains(token@),
            },
    {
        let mut i: usize = 0;
        while i < self.states.len()
            invariant
                i <= self.states@.len(),
                forall|k: int| 0 <= k < i ==> self.states@[k].0@ != token@,
            decreases self.states@.len() - i,
        {
            if crate::strutil::str_eq(self.states[i].0.as_str(), token) {
                return Some(i);
            }
            i = i + 1;
        }
        None
    }

    /// Whether a request under `token` may be attempted at `now_ms`.
    /// A credential never observed is always allowed.
    pub fn should_allow_request(&self, token: &str, now_ms: u64, jitter_permille: u64) -> (allow:
        bool)
        requires
            self.wf(),
            jitter_permille <= JITTER_MAX_PERMILLE,
        ensures
            allow == (if self.spec_contains(token@) {
                spec_should_allow(self.spec_get(token@), now_ms, jitter_permille)
            } else {
                true
            }),
    {
        match self.find_index(token) {
            Some(i) => {
                proof {
                    self.lemma_get_at_index(i as int);
                }
                self.states[i].1.should_allow_request(now_ms, jitter_permille)
            },
            None => true,
        }
    }

    /// Recommended wait in milliseconds before the next attempt under
    /// `token`. A credential never observed needs no wait.
    pub fn get_recommended_delay(&self, token: &str, now_ms: u64, jitter_permille: u64) -> (delay_ms:
        u64)
        requires
            self.wf(),
            jitter_permille <= JITTER_MAX_PERMILLE,
        ensures
            delay_ms == (if self.spec_contains(token@) {
                spec_recommended_delay_ms(self.spec_get(token@), now_ms, jitter_permille)
            } else {
                0
            }),
    {
        match self.find_index(token) {
            Some(i) => {
                proof {
                    self.lemma_get_at_index(i as int);
                }
                self.states[i].1.get_recommended_delay(now_ms, jitter_permille)
            },
            None => 0,
        }
    }

    /// Seconds until `token`'s known reset time, if the registry knows one.
    pub fn time_until_reset(&self, token: &str, now_ms: u64) -> (r: Option<u64>)
        requires
            self.wf(),
        ensures
            r == (if self.spec_contains(token@) {
                spec_time_until_reset(self.spec_get(token@), now_ms)
            } else {
                None::<u64>
            }),
    {
        match self.find_index(token) {
            Some(i) => {
                proof {
                    self.lemma_get_at_index(i as int);
                }
                self.states[i].1.time_until_reset(now_ms)
            },
            None => None,
        }
    }

    /// A copy of `token`'s state, if the registry holds one.
    pub fn get_state(&self, token: &str) -> (r: Option<RateLimitState>)
        requires
            self.wf(),
        ensures
            match r {
                Some(s) => self.spec_contains(token@) && spec_same_observation(
                    s,
                    self.spec_get(token@),
                ),
                None => !self.spec_contains(token@),
            },
    {
        match self.find_index(token) {
            Some(i) => {
                proof {
                    self.lemma_get_at_index(i as int);
                }
                Some(self.states[i].1.clone())
            },
            None => None,
        }
    }

    /// Record a successful request under `token` at `now_ms`, creating the
    /// state on first observation. No other credential's state changes.
    pub fn record_success(&mut self, token: &str, now_ms: u64)
        requires
            old(self).wf(),
        ensures
            final(self).wf(),
            final(self).spec_contains(token@),
            old(self).spec_contains(token@) ==> spec_success_applied(
                old(self).spec_get(token@),
                final(self).spec_get(token@),
                now_ms,
            ),
            !old(self).spec_contains(token@) ==> ({
                let s = final(self).spec_get(token@);
                &&& s.consecutive_rate_limits == 0
                &&& !s.is_rate_limited
                &&& s.recent_requests@ == seq![now_ms]
                &&& s.remaining is None
                &&& s.reset_at is None
                &&& s.limit is None
                &&& s.last_updated == now_ms
            }),
            forall|t: Seq<char>|
                t != token@ ==> (final(self).spec_contains(t) <==> old(self).spec_contains(t)),
            forall|t: Seq<char>|
                t != token@ && old(self).spec_contains(t) ==> final(self).spec_get(t) == old(
                    self,
                ).spec_get(t),
    {
        match self.find_index(token) {
            Some(i) => {
                let ghost pre = self.states@;
                let mut entry = self.states.remove(i);
                entry.1.record_success(now_ms);
                self.states.insert(i, entry);
                proof {
                    assert(self.states@ =~= pre.update(i as int, self.states@[i as int]));
                    self.lemma_entry_updated(*old(self), i as int);
                }
            },
            None => {
                let mut state = RateLimitState::new(now_ms);
                state.record_success(now_ms);
                proof {
                    assert(state.recent_requests@ =~= seq![now_ms]);
                }
                self.states.push((token.to_owned(), state));
                proof {
                    self.lemma_entry_appended(*old(self), token@);
                }
            },
        }
    }

    /// Record a rate-limit response under `token` at `now_ms`, creating the
    /// state on first observation. No other credential's state changes.
    pub fn record_rate_limit(
        &mut self,
        token: &str,
        now_ms: u64,
        reset_seconds: Option<u64>,
        remaining: Option<u32>,
        limit: Option<u32>,
    )
        requires
            old(self).wf(),
        ensures
            final(self).wf(),
            final(self).spec_contains(token@),
            old(self).spec_contains(token@) ==> spec_rate_limit_applied(
                old(self).spec_get(token@),
                final(self).spec_get(token@),
                now_ms,
                reset_seconds,
                remaining,
                limit,
            ),
            !old(self).spec_contains(token@) ==> ({
                let s = final(self).spec_get(token@);
                &&& spec_rate_limit_applied(
                    RateLimitState {
                        remaining: None,
                        reset_at: None,
                        limit: None,
                        last_updated: now_ms,
                        recent_requests: s.recent_requests,
                        consecutive_rate_limits: 0,
                        is_rate_limited: false,
                    },
                    s,
                    now_ms,
                    reset_seconds,
                    remaining,
                    limit,
                )
                &&& s.recent_requests@ == Seq::<u64>::empty()
            }),
            forall|t: Seq<char>|
                t != token@ ==> (final(self).spec_contains(t) <==> old(self).spec_contains(t)),
            forall|t: Seq<char>|
                t != token@ && old(self).spec_contains(t) ==> final(self).spec_get(t) == old(
                    self,
                ).spec_get(t),
    {
        match self.find_index(token) {
            Some(i) => {
                let ghost pre = self.states@;
                let mut entry = self.states.remove(i);
                entry.1.record_rate_limit(now_ms, reset_seconds, remaining, limit);
                self.states.insert(i, entry);
                proof {
                    assert(self.states@ =~= pre.update(i as int, self.states@[i as int]));
                    self.lemma_entry_updated(*old(self), i as int);
                }
            },
            None => {
                let mut state = RateLimitState::new(now_ms);
                state.record_rate_limit(now_ms, reset_seconds, remaining, limit);
                self.states.push((token.to_owned(), state));
                proof {
                    self.lemma_entry_appended(*old(self), token@);
                }
            },
        }
    }

    /// After updating the entry at `i` in place, lookups under its key find
    /// the new state and lookups under any other key are unchanged.
    proof fn lemma_entry_updated(self, pre: RateLimitManager, i: int)
        requires
            pre.wf(),
            0 <= i < pre.entries().len(),
            self.entries().len() == pre.entries().len(),
            self.entries()[i].0@ == pre.entries()[i].0@,
            forall|k: int|
                0 <= k < pre.entries().len() && k != i ==> self.entries()[k] == pre.entries()[k],
        ensures
            self.wf(),
            self.spec_contains(pre.entries()[i].0@),
            self.spec_get(pre.entries()[i].0@) == self.entries()[i].1,
            forall|t: Seq<char>|
                t != pre.entries()[i].0@ ==> (self.spec_contains(t) <==> pre.spec_contains(t)),
            forall|t: Seq<char>|
                t != pre.entries()[i].0@ && pre.spec_contains(t) ==> self.spec_get(t)
                    == pre.spec_get(t),
    {
        let token = pre.entries()[i].0@;
        assert(forall|k: int|
            0 <= k < self.entries().len() ==> self.entries()[k].0@ == pre.entries()[k].0@);
        assert(self.wf());
        self.lemma_get_at_index(i);
        assert forall|t: Seq<char>| t != token implies (self.spec_contains(t)
            <==> pre.spec_contains(t)) by {
            if self.spec_contains(t) {
                let k = choose|k: int|
                    0 <= k < self.entries().len() && self.entries()[k].0@ == t;
                assert(pre.entries()[k].0@ == t);
            }
            if pre.spec_contains(t) {
                let k = choose|k: int|
                    0 <= k < pre.entries().len() && pre.entries()[k].0@ == t;
                assert(self.entries()[k].0@ == t);
            }
        }
        assert forall|t: Seq<char>| t != token && pre.spec_contains(t) implies self.spec_get(t)
            == pre.spec_get(t) by {
            let k = choose|k: int| 0 <= k < pre.entries().len() && pre.entries()[k].0@ == t;
            assert(k != i);
            pre.lemma_get_at_index(k);
            assert(self.entries()[k].0@ == t);
            self.lemma_get_at_index(k);
        }
    }

    /// Read-only status projection for one credential, for the presentation
    /// layer; `now_ms` must be epoch-based so that the reset time can be
    /// reported as an absolute epoch second.
    pub fn fetch_rate_limit_info(&self, token: &str, now_ms: u64, jitter_permille: u64) -> (info:
        RateLimitInfo)
        requires
            self.wf(),
            jitter_permille <= JITTER_MAX_PERMILLE,
        ensures
            info == spec_rate_limit_info(*self, token@, now_ms, jitter_permille),
    {
        let is_limited = !self.should_allow_request(token, now_ms, jitter_permille);
        let retry_after = if is_limited {
            let delay_ms = self.get_recommended_delay(token, now_ms, jitter_permille);
            if delay_ms > 0 {
                Some(delay_ms / 1000)
            } else {
                None
            }
        } else {
            None
        };
        let now_seconds = now_ms / 1000;
        let reset_at = match self.time_until_reset(token, now_ms) {
            Some(secs) => {
                proof {
                    lemma_div_is_ordered(now_ms as int, u64::MAX as int, 1000);
                    if self.spec_contains(token@) {
                        let s = self.spec_get(token@);
                        match s.reset_at {
                            Some(reset) => {
                                if now_ms < reset {
                                    lemma_div_is_ordered(reset - now_ms, u64::MAX as int, 1000);
                                }
                            },
                            None => {},
                        }
                    }
                }
                Some(now_seconds + secs)
            },
            None => None,
        };
        let (limit, remaining) = match self.get_state(token) {
            Some(s) => (
                match s.limit {
                    Some(v) => Some(v as u64),
                    None => None,
                },
                match s.remaining {
                    Some(v) => Some(v as u64),
                    None => None,
                },
            ),
            None => (None, None),
        };
        RateLimitInfo { limit, remaining, reset_at, is_limited, retry_after }
    }

    /// After appending an entry under a previously unseen key, lookups under
    /// that key find it and lookups under any other key are unchanged.
    proof fn lemma_entry_appended(self, pre: RateLimitManager, token: Seq<char>)
        requires
            pre.wf(),
            !pre.spec_contains(token),
            self.entries().len() == pre.entries().len() + 1,
            self.entries()[pre.entries().len() as int].0@ == token,
            forall|k: int|
                0 <= k < pre.entries().len() ==> self.entries()[k] == pre.entries()[k],
        ensures
            self.wf(),
            self.spec_contains(token),
            self.spec_get(token) == self.entries()[pre.entries().len() as int].1,
            forall|t: Seq<char>|
                t != token ==> (self.spec_contains(t) <==> pre.spec_contains(t)),
            forall|t: Seq<char>|
                t != token && pre.spec_contains(t) ==> self.spec_get(t) == pre.spec_get(t),
    {
        let n = pre.entries().len() as int;
        assert forall|i: int, k: int|
            0 <= i < k < self.entries().len() implies self.entries()[i].0@
            != self.entries()[k].0@ by {
            if k < n {
                assert(pre.entries()[i].0@ != pre.entries()[k].0@);
            } else {
                assert(self.entries()[i].0@ == pre.entries()[i].0@);
                assert(!pre.spec_contains(token));
            }
        }
        self.lemma_get_at_index(n);
        assert forall|t: Seq<char>| t != token implies (self.spec_contains(t)
            <==> pre.spec_contains(t)) by {
            if self.spec_contains(t) {
                let k = choose|k: int|
                    0 <= k < self.entries().len() && self.entries()[k].0@ == t;
                assert(k < n);
                assert(pre.entries()[k].0@ == t);
            }
            if pre.spec_contains(t) {
                let k = choose|k: int|
                    0 <= k < pre.entries().len() && pre.entries()[k].0@ == t;
                assert(self.entries()[k].0@ == t);
            }
        }
        assert forall|t: Seq<char>| t != token && pre.spec_contains(t) implies self.spec_get(t)
            == pre.spec_get(t) by {
            let k = choose|k: int| 0 <= k < pre.entries().len() && pre.entries()[k].0@ == t;
            pre.lemma_get_at_index(k);
            assert(self.entries()[k].0@ == t);
            self.lemma_get_at_index(k);
        }
    }
}

} // verus!
