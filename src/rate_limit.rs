//! Token-bucket rate limiting, kept in whole integer units.
//!
//! One token is `TOKEN_UNITS` units, and time is counted in nanoseconds, so a
//! bucket refilling at `rate` tokens per second gains exactly `elapsed * rate`
//! units: no rounding happens anywhere.
use std::time::Instant;
use vstd::prelude::*;

verus! {

/// Units per token.
pub const TOKEN_UNITS: u64 = 1_000_000_000;

/// Default number of requests per second.
pub const DEFAULT_REQUESTS_PER_SECOND: u32 = 5;

/// Default bucket capacity, in tokens.
pub const DEFAULT_BURST_SIZE: u32 = 10;

/// Configuration for rate limiting.
#[derive(Debug, Clone, Copy, PartialEq, Eq)]
pub struct RateLimitConfig {
    /// Maximum requests per second (tokens added per second).
    pub requests_per_second: u32,
    /// Maximum burst size (tokens the bucket holds).
    pub burst_size: u32,
    /// Whether rate limiting is enabled.
    pub enabled: bool,
}

/// The default policy: enabled, 5 requests per second, a burst of 10.
pub open spec fn default_rate_limit_config() -> RateLimitConfig {
    RateLimitConfig {
        requests_per_second: DEFAULT_REQUESTS_PER_SECOND,
        burst_size: DEFAULT_BURST_SIZE,
        enabled: true,
    }
}

/// The bucket's capacity in units.
pub open spec fn capacity_units(c: RateLimitConfig) -> int {
    c.burst_size as int * TOKEN_UNITS as int
}

/// The level after a lazy refill at `now`: `elapsed * rate` units are added,
/// capped at the capacity. A clock reading earlier than `last` adds nothing.
pub open spec fn refilled(c: RateLimitConfig, level: int, last: int, now: int) -> int {
    let elapsed = if now >= last { now - last } else { 0 };
    let raw = level + elapsed * c.requests_per_second as int;
    if raw <= capacity_units(c) { raw } else { capacity_units(c) }
}

/// The refill time recorded after a check at `now`.
pub open spec fn refreshed(last: int, now: int) -> int {
    if now >= last { now } else { last }
}

/// One non-blocking acquisition attempt at `now`, from bucket level `level`
/// refilled last at `last`: the new level, the new refill time, and whether a
/// token was taken. A disabled limiter always grants and keeps its state.
pub open spec fn try_step(c: RateLimitConfig, level: int, last: int, now: int) -> (int, int, bool) {
    if !c.enabled {
        (level, last, true)
    } else {
        let t = refilled(c, level, last, now);
        if t >= TOKEN_UNITS {
            (t - TOKEN_UNITS, refreshed(last, now), true)
        } else {
            (t, refreshed(last, now), false)
        }
    }
}

/// The level of a full bucket after `k` immediate attempts at the time of its
/// last refill.
pub open spec fn level_after_immediate(c: RateLimitConfig, t: int, k: nat) -> int
    decreases k,
{
    if k == 0 {
        capacity_units(c)
    } else {
        try_step(c, level_after_immediate(c, t, (k - 1) as nat), t, t).0
    }
}

/// A full bucket grants exactly `burst_size` immediate attempts: the attempts
/// before that many succeed, and the one after them fails.
pub proof fn lemma_burst_saturation(c: RateLimitConfig, t: int, k: nat)
    requires
        c.enabled,
        k <= c.burst_size,
    ensures
        level_after_immediate(c, t, k) == (c.burst_size - k) * TOKEN_UNITS,
        try_step(c, level_after_immediate(c, t, k), t, t).2 == (k < c.burst_size),
    decreases k,
{
    if k > 0 {
        lemma_burst_saturation(c, t, (k - 1) as nat);
    }
    assert((c.burst_size - k) * TOKEN_UNITS >= 0) by (nonlinear_arith)
        requires
            k <= c.burst_size,
    ;
    assert(((c.burst_size - k) * TOKEN_UNITS >= TOKEN_UNITS) == (k < c.burst_size)) by (nonlinear_arith)
        requires
            k <= c.burst_size,
    ;
}

/// The outcomes of attempts at the clock readings `times`, in order, from
/// bucket level `level` refilled last at `last`.
pub open spec fn tries_from(c: RateLimitConfig, level: int, last: int, times: Seq<int>) -> Seq<bool>
    decreases times.len(),
{
    if times.len() == 0 {
        Seq::empty()
    } else {
        let (l2, t2, ok) = try_step(c, level, last, times[0]);
        seq![ok] + tries_from(c, l2, t2, times.drop_first())
    }
}

/// Readings of a clock that never goes back, none before `t0`.
pub open spec fn readings_from(times: Seq<int>, t0: int) -> bool {
    &&& forall|i: int| 0 <= i < times.len() ==> t0 <= #[trigger] times[i]
    &&& forall|i: int, j: int| 0 <= i <= j < times.len() ==> times[i] <= times[j]
}

proof fn lemma_spread_tries(c: RateLimitConfig, level: int, last: int, t0: int, times: Seq<int>, k: int)
    requires
        c.enabled,
        0 <= k <= c.burst_size,
        times.len() == c.burst_size + 1 - k,
        readings_from(times, last),
        t0 <= last,
        (c.burst_size - k) * TOKEN_UNITS <= level,
        level <= (c.burst_size - k) * TOKEN_UNITS + (last - t0) * c.requests_per_second,
        forall|i: int| 0 <= i < times.len() ==> (#[trigger] times[i] - t0) * c.requests_per_second < TOKEN_UNITS,
    ensures
        tries_from(c, level, last, times).len() == times.len(),
        forall|i: int| 0 <= i < times.len() ==> #[trigger] tries_from(c, level, last, times)[i] == (i + k < c.burst_size),
    decreases times.len(),
{
    let r = c.requests_per_second as int;
    let b = c.burst_size as int;
    let u = TOKEN_UNITS as int;
    let t = times[0];
    let cap = capacity_units(c);
    let raw = level + (t - last) * r;
    assert(raw <= (b - k) * u + (t - t0) * r) by (nonlinear_arith)
        requires
            raw == level + (t - last) * r,
            level <= (b - k) * u + (last - t0) * r,
    ;
    assert((t - last) * r >= 0) by (nonlinear_arith)
        requires
            t >= last,
            r >= 0,
    ;
    assert(cap >= (b - k) * u) by (nonlinear_arith)
        requires
            cap == b * u,
            k >= 0,
            u > 0,
    ;
    let refill = refilled(c, level, last, t);
    assert(refill >= (b - k) * u);
    assert(refill <= (b - k) * u + (t - t0) * r);
    let (l2, t2, ok) = try_step(c, level, last, t);
    if k < b {
        assert((b - k) * u >= u) by (nonlinear_arith)
            requires
                k < b,
                u > 0,
        ;
        assert(ok);
    } else {
        assert((b - k) * u == 0) by (nonlinear_arith)
            requires
                k == b,
        ;
        assert(!ok);
    }
    let rest = times.drop_first();
    if rest.len() > 0 {
        assert forall|i: int| 0 <= i < rest.len() implies t2 <= #[trigger] rest[i] by {
            assert(rest[i] == times[i + 1]);
        }
        assert forall|i: int, j: int| 0 <= i <= j < rest.len() implies rest[i] <= rest[j] by {
            assert(rest[i] == times[i + 1] && rest[j] == times[j + 1]);
        }
        assert forall|i: int| 0 <= i < rest.len() implies (#[trigger] rest[i] - t0) * c.requests_per_second
            < TOKEN_UNITS by {
            assert(rest[i] == times[i + 1]);
        }
        assert(t2 == t);
        lemma_spread_tries(c, l2, t2, t0, rest, k + 1);
    }
    let all = tries_from(c, level, last, times);
    assert(all == seq![ok] + tries_from(c, l2, t2, rest));
    assert forall|i: int| 0 <= i < times.len() implies #[trigger] all[i] == (i + k < c.burst_size) by {
        if i > 0 {
            assert(all[i] == tries_from(c, l2, t2, rest)[i - 1]);
        }
    }
}

/// A full bucket grants exactly `burst_size` attempts made within one refill
/// interval (less than `1 / rate` seconds after it was last full), wherever in
/// that interval they fall: the first `burst_size` succeed and the next fails.
pub proof fn lemma_burst_saturation_spread(c: RateLimitConfig, t0: int, times: Seq<int>)
    requires
        c.enabled,
        times.len() == c.burst_size + 1,
        readings_from(times, t0),
        forall|i: int| 0 <= i < times.len() ==> (#[trigger] times[i] - t0) * c.requests_per_second < TOKEN_UNITS,
    ensures
        forall|i: int| 0 <= i < times.len() ==> #[trigger] tries_from(c, capacity_units(c), t0, times)[i]
            == (i < c.burst_size),
{
    assert(capacity_units(c) <= c.burst_size * TOKEN_UNITS + (t0 - t0) * c.requests_per_second);
    lemma_spread_tries(c, capacity_units(c), t0, t0, times, 0);
}

/// After an attempt at `t0` fails, one made at least `1 / rate` seconds later
/// succeeds, provided the bucket holds a token at all, and it leaves the
/// refilled level less one token.
pub proof fn lemma_refill_after_failure(c: RateLimitConfig, level: int, last: int, t0: int, t1: int)
    requires
        c.enabled,
        c.burst_size >= 1,
        0 <= level,
        last <= t0 <= t1,
        !try_step(c, level, last, t0).2,
        (t1 - t0) * c.requests_per_second >= TOKEN_UNITS,
    ensures
        ({
            let (l1, s1, _) = try_step(c, level, last, t0);
            let (l2, _, ok) = try_step(c, l1, s1, t1);
            ok && l2 == refilled(c, l1, s1, t1) - TOKEN_UNITS
        }),
{
    let (l1, s1, _) = try_step(c, level, last, t0);
    assert((t0 - last) * c.requests_per_second >= 0) by (nonlinear_arith)
        requires
            t0 >= last,
    ;
    assert(l1 >= 0);
    lemma_refill_grants(c, l1, s1, t1);
}

/// Consecutive `try_acquire_at` calls on one limiter: `limiters[k]` is the
/// limiter before call `k`, made at `times[k]`, which answered `granted[k]`.
pub open spec fn acquisition_run(limiters: Seq<RateLimiter>, times: Seq<int>, granted: Seq<bool>) -> bool {
    &&& limiters.len() == times.len() + 1
    &&& granted.len() == times.len()
    &&& forall|k: int| 0 <= k < times.len() ==> (limiters[k + 1]@.level, limiters[k + 1]@.last, granted[k])
        == #[trigger] try_step(limiters[k]@.config, limiters[k]@.level, limiters[k]@.last, times[k])
    &&& forall|k: int| 0 <= k < times.len() ==> (#[trigger] limiters[k + 1])@.config == limiters[k]@.config
}

proof fn lemma_run_is_tries_from(limiters: Seq<RateLimiter>, times: Seq<int>, granted: Seq<bool>)
    requires
        acquisition_run(limiters, times, granted),
    ensures
        granted == tries_from(limiters[0]@.config, limiters[0]@.level, limiters[0]@.last, times),
    decreases times.len(),
{
    if times.len() > 0 {
        let rest_l = limiters.drop_first();
        let rest_t = times.drop_first();
        let rest_g = granted.drop_first();
        assert forall|k: int| 0 <= k < rest_t.len() implies (rest_l[k + 1]@.level, rest_l[k + 1]@.last, rest_g[k])
            == #[trigger] try_step(rest_l[k]@.config, rest_l[k]@.level, rest_l[k]@.last, rest_t[k]) by {
            assert(rest_l[k + 1] == limiters[k + 2] && rest_l[k] == limiters[k + 1]);
            assert(rest_t[k] == times[k + 1] && rest_g[k] == granted[k + 1]);
        }
        assert forall|k: int| 0 <= k < rest_t.len() implies (#[trigger] rest_l[k + 1])@.config == rest_l[k]@.config by {
            assert(rest_l[k + 1] == limiters[k + 2] && rest_l[k] == limiters[k + 1]);
        }
        lemma_run_is_tries_from(rest_l, rest_t, rest_g);
        assert(try_step(limiters[0]@.config, limiters[0]@.level, limiters[0]@.last, times[0])
            == (limiters[1]@.level, limiters[1]@.last, granted[0]));
        assert(limiters[1]@.config == limiters[0]@.config);
        assert(granted =~= seq![granted[0]] + rest_g);
    } else {
        assert(granted =~= Seq::<bool>::empty());
    }
}

/// A new limiter grants exactly `burst_size` of `burst_size + 1` calls of
/// `try_acquire_at` made within one refill interval of its clock's start:
/// the first `burst_size` succeed and the last fails.
pub proof fn lemma_new_limiter_burst(limiters: Seq<RateLimiter>, times: Seq<int>, granted: Seq<bool>)
    requires
        acquisition_run(limiters, times, granted),
        limiters[0]@.config.enabled,
        limiters[0]@.level == capacity_units(limiters[0]@.config),
        limiters[0]@.last == 0,
        times.len() == limiters[0]@.config.burst_size + 1,
        readings_from(times, 0),
        forall|i: int| 0 <= i < times.len() ==> (#[trigger] times[i]) * limiters[0]@.config.requests_per_second
            < TOKEN_UNITS,
    ensures
        forall|i: int| 0 <= i < granted.len() ==> #[trigger] granted[i] == (i < limiters[0]@.config.burst_size),
{
    let c = limiters[0]@.config;
    lemma_run_is_tries_from(limiters, times, granted);
    assert forall|i: int| 0 <= i < times.len() implies (#[trigger] times[i] - 0) * c.requests_per_second < TOKEN_UNITS by {
        assert(times[i] - 0 == times[i]);
    }
    lemma_burst_saturation_spread(c, 0, times);
}

/// On a limiter, a `try_acquire_at` at `t0` that failed, then one at `t1` at
/// least `1 / rate` seconds later: the second succeeds, leaving the refilled
/// level less one token.
pub proof fn lemma_limiter_refill(limiters: Seq<RateLimiter>, t0: int, t1: int, granted: Seq<bool>)
    requires
        acquisition_run(limiters, seq![t0, t1], granted),
        limiters[0]@.config.enabled,
        limiters[0]@.config.burst_size >= 1,
        limiters[0]@.level >= 0,
        limiters[0]@.last <= t0 <= t1,
        !granted[0],
        (t1 - t0) * limiters[0]@.config.requests_per_second >= TOKEN_UNITS,
    ensures
        granted[1],
        limiters[2]@.level == refilled(limiters[1]@.config, limiters[1]@.level, limiters[1]@.last, t1) - TOKEN_UNITS,
{
    let ts = seq![t0, t1];
    assert(ts[0] == t0 && ts[1] == t1);
    assert(try_step(limiters[0]@.config, limiters[0]@.level, limiters[0]@.last, ts[0])
        == (limiters[1]@.level, limiters[1]@.last, granted[0]));
    assert(try_step(limiters[1]@.config, limiters[1]@.level, limiters[1]@.last, ts[1])
        == (limiters[2]@.level, limiters[2]@.last, granted[1]));
    assert((limiters[1])@.config == limiters[0]@.config);
    lemma_refill_after_failure(limiters[0]@.config, limiters[0]@.level, limiters[0]@.last, t0, t1);
}

/// Waiting at least `1 / rate` seconds after any check makes the next attempt
/// succeed, whatever the bucket held, provided the bucket holds a token at all.
pub proof fn lemma_refill_grants(c: RateLimitConfig, level: int, last: int, now: int)
    requires
        c.enabled,
        c.burst_size >= 1,
        level >= 0,
        now >= last,
        (now - last) * c.requests_per_second >= TOKEN_UNITS,
    ensures
        try_step(c, level, last, now).2,
{
    assert(c.burst_size as int * TOKEN_UNITS as int >= TOKEN_UNITS) by (nonlinear_arith)
        requires
            c.burst_size >= 1,
    ;
}

/// A disabled limiter grants every attempt, at any time, and keeps its state,
/// so any number of attempts in a row all succeed.
pub proof fn lemma_disabled_always_grants(c: RateLimitConfig, level: int, last: int, now: int)
    requires
        !c.enabled,
    ensures
        try_step(c, level, last, now) == (level, last, true),
{
}

/// Outcome of one step of a blocking acquisition.
#[derive(Debug, Clone, Copy, PartialEq, Eq)]
pub enum AcquireStep {
    /// A token was taken.
    Acquired,
    /// No token yet: wait this many nanoseconds, then check again.
    Wait(u64),
    /// No token, and the bucket never refills (a rate of zero).
    Stalled,
}

/// The limiter's state in units and nanoseconds.
pub struct BucketView {
    pub config: RateLimitConfig,
    pub level: int,
    pub last: int,
}

/// A token-bucket rate limiter.
pub struct RateLimiter {
    config: RateLimitConfig,
    level: u64,
    last_update_ns: u64,
    origin: Instant,
}

#[verifier::external_type_specification]
#[verifier::external_body]
pub struct ExInstant(Instant);

/// Relies on std's `Instant::now`: a reading of the monotonic clock.
#[verifier::external_body]
fn clock_now() -> Instant {
    Instant::now()
}

/// Relies on std's `Instant::elapsed`: the nanoseconds since `origin`.
#[verifier::external_body]
fn nanos_since(origin: &Instant) -> u64 {
    origin.elapsed().as_nanos() as u64
}

impl Default for RateLimitConfig {
    fn default() -> (r: Self)
        ensures
            r.requests_per_second == DEFAULT_REQUESTS_PER_SECOND,
            r.burst_size == DEFAULT_BURST_SIZE,
            r.enabled,
    {
        RateLimitConfig {
            requests_per_second: DEFAULT_REQUESTS_PER_SECOND,
            burst_size: DEFAULT_BURST_SIZE,
            enabled: true,
        }
    }
}

impl RateLimitConfig {
    /// An enabled configuration with the given rate and a burst of twice it.
    pub fn new(requests_per_second: u32) -> (r: Self)
        requires
            requests_per_second <= u32::MAX / 2,
        ensures
            r.requests_per_second == requests_per_second,
            r.burst_size == 2 * requests_per_second,
            r.enabled,
    {
        RateLimitConfig { requests_per_second, burst_size: requests_per_second * 2, enabled: true }
    }

    /// Sets the burst size.
    pub fn with_burst_size(self, size: u32) -> (r: Self)
        ensures
            r == (RateLimitConfig { burst_size: size, ..self }),
    {
        RateLimitConfig { burst_size: size, ..self }
    }

    /// The default configuration with rate limiting switched off.
    pub fn disabled() -> (r: Self)
        ensures
            r.requests_per_second == DEFAULT_REQUESTS_PER_SECOND,
            r.burst_size == DEFAULT_BURST_SIZE,
            !r.enabled,
    {
        RateLimitConfig {
            requests_per_second: DEFAULT_REQUESTS_PER_SECOND,
            burst_size: DEFAULT_BURST_SIZE,
            enabled: false,
        }
    }

    /// The bucket's capacity in units.
    pub fn capacity(&self) -> (r: u64)
        ensures
            r == capacity_units(*self),
    {
        self.burst_size as u64 * TOKEN_UNITS
    }
}

impl View for RateLimiter {
    type V = BucketView;

    closed spec fn view(&self) -> BucketView {
        BucketView { config: self.config, level: self.level as int, last: self.last_update_ns as int }
    }
}

impl RateLimiter {
    /// The level never exceeds the capacity.
    pub closed spec fn wf(&self) -> bool {
        self.level <= capacity_units(self.config)
    }

    /// A well-formed limiter never holds more than its capacity.
    pub proof fn lemma_level_within_capacity(&self)
        requires
            self.wf(),
        ensures
            0 <= self@.level <= capacity_units(self@.config),
    {
    }

    /// A full limiter with the given configuration; its clock starts now.
    pub fn new(config: RateLimitConfig) -> (r: Self)
        ensures
            r.wf(),
            r@.config == config,
            r@.level == capacity_units(config),
            r@.last == 0,
    {
        RateLimiter { config, level: config.capacity(), last_update_ns: 0, origin: clock_now() }
    }

    /// Nanoseconds on this limiter's clock.
    pub fn now_ns(&self) -> u64 {
        nanos_since(&self.origin)
    }

    /// Adds the units earned since the last refill, capped at the capacity.
    fn refill(&mut self, now_ns: u64)
        requires
            old(self).wf(),
        ensures
            final(self).wf(),
            final(self).config == old(self).config,
            final(self).origin == old(self).origin,
            final(self).level as int == refilled(old(self).config, old(self).level as int,
                old(self).last_update_ns as int, now_ns as int),
            final(self).last_update_ns as int == refreshed(old(self).last_update_ns as int, now_ns as int),
    {
        let cap = self.config.capacity();
        let elapsed: u64 = if now_ns >= self.last_update_ns { now_ns - self.last_update_ns } else { 0 };
        proof {
            assert(elapsed as u128 * self.config.requests_per_second as u128 <= 0xffff_ffff_ffff_ffff * 0xffff_ffffu128) by (nonlinear_arith)
                requires elapsed <= 0xffff_ffff_ffff_ffffu64, self.config.requests_per_second <= 0xffff_ffffu32;
        }
        let gained: u128 = elapsed as u128 * self.config.requests_per_second as u128;
        let raw: u128 = self.level as u128 + gained;
        self.level = if raw <= cap as u128 { raw as u64 } else { cap };
        if now_ns >= self.last_update_ns {
            self.last_update_ns = now_ns;
        }
    }

    /// Attempts to take a token at clock reading `now_ns`, without waiting.
    pub fn try_acquire_at(&mut self, now_ns: u64) -> (r: bool)
        requires
            old(self).wf(),
        ensures
            final(self).wf(),
            final(self)@.config == old(self)@.config,
            (final(self)@.level, final(self)@.last, r) == try_step(old(self)@.config,
                old(self)@.level, old(self)@.last, now_ns as int),
    {
        if !self.config.enabled {
            return true;
        }
        self.refill(now_ns);
        if self.level >= TOKEN_UNITS {
            self.level = self.level - TOKEN_UNITS;
            true
        } else {
            false
        }
    }

    /// Attempts to take a token now, without waiting. A disabled limiter
    /// always grants.
    pub fn try_acquire(&mut self) -> (r: bool)
        requires
            old(self).wf(),
        ensures
            final(self).wf(),
            final(self)@.config == old(self)@.config,
            exists|now: int| now >= 0 && (final(self)@.level, final(self)@.last, r)
                == #[trigger] try_step(old(self)@.config, old(self)@.level, old(self)@.last, now),
            !old(self)@.config.enabled ==> r,
    {
        let now = self.now_ns();
        self.try_acquire_at(now)
    }

    /// One step of a blocking acquisition at clock reading `now_ns`: takes a
    /// token if one is there, else says how long to wait before checking again.
    pub fn poll_acquire_at(&mut self, now_ns: u64) -> (r: AcquireStep)
        requires
            old(self).wf(),
        ensures
            final(self).wf(),
            final(self)@.config == old(self)@.config,
            (final(self)@.level, final(self)@.last, r is Acquired) == try_step(old(self)@.config,
                old(self)@.level, old(self)@.last, now_ns as int),
            r is Stalled <==> (old(self)@.config.enabled && old(self)@.config.requests_per_second == 0
                && !(r is Acquired)),
            r matches AcquireStep::Wait(ns) ==> ns >= 1
                && final(self)@.level + ns * old(self)@.config.requests_per_second >= TOKEN_UNITS,
    {
        if self.try_acquire_at(now_ns) {
            return AcquireStep::Acquired;
        }
        let rate = self.config.requests_per_second as u64;
        if rate == 0 {
            return AcquireStep::Stalled;
        }
        let needed = TOKEN_UNITS - self.level;
        let ns = needed / rate + if needed % rate == 0 { 0 } else { 1 };
        proof {
            assert(ns * rate >= needed && ns >= 1) by (nonlinear_arith)
                requires
                    rate > 0,
                    needed > 0,
                    ns == needed / rate + if needed % rate == 0 { 0int } else { 1int },
            ;
        }
        AcquireStep::Wait(ns)
    }

    /// One step of a blocking acquisition now. A disabled limiter always grants.
    pub fn poll_acquire(&mut self) -> (r: AcquireStep)
        requires
            old(self).wf(),
        ensures
            final(self).wf(),
            final(self)@.config == old(self)@.config,
            exists|now: int| now >= 0 && (final(self)@.level, final(self)@.last, r is Acquired)
                == #[trigger] try_step(old(self)@.config, old(self)@.level, old(self)@.last, now),
            !old(self)@.config.enabled ==> r is Acquired,
    {
        let now = self.now_ns();
        self.poll_acquire_at(now)
    }

    /// Returns whether rate limiting is enabled.
    pub fn is_enabled(&self) -> (r: bool)
        ensures
            r == self@.config.enabled,
    {
        self.config.enabled
    }

    /// The units available at clock reading `now_ns`, after a refill.
    pub fn available_units_at(&mut self, now_ns: u64) -> (r: u64)
        requires
            old(self).wf(),
        ensures
            final(self).wf(),
            final(self)@.config == old(self)@.config,
            r == final(self)@.level,
            final(self)@.level == refilled(old(self)@.config, old(self)@.level, old(self)@.last, now_ns as int),
            final(self)@.last == refreshed(old(self)@.last, now_ns as int),
            r <= capacity_units(old(self)@.config),
    {
        self.refill(now_ns);
        self.level
    }

    /// The units available now (one token is `TOKEN_UNITS` units).
    pub fn available_tokens(&mut self) -> (r: u64)
        requires
            old(self).wf(),
        ensures
            final(self).wf(),
            final(self)@.config == old(self)@.config,
            r == final(self)@.level,
            r <= capacity_units(old(self)@.config),
            exists|now: int| now >= 0 && final(self)@.level == #[trigger] refilled(old(self)@.config,
                old(self)@.level, old(self)@.last, now) && final(self)@.last == refreshed(old(self)@.last, now),
    {
        let now = self.now_ns();
        let r = self.available_units_at(now);
        proof {
            assert(final(self)@.level == refilled(old(self)@.config, old(self)@.level, old(self)@.last, now as int));
        }
        r
    }
}

} // verus!
