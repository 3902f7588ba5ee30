//! Exponential backoff with jitter, in whole milliseconds.
use rand::Rng;
use vstd::prelude::*;

verus! {

/// Default base delay of the exponential backoff, in milliseconds.
pub const DEFAULT_BASE_DELAY_MS: u64 = 500;

/// Default cap on a single retry delay, in milliseconds.
pub const DEFAULT_MAX_DELAY_MS: u64 = 30_000;

/// Default number of attempts.
pub const DEFAULT_MAX_RETRIES: u32 = 3;

/// Configuration for retry behaviour. Delays are whole milliseconds.
#[derive(Debug, Clone, Copy, PartialEq, Eq)]
pub struct RetryConfig {
    /// Base delay for exponential backoff.
    pub base_delay_ms: u64,
    /// Maximum delay between retries.
    pub max_delay_ms: u64,
    /// Maximum number of attempts.
    pub max_retries: u32,
}

/// The default retry policy: 500 ms base, 30 s cap, 3 attempts.
pub open spec fn default_retry_config() -> RetryConfig {
    RetryConfig {
        base_delay_ms: DEFAULT_BASE_DELAY_MS,
        max_delay_ms: DEFAULT_MAX_DELAY_MS,
        max_retries: DEFAULT_MAX_RETRIES,
    }
}

/// `2^n`.
pub open spec fn doubling(n: nat) -> nat
    decreases n,
{
    if n == 0 {
        1
    } else {
        2 * doubling((n - 1) as nat)
    }
}

/// The uncapped exponential delay of a 1-based attempt: `base * 2^(attempt - 1)`.
/// Attempt 0 is treated as attempt 1.
pub open spec fn exponential_ms(base: u64, attempt: u32) -> nat {
    base as nat * doubling(if attempt == 0 { 0 } else { (attempt - 1) as nat })
}

pub open spec fn min_int(a: int, b: int) -> int {
    if a <= b { a } else { b }
}

pub open spec fn max_int(a: int, b: int) -> int {
    if a >= b { a } else { b }
}

/// The exponential delay capped at `max_delay_ms`, before jitter.
pub open spec fn capped_backoff_ms(c: RetryConfig, attempt: u32) -> int {
    min_int(exponential_ms(c.base_delay_ms, attempt) as int, c.max_delay_ms as int)
}

/// Half-width of the jitter interval: 30% of the capped delay, rounded down.
pub open spec fn jitter_bound(capped: int) -> int {
    capped * 3 / 10
}

/// The capped delay shifted by `jitter`, floored at zero and re-capped.
pub open spec fn jittered_ms(c: RetryConfig, attempt: u32, jitter: int) -> int {
    let shifted = capped_backoff_ms(c, attempt) + jitter;
    min_int(max_int(shifted, 0), c.max_delay_ms as int)
}

/// The delay taken when the server hints `retry_after_ms` and the backoff
/// computed `d`: the hint is a floor.
pub open spec fn hinted_delay(retry_after_ms: Option<u64>, d: int) -> int {
    match retry_after_ms {
        Some(h) => max_int(h as int, d),
        None => d,
    }
}

/// What `calculate_delay` may return: the capped delay shifted by some jitter
/// within 30% of it.
pub open spec fn admissible_delay(c: RetryConfig, attempt: u32, d: int) -> bool {
    exists|j: int|
        -jitter_bound(capped_backoff_ms(c, attempt)) <= j <= jitter_bound(
            capped_backoff_ms(c, attempt),
        ) && d == #[trigger] jittered_ms(c, attempt, j)
}

proof fn lemma_doubling_monotone(a: nat, b: nat)
    requires
        a <= b,
    ensures
        doubling(a) <= doubling(b),
        doubling(a) >= 1,
    decreases b,
{
    if b > a {
        lemma_doubling_monotone(a, (b - 1) as nat);
    } else if a > 0 {
        lemma_doubling_monotone((a - 1) as nat, (a - 1) as nat);
    }
}

/// With the jitter fixed at zero, the delay of a later attempt is never shorter
/// than that of an earlier one, and no delay exceeds `max_delay_ms`.
pub proof fn lemma_backoff_monotone(c: RetryConfig, n: u32, m: u32)
    requires
        1 <= n <= m,
    ensures
        jittered_ms(c, n, 0) == capped_backoff_ms(c, n),
        jittered_ms(c, n, 0) <= jittered_ms(c, m, 0),
        jittered_ms(c, m, 0) <= c.max_delay_ms,
{
    lemma_doubling_monotone((n - 1) as nat, (m - 1) as nat);
    let b = c.base_delay_ms as nat;
    assert(b * doubling((n - 1) as nat) <= b * doubling((m - 1) as nat)) by (nonlinear_arith)
        requires
            doubling((n - 1) as nat) <= doubling((m - 1) as nat),
    ;
}

/// Relies on rand's `thread_rng` and `Rng::gen_range` over an inclusive
/// range: the draw lies within the bounds. The range is never empty here.
#[verifier::external_body]
fn random_between(low: i64, high: i64) -> (r: i64)
    requires
        low <= high,
    ensures
        low <= r <= high,
{
    rand::thread_rng().gen_range(low..=high)
}

impl Default for RetryConfig {
    fn default() -> (r: Self)
        ensures
            r.base_delay_ms == DEFAULT_BASE_DELAY_MS,
            r.max_delay_ms == DEFAULT_MAX_DELAY_MS,
            r.max_retries == DEFAULT_MAX_RETRIES,
    {
        RetryConfig {
            base_delay_ms: DEFAULT_BASE_DELAY_MS,
            max_delay_ms: DEFAULT_MAX_DELAY_MS,
            max_retries: DEFAULT_MAX_RETRIES,
        }
    }
}

impl RetryConfig {
    /// Creates the default retry configuration (500 ms base, 30 s cap, 3 attempts).
    pub fn new() -> (r: Self)
        ensures
            r.base_delay_ms == DEFAULT_BASE_DELAY_MS,
            r.max_delay_ms == DEFAULT_MAX_DELAY_MS,
            r.max_retries == DEFAULT_MAX_RETRIES,
    {
        RetryConfig {
            base_delay_ms: DEFAULT_BASE_DELAY_MS,
            max_delay_ms: DEFAULT_MAX_DELAY_MS,
            max_retries: DEFAULT_MAX_RETRIES,
        }
    }

    /// Sets the base delay for exponential backoff.
    pub fn with_base_delay(self, delay_ms: u64) -> (r: Self)
        ensures
            r == (RetryConfig { base_delay_ms: delay_ms, ..self }),
    {
        RetryConfig { base_delay_ms: delay_ms, ..self }
    }

    /// Sets the maximum delay between retries.
    pub fn with_max_delay(self, delay_ms: u64) -> (r: Self)
        ensures
            r == (RetryConfig { max_delay_ms: delay_ms, ..self }),
    {
        RetryConfig { max_delay_ms: delay_ms, ..self }
    }

    /// Sets the maximum number of attempts.
    pub fn with_max_retries(self, max: u32) -> (r: Self)
        ensures
            r == (RetryConfig { max_retries: max, ..self }),
    {
        RetryConfig { max_retries: max, ..self }
    }

    /// The exponential delay of `attempt`, capped at `max_delay_ms`, before jitter.
    pub fn capped_backoff(&self, attempt: u32) -> (r: u64)
        ensures
            r == capped_backoff_ms(*self, attempt),
    {
        let max = self.max_delay_ms;
        let mut v: u64 = self.base_delay_ms;
        let mut k: u32 = 1;
        let target: u32 = if attempt == 0 { 1 } else { attempt };
        proof {
            assert(doubling(0) == 1);
            assert(self.base_delay_ms as nat * doubling(0) == self.base_delay_ms as nat);
            assert((k - 1) as nat == 0);
        }
        while k < target && v < max && v > 0
            invariant
                1 <= k <= target,
                target == (if attempt == 0 { 1 } else { attempt }),
                max == self.max_delay_ms,
                v <= self.base_delay_ms as nat * doubling((k - 1) as nat),
                v < max ==> v == self.base_delay_ms as nat * doubling((k - 1) as nat),
                v == 0 ==> self.base_delay_ms == 0,
            decreases target - k,
        {
            let ghost e = self.base_delay_ms as nat * doubling((k - 1) as nat);
            proof {
                assert(doubling(k as nat) == 2 * doubling((k - 1) as nat));
                assert(self.base_delay_ms as nat * doubling(k as nat) == 2 * e) by (nonlinear_arith)
                    requires
                        doubling(k as nat) == 2 * doubling((k - 1) as nat),
                        e == self.base_delay_ms as nat * doubling((k - 1) as nat),
                ;
            }
            if v > max / 2 {
                v = max;
            } else {
                v = v * 2;
            }
            k = k + 1;
        }
        let ghost goal = exponential_ms(self.base_delay_ms, attempt);
        proof {
            let n = if attempt == 0 { 0nat } else { (attempt - 1) as nat };
            lemma_doubling_monotone((k - 1) as nat, n);
            let b = self.base_delay_ms as nat;
            assert(b * doubling((k - 1) as nat) <= b * doubling(n)) by (nonlinear_arith)
                requires
                    doubling((k - 1) as nat) <= doubling(n),
            ;
            if self.base_delay_ms == 0 {
                assert(b * doubling(n) == 0) by (nonlinear_arith)
                    requires
                        b == 0,
                ;
            }
        }
        if v < max {
            v
        } else {
            max
        }
    }

    /// The delay of `attempt` with the given jitter already drawn: the capped
    /// delay plus `jitter`, floored at zero and capped at `max_delay_ms`.
    pub fn delay_with_jitter(&self, attempt: u32, jitter: i64) -> (r: u64)
        ensures
            r == jittered_ms(*self, attempt, jitter as int),
            r <= self.max_delay_ms,
    {
        let capped = self.capped_backoff(attempt);
        let max = self.max_delay_ms;
        if jitter < 0 {
            let down: u64 = (-(jitter as i128)) as u64;
            if down >= capped {
                0
            } else {
                let d = capped - down;
                if d < max { d } else { max }
            }
        } else {
            let up = jitter as u64;
            if up >= max - capped {
                max
            } else {
                capped + up
            }
        }
    }

    /// Half-width of the jitter interval for `attempt`: 30% of the capped delay.
    pub fn jitter_range(&self, attempt: u32) -> (r: u64)
        ensures
            r == jitter_bound(capped_backoff_ms(*self, attempt)),
    {
        let capped = self.capped_backoff(attempt);
        capped / 10 * 3 + capped % 10 * 3 / 10
    }

    /// Calculates the delay for a 1-based attempt: `base * 2^(attempt - 1)`,
    /// capped at `max_delay_ms`, shifted by a uniformly drawn jitter of up to 30%
    /// either way, floored at zero and capped again.
    pub fn calculate_delay(&self, attempt: u32) -> (r: u64)
        ensures
            admissible_delay(*self, attempt, r as int),
            r <= self.max_delay_ms,
    {
        let range = self.jitter_range(attempt);
        let bound: i64 = if range > 0x7fff_ffff_ffff_ffff {
            0x7fff_ffff_ffff_ffff
        } else {
            range as i64
        };
        let jitter = random_between(-bound, bound);
        let r = self.delay_with_jitter(attempt, jitter);
        proof {
            assert(-jitter_bound(capped_backoff_ms(*self, attempt)) <= jitter as int
                <= jitter_bound(capped_backoff_ms(*self, attempt)));
        }
        r
    }

    /// The delay of `attempt` with a server hint and the jitter already drawn:
    /// the hint, where present, is a floor.
    pub fn delay_with_hint_and_jitter(&self, attempt: u32, retry_after_ms: Option<u64>, jitter: i64) -> (r: u64)
        ensures
            r == match retry_after_ms {
                Some(h) => max_int(h as int, jittered_ms(*self, attempt, jitter as int)),
                None => jittered_ms(*self, attempt, jitter as int),
            },
    {
        let d = self.delay_with_jitter(attempt, jitter);
        match retry_after_ms {
            Some(h) => if h >= d { h } else { d },
            None => d,
        }
    }

    /// Calculates the delay respecting a server-provided retry-after hint:
    /// the larger of the hint and `calculate_delay(attempt)`.
    pub fn calculate_delay_with_hint(&self, attempt: u32, retry_after_ms: Option<u64>) -> (r: u64)
        ensures
            exists|d: int| admissible_delay(*self, attempt, d) && r == #[trigger] hinted_delay(retry_after_ms, d),
    {
        let d = self.calculate_delay(attempt);
        let r = match retry_after_ms {
            Some(h) => if h >= d { h } else { d },
            None => d,
        };
        proof {
            assert(r == hinted_delay(retry_after_ms, d as int));
        }
        r
    }
}

} // verus!
