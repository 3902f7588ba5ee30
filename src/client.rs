//! The resilient Polygon.io client: URL building, credentials, response
//! classification and the retry state machine.
//!
//! The network round trip and the sleeps are the caller's: it asks the client
//! what to do next, does it, and hands the outcome back.
use vstd::prelude::*;

use crate::cache::{default_cache_config, CacheConfig, ResponseCache};
use crate::error::{retryable, PolygonError};
use crate::rate_limit::{default_rate_limit_config, AcquireStep, RateLimitConfig, RateLimiter};
use crate::retry::{admissible_delay, default_retry_config, hinted_delay, RetryConfig};
use crate::types::{error_text, ErrorResponse};

verus! {

/// The API's base URL.
pub const BASE_URL: &'static str = "https://api.polygon.io";

/// Default request timeout, in milliseconds.
pub const DEFAULT_TIMEOUT_MS: u64 = 30_000;

/// The query parameter that carries the credential.
pub const API_KEY_PARAM: &'static str = "apiKey";

/// Seconds to wait after a 429 that carries no usable `Retry-After`.
pub const DEFAULT_RETRY_AFTER_SECS: u64 = 1;

/// The URL that `Url::join` makes of `path` against `base`, or none where
/// either does not parse.
pub uninterp spec fn joined_url(base: Seq<char>, path: Seq<char>) -> Option<Seq<char>>;

/// The URL with the query pair `name=value` appended (existing pairs kept),
/// or none where it does not parse.
pub uninterp spec fn url_with_pair(url: Seq<char>, name: Seq<char>, value: Seq<char>) -> Option<Seq<char>>;

/// Relies on url's `Url::parse` of `base` and `Url::join`: the serialised
/// result depends on the two strings alone.
#[verifier::external_body]
fn join_url(base: &str, path: &str) -> (r: Result<String, url::ParseError>)
    ensures
        match r {
            Ok(s) => joined_url(base@, path@) == Some(s@),
            Err(_) => joined_url(base@, path@) is None,
        },
{
    let parsed = url::Url::parse(base)?;
    Ok(parsed.join(path)?.to_string())
}

/// Relies on url's `Url::parse` and `Url::query_pairs_mut().append_pair`: the
/// serialised result depends on the three strings alone.
#[verifier::external_body]
fn append_query_pair(url: &str, name: &str, value: &str) -> (r: Result<String, url::ParseError>)
    ensures
        match r {
            Ok(s) => url_with_pair(url@, name@, value@) == Some(s@),
            Err(_) => url_with_pair(url@, name@, value@) is None,
        },
{
    let mut parsed = url::Url::parse(url)?;
    parsed.query_pairs_mut().append_pair(name, value);
    Ok(parsed.to_string())
}

pub open spec fn is_digit(c: char) -> bool {
    '0' <= c && c <= '9'
}

pub open spec fn digit_value(c: char) -> nat {
    (c as u32 - '0' as u32) as nat
}

pub open spec fn digit_char(d: nat) -> char {
    seq!['0', '1', '2', '3', '4', '5', '6', '7', '8', '9'][d as int]
}

/// The value of a string of decimal digits.
pub open spec fn digits_value(s: Seq<char>) -> nat
    decreases s.len(),
{
    if s.len() == 0 {
        0
    } else {
        digits_value(s.drop_last()) * 10 + digit_value(s.last())
    }
}

/// The decimal form of `n`, without leading zeros.
pub open spec fn decimal(n: nat) -> Seq<char>
    decreases n,
{
    if n < 10 {
        seq![digit_char(n)]
    } else {
        decimal(n / 10).push(digit_char(n % 10))
    }
}

/// The text after an optional leading `+`.
pub open spec fn unsigned_digits(s: Seq<char>) -> Seq<char> {
    if s.len() > 0 && s[0] == '+' { s.drop_first() } else { s }
}

/// Whether every character is a decimal digit.
pub open spec fn all_digits(d: Seq<char>) -> bool {
    forall|i: int| 0 <= i < d.len() ==> is_digit(#[trigger] d[i])
}

/// What `str::parse::<u64>` yields: an optional `+` then one or more decimal
/// digits whose value fits in a u64.
pub open spec fn parsed_u64(s: Seq<char>) -> Option<u64> {
    let d = unsigned_digits(s);
    if d.len() > 0 && all_digits(d) && digits_value(d) <= u64::MAX {
        Some(digits_value(d) as u64)
    } else {
        None
    }
}

proof fn lemma_digits_prefix(x: Seq<char>, k: int)
    requires
        0 <= k <= x.len(),
    ensures
        digits_value(x.subrange(0, k)) <= digits_value(x),
    decreases x.len(),
{
    if k < x.len() {
        assert(x.drop_last().subrange(0, k) =~= x.subrange(0, k));
        lemma_digits_prefix(x.drop_last(), k);
    } else {
        assert(x.subrange(0, k) =~= x);
    }
}

/// Reads a decimal number as `str::parse::<u64>` does: an optional `+`, then
/// one or more ASCII digits whose value fits in a u64.
pub fn parse_u64(s: &str) -> (r: Option<u64>)
    ensures
        r == parsed_u64(s@),
{
    let len = s.unicode_len();
    let start: usize = if len > 0 && s.get_char(0) == '+' { 1 } else { 0 };
    let ghost d = unsigned_digits(s@);
    proof {
        assert(d =~= s@.subrange(start as int, len as int));
    }
    if start >= len {
        return None;
    }
    let mut i: usize = start;
    let mut v: u64 = 0;
    while i < len
        invariant
            start <= i <= len,
            len == s@.len(),
            d == s@.subrange(start as int, len as int),
            d == unsigned_digits(s@),
            forall|j: int| start <= j < i ==> is_digit(#[trigger] s@[j]),
            v == digits_value(s@.subrange(start as int, i as int)),
        decreases len - i,
    {
        let c = s.get_char(i);
        let ghost prefix = s@.subrange(start as int, i as int + 1);
        proof {
            assert(prefix.drop_last() =~= s@.subrange(start as int, i as int));
            assert(prefix.last() == s@[i as int]);
            assert(d[i - start] == s@[i as int]);
        }
        if !('0' <= c && c <= '9') {
            proof {
                assert(!is_digit(d[i - start]));
                assert(!all_digits(d));
                assert(parsed_u64(s@) is None);
            }
            return None;
        }
        proof {
            assert(digit_value(c) == (c as u32 - '0' as u32));
            assert(digits_value(prefix) == v * 10 + digit_value(c));
        }
        let digit = (c as u32 - '0' as u32) as u64;
        if v > (u64::MAX - digit) / 10 {
            proof {
                assert(v * 10 + digit > u64::MAX) by (nonlinear_arith)
                    requires
                        v > (u64::MAX - digit) / 10,
                        digit <= 9,
                ;
                assert(d.subrange(0, i - start + 1) =~= prefix);
                lemma_digits_prefix(d, i - start + 1);
                assert(digits_value(d) > u64::MAX);
                assert(parsed_u64(s@) is None);
            }
            return None;
        }
        proof {
            assert(v * 10 + digit <= u64::MAX) by (nonlinear_arith)
                requires
                    v <= (u64::MAX - digit) / 10,
                    digit <= 9,
            ;
        }
        v = v * 10 + digit;
        i = i + 1;
    }
    proof {
        assert forall|j: int| 0 <= j < d.len() implies is_digit(#[trigger] d[j]) by {
            assert(d[j] == s@[j + start]);
        }
        assert(all_digits(d));
    }
    Some(v)
}

fn digit_text(d: u64) -> (r: &'static str)
    requires
        d < 10,
    ensures
        r@ == seq![digit_char(d as nat)],
{
    proof {
        reveal_strlit("0");
        reveal_strlit("1");
        reveal_strlit("2");
        reveal_strlit("3");
        reveal_strlit("4");
        reveal_strlit("5");
        reveal_strlit("6");
        reveal_strlit("7");
        reveal_strlit("8");
        reveal_strlit("9");
    }
    let r = if d == 0 {
        "0"
    } else if d == 1 {
        "1"
    } else if d == 2 {
        "2"
    } else if d == 3 {
        "3"
    } else if d == 4 {
        "4"
    } else if d == 5 {
        "5"
    } else if d == 6 {
        "6"
    } else if d == 7 {
        "7"
    } else if d == 8 {
        "8"
    } else {
        "9"
    };
    assert(r@ =~= seq![digit_char(d as nat)]);
    r
}

/// The decimal form of `n`, without leading zeros.
pub fn decimal_string(n: u64) -> (r: String)
    ensures
        r@ == decimal(n as nat),
    decreases n,
{
    if n < 10 {
        digit_text(n).to_owned()
    } else {
        let mut s = decimal_string(n / 10);
        s.append(digit_text(n % 10));
        assert(s@ =~= decimal((n / 10) as nat).push(digit_char((n % 10) as nat)));
        s
    }
}

/// The delay that a `Retry-After` header asks for, in seconds: its value
/// where it parses, else one second.
pub open spec fn retry_after_secs(header: Option<Seq<char>>) -> u64 {
    match header {
        Some(h) => match parsed_u64(h) {
            Some(n) => n,
            None => DEFAULT_RETRY_AFTER_SECS,
        },
        None => DEFAULT_RETRY_AFTER_SECS,
    }
}

/// Seconds as milliseconds, saturating at the largest u64.
pub open spec fn secs_as_ms(secs: u64) -> u64 {
    if secs as int * 1000 <= u64::MAX { (secs * 1000) as u64 } else { u64::MAX }
}

/// Seconds as milliseconds, saturating at the largest u64.
pub fn millis_of_secs(secs: u64) -> (r: u64)
    ensures
        r == secs_as_ms(secs),
{
    if secs <= u64::MAX / 1000 { secs * 1000 } else { u64::MAX }
}

/// What came back from one HTTP attempt.
#[derive(Debug, Clone)]
pub enum HttpReply {
    /// The server answered.
    Response {
        status: u16,
        /// The `Retry-After` header, where present.
        retry_after: Option<String>,
        /// The `x-request-id` header, where present.
        request_id: Option<String>,
        /// The body text.
        body: String,
        /// The body decoded as an error document, where it is one.
        error_body: Option<ErrorResponse>,
    },
    /// The request failed before a response arrived (connection, timeout).
    TransportFailure(String),
}

pub open spec fn opt_view(o: Option<String>) -> Option<Seq<char>> {
    match o {
        Some(s) => Some(s@),
        None => None,
    }
}

/// The classification of a reply: success with the body, or the error.
pub open spec fn classified(reply: HttpReply, r: Result<String, PolygonError>) -> bool {
    match reply {
        HttpReply::Response { status, retry_after, request_id, body, error_body } => {
            if status == 200 {
                r matches Ok(b) && b@ == body@
            } else if status == 429 {
                r matches Err(PolygonError::RateLimit { retry_after_secs: secs })
                    && secs == retry_after_secs(opt_view(retry_after))
            } else if status == 401 || status == 403 {
                r matches Err(PolygonError::Unauthorized)
            } else {
                r matches Err(PolygonError::ApiError { status: s, message: m, request_id: q })
                    && s == status && opt_view(q) == opt_view(request_id)
                    && m@ == match error_body {
                        Some(e) => error_text(e),
                        None => "HTTP "@ + decimal(status as nat),
                    }
            }
        },
        HttpReply::TransportFailure(msg) => r matches Err(PolygonError::Request(m)) && m@ == msg@,
    }
}

fn clone_opt(o: &Option<String>) -> (r: Option<String>)
    ensures
        opt_view(r) == opt_view(*o),
{
    match o {
        Some(s) => Some(s.clone()),
        None => None,
    }
}

/// Classifies one reply: 200 is success; 429 is a retryable throttle carrying
/// the `Retry-After` delay (one second by default); 401 and 403 are
/// unauthorized; any other status is an API error, retryable only in 500-599;
/// a transport failure is retryable.
pub fn classify_reply(reply: &HttpReply) -> (r: Result<String, PolygonError>)
    ensures
        classified(*reply, r),
{
    match reply {
        HttpReply::Response { status, retry_after, request_id, body, error_body } => {
            if *status == 200 {
                Ok(body.clone())
            } else if *status == 429 {
                let secs: u64 = match retry_after {
                    Some(h) => match parse_u64(h.as_str()) {
                        Some(n) => n,
                        None => DEFAULT_RETRY_AFTER_SECS,
                    },
                    None => DEFAULT_RETRY_AFTER_SECS,
                };
                Err(PolygonError::RateLimit { retry_after_secs: secs })
            } else if *status == 401 || *status == 403 {
                Err(PolygonError::Unauthorized)
            } else {
                let message = match error_body {
                    Some(e) => e.message(),
                    None => {
                        let mut text = "HTTP ".to_owned();
                        text.append(decimal_string(*status as u64).as_str());
                        text
                    },
                };
                Err(PolygonError::api_error(*status, message, clone_opt(request_id)))
            }
        },
        HttpReply::TransportFailure(msg) => Err(PolygonError::Request(msg.clone())),
    }
}

/// The throttling delay a reply asks for, in milliseconds: a 429's
/// `Retry-After` (one second by default), none for any other reply.
pub open spec fn throttle_hint(reply: HttpReply) -> Option<u64> {
    match reply {
        HttpReply::Response { status, retry_after, .. } => if status == 429 {
            Some(secs_as_ms(retry_after_secs(opt_view(retry_after))))
        } else {
            None
        },
        HttpReply::TransportFailure(_) => None,
    }
}

/// Two classifications of one reply agree on whether it is retryable.
proof fn lemma_classified_retryable(reply: HttpReply, e1: PolygonError, e2: PolygonError)
    requires
        classified(reply, Err(e1)),
        classified(reply, Err(e2)),
    ensures
        retryable(e1) == retryable(e2),
{
}

/// Progress of the attempts of one request.
#[derive(Debug, Clone, Copy, PartialEq, Eq)]
pub struct RetryState {
    /// Attempts begun so far.
    pub attempts: u32,
    /// Attempts allowed.
    pub max_retries: u32,
    /// The last throttling delay the server asked for, in milliseconds.
    pub hint_ms: Option<u64>,
}

/// What to do after an attempt.
#[derive(Debug)]
pub enum AttemptOutcome {
    /// The request is finished, with this result.
    Done(Result<String, PolygonError>),
    /// Wait this many milliseconds, then begin the next attempt.
    RetryAfter(u64),
}

/// How a request begins.
#[derive(Debug)]
pub enum RequestStart {
    /// The cache answered: no token is taken and no request is made.
    Cached(String),
    /// Nothing cached: attempts begin from this state.
    Fresh(RetryState),
}

/// Whether another attempt may begin after `attempts` attempts.
pub open spec fn may_attempt(attempts: u32, max_retries: u32) -> bool {
    attempts < max_retries
}

impl RetryState {
    /// The state before any attempt.
    pub open spec fn spec_new(max_retries: u32) -> RetryState {
        RetryState { attempts: 0, max_retries, hint_ms: None }
    }

    /// No attempt made yet.
    pub fn new(max_retries: u32) -> (r: Self)
        ensures
            r == RetryState::spec_new(max_retries),
    {
        RetryState { attempts: 0, max_retries, hint_ms: None }
    }

    /// Begins an attempt where one is left, counting it.
    pub fn begin_attempt(&mut self) -> (r: bool)
        ensures
            r == may_attempt(old(self).attempts, old(self).max_retries),
            final(self).max_retries == old(self).max_retries,
            final(self).hint_ms == old(self).hint_ms,
            final(self).attempts == if r { old(self).attempts + 1 } else { old(self).attempts as int },
    {
        if self.attempts < self.max_retries {
            self.attempts = self.attempts + 1;
            true
        } else {
            false
        }
    }

    /// The error that ends a request whose attempts ran out.
    pub fn exhausted(&self) -> (r: PolygonError)
        ensures
            r == (PolygonError::MaxRetriesExceeded { attempts: self.attempts }),
    {
        PolygonError::MaxRetriesExceeded { attempts: self.attempts }
    }
}

/// Builder for a [`PolygonClient`].
pub struct PolygonClientBuilder {
    pub api_key: Option<String>,
    pub base_url: String,
    pub timeout_ms: u64,
    pub retry_config: RetryConfig,
    pub cache_config: CacheConfig,
    pub rate_limit_config: RateLimitConfig,
}

/// The Polygon.io client's state: credential, endpoint, policies, cache and
/// rate limiter.
pub struct PolygonClient {
    api_key: String,
    base_url: String,
    timeout_ms: u64,
    retry_config: RetryConfig,
    cache: ResponseCache,
    rate_limiter: RateLimiter,
}

impl Default for PolygonClientBuilder {
    fn default() -> (r: Self)
        ensures
            r.api_key is None,
            r.base_url@ == BASE_URL@,
            r.timeout_ms == DEFAULT_TIMEOUT_MS,
            r.retry_config == default_retry_config(),
            r.cache_config == default_cache_config(),
            r.rate_limit_config == default_rate_limit_config(),
    {
        PolygonClientBuilder::new()
    }
}

impl PolygonClientBuilder {
    /// A builder with the defaults: no key, the public endpoint, a 30 s
    /// timeout, and the default retry, cache and rate-limit policies.
    pub fn new() -> (r: Self)
        ensures
            r.api_key is None,
            r.base_url@ == BASE_URL@,
            r.timeout_ms == DEFAULT_TIMEOUT_MS,
            r.retry_config == default_retry_config(),
            r.cache_config == default_cache_config(),
            r.rate_limit_config == default_rate_limit_config(),
    {
        PolygonClientBuilder {
            api_key: None,
            base_url: BASE_URL.to_owned(),
            timeout_ms: DEFAULT_TIMEOUT_MS,
            retry_config: RetryConfig::default(),
            cache_config: CacheConfig::default(),
            rate_limit_config: RateLimitConfig::default(),
        }
    }

    /// Sets the API key.
    pub fn api_key(self, key: &str) -> (r: Self)
        ensures
            r.api_key matches Some(k) && k@ == key@,
            r.base_url == self.base_url,
            r.timeout_ms == self.timeout_ms,
            r.retry_config == self.retry_config,
            r.cache_config == self.cache_config,
            r.rate_limit_config == self.rate_limit_config,
    {
        PolygonClientBuilder { api_key: Some(key.to_owned()), ..self }
    }

    /// Sets the base URL.
    pub fn base_url(self, url: &str) -> (r: Self)
        ensures
            r.base_url@ == url@,
            r.api_key == self.api_key,
            r.timeout_ms == self.timeout_ms,
            r.retry_config == self.retry_config,
            r.cache_config == self.cache_config,
            r.rate_limit_config == self.rate_limit_config,
    {
        PolygonClientBuilder { base_url: url.to_owned(), ..self }
    }

    /// Sets the request timeout, in milliseconds.
    pub fn timeout(self, timeout_ms: u64) -> (r: Self)
        ensures
            r == (PolygonClientBuilder { timeout_ms, ..self }),
    {
        PolygonClientBuilder { timeout_ms, ..self }
    }

    /// Sets the number of attempts.
    pub fn max_retries(self, max_retries: u32) -> (r: Self)
        ensures
            r == (PolygonClientBuilder {
                retry_config: RetryConfig { max_retries, ..self.retry_config },
                ..self
            }),
    {
        let retry_config = self.retry_config.with_max_retries(max_retries);
        PolygonClientBuilder { retry_config, ..self }
    }

    /// Sets the retry policy.
    pub fn retry(self, config: RetryConfig) -> (r: Self)
        ensures
            r == (PolygonClientBuilder { retry_config: config, ..self }),
    {
        PolygonClientBuilder { retry_config: config, ..self }
    }

    /// Sets the cache policy.
    pub fn cache(self, config: CacheConfig) -> (r: Self)
        ensures
            r == (PolygonClientBuilder { cache_config: config, ..self }),
    {
        PolygonClientBuilder { cache_config: config, ..self }
    }

    /// Sets the rate-limit policy.
    pub fn rate_limit(self, config: RateLimitConfig) -> (r: Self)
        ensures
            r == (PolygonClientBuilder { rate_limit_config: config, ..self }),
    {
        PolygonClientBuilder { rate_limit_config: config, ..self }
    }

    /// Builds the client; fails exactly when no API key was given.
    pub fn build(self) -> (r: Result<PolygonClient, PolygonError>)
        ensures
            self.api_key is None <==> r matches Err(PolygonError::MissingApiKey),
            self.api_key is None || r is Ok,
            r matches Ok(c) ==> c.wf() && Some(c.key()) == opt_view(self.api_key)
                && c.base()@ == self.base_url@ && c.retry() == self.retry_config
                && c.timeout() == self.timeout_ms
                && c.limiter()@.config == self.rate_limit_config
                && c.limiter()@.level == crate::rate_limit::capacity_units(self.rate_limit_config)
                && c.response_cache().is_on() == self.cache_config.enabled
                && c.response_cache().entries() == Map::<Seq<char>, Seq<char>>::empty(),
    {
        match self.api_key {
            None => Err(PolygonError::MissingApiKey),
            Some(api_key) => Ok(PolygonClient {
                api_key,
                base_url: self.base_url,
                timeout_ms: self.timeout_ms,
                retry_config: self.retry_config,
                cache: ResponseCache::new(&self.cache_config),
                rate_limiter: RateLimiter::new(self.rate_limit_config),
            }),
        }
    }
}

impl PolygonClient {
    pub closed spec fn key(&self) -> Seq<char> {
        self.api_key@
    }

    pub closed spec fn base(&self) -> String {
        self.base_url
    }

    pub closed spec fn retry(&self) -> RetryConfig {
        self.retry_config
    }

    pub closed spec fn timeout(&self) -> u64 {
        self.timeout_ms
    }

    pub closed spec fn limiter(&self) -> RateLimiter {
        self.rate_limiter
    }

    pub closed spec fn response_cache(&self) -> ResponseCache {
        self.cache
    }

    /// The rate limiter's bucket never overflows.
    pub closed spec fn wf(&self) -> bool {
        self.rate_limiter.wf()
    }

    /// A builder with the defaults.
    pub fn builder() -> (r: PolygonClientBuilder)
        ensures
            r.api_key is None,
            r.base_url@ == BASE_URL@,
            r.timeout_ms == DEFAULT_TIMEOUT_MS,
            r.retry_config == default_retry_config(),
            r.cache_config == default_cache_config(),
            r.rate_limit_config == default_rate_limit_config(),
    {
        PolygonClientBuilder::new()
    }

    /// A client with the given key and the defaults.
    pub fn with_key(api_key: &str) -> (r: Result<Self, PolygonError>)
        ensures
            r matches Ok(c) && c.wf() && c.key() == api_key@ && c.base()@ == BASE_URL@,
    {
        PolygonClientBuilder::new().api_key(api_key).build()
    }

    /// The base URL.
    pub fn base_url(&self) -> (r: &str)
        ensures
            r@ == self.base()@,
    {
        self.base_url.as_str()
    }

    /// The API key.
    pub fn api_key(&self) -> (r: &str)
        ensures
            r@ == self.key(),
    {
        self.api_key.as_str()
    }

    /// The request timeout, in milliseconds.
    pub fn timeout_ms(&self) -> (r: u64)
        ensures
            r == self.timeout(),
    {
        self.timeout_ms
    }

    /// The response cache.
    pub fn cache(&self) -> (r: &ResponseCache)
        ensures
            *r == self.response_cache(),
    {
        &self.cache
    }

    /// The rate limiter.
    pub fn rate_limiter(&self) -> (r: &RateLimiter)
        ensures
            *r == self.limiter(),
    {
        &self.rate_limiter
    }

    /// `path` joined to the base URL; an absolute URL stands as it is.
    pub fn build_url(&self, path: &str) -> (r: Result<String, PolygonError>)
        ensures
            match joined_url(self.base()@, path@) {
                Some(u) => r matches Ok(s) && s@ == u,
                None => r matches Err(PolygonError::InvalidUrl(_)),
            },
    {
        match join_url(self.base_url.as_str(), path) {
            Ok(s) => Ok(s),
            Err(e) => Err(PolygonError::InvalidUrl(e)),
        }
    }

    /// `url` with the credential appended as a query parameter, keeping any
    /// query parameters it has.
    pub fn append_api_key(&self, url: &str) -> (r: Result<String, PolygonError>)
        ensures
            match url_with_pair(url@, API_KEY_PARAM@, self.key()) {
                Some(u) => r matches Ok(s) && s@ == u,
                None => r matches Err(PolygonError::InvalidUrl(_)),
            },
    {
        match append_query_pair(url, API_KEY_PARAM, self.api_key.as_str()) {
            Ok(s) => Ok(s),
            Err(e) => Err(PolygonError::InvalidUrl(e)),
        }
    }

    /// The fully resolved URL of an API path: joined to the base URL, with
    /// the credential appended. This is also the cache key.
    pub fn request_url(&self, path: &str) -> (r: Result<String, PolygonError>)
        ensures
            match joined_url(self.base()@, path@) {
                Some(u) => match url_with_pair(u, API_KEY_PARAM@, self.key()) {
                    Some(v) => r matches Ok(s) && s@ == v,
                    None => r matches Err(PolygonError::InvalidUrl(_)),
                },
                None => r matches Err(PolygonError::InvalidUrl(_)),
            },
    {
        let joined = self.build_url(path)?;
        self.append_api_key(joined.as_str())
    }

    /// The cached body for a resolved URL. A hit needs no token and no request.
    pub fn cached(&self, url: &str) -> (r: Option<String>)
        ensures
            !self.response_cache().is_on() ==> r is None,
            r matches Some(v) ==> self.response_cache().entries().contains_key(url@)
                && self.response_cache().entries()[url@] == v@,
    {
        self.cache.get(url)
    }

    /// Begins a request for a resolved URL: the cached body where the cache
    /// has one, else a fresh attempt counter.
    pub fn start_request(&self, url: &str) -> (r: RequestStart)
        ensures
            match r {
                RequestStart::Cached(b) => self.response_cache().is_on()
                    && self.response_cache().entries().contains_key(url@)
                    && self.response_cache().entries()[url@] == b@,
                RequestStart::Fresh(state) => state == (RetryState {
                    attempts: 0,
                    max_retries: self.retry().max_retries,
                    hint_ms: None,
                }),
            },
    {
        match self.cache.get(url) {
            Some(body) => RequestStart::Cached(body),
            None => RequestStart::Fresh(self.retry_state()),
        }
    }

    /// A fresh attempt counter for one request.
    pub fn retry_state(&self) -> (r: RetryState)
        ensures
            r == (RetryState { attempts: 0, max_retries: self.retry().max_retries, hint_ms: None }),
    {
        RetryState::new(self.retry_config.max_retries)
    }

    /// One step of acquiring a rate-limit token before an attempt.
    pub fn poll_permit(&mut self) -> (r: AcquireStep)
        requires
            old(self).wf(),
        ensures
            final(self).wf(),
            final(self).key() == old(self).key(),
            final(self).base() == old(self).base(),
            final(self).retry() == old(self).retry(),
            final(self).response_cache() == old(self).response_cache(),
            final(self).limiter().wf(),
            final(self).limiter()@.config == old(self).limiter()@.config,
            exists|now: int| now >= 0 && (final(self).limiter()@.level, final(self).limiter()@.last, r is Acquired)
                == #[trigger] crate::rate_limit::try_step(old(self).limiter()@.config, old(self).limiter()@.level,
                old(self).limiter()@.last, now),
            !old(self).limiter()@.config.enabled ==> r is Acquired,
    {
        let ghost before = self.rate_limiter@;
        let r = self.rate_limiter.poll_acquire();
        proof {
            let now = choose|now: int| now >= 0 && (self.rate_limiter@.level, self.rate_limiter@.last, r is Acquired)
                == #[trigger] crate::rate_limit::try_step(before.config, before.level, before.last, now);
            assert(crate::rate_limit::try_step(old(self).limiter()@.config, old(self).limiter()@.level,
                old(self).limiter()@.last, now) == (final(self).limiter()@.level, final(self).limiter()@.last, r is Acquired));
        }
        r
    }

    /// Settles one attempt of the request for `url` (begun with
    /// `state.begin_attempt()`): success is cached and returned; a permanent
    /// error is returned at once; a transient one is retried after the backoff
    /// delay (the server's hint being a floor), or, on the last allowed attempt,
    /// ends the request with `MaxRetriesExceeded`.
    pub fn on_reply(&mut self, state: &mut RetryState, url: &str, reply: HttpReply) -> (r: AttemptOutcome)
        requires
            old(self).wf(),
        ensures
            final(self).wf(),
            final(self).key() == old(self).key(),
            final(self).base() == old(self).base(),
            final(self).retry() == old(self).retry(),
            final(self).limiter() == old(self).limiter(),
            final(self).response_cache().is_on() == old(self).response_cache().is_on(),
            final(state).attempts == old(state).attempts,
            final(state).max_retries == old(state).max_retries,
            match r {
                AttemptOutcome::Done(Ok(b)) => classified(reply, Ok(b))
                    && (old(self).response_cache().is_on() ==> final(self).response_cache().entries()
                        == old(self).response_cache().entries().insert(url@, b@)),
                AttemptOutcome::Done(Err(PolygonError::MaxRetriesExceeded { attempts })) =>
                    attempts == old(state).attempts
                    && !may_attempt(old(state).attempts, old(state).max_retries)
                    && final(self).response_cache() == old(self).response_cache()
                    && exists|e: PolygonError| classified(reply, Err(e)) && #[trigger] retryable(e),
                AttemptOutcome::Done(Err(e)) => classified(reply, Err(e)) && !retryable(e)
                    && final(self).response_cache() == old(self).response_cache(),
                AttemptOutcome::RetryAfter(ms) => may_attempt(old(state).attempts, old(state).max_retries)
                    && final(self).response_cache() == old(self).response_cache()
                    && exists|e: PolygonError| classified(reply, Err(e)) && #[trigger] retryable(e)
                    && final(state).hint_ms == match throttle_hint(reply) {
                        Some(h) => Some(h),
                        None => old(state).hint_ms,
                    }
                    && exists|d: int| admissible_delay(old(self).retry(), old(state).attempts, d)
                        && ms == #[trigger] hinted_delay(final(state).hint_ms, d),
            },
            forall|e: PolygonError| #[trigger] classified(reply, Err(e)) && retryable(e) ==> (r is RetryAfter
                <==> may_attempt(old(state).attempts, old(state).max_retries)),
    {
        let outcome = classify_reply(&reply);
        match outcome {
            Ok(body) => {
                self.cache.insert(url.to_owned(), body.clone());
                AttemptOutcome::Done(Ok(body))
            },
            Err(e) => {
                proof {
                    assert forall|e2: PolygonError| #[trigger] classified(reply, Err(e2)) implies retryable(e2)
                        == retryable(e) by {
                        lemma_classified_retryable(reply, e, e2);
                    }
                }
                if !e.is_retryable() {
                    return AttemptOutcome::Done(Err(e));
                }
                if state.attempts >= state.max_retries {
                    return AttemptOutcome::Done(Err(state.exhausted()));
                }
                if let PolygonError::RateLimit { retry_after_secs } = e {
                    state.hint_ms = Some(millis_of_secs(retry_after_secs));
                }
                let delay = self.retry_config.calculate_delay_with_hint(state.attempts, state.hint_ms);
                AttemptOutcome::RetryAfter(delay)
            },
        }
    }
}

/// A request whose every reply is a transient failure makes exactly
/// `max_retries` attempts and ends citing `max_retries`.
///
/// `states[k]` is the request's `RetryState` after `k` attempts were begun.
/// By `begin_attempt`'s contract each attempt adds one and is begun only
/// while `may_attempt` holds; by `on_reply`'s, a transient failure is retried
/// only while `may_attempt` holds and otherwise ends the request with
/// `MaxRetriesExceeded` citing the count, as a refused `begin_attempt` does
/// through `exhausted`. So the run ends at the first state where
/// `may_attempt` fails, and that state's count is the one cited.
pub proof fn lemma_retry_exhaustion(states: Seq<RetryState>, max_retries: u32)
    requires
        states.len() >= 1,
        states[0] == RetryState::spec_new(max_retries),
        forall|k: int| 0 <= k < states.len() - 1 ==> may_attempt(#[trigger] states[k].attempts, max_retries)
            && states[k + 1].attempts == states[k].attempts + 1,
        !may_attempt(states.last().attempts, max_retries),
    ensures
        states.len() - 1 == max_retries,
        states.last().attempts == max_retries,
{
    assert forall|k: int| 0 <= k < states.len() implies #[trigger] states[k].attempts == k by {
        lemma_attempt_counts(states, max_retries, k);
    }
    if states.len() >= 2 {
        assert(may_attempt(states[states.len() - 2].attempts, max_retries));
    }
}

proof fn lemma_attempt_counts(states: Seq<RetryState>, max_retries: u32, k: int)
    requires
        0 <= k < states.len(),
        states[0].attempts == 0,
        forall|j: int| 0 <= j < states.len() - 1 ==> may_attempt(#[trigger] states[j].attempts, max_retries)
            && states[j + 1].attempts == states[j].attempts + 1,
    ensures
        states[k].attempts == k,
    decreases k,
{
    if k > 0 {
        lemma_attempt_counts(states, max_retries, k - 1);
        assert(may_attempt(states[k - 1].attempts, max_retries));
    }
}

} // verus!
