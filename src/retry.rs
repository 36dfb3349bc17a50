use vstd::prelude::*;
use vstd::arithmetic::power::pow;
use vstd::string::StrSliceExecFns;

verus! {

/// How a failed call to the game-data service is classified.
#[derive(Debug, Clone, Copy, PartialEq, Eq, Structural)]
pub enum ConnectionErrorType {
    Network,
    RateLimit,
    ServerError,
    NotFound,
    Unauthorized,
    Unknown,
}

/// Whether a failure of this kind is worth another attempt.
pub open spec fn retryable(kind: ConnectionErrorType) -> bool {
    match kind {
        ConnectionErrorType::NotFound | ConnectionErrorType::Unauthorized => false,
        _ => true,
    }
}

/// The kind of a failure, given the HTTP status of its response (`None`: no response came).
pub open spec fn status_kind(status: Option<u16>) -> ConnectionErrorType {
    match status {
        None => ConnectionErrorType::Network,
        Some(s) => if s == 429 {
            ConnectionErrorType::RateLimit
        } else if s == 404 {
            ConnectionErrorType::NotFound
        } else if s == 401 || s == 403 {
            ConnectionErrorType::Unauthorized
        } else if 500 <= s <= 599 {
            ConnectionErrorType::ServerError
        } else {
            ConnectionErrorType::Unknown
        },
    }
}

/// Determines if an error should trigger a retry.
pub fn is_retryable_error(error_type: &ConnectionErrorType) -> (r: bool)
    ensures
        r == retryable(*error_type),
{
    match error_type {
        ConnectionErrorType::Network => true,
        ConnectionErrorType::RateLimit => true,
        ConnectionErrorType::ServerError => true,
        ConnectionErrorType::NotFound => false,
        ConnectionErrorType::Unauthorized => false,
        ConnectionErrorType::Unknown => true,
    }
}

#[verifier::external_type_specification]
#[verifier::external_body]
pub struct ExRiotApiError(riven::RiotApiError);

/// The HTTP status that a failed call carries (`RiotApiError::status_code`), as a number.
pub uninterp spec fn status_of(err: riven::RiotApiError) -> Option<u16>;

/// The text of the `Retry-After` header of a failed call's response, if any.
pub uninterp spec fn retry_after_of(err: riven::RiotApiError) -> Option<Seq<char>>;

/// Relies on `riven::RiotApiError::status_code`: the HTTP status of the failed
/// response, or `None` when no request got an answer. It returns a field of the
/// error, so it depends on the error alone.
#[verifier::external_body]
pub(crate) fn status_code_of(err: &riven::RiotApiError) -> (r: Option<u16>)
    ensures
        r == status_of(*err),
{
    err.status_code().map(|s| s.as_u16())
}

/// Relies on `riven::RiotApiError::response` and the response's header map: the
/// text of the `Retry-After` header of the failed response, when there is one.
/// The response is held by the error, so the text depends on the error alone.
#[verifier::external_body]
fn retry_after_header(err: &riven::RiotApiError) -> (r: Option<String>)
    ensures
        r is None <==> retry_after_of(*err) is None,
        r matches Some(t) ==> retry_after_of(*err) == Some(t@),
{
    err.response()
        .and_then(|resp| resp.headers().get("Retry-After"))
        .and_then(|v| v.to_str().ok())
        .map(|s| s.to_string())
}

impl ConnectionErrorType {
    /// Classifies a failure by the HTTP status of its response.
    pub fn from_status(status: Option<u16>) -> (r: ConnectionErrorType)
        ensures
            r == status_kind(status),
    {
        match status {
            None => ConnectionErrorType::Network,
            Some(s) => {
                if s == 429 {
                    ConnectionErrorType::RateLimit
                } else if s == 404 {
                    ConnectionErrorType::NotFound
                } else if s == 401 || s == 403 {
                    ConnectionErrorType::Unauthorized
                } else if 500 <= s && s <= 599 {
                    ConnectionErrorType::ServerError
                } else {
                    ConnectionErrorType::Unknown
                }
            },
        }
    }

    /// Classifies a failed call to the game-data service by its HTTP status.
    pub fn from_riot_error(err: &riven::RiotApiError) -> (r: ConnectionErrorType)
        ensures
            r == status_kind(status_of(*err)),
    {
        let status = status_code_of(err);
        Self::from_status(status)
    }
}

impl<'a> From<&'a riven::RiotApiError> for ConnectionErrorType {
    fn from(error: &'a riven::RiotApiError) -> (r: ConnectionErrorType) {
        ConnectionErrorType::from_riot_error(error)
    }
}

impl<'a> vstd::std_specs::convert::FromSpecImpl<&'a riven::RiotApiError> for ConnectionErrorType {
    open spec fn obeys_from_spec() -> bool {
        true
    }

    open spec fn from_spec(v: &'a riven::RiotApiError) -> ConnectionErrorType {
        status_kind(status_of(*v))
    }
}

impl From<riven::RiotApiError> for ConnectionErrorType {
    fn from(error: riven::RiotApiError) -> (r: ConnectionErrorType) {
        ConnectionErrorType::from_riot_error(&error)
    }
}

impl vstd::std_specs::convert::FromSpecImpl<riven::RiotApiError> for ConnectionErrorType {
    open spec fn obeys_from_spec() -> bool {
        true
    }

    open spec fn from_spec(v: riven::RiotApiError) -> ConnectionErrorType {
        status_kind(status_of(v))
    }
}

/// The characters are all decimal digits.
pub open spec fn all_digits(s: Seq<char>) -> bool {
    forall|i: int| 0 <= i < s.len() ==> '0' <= #[trigger] s[i] <= '9'
}

/// The number written by a string of decimal digits.
pub open spec fn digits_value(s: Seq<char>) -> nat
    decreases s.len(),
{
    if s.len() == 0 {
        0
    } else {
        digits_value(s.drop_last()) * 10 + (s.last() as nat - '0' as nat) as nat
    }
}

/// The digits of an unsigned decimal number, without its optional leading `+`.
pub open spec fn unsigned_digits(s: Seq<char>) -> Seq<char> {
    if s.len() > 0 && s[0] == '+' {
        s.subrange(1, s.len() as int)
    } else {
        s
    }
}

/// The text is a whole number of seconds that fits in a `u64`.
pub open spec fn is_seconds_text(s: Seq<char>) -> bool {
    let d = unsigned_digits(s);
    d.len() > 0 && all_digits(d) && digits_value(d) <= u64::MAX
}

proof fn lemma_digits_value_grows(s: Seq<char>, i: int, j: int)
    requires
        0 <= i <= j <= s.len(),
        all_digits(s),
    ensures
        digits_value(s.subrange(0, i)) <= digits_value(s.subrange(0, j)),
    decreases j - i,
{
    if i < j {
        lemma_digits_value_grows(s, i, j - 1);
        assert(s.subrange(0, j).drop_last() =~= s.subrange(0, j - 1));
        let a = digits_value(s.subrange(0, j - 1));
        assert(a <= a * 10) by (nonlinear_arith);
    }
}

/// Reads a `Retry-After` value: an optional `+` and then decimal digits, as
/// `u64::from_str` reads them.
pub fn parse_retry_after(text: &str) -> (r: Option<u64>)
    ensures
        r is Some <==> is_seconds_text(text@),
        r matches Some(v) ==> v == digits_value(unsigned_digits(text@)),
{
    let n = text.unicode_len();
    let start: usize = if n > 0 && text.get_char(0) == '+' {
        1
    } else {
        0
    };
    let ghost d = unsigned_digits(text@);
    assert(d =~= text@.subrange(start as int, n as int));
    if start == n {
        return None;
    }
    let mut value: u64 = 0;
    let mut i: usize = start;
    while i < n
        invariant
            start <= i <= n,
            n == text@.len(),
            d =~= text@.subrange(start as int, n as int),
            d == unsigned_digits(text@),
            all_digits(d.subrange(0, i - start)),
            value == digits_value(d.subrange(0, i - start)),
        decreases n - i,
    {
        let c = text.get_char(i);
        if c < '0' || c > '9' {
            assert(d[i - start] == c);
            return None;
        }
        let digit = (c as u32 - '0' as u32) as u64;
        let ghost prefix = d.subrange(0, i + 1 - start);
        assert(prefix.drop_last() =~= d.subrange(0, i - start));
        assert(prefix.last() == c);
        assert(all_digits(prefix));
        assert(digits_value(prefix) == value * 10 + digit);
        if value > (u64::MAX - digit) / 10 {
            proof {
                assert(digits_value(prefix) > u64::MAX) by (nonlinear_arith)
                    requires
                        digits_value(prefix) == value * 10 + digit,
                        value > (u64::MAX - digit) / 10,
                        digit <= 9,
                ;
                if all_digits(d) {
                    assert(d.subrange(0, d.len() as int) =~= d);
                    lemma_digits_value_grows(d, i + 1 - start, d.len() as int);
                }
            }
            return None;
        }
        assert(value * 10 + digit <= u64::MAX) by (nonlinear_arith)
            requires
                value <= (u64::MAX - digit) / 10,
                digit <= 9,
        ;
        value = value * 10 + digit;
        i = i + 1;
    }
    assert(d.subrange(0, n - start) =~= d);
    Some(value)
}

/// Milliseconds in a whole number of seconds, or `u64::MAX` where that does not fit.
pub open spec fn seconds_to_ms(secs: nat) -> nat {
    if secs * 1000 <= u64::MAX {
        secs * 1000
    } else {
        u64::MAX as nat
    }
}

/// The wait, in milliseconds, that a `Retry-After` text asks for: `None` when there
/// is no text or it is not a whole number of seconds.
pub open spec fn header_wait(text: Option<Seq<char>>) -> Option<u64> {
    match text {
        Some(t) => if is_seconds_text(t) {
            Some(seconds_to_ms(digits_value(unsigned_digits(t))) as u64)
        } else {
            None
        },
        None => None,
    }
}

/// The wait that a rate-limited response asks for, in milliseconds, read from its
/// `Retry-After` header.
pub fn retry_after_ms(err: &riven::RiotApiError) -> (r: Option<u64>)
    ensures
        r == header_wait(retry_after_of(*err)),
{
    match retry_after_header(err) {
        None => None,
        Some(text) => retry_after_text_ms(text.as_str()),
    }
}

/// The wait that a `Retry-After` header's text asks for, in milliseconds; `None`
/// when the text is not a whole number of seconds.
pub fn retry_after_text_ms(text: &str) -> (r: Option<u64>)
    ensures
        r is Some <==> is_seconds_text(text@),
        r matches Some(ms) ==> ms == seconds_to_ms(digits_value(unsigned_digits(text@))),
{
    match parse_retry_after(text) {
        None => None,
        Some(secs) => Some(secs_to_ms(secs)),
    }
}

fn secs_to_ms(secs: u64) -> (r: u64)
    ensures
        r == seconds_to_ms(secs as nat),
{
    if secs > u64::MAX / 1000 {
        u64::MAX
    } else {
        secs * 1000
    }
}

/// Configuration for retry attempts. Delays are in milliseconds; the backoff
/// multiplier is the fraction `backoff_num / backoff_den`.
#[derive(Debug, Clone, Copy)]
pub struct RetryConfig {
    pub max_attempts: u32,
    pub base_delay_ms: u64,
    pub max_delay_ms: u64,
    pub backoff_num: u32,
    pub backoff_den: u32,
}

impl RetryConfig {
    /// At least one attempt, a multiplier above one, and the multiplier's
    /// denominator raised to the number of retries within 32 bits, so that every
    /// delay is computed exactly in 128-bit arithmetic. This bounds the retries by
    /// the multiplier's denominator, not by the policy: a whole-number multiplier
    /// allows any number, halves (3/2) allow 32, tenths (11/10) about 10. Write the
    /// fraction in lowest terms to get the most.
    pub open spec fn wf(&self) -> bool {
        &&& self.max_attempts >= 1
        &&& self.backoff_den >= 1
        &&& self.backoff_num > self.backoff_den
        &&& pow(self.backoff_den as int, (self.max_attempts - 1) as nat) <= u32::MAX
    }

    /// The configuration has exactly these values.
    pub open spec fn is(&self, attempts: nat, base: nat, max: nat, num: nat, den: nat) -> bool {
        &&& self.max_attempts == attempts
        &&& self.base_delay_ms == base
        &&& self.max_delay_ms == max
        &&& self.backoff_num == num
        &&& self.backoff_den == den
    }
}

impl Default for RetryConfig {
    /// The standard policy: 3 attempts, 500 ms doubling up to 30 s.
    fn default() -> (r: RetryConfig)
        ensures
            r.is(3, 500, 30_000, 2, 1),
    {
        RetryConfig {
            max_attempts: 3,
            base_delay_ms: 500,
            max_delay_ms: 30_000,
            backoff_num: 2,
            backoff_den: 1,
        }
    }
}

/// Quick retry for critical operations: 3 attempts, 200 ms growing by 1.5 up to 5 s.
pub fn quick_retry_config() -> (r: RetryConfig)
    ensures
        r.is(3, 200, 5_000, 3, 2),
        r.wf(),
{
    proof {
        vstd::arithmetic::power::lemma_pow_adds(2, 1, 1);
        vstd::arithmetic::power::lemma_pow1(2);
    }
    RetryConfig {
        max_attempts: 3,
        base_delay_ms: 200,
        max_delay_ms: 5_000,
        backoff_num: 3,
        backoff_den: 2,
    }
}

/// Standard retry for normal operations: the default policy.
pub fn standard_retry_config() -> (r: RetryConfig)
    ensures
        r.is(3, 500, 30_000, 2, 1),
        r.wf(),
{
    proof {
        vstd::arithmetic::power::lemma1_pow(2);
    }
    RetryConfig::default()
}

/// Extended retry for non-critical operations: 5 attempts, 1 s doubling up to 60 s.
pub fn extended_retry_config() -> (r: RetryConfig)
    ensures
        r.is(5, 1_000, 60_000, 2, 1),
        r.wf(),
{
    proof {
        vstd::arithmetic::power::lemma1_pow(4);
    }
    RetryConfig {
        max_attempts: 5,
        base_delay_ms: 1_000,
        max_delay_ms: 60_000,
        backoff_num: 2,
        backoff_den: 1,
    }
}

/// The delay before retry `i` without the cap: `base * (num / den)^i`, rounded
/// down to a millisecond.
pub open spec fn raw_delay(config: RetryConfig, i: nat) -> nat {
    (config.base_delay_ms * pow(config.backoff_num as int, i) / pow(config.backoff_den as int, i)) as nat
}

/// The delay that follows failed attempt `i` (zero-based):
/// `min(base * multiplier^i, max_delay)`, rounded down to a millisecond.
pub open spec fn backoff_delay(config: RetryConfig, i: nat) -> nat {
    if raw_delay(config, i) <= config.max_delay_ms {
        raw_delay(config, i)
    } else {
        config.max_delay_ms as nat
    }
}

/// `b * p > n` exactly when `p` exceeds `n / b`.
proof fn lemma_exceeds_quotient(b: int, p: int, n: int)
    requires
        b > 0,
        n >= 0,
        p >= 0,
    ensures
        (b * p > n) <==> (p > n / b),
{
    vstd::arithmetic::div_mod::lemma_fundamental_div_mod(n, b);
    vstd::arithmetic::div_mod::lemma_mod_bound(n, b);
    let q = n / b;
    let r = n % b;
    if p > q {
        assert(b * p > n) by (nonlinear_arith)
            requires
                p >= q + 1,
                b > 0,
                n == b * q + r,
                r < b,
        ;
    } else {
        assert(b * p <= n) by (nonlinear_arith)
            requires
                p <= q,
                b > 0,
                n == b * q + r,
                r >= 0,
        ;
    }
}

/// Once `base * num^k` reaches `(max + 1) * den^k`, it stays there for every later `k`.
proof fn lemma_stays_above(config: RetryConfig, k: nat, j: nat)
    requires
        config.wf(),
        k <= j,
        config.base_delay_ms * pow(config.backoff_num as int, k) >= (config.max_delay_ms + 1) * pow(
            config.backoff_den as int,
            k,
        ),
    ensures
        config.base_delay_ms * pow(config.backoff_num as int, j) >= (config.max_delay_ms + 1) * pow(
            config.backoff_den as int,
            j,
        ),
    decreases j - k,
{
    if k < j {
        let jm = (j - 1) as nat;
        lemma_stays_above(config, k, jm);
        let num = config.backoff_num as int;
        let den = config.backoff_den as int;
        let x = config.base_delay_ms * pow(num, jm);
        let y = (config.max_delay_ms + 1) * pow(den, jm);
        vstd::arithmetic::power::lemma_pow_adds(num, jm, 1);
        vstd::arithmetic::power::lemma_pow_adds(den, jm, 1);
        vstd::arithmetic::power::lemma_pow1(num);
        vstd::arithmetic::power::lemma_pow1(den);
        vstd::arithmetic::power::lemma_pow_positive(den, jm);
        assert(config.base_delay_ms * (pow(num, jm) * num) >= (config.max_delay_ms + 1) * (pow(
            den,
            jm,
        ) * den)) by (nonlinear_arith)
            requires
                x == config.base_delay_ms * pow(num, jm),
                y == (config.max_delay_ms + 1) * pow(den, jm),
                x >= y,
                y >= 0,
                num > den,
                den >= 1,
        {
            assert(x * num >= y * num);
            assert(y * num >= y * den);
        }
    }
}

/// With a whole-number multiplier the delay after failed attempt `i` is
/// `min(base * multiplier^i, max_delay)`, with no rounding.
pub proof fn lemma_whole_multiplier_delay(config: RetryConfig, i: nat)
    requires
        config.wf(),
        config.backoff_den == 1,
    ensures
        backoff_delay(config, i) == vstd::math::min(
            config.base_delay_ms * pow(config.backoff_num as int, i),
            config.max_delay_ms as int,
        ),
{
    vstd::arithmetic::power::lemma1_pow(i);
    vstd::arithmetic::power::lemma_pow_positive(config.backoff_num as int, i);
    assert(pow(config.backoff_den as int, i) == 1);
    assert(config.base_delay_ms * pow(config.backoff_num as int, i) >= 0) by (nonlinear_arith)
        requires
            pow(config.backoff_num as int, i) > 0,
    ;
    assert(config.base_delay_ms * pow(config.backoff_num as int, i) / 1 == config.base_delay_ms * pow(
        config.backoff_num as int,
        i,
    ));
}

/// Delays never shrink from one attempt to the next, and never pass the cap.
pub proof fn lemma_delay_grows(config: RetryConfig, i: nat)
    requires
        config.wf(),
    ensures
        backoff_delay(config, i) <= backoff_delay(config, i + 1),
        backoff_delay(config, i) <= config.max_delay_ms,
{
    let num = config.backoff_num as int;
    let den = config.backoff_den as int;
    let a = config.base_delay_ms * pow(num, i);
    let b = pow(den, i);
    vstd::arithmetic::power::lemma_pow_adds(num, i, 1);
    vstd::arithmetic::power::lemma_pow_adds(den, i, 1);
    vstd::arithmetic::power::lemma_pow1(num);
    vstd::arithmetic::power::lemma_pow1(den);
    vstd::arithmetic::power::lemma_pow_positive(num, i);
    vstd::arithmetic::power::lemma_pow_positive(den, i);
    let c = config.base_delay_ms * (pow(num, i) * num);
    let d = b * den;
    assert(a >= 0 && c >= 0 && d >= 1) by (nonlinear_arith)
        requires
            pow(num, i) > 0,
            b > 0,
            num > 0,
            den >= 1,
            a == config.base_delay_ms * pow(num, i),
            c == config.base_delay_ms * (pow(num, i) * num),
            d == b * den,
    ;
    let f = a / b;
    assert(f >= 0) by {
        vstd::arithmetic::div_mod::lemma_div_pos_is_pos(a, b);
    }
    assert(c == a * num) by (nonlinear_arith)
        requires
            a == config.base_delay_ms * pow(num, i),
            c == config.base_delay_ms * (pow(num, i) * num),
    ;
    vstd::arithmetic::div_mod::lemma_fundamental_div_mod(a, b);
    vstd::arithmetic::div_mod::lemma_mod_bound(a, b);
    assert(f * d <= c) by (nonlinear_arith)
        requires
            a == b * f + a % b,
            a % b >= 0,
            f >= 0,
            b > 0,
            d == b * den,
            c == a * num,
            num > den,
            den >= 1,
    {
        assert(b * f <= a);
        assert(b * f * den <= a * den);
        assert(a * den <= a * num);
    }
    vstd::arithmetic::div_mod::lemma_div_is_ordered(f * d, c, d);
    vstd::arithmetic::div_mod::lemma_div_multiples_vanish(f, d);
    assert(f * d == d * f);
    assert(pow(num, (i + 1) as nat) == pow(num, i) * pow(num, 1));
    assert(pow(den, (i + 1) as nat) == pow(den, i) * pow(den, 1));
    assert(c == config.base_delay_ms * pow(num, (i + 1) as nat));
    assert(d == pow(den, (i + 1) as nat));
}

/// Calculates the delay for the next retry attempt, in milliseconds. The delay is
/// exact: `den^attempt` must fit in 32 bits, which holds for every attempt that
/// a well-formed configuration allows.
pub fn calculate_delay(attempt: u32, config: &RetryConfig) -> (r: u64)
    requires
        config.wf(),
        pow(config.backoff_den as int, attempt as nat) <= u32::MAX,
    ensures
        r == backoff_delay(*config, attempt as nat),
{
    let ghost num = config.backoff_num as int;
    let ghost den = config.backoff_den as int;
    let base = config.base_delay_ms as u128;
    let max = config.max_delay_ms as u128;
    proof {
        vstd::arithmetic::power::lemma_pow0(num);
        vstd::arithmetic::power::lemma_pow0(den);
    }
    if base == 0 {
        proof {
            vstd::arithmetic::power::lemma_pow_positive(den, attempt as nat);
            assert(config.base_delay_ms == 0);
            assert(config.base_delay_ms * pow(num, attempt as nat) == 0) by (nonlinear_arith)
                requires
                    config.base_delay_ms == 0,
            ;
            let dd = pow(den, attempt as nat);
            vstd::arithmetic::div_mod::lemma_div_multiples_vanish(0, dd);
            assert(dd * 0 == 0);
        }
        assert(raw_delay(*config, attempt as nat) == 0);
        return 0;
    }
    if base > max {
        proof {
            assert(base * 1 >= (max + 1) * 1);
            lemma_stays_above(*config, 0, attempt as nat);
            lemma_floor_above(*config, attempt as nat);
        }
        return config.max_delay_ms;
    }
    let mut p: u128 = 1;
    let mut q: u128 = 1;
    let mut k: u32 = 0;
    while k < attempt
        invariant
            config.wf(),
            base == config.base_delay_ms,
            max == config.max_delay_ms,
            base > 0,
            k <= attempt,
            pow(den, attempt as nat) <= u32::MAX,
            num == config.backoff_num,
            den == config.backoff_den,
            p == pow(num, k as nat),
            q == pow(den, k as nat),
            1 <= q <= u32::MAX,
            base * p < (max + 1) * q,
        decreases attempt - k,
    {
        proof {
            vstd::arithmetic::power::lemma_pow_adds(num, k as nat, 1);
            vstd::arithmetic::power::lemma_pow_adds(den, k as nat, 1);
            vstd::arithmetic::power::lemma_pow1(num);
            vstd::arithmetic::power::lemma_pow1(den);
            vstd::arithmetic::power::lemma_pow_increases(den as nat, (k + 1) as nat, attempt as nat);
            lemma_exceeds_quotient(base as int, p as int, ((max + 1) * q - 1) as int);
            assert(((max + 1) * q - 1) / (base as int) <= (max + 1) * q - 1) by {
                vstd::arithmetic::div_mod::lemma_div_is_ordered_by_denominator(
                    ((max + 1) * q - 1) as int,
                    1,
                    base as int,
                );
            }
            assert((max + 1) * q <= 0x1_0000_0000_0000_0000 * 0xffff_ffff) by (nonlinear_arith)
                requires
                    max + 1 <= 0x1_0000_0000_0000_0000,
                    q <= 0xffff_ffff,
            ;
            assert(p * config.backoff_num <= 0x1_0000_0000_0000_0000 * 0xffff_ffff * 0xffff_ffff)
                by (nonlinear_arith)
                requires
                    p <= 0x1_0000_0000_0000_0000 * 0xffff_ffff,
                    config.backoff_num <= 0xffff_ffff,
            ;
        }
        let p2: u128 = p * (config.backoff_num as u128);
        let q2: u128 = q * (config.backoff_den as u128);
        assert(q2 <= u32::MAX);
        assert(q2 >= 1) by (nonlinear_arith)
            requires
                q2 == q * config.backoff_den,
                q >= 1,
                config.backoff_den >= 1,
        ;
        assert(1 <= (max + 1) * q2 <= 0x1_0000_0000_0000_0000 * 0xffff_ffff) by (nonlinear_arith)
            requires
                max + 1 <= 0x1_0000_0000_0000_0000,
                1 <= q2 <= 0xffff_ffff,
        ;
        let bound: u128 = (max + 1) * q2 - 1;
        proof {
            lemma_exceeds_quotient(base as int, p2 as int, bound as int);
        }
        if p2 > bound / base {
            proof {
                lemma_stays_above(*config, (k + 1) as nat, attempt as nat);
                lemma_floor_above(*config, attempt as nat);
            }
            return config.max_delay_ms;
        }
        p = p2;
        q = q2;
        k = k + 1;
    }
    assert(base * p <= 0x1_0000_0000_0000_0000 * 0xffff_ffff) by (nonlinear_arith)
        requires
            base * p < (max + 1) * q,
            max + 1 <= 0x1_0000_0000_0000_0000,
            q <= 0xffff_ffff,
    ;
    let d: u128 = base * p / q;
    proof {
        lemma_floor_below(base as int * p as int, q as int, max as int);
    }
    d as u64
}

/// `base * num^i >= (max + 1) * den^i` puts the rounded delay above the cap.
proof fn lemma_floor_above(config: RetryConfig, i: nat)
    requires
        config.wf(),
        config.base_delay_ms * pow(config.backoff_num as int, i) >= (config.max_delay_ms + 1) * pow(
            config.backoff_den as int,
            i,
        ),
    ensures
        raw_delay(config, i) > config.max_delay_ms,
{
    let q = pow(config.backoff_den as int, i);
    vstd::arithmetic::power::lemma_pow_positive(config.backoff_den as int, i);
    vstd::arithmetic::div_mod::lemma_div_is_ordered(
        (config.max_delay_ms + 1) * q,
        config.base_delay_ms * pow(config.backoff_num as int, i),
        q,
    );
    vstd::arithmetic::div_mod::lemma_div_multiples_vanish((config.max_delay_ms + 1) as int, q);
    assert((config.max_delay_ms + 1) * q == q * (config.max_delay_ms + 1));
}

/// `x < (max + 1) * q` puts `x / q` at or below `max`.
proof fn lemma_floor_below(x: int, q: int, max: int)
    requires
        q >= 1,
        0 <= x < (max + 1) * q,
        max >= 0,
    ensures
        x / q <= max,
{
    vstd::arithmetic::div_mod::lemma_fundamental_div_mod(x, q);
    vstd::arithmetic::div_mod::lemma_mod_bound(x, q);
    let d = x / q;
    let r = x % q;
    assert(d <= max) by (nonlinear_arith)
        requires
            x == q * d + r,
            0 <= r,
            x < (max + 1) * q,
            q >= 1,
    ;
}

/// Enhanced error information: how a retried call finally failed.
#[derive(Debug, Clone)]
pub struct RetryError {
    pub error_type: ConnectionErrorType,
    pub attempts_made: u32,
    pub last_error: String,
    pub is_retryable: bool,
}

/// What the retry engine does after a failed attempt.
#[derive(Debug, Clone)]
pub enum RetryStep {
    /// Wait this many milliseconds, then make the next attempt.
    Wait { delay_ms: u64 },
    /// Stop: the call has failed.
    GiveUp(RetryError),
}

/// The engine stops after failed attempt `attempt` (zero-based): it was the last
/// one allowed, or its failure is not worth retrying.
pub open spec fn stops_after(config: RetryConfig, attempt: int, kind: ConnectionErrorType) -> bool {
    attempt + 1 >= config.max_attempts || !retryable(kind)
}

/// The wait after failed attempt `attempt`: a rate-limited response's own hint when
/// it gave one, else the backoff delay.
pub open spec fn wait_after(
    config: RetryConfig,
    attempt: nat,
    kind: ConnectionErrorType,
    hint_ms: Option<u64>,
) -> nat {
    match hint_ms {
        Some(h) if kind == ConnectionErrorType::RateLimit => h as nat,
        _ => backoff_delay(config, attempt),
    }
}

/// Decides what follows failed attempt `attempt` (zero-based) of a retried call.
/// `hint_ms` is the wait that a rate-limited response asked for, if any.
pub fn after_failure(
    config: &RetryConfig,
    attempt: u32,
    kind: ConnectionErrorType,
    last_error: String,
    hint_ms: Option<u64>,
) -> (r: RetryStep)
    requires
        config.wf(),
        attempt < config.max_attempts,
    ensures
        (r is GiveUp) == stops_after(*config, attempt as int, kind),
        r matches RetryStep::GiveUp(e) ==> {
            &&& e.error_type == kind
            &&& e.attempts_made == attempt + 1
            &&& e.last_error == last_error
            &&& e.is_retryable == retryable(kind)
        },
        r matches RetryStep::Wait { delay_ms } ==> delay_ms == wait_after(
            *config,
            attempt as nat,
            kind,
            hint_ms,
        ),
{
    let retry = is_retryable_error(&kind);
    proof {
        vstd::arithmetic::power::lemma_pow_increases(
            config.backoff_den as nat,
            attempt as nat,
            (config.max_attempts - 1) as nat,
        );
    }
    if attempt + 1 >= config.max_attempts || !retry {
        return RetryStep::GiveUp(
            RetryError { error_type: kind, attempts_made: attempt + 1, last_error, is_retryable: retry },
        );
    }
    let delay_ms = match hint_ms {
        Some(h) => if kind == ConnectionErrorType::RateLimit {
            h
        } else {
            calculate_delay(attempt, config)
        },
        None => calculate_delay(attempt, config),
    };
    RetryStep::Wait { delay_ms }
}

/// The outcome of one call that the retry engine makes.
pub enum AttemptOutcome {
    Success,
    Failure(ConnectionErrorType),
}

/// The outcome is a failure worth retrying.
pub open spec fn retryable_failure(o: AttemptOutcome) -> bool {
    match o {
        AttemptOutcome::Success => false,
        AttemptOutcome::Failure(kind) => retryable(kind),
    }
}

/// How many calls the engine makes, and whether it ends in success, when call `j`
/// has outcome `outcomes[j]`, counting from attempt `attempt` on.
pub open spec fn engine_run(config: RetryConfig, outcomes: Seq<AttemptOutcome>, attempt: nat) -> (
    bool,
    nat,
)
    decreases config.max_attempts - attempt,
{
    if attempt >= outcomes.len() || attempt >= config.max_attempts {
        (false, attempt)
    } else {
        match outcomes[attempt as int] {
            AttemptOutcome::Success => (true, attempt + 1),
            AttemptOutcome::Failure(kind) => if stops_after(config, attempt as int, kind) {
                (false, attempt + 1)
            } else {
                engine_run(config, outcomes, attempt + 1)
            },
        }
    }
}

/// An operation that fails `k` times with retryable failures and then succeeds,
/// under a policy that allows more than `k` attempts, succeeds after exactly
/// `k + 1` calls.
pub proof fn lemma_succeeds_after_failures(config: RetryConfig, outcomes: Seq<AttemptOutcome>, k: nat)
    requires
        config.wf(),
        k < config.max_attempts,
        k < outcomes.len(),
        forall|j: int| 0 <= j < k ==> retryable_failure(#[trigger] outcomes[j]),
        outcomes[k as int] is Success,
    ensures
        engine_run(config, outcomes, 0) == (true, k + 1),
{
    lemma_run_from(config, outcomes, k, 0);
}

proof fn lemma_run_from(config: RetryConfig, outcomes: Seq<AttemptOutcome>, k: nat, a: nat)
    requires
        config.wf(),
        a <= k,
        k < config.max_attempts,
        k < outcomes.len(),
        forall|j: int| 0 <= j < k ==> retryable_failure(#[trigger] outcomes[j]),
        outcomes[k as int] is Success,
    ensures
        engine_run(config, outcomes, a) == (true, k + 1),
    decreases k - a,
{
    if a < k {
        assert(retryable_failure(outcomes[a as int]));
        lemma_run_from(config, outcomes, k, a + 1);
    }
}

/// An operation whose first call fails with a failure not worth retrying is
/// called exactly once, whatever the number of attempts allowed.
pub proof fn lemma_stops_on_permanent_failure(
    config: RetryConfig,
    outcomes: Seq<AttemptOutcome>,
)
    requires
        config.wf(),
        outcomes.len() > 0,
        outcomes[0] is Failure,
        !retryable_failure(outcomes[0]),
    ensures
        engine_run(config, outcomes, 0) == (false, 1nat),
{
}

/// The time the engine spends waiting, counting from attempt `attempt` on, when
/// no response gives a wait of its own.
pub open spec fn engine_wait(config: RetryConfig, outcomes: Seq<AttemptOutcome>, attempt: nat) -> nat
    decreases config.max_attempts - attempt,
{
    if attempt >= outcomes.len() || attempt >= config.max_attempts {
        0
    } else {
        match outcomes[attempt as int] {
            AttemptOutcome::Success => 0,
            AttemptOutcome::Failure(kind) => if stops_after(config, attempt as int, kind) {
                0
            } else {
                backoff_delay(config, attempt) + engine_wait(config, outcomes, attempt + 1)
            },
        }
    }
}

/// The sum of the capped delays after attempts `from` up to `max_attempts - 2`.
pub open spec fn delay_budget(config: RetryConfig, from: nat) -> nat
    decreases config.max_attempts - from,
{
    if from + 1 >= config.max_attempts {
        0
    } else {
        backoff_delay(config, from) + delay_budget(config, from + 1)
    }
}

/// Whatever the outcomes, the waits between attempts add up to at most the sum
/// of the capped delays after attempts `0` to `max_attempts - 2`.
pub proof fn lemma_wait_bounded(config: RetryConfig, outcomes: Seq<AttemptOutcome>)
    requires
        config.wf(),
    ensures
        engine_wait(config, outcomes, 0) <= delay_budget(config, 0),
{
    lemma_wait_bounded_from(config, outcomes, 0);
}

proof fn lemma_wait_bounded_from(config: RetryConfig, outcomes: Seq<AttemptOutcome>, a: nat)
    requires
        config.wf(),
    ensures
        engine_wait(config, outcomes, a) <= delay_budget(config, a),
    decreases config.max_attempts - a,
{
    if a < outcomes.len() && a < config.max_attempts {
        lemma_wait_bounded_from(config, outcomes, a + 1);
    }
}

} // verus!
