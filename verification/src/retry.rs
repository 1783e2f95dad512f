//! Retry policy for calls to upstream HTTP services: which outcomes are retried,
//! how long to wait (exponential backoff, `Retry-After`, random jitter) and when
//! to give up. Delays are in milliseconds.

use crate::text::{
    decimal, is_digit, lemma_decimal_digits, lemma_parse_decimal, parse_unsigned, parse_unsigned_max, trim, trim_end,
    trim_start, trim_str,
};
use rand::Rng;
use vstd::prelude::*;

verus! {

/// How a service's requests are retried.
pub struct RetryConfig {
    /// Retries after the first attempt.
    pub max_retries: u32,
    /// Delay before the first retry, in milliseconds.
    pub base_delay_ms: u64,
    /// Upper bound of the backoff delay, in milliseconds.
    pub max_delay_ms: u64,
    /// Name used in log messages.
    pub service_name: &'static str,
}

/// TMDB API calls.
pub fn tmdb_api_retry() -> (c: RetryConfig)
    ensures
        c.max_retries == 2,
        c.base_delay_ms == 500,
        c.max_delay_ms == 4000,
        c.service_name@ == "tmdb"@,
{
    RetryConfig {
        max_retries: 2,
        base_delay_ms: 500,
        max_delay_ms: 4000,
        service_name: "tmdb",
    }
}

/// TMDB image CDN downloads.
pub fn tmdb_cdn_retry() -> (c: RetryConfig)
    ensures
        c.max_retries == 2,
        c.base_delay_ms == 1000,
        c.max_delay_ms == 8000,
        c.service_name@ == "tmdb-cdn"@,
{
    RetryConfig {
        max_retries: 2,
        base_delay_ms: 1000,
        max_delay_ms: 8000,
        service_name: "tmdb-cdn",
    }
}

/// Fanart.tv calls.
pub fn fanart_retry() -> (c: RetryConfig)
    ensures
        c.max_retries == 3,
        c.base_delay_ms == 1000,
        c.max_delay_ms == 8000,
        c.service_name@ == "fanart"@,
{
    RetryConfig {
        max_retries: 3,
        base_delay_ms: 1000,
        max_delay_ms: 8000,
        service_name: "fanart",
    }
}

/// OMDb calls.
pub fn omdb_retry() -> (c: RetryConfig)
    ensures
        c.max_retries == 1,
        c.base_delay_ms == 2000,
        c.max_delay_ms == 2000,
        c.service_name@ == "omdb"@,
{
    RetryConfig {
        max_retries: 1,
        base_delay_ms: 2000,
        max_delay_ms: 2000,
        service_name: "omdb",
    }
}

/// MDBList calls.
pub fn mdblist_retry() -> (c: RetryConfig)
    ensures
        c.max_retries == 1,
        c.base_delay_ms == 2000,
        c.max_delay_ms == 2000,
        c.service_name@ == "mdblist"@,
{
    RetryConfig {
        max_retries: 1,
        base_delay_ms: 2000,
        max_delay_ms: 2000,
        service_name: "mdblist",
    }
}

/// Trakt calls.
pub fn trakt_retry() -> (c: RetryConfig)
    ensures
        c.max_retries == 1,
        c.base_delay_ms == 2000,
        c.max_delay_ms == 2000,
        c.service_name@ == "trakt"@,
{
    RetryConfig {
        max_retries: 1,
        base_delay_ms: 2000,
        max_delay_ms: 2000,
        service_name: "trakt",
    }
}

/// `x`, saturated at `u64::MAX`.
pub open spec fn sat_u64(x: int) -> int {
    if x <= u64::MAX {
        x
    } else {
        u64::MAX as int
    }
}

/// A uniformly random integer in `0..=hi`, from `rand::rng().random_range`.
/// The contract states only the range, which holds of every outcome.
#[verifier::external_body]
fn random_up_to(hi: u64) -> (r: u64)
    ensures
        r <= hi,
{
    rand::rng().random_range(0..=hi)
}

/// A delay lengthened by `jitter_ms` (saturating at `u64::MAX` milliseconds).
pub fn with_jitter(delay_ms: u64, jitter_ms: u64) -> (r: u64)
    ensures
        r == sat_u64(delay_ms + jitter_ms),
{
    delay_ms.saturating_add(jitter_ms)
}

/// Adds random jitter of 0–25% (in whole milliseconds) to a delay: the jitter
/// drawn is handed to [`with_jitter`].
pub fn add_jitter(delay_ms: u64) -> (r: u64)
    ensures
        exists|j: int| 0 <= j <= delay_ms / 4 && r == #[trigger] sat_u64(delay_ms + j),
        delay_ms <= r <= sat_u64(delay_ms + delay_ms / 4),
{
    let jitter = random_up_to(delay_ms / 4);
    let r = with_jitter(delay_ms, jitter);
    assert(0 <= jitter as int <= delay_ms / 4 && r == sat_u64(delay_ms + jitter as int));
    r
}

/// `base * 2^attempt`, saturating, capped at `max`.
pub open spec fn backoff_base(base: nat, max: nat, attempt: nat) -> nat {
    let grown = base * vstd::arithmetic::power2::pow2(attempt);
    let sat = if grown > u64::MAX {
        u64::MAX as nat
    } else {
        grown
    };
    if sat < max {
        sat
    } else {
        max
    }
}

/// Exponential backoff: `min(base_delay * 2^attempt, max_delay)` plus 0–25% jitter.
pub fn backoff_delay(config: &RetryConfig, attempt: u32) -> (r: u64)
    requires
        attempt < 32,
    ensures
        ({
            let d = backoff_base(config.base_delay_ms as nat, config.max_delay_ms as nat, attempt as nat);
            d <= r <= sat_u64((d + d / 4) as int)
        }),
        r <= sat_u64(config.max_delay_ms + config.max_delay_ms / 4),
{
    proof {
        vstd::arithmetic::power2::lemma2_to64();
        if attempt < 32 {
            vstd::arithmetic::power2::lemma_pow2_strictly_increases(attempt as nat, 32);
        }
    }
    let factor: u64 = 1u64 << attempt;
    proof {
        assert(factor == vstd::arithmetic::power2::pow2(attempt as nat)) by {
            vstd::bits::lemma_u64_shl_is_mul(1, attempt as u64);
        }
    }
    assert((config.base_delay_ms as u128) * (factor as u128) <= 0xffff_ffff_ffff_ffffu128 * 0x1_0000_0000u128)
        by (nonlinear_arith)
        requires
            factor <= 0x1_0000_0000u64,
    ;
    let grown: u128 = (config.base_delay_ms as u128) * (factor as u128);
    let sat: u64 = if grown > 18446744073709551615u128 {
        18446744073709551615u64
    } else {
        grown as u64
    };
    let delay = if sat < config.max_delay_ms {
        sat
    } else {
        config.max_delay_ms
    };
    add_jitter(delay)
}

/// The wait before retrying a `429 Too Many Requests`: the `Retry-After`
/// seconds when the header holds a whole number (capped at the maximum delay),
/// plus jitter; otherwise the backoff delay.
pub open spec fn retry_after_base(header: Option<Seq<char>>, max_delay_ms: nat) -> Option<nat> {
    match header {
        Some(h) => match parse_unsigned(trim(h), u64::MAX as nat) {
            Some(secs) => Some(
                if secs * 1000 < max_delay_ms {
                    secs * 1000
                } else {
                    max_delay_ms
                },
            ),
            None => None,
        },
        None => None,
    }
}

/// Delay before retrying a 429 answer, honouring its `Retry-After` value.
pub fn retry_after_delay(retry_after: Option<&str>, config: &RetryConfig, attempt: u32) -> (r: u64)
    requires
        attempt < 32,
    ensures
        match retry_after_base(
            match retry_after {
                Some(h) => Some(h@),
                None => None,
            },
            config.max_delay_ms as nat,
        ) {
            Some(d) => d <= r <= sat_u64((d + d / 4) as int),
            None => {
                let d = backoff_base(config.base_delay_ms as nat, config.max_delay_ms as nat, attempt as nat);
                d <= r <= sat_u64((d + d / 4) as int)
            },
        },
{
    if let Some(val) = retry_after {
        if let Some(secs) = parse_unsigned_max(trim_str(val), 18446744073709551615u64) {
            let capped = if (secs as u128) * 1000 < config.max_delay_ms as u128 {
                secs * 1000
            } else {
                config.max_delay_ms
            };
            return add_jitter(capped);
        }
    }
    backoff_delay(config, attempt)
}

/// What happened on one attempt of a request.
pub enum AttemptOutcome<'a> {
    /// The server answered with this status; `retry_after` is the
    /// `Retry-After` header value, when present and readable.
    Answered { status: u16, retry_after: Option<&'a str> },
    /// The request could not be completed (connection error, timeout, ...).
    Failed,
}

/// What to do after an attempt.
#[derive(Debug, Clone, Copy, PartialEq, Eq, Structural)]
pub enum RetryStep {
    /// Hand the answer to the caller.
    ReturnResponse,
    /// Report the request error to the caller.
    ReturnError,
    /// Wait this many milliseconds, then try again.
    Retry { delay_ms: u64 },
}

/// Whether a status is a server error (5xx).
pub open spec fn is_server_error(status: u16) -> bool {
    500 <= status < 600
}

/// Decides the next step after attempt number `attempt` (counting from 0) of a
/// request sent under `config`: 429 and 5xx answers and connection failures are
/// retried until `max_retries` retries are spent; then the last answer (or the
/// error) is returned. Every other answer is returned at once.
pub fn retry_step(config: &RetryConfig, attempt: u32, outcome: AttemptOutcome) -> (step: RetryStep)
    requires
        attempt <= config.max_retries,
        config.max_retries < 32,
    ensures
        attempt == config.max_retries ==> !(step is Retry),
        match outcome {
            AttemptOutcome::Answered { status, retry_after } => if status == 429 || is_server_error(status) {
                if attempt == config.max_retries {
                    step == RetryStep::ReturnResponse
                } else {
                    step matches RetryStep::Retry { delay_ms } && ({
                        let base = if status == 429 {
                            retry_after_base(
                                match retry_after {
                                    Some(h) => Some(h@),
                                    None => None,
                                },
                                config.max_delay_ms as nat,
                            )
                        } else {
                            None
                        };
                        let d = match base {
                            Some(b) => b,
                            None => backoff_base(
                                config.base_delay_ms as nat,
                                config.max_delay_ms as nat,
                                attempt as nat,
                            ),
                        };
                        d <= delay_ms <= sat_u64((d + d / 4) as int)
                    })
                }
            } else {
                step == RetryStep::ReturnResponse
            },
            AttemptOutcome::Failed => if attempt == config.max_retries {
                step == RetryStep::ReturnError
            } else {
                step matches RetryStep::Retry { delay_ms } && ({
                    let d = backoff_base(
                        config.base_delay_ms as nat,
                        config.max_delay_ms as nat,
                        attempt as nat,
                    );
                    d <= delay_ms <= sat_u64((d + d / 4) as int)
                })
            },
        },
{
    match outcome {
        AttemptOutcome::Answered { status, retry_after } => {
            if status == 429 {
                if attempt == config.max_retries {
                    return RetryStep::ReturnResponse;
                }
                RetryStep::Retry { delay_ms: retry_after_delay(retry_after, config, attempt) }
            } else if 500 <= status && status < 600 {
                if attempt == config.max_retries {
                    return RetryStep::ReturnResponse;
                }
                RetryStep::Retry { delay_ms: backoff_delay(config, attempt) }
            } else {
                RetryStep::ReturnResponse
            }
        },
        AttemptOutcome::Failed => {
            if attempt == config.max_retries {
                return RetryStep::ReturnError;
            }
            RetryStep::Retry { delay_ms: backoff_delay(config, attempt) }
        },
    }
}

/// A readable `Retry-After` of `n` seconds asks for `n * 1000` milliseconds,
/// capped at the policy's maximum delay; surrounding whitespace is ignored.
pub proof fn lemma_retry_after_is_seconds(n: u64, max_delay_ms: nat)
    ensures
        retry_after_base(Some(decimal(n as nat)), max_delay_ms) == Some(
            if n * 1000 < max_delay_ms {
                (n * 1000) as nat
            } else {
                max_delay_ms
            },
        ),
        retry_after_base(Some(seq![' '] + decimal(n as nat) + seq![' ']), max_delay_ms) == retry_after_base(
            Some(decimal(n as nat)),
            max_delay_ms,
        ),
{
    let d = decimal(n as nat);
    lemma_decimal_digits(n as nat);
    lemma_parse_decimal(n as nat, u64::MAX as nat);
    assert(is_digit(d[0]) && is_digit(d[d.len() - 1]));
    assert(trim_start(d) == d);
    assert(trim_end(d) == d);
    let padded = seq![' '] + d + seq![' '];
    assert(padded.drop_first() =~= d + seq![' ']);
    assert(trim_start(d + seq![' ']) == d + seq![' ']) by {
        assert((d + seq![' '])[0] == d[0]);
    }
    assert(trim_start(padded) == d + seq![' ']);
    assert((d + seq![' ']).drop_last() =~= d);
    assert(trim_end(d + seq![' ']) == trim_end(d));
}

} // verus!
