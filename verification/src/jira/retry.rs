//! The limit on requests in flight and the retry policy.

use vstd::prelude::*;
use crate::decimal::{parse_u64, parse_unsigned};
use crate::jira::JiraError;
use crate::metrics::{Metrics, after_request, after_retry, bump};
use crate::text::{chars_of, opt_text};

verus! {

/// How often a request is sent again after a retryable answer.
pub const MAX_RETRIES: usize = 3;

/// How many requests may be in flight at once.
pub const DEFAULT_MAX_IN_FLIGHT: usize = 4;

/// The longest wait that a `Retry-After` header can ask for, in seconds.
pub const MAX_RETRY_AFTER_SECS: u64 = 30;

/// A request to the remote service: the address and the query parameters. Who asks is
/// part of the client's settings.
#[derive(Debug)]
pub struct HttpRequest {
    pub url: String,
    pub query: Vec<(String, String)>,
}

/// An answer of the remote service, as far as the rules read it.
#[derive(Debug)]
pub struct HttpResponse {
    /// The status code.
    pub status: u16,
    /// The value of the `Retry-After` header, where there is one and it is text.
    pub retry_after: Option<String>,
    /// The body.
    pub body: String,
}

/// The count of requests in flight, bounded by `max`.
#[derive(Debug, Clone, Copy)]
pub struct Limiter {
    pub max: usize,
    pub in_flight: usize,
}

impl Limiter {
    /// Never more requests in flight than allowed, and at least one is allowed.
    pub open spec fn wf(self) -> bool {
        1 <= self.max && self.in_flight <= self.max
    }

    /// A limiter for `max` requests in flight, and for one where `max` is zero.
    pub fn new(max: usize) -> (l: Self)
        ensures
            l.wf(),
            l.in_flight == 0,
            l.max == (if max < 1 {
                1
            } else {
                max
            }),
    {
        Limiter {
            max: if max < 1 {
                1
            } else {
                max
            },
            in_flight: 0,
        }
    }

    /// Takes a permit if one is free. A caller that gets none waits for a release and
    /// asks again.
    pub fn acquire(&mut self) -> (granted: bool)
        requires
            old(self).wf(),
        ensures
            final(self).wf(),
            granted == (old(self).in_flight < old(self).max),
            final(self).max == old(self).max,
            final(self).in_flight == old(self).in_flight + (if granted {
                1int
            } else {
                0int
            }),
    {
        if self.in_flight < self.max {
            self.in_flight = self.in_flight + 1;
            true
        } else {
            false
        }
    }

    /// Gives a permit back, whatever became of the request.
    pub fn release(&mut self)
        requires
            old(self).wf(),
        ensures
            final(self).wf(),
            final(self).max == old(self).max,
            final(self).in_flight == (if old(self).in_flight > 0 {
                old(self).in_flight - 1
            } else {
                0
            }),
    {
        if self.in_flight > 0 {
            self.in_flight = self.in_flight - 1;
        }
    }
}

/// A status is retried if it is 429 or any of 500 to 599.
pub open spec fn retryable(status: u16) -> bool {
    status == 429 || (500 <= status && status <= 599)
}

/// Whether a request with this answer is sent again.
pub fn is_retryable(status: u16) -> (r: bool)
    ensures
        r == retryable(status),
{
    status == 429 || (500 <= status && status <= 599)
}

/// A status of 200 to 299 is success.
pub open spec fn success(status: u16) -> bool {
    200 <= status && status <= 299
}

/// Whether the status is one of success.
pub fn is_success(status: u16) -> (r: bool)
    ensures
        r == success(status),
{
    200 <= status && status <= 299
}

/// The wait before the retry after attempt number `attempt`, counted from zero, where
/// no header says otherwise: 1, 2, 4, 8 seconds, and 16 from the fifth attempt on.
pub open spec fn backoff_secs(attempt: usize) -> u64 {
    if attempt == 0 {
        1
    } else if attempt == 1 {
        2
    } else if attempt == 2 {
        4
    } else if attempt == 3 {
        8
    } else {
        16
    }
}

/// The wait before a retry, in seconds: what the `Retry-After` header says where it
/// is an unsigned integer, but at most 30; else the backoff for the attempt.
pub open spec fn wait_secs(retry_after: Option<Seq<char>>, attempt: usize) -> u64 {
    match retry_after {
        Some(h) => match parse_unsigned(h, u64::MAX as nat) {
            Some(n) => if n < MAX_RETRY_AFTER_SECS {
                n as u64
            } else {
                MAX_RETRY_AFTER_SECS
            },
            None => backoff_secs(attempt),
        },
        None => backoff_secs(attempt),
    }
}

/// The wait before a retry, in seconds.
pub fn retry_after_or_backoff(retry_after: &Option<String>, attempt: usize) -> (secs: u64)
    ensures
        secs == wait_secs(opt_text(*retry_after), attempt),
{
    match retry_after {
        Some(h) => match parse_u64(&chars_of(h.as_str())) {
            Some(n) => {
                return if n < MAX_RETRY_AFTER_SECS {
                    n
                } else {
                    MAX_RETRY_AFTER_SECS
                };
            },
            None => {},
        },
        None => {},
    }
    if attempt == 0 {
        1
    } else if attempt == 1 {
        2
    } else if attempt == 2 {
        4
    } else if attempt == 3 {
        8
    } else {
        16
    }
}

/// What follows an answer.
#[derive(Debug, Clone, Copy, PartialEq, Eq, Structural)]
pub enum RetryDecision {
    /// The answer is handed to the caller.
    Deliver,
    /// The request is sent again after this many seconds.
    Retry { wait_secs: u64 },
}

/// What follows the answer to attempt number `attempt`, counted from zero: an answer
/// that is not retryable, and any answer to the last attempt, is handed on; any other
/// is retried after the wait.
pub open spec fn decision(
    status: u16,
    retry_after: Option<Seq<char>>,
    attempt: usize,
    max_retries: usize,
) -> RetryDecision {
    if !retryable(status) || attempt >= max_retries {
        RetryDecision::Deliver
    } else {
        RetryDecision::Retry { wait_secs: wait_secs(retry_after, attempt) }
    }
}

/// Counts one attempt.
pub fn begin_attempt(metrics: &mut Metrics)
    ensures
        *final(metrics) == after_request(*old(metrics)),
{
    metrics.inc_api_request();
}

/// Decides what follows the answer to attempt number `attempt`, and counts the retry.
pub fn after_response(
    status: u16,
    retry_after: &Option<String>,
    attempt: usize,
    max_retries: usize,
    metrics: &mut Metrics,
) -> (d: RetryDecision)
    ensures
        d == decision(status, opt_text(*retry_after), attempt, max_retries),
        *final(metrics) == (if d is Retry {
            after_retry(*old(metrics))
        } else {
            *old(metrics)
        }),
{
    if !is_retryable(status) || attempt >= max_retries {
        RetryDecision::Deliver
    } else {
        let wait = retry_after_or_backoff(retry_after, attempt);
        metrics.inc_retry();
        RetryDecision::Retry { wait_secs: wait }
    }
}

/// A counter after `n` more counts.
pub open spec fn bumped(count: u64, n: nat) -> u64
    decreases n,
{
    if n == 0 {
        count
    } else {
        bump(bumped(count, (n - 1) as nat))
    }
}

/// The counters after `attempts` attempts, of which all but the last were retried.
pub open spec fn after_attempts(m: Metrics, attempts: nat) -> Metrics {
    Metrics {
        api_requests: bumped(m.api_requests, attempts),
        retries: bumped(m.retries, (attempts - 1) as nat),
        ..m
    }
}

/// Sends a request until its answer is handed on: at most `max_retries + 1` times.
///
/// `send` makes one attempt; `wait` lets the given number of seconds pass. A failure
/// of the transport ends the request at once with `JiraError::Request`. An answer is
/// handed on as `decision` says, whatever its status. Every attempt and every retry is
/// counted.
pub fn request_with_retry<S, W>(
    metrics: &mut Metrics,
    max_retries: usize,
    request: &HttpRequest,
    send: &S,
    wait: &W,
) -> (r: Result<HttpResponse, JiraError>) where
    S: Fn(&HttpRequest) -> Result<HttpResponse, String>,
    W: Fn(u64) -> (),

    requires
        send.requires((request,)),
        forall|secs: u64| #[trigger] wait.requires((secs,)),
    ensures
        match r {
            Ok(response) => send.ensures((request,), Ok(response)),
            Err(e) => e matches JiraError::Request(text) && send.ensures((request,), Err(text)),
        },
        exists|attempts: nat|
            1 <= attempts <= max_retries + 1 && *final(metrics) == #[trigger] after_attempts(
                *old(metrics),
                attempts,
            ) && (r matches Ok(response) ==> !retryable(response.status) || attempts == max_retries
                + 1),
{
    let mut attempt: usize = 0;
    loop
        invariant
            attempt <= max_retries,
            send.requires((request,)),
            forall|secs: u64| #[trigger] wait.requires((secs,)),
            *metrics == (Metrics {
                api_requests: bumped(old(metrics).api_requests, attempt as nat),
                retries: bumped(old(metrics).retries, attempt as nat),
                ..*old(metrics)
            }),
        decreases max_retries - attempt,
    {
        begin_attempt(metrics);
        let response = match send(request) {
            Ok(response) => response,
            Err(text) => {
                assert(*metrics == after_attempts(*old(metrics), (attempt + 1) as nat));
                return Err(JiraError::Request(text));
            },
        };
        match after_response(response.status, &response.retry_after, attempt, max_retries, metrics) {
            RetryDecision::Deliver => {
                assert(*metrics == after_attempts(*old(metrics), (attempt + 1) as nat));
                return Ok(response);
            },
            RetryDecision::Retry { wait_secs } => {
                wait(wait_secs);
                attempt = attempt + 1;
            },
        }
    }
}

} // verus!
