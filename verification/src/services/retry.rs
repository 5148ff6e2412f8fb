//! Retrying calls to upstream services with exponential backoff.
use vstd::prelude::*;

use crate::error::{invalid_response_error, timeout_error, unavailable_error, ApiError};

verus! {

/// How often, and how patiently, an upstream call is retried. Both values are
/// at least 1.
#[derive(Debug, Clone, Copy, PartialEq, Eq, Structural)]
pub struct RetryPolicy {
    pub max_attempts: u32,
    pub base_delay_ms: u64,
}

/// The larger of `x` and 1.
pub open spec fn at_least_one(x: u64) -> u64 {
    if x < 1 {
        1
    } else {
        x
    }
}

impl RetryPolicy {
    /// The policy with the given settings, each raised to at least 1.
    pub fn new(max_attempts: u32, base_delay_ms: u64) -> (r: Self)
        ensures
            r.max_attempts == at_least_one(max_attempts as u64),
            r.base_delay_ms == at_least_one(base_delay_ms),
    {
        RetryPolicy {
            max_attempts: if max_attempts < 1 {
                1
            } else {
                max_attempts
            },
            base_delay_ms: if base_delay_ms < 1 {
                1
            } else {
                base_delay_ms
            },
        }
    }
}

/// The statuses worth retrying: 429, 502, 503 and 504.
pub open spec fn retryable_status(status: u16) -> bool {
    status == 429 || status == 502 || status == 503 || status == 504
}

/// Whether an upstream status is transient and worth retrying.
pub fn is_retryable_status(status: u16) -> (r: bool)
    ensures
        r == retryable_status(status),
{
    status == 429 || status == 502 || status == 503 || status == 504
}

/// `2^e` for `e` up to 4; from 5 on it stays at 32 (`2^5`), the cap of
/// the backoff's growth.
pub open spec fn pow2(e: u32) -> u64 {
    if e == 0 {
        1
    } else if e == 1 {
        2
    } else if e == 2 {
        4
    } else if e == 3 {
        8
    } else if e == 4 {
        16
    } else {
        32
    }
}

/// The exponent of the backoff before the given attempt: one less than the
/// attempt, at most 5.
pub open spec fn backoff_exponent(attempt: u32) -> u32 {
    let e = if attempt == 0 {
        0
    } else {
        (attempt - 1) as u32
    };
    if e > 5 {
        5
    } else {
        e
    }
}

/// The wait after a failed attempt, in milliseconds: the base delay doubled
/// for each earlier attempt (at most 5 times), never more than 2000.
pub open spec fn backoff(base_delay_ms: u64, attempt: u32) -> u64 {
    let product = base_delay_ms * pow2(backoff_exponent(attempt));
    if product > 2000 {
        2000
    } else {
        product as u64
    }
}

/// The wait after a failed attempt, in milliseconds.
pub fn backoff_delay(base_delay_ms: u64, attempt: u32) -> (r: u64)
    ensures
        r == backoff(base_delay_ms, attempt),
{
    let e: u32 = if attempt == 0 {
        0
    } else {
        attempt - 1
    };
    let exp: u32 = if e > 5 {
        5
    } else {
        e
    };
    let factor: u64 = if exp == 0 {
        1
    } else if exp == 1 {
        2
    } else if exp == 2 {
        4
    } else if exp == 3 {
        8
    } else if exp == 4 {
        16
    } else {
        32
    };
    let product = match base_delay_ms.checked_mul(factor) {
        Some(p) => p,
        None => u64::MAX,
    };
    if product > 2000 {
        2000
    } else {
        product
    }
}

/// The outcome of one upstream attempt: an answer with its status, or a
/// transport failure and whether it timed out and whether it is transient
/// (a timeout, a failed connection or a failed request).
#[derive(Debug, Clone, Copy, PartialEq, Eq, Structural)]
pub enum AttemptOutcome {
    Answered { status: u16 },
    Failed { retryable: bool, timeout: bool },
}

/// The outcome of an attempt that got no answer: transient when it timed
/// out, could not connect or failed while sending the request.
pub fn transport_failure(timed_out: bool, connect: bool, request: bool) -> (r: AttemptOutcome)
    ensures
        r == (AttemptOutcome::Failed { retryable: timed_out || connect || request, timeout: timed_out }),
{
    AttemptOutcome::Failed { retryable: timed_out || connect || request, timeout: timed_out }
}

/// What the proxy does after an attempt: wait and try again, hand the answer
/// on, or fail with 502.
#[derive(Debug, Clone, Copy, PartialEq, Eq, Structural)]
pub enum ProxyStep {
    Retry { delay_ms: u64 },
    Deliver,
    Fail { status: u16 },
}

/// Whether an attempt with this outcome is tried again: a transient status
/// or transport failure, while attempts remain.
pub open spec fn retried(policy: RetryPolicy, attempt: u32, outcome: AttemptOutcome) -> bool {
    match outcome {
        AttemptOutcome::Answered { status } => retryable_status(status) && attempt
            < policy.max_attempts,
        AttemptOutcome::Failed { retryable, timeout } => retryable && attempt < policy.max_attempts,
    }
}

/// The proxy's decision after attempt number `attempt` (counted from 1).
pub open spec fn proxy_step(policy: RetryPolicy, attempt: u32, outcome: AttemptOutcome) -> ProxyStep {
    if retried(policy, attempt, outcome) {
        ProxyStep::Retry { delay_ms: backoff(policy.base_delay_ms, attempt) }
    } else {
        match outcome {
            AttemptOutcome::Answered { .. } => ProxyStep::Deliver,
            AttemptOutcome::Failed { .. } => ProxyStep::Fail { status: 502 },
        }
    }
}

/// The proxy's decision after attempt number `attempt` (counted from 1): a
/// transient status or transport failure is retried while attempts remain;
/// any other answer is handed on; any other failure is a 502.
pub fn proxy_attempt_step(policy: RetryPolicy, attempt: u32, outcome: AttemptOutcome) -> (r:
    ProxyStep)
    ensures
        r == proxy_step(policy, attempt, outcome),
{
    match outcome {
        AttemptOutcome::Answered { status } => {
            if is_retryable_status(status) && attempt < policy.max_attempts {
                ProxyStep::Retry { delay_ms: backoff_delay(policy.base_delay_ms, attempt) }
            } else {
                ProxyStep::Deliver
            }
        },
        AttemptOutcome::Failed { retryable, timeout } => {
            if retryable && attempt < policy.max_attempts {
                ProxyStep::Retry { delay_ms: backoff_delay(policy.base_delay_ms, attempt) }
            } else {
                ProxyStep::Fail { status: 502 }
            }
        },
    }
}

/// What the identity lookup does after an attempt: wait and try again, read
/// the answer's body, or fail.
pub enum LookupStep {
    Retry { delay_ms: u64 },
    ReadBody,
    Fail { error: ApiError },
}

/// The identity lookup's decision after attempt number `attempt`: a success
/// is read; a transient status or transport failure is retried while
/// attempts remain; another status is an invalid answer, a timeout a 504 and
/// any other failure a 502, all naming the users service.
pub fn lookup_attempt_step(policy: RetryPolicy, attempt: u32, outcome: AttemptOutcome) -> (r:
    LookupStep)
    ensures
        r is Retry <==> (!(outcome matches AttemptOutcome::Answered { status } && 200 <= status
            < 300) && retried(policy, attempt, outcome)),
        match outcome {
            AttemptOutcome::Answered { status } => if 200 <= status < 300 {
                r is ReadBody
            } else if retryable_status(status) && attempt < policy.max_attempts {
                r == (LookupStep::Retry { delay_ms: backoff(policy.base_delay_ms, attempt) })
            } else {
                r matches LookupStep::Fail { error } && error@ == invalid_response_error("users"@)
            },
            AttemptOutcome::Failed { retryable, timeout } => if retryable && attempt
                < policy.max_attempts {
                r == (LookupStep::Retry { delay_ms: backoff(policy.base_delay_ms, attempt) })
            } else if timeout {
                r matches LookupStep::Fail { error } && error@ == timeout_error("users"@)
            } else {
                r matches LookupStep::Fail { error } && error@ == unavailable_error("users"@)
            },
        },
{
    match outcome {
        AttemptOutcome::Answered { status } => {
            if 200 <= status && status < 300 {
                LookupStep::ReadBody
            } else if is_retryable_status(status) && attempt < policy.max_attempts {
                LookupStep::Retry { delay_ms: backoff_delay(policy.base_delay_ms, attempt) }
            } else {
                LookupStep::Fail { error: ApiError::upstream_invalid_response("users") }
            }
        },
        AttemptOutcome::Failed { retryable, timeout } => {
            if retryable && attempt < policy.max_attempts {
                LookupStep::Retry { delay_ms: backoff_delay(policy.base_delay_ms, attempt) }
            } else if timeout {
                LookupStep::Fail { error: ApiError::upstream_timeout("users") }
            } else {
                LookupStep::Fail { error: ApiError::upstream_unavailable("users") }
            }
        },
    }
}

/// Waits never exceed two seconds, never fall below the base delay while it
/// is at most two seconds, and never shrink from one attempt to the next.
pub proof fn backoff_bounded_and_growing(base_delay_ms: u64, attempt: u32, later: u32)
    requires
        attempt <= later,
    ensures
        backoff(base_delay_ms, attempt) <= 2000,
        base_delay_ms <= 2000 ==> base_delay_ms <= backoff(base_delay_ms, attempt),
        backoff(base_delay_ms, attempt) <= backoff(base_delay_ms, later),
{
    let a = pow2(backoff_exponent(attempt));
    let b = pow2(backoff_exponent(later));
    assert(1 <= a <= b);
    assert(base_delay_ms * a <= base_delay_ms * b) by (nonlinear_arith)
        requires
            a <= b,
    ;
    assert(base_delay_ms <= base_delay_ms * a) by (nonlinear_arith)
        requires
            1 <= a,
    ;
}

/// The last allowed attempt is never retried, whatever its outcome, so a call
/// makes at most `max_attempts` attempts.
pub proof fn last_attempt_never_retried(policy: RetryPolicy, attempt: u32, outcome: AttemptOutcome)
    requires
        attempt >= policy.max_attempts,
    ensures
        !retried(policy, attempt, outcome),
        !(proxy_step(policy, attempt, outcome) is Retry),
{
}

} // verus!
