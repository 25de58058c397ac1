//! Retry policy for rate-limited requests, and the decisions of a single-page fetch.
//!
//! A fetch sends one request per attempt. After each response the policy
//! decides from the status alone: wait and send again, hand the body on, or
//! fail. Sending and waiting are the caller's part.

use vstd::prelude::*;
use vstd::arithmetic::mul::lemma_mul_inequality;
use vstd::arithmetic::power2::{
    lemma2_to64, lemma_pow2_strictly_increases, lemma_pow2_unfold, pow2,
};
use crate::error::ParclError;

verus! {

/// The status with which a server asks the caller to slow down.
pub const TOO_MANY_REQUESTS: u16 = 429;

/// Statuses that report success: 200 to 299.
pub open spec fn is_success(status: u16) -> bool {
    200 <= status <= 299
}

/// The wait before the retry that follows attempt `attempt` (counted from 0):
/// the initial backoff doubled `attempt` times.
pub open spec fn backoff(initial_backoff_ms: u64, attempt: u32) -> int {
    initial_backoff_ms * pow2(attempt as nat)
}

/// Why a fetch failed without a usable response.
#[derive(Debug, Clone, Copy, PartialEq, Eq, Structural)]
pub enum Failure {
    /// The last permitted attempt was still rate limited; `attempts` requests were sent.
    RateLimited { attempts: u32 },
    /// The server answered with another status outside the success range.
    Api { status: u16 },
}

/// What follows a response.
#[derive(Debug, Clone, Copy, PartialEq, Eq, Structural)]
pub enum Verdict {
    /// Wait `backoff_ms` milliseconds, then send the same request again.
    Retry { backoff_ms: u64 },
    /// The response is the page: decode its body.
    Success,
    /// The fetch has failed; the response body is the error's message.
    Fail(Failure),
}

/// Configuration for automatic retry on rate-limited (429) responses.
#[derive(Debug, Clone, Copy)]
pub struct RetryConfig {
    /// Maximum number of retry attempts before giving up.
    pub max_retries: u32,
    /// Initial backoff duration in milliseconds (doubles each attempt).
    pub initial_backoff_ms: u64,
}

impl Default for RetryConfig {
    fn default() -> (config: Self)
        ensures
            config.max_retries == 3,
            config.initial_backoff_ms == 1000,
    {
        RetryConfig { max_retries: 3, initial_backoff_ms: 1000 }
    }
}

impl Failure {
    /// The error that reports this failure with the response body as its message.
    pub fn into_error(self, message: String) -> (error: ParclError)
        ensures
            error == (match self {
                Failure::RateLimited { attempts } => ParclError::RateLimited { attempts, message },
                Failure::Api { status } => ParclError::ApiError { status, message },
            }),
    {
        match self {
            Failure::RateLimited { attempts } => ParclError::RateLimited { attempts, message },
            Failure::Api { status } => ParclError::ApiError { status, message },
        }
    }
}

impl RetryConfig {
    /// The decision after attempt `attempt` (counted from 0) was answered with `status`.
    ///
    /// "Too many requests" is retried while retries are left, and is a
    /// rate-limit failure counting every request once they are used up. Any
    /// other status is final at once: success hands the body on, anything
    /// else is an API failure.
    pub open spec fn verdict(&self, attempt: u32, status: u16) -> Verdict {
        if status == TOO_MANY_REQUESTS && attempt < self.max_retries {
            Verdict::Retry { backoff_ms: backoff(self.initial_backoff_ms, attempt) as u64 }
        } else if is_success(status) {
            Verdict::Success
        } else if status == TOO_MANY_REQUESTS {
            Verdict::Fail(Failure::RateLimited { attempts: (attempt + 1) as u32 })
        } else {
            Verdict::Fail(Failure::Api { status })
        }
    }

    /// The numbers of the decision fit their types: the wait of a retry fits
    /// in 64 bits, and the count of a rate-limit failure in 32.
    pub open spec fn representable(&self, attempt: u32, status: u16) -> bool {
        status == TOO_MANY_REQUESTS ==> if attempt < self.max_retries {
            backoff(self.initial_backoff_ms, attempt) <= u64::MAX
        } else {
            attempt < u32::MAX
        }
    }

    /// The wait before the retry that follows attempt `attempt`, if it fits in 64 bits.
    pub fn backoff_ms(&self, attempt: u32) -> (ms: Option<u64>)
        ensures
            ms == (if backoff(self.initial_backoff_ms, attempt) <= u64::MAX {
                Some(backoff(self.initial_backoff_ms, attempt) as u64)
            } else {
                None
            }),
    {
        let initial = self.initial_backoff_ms;
        if initial == 0 {
            assert(backoff(initial, attempt) == 0) by (nonlinear_arith)
                requires
                    initial == 0,
                    backoff(initial, attempt) == initial * pow2(attempt as nat),
            ;
            return Some(0);
        }
        let mut ms: u64 = initial;
        let mut doubled: u32 = 0;
        proof {
            lemma2_to64();
        }
        while doubled < attempt
            invariant
                doubled <= attempt,
                initial == self.initial_backoff_ms,
                initial >= 1,
                ms == initial * pow2(doubled as nat),
            decreases attempt - doubled,
        {
            proof {
                lemma_pow2_unfold((doubled + 1) as nat);
                assert(initial * pow2((doubled + 1) as nat) == 2 * (initial * pow2(doubled as nat)))
                    by (nonlinear_arith)
                    requires
                        pow2((doubled + 1) as nat) == 2 * pow2(doubled as nat),
                ;
            }
            match ms.checked_mul(2) {
                Some(next) => {
                    ms = next;
                },
                None => {
                    proof {
                        let reached: u32 = (doubled + 1) as u32;
                        assert(backoff(initial, reached) == 2 * ms);
                        lemma_backoff_grows(initial, reached, attempt);
                    }
                    return None;
                },
            }
            doubled += 1;
        }
        Some(ms)
    }

    /// Whether the numbers of the decision fit their types.
    pub fn is_representable(&self, attempt: u32, status: u16) -> (fits: bool)
        ensures
            fits == self.representable(attempt, status),
    {
        if status != TOO_MANY_REQUESTS {
            true
        } else if attempt < self.max_retries {
            self.backoff_ms(attempt).is_some()
        } else {
            attempt < u32::MAX
        }
    }

    /// Decides what follows the response to attempt `attempt`.
    pub fn judge(&self, attempt: u32, status: u16) -> (verdict: Verdict)
        requires
            self.representable(attempt, status),
        ensures
            verdict == self.verdict(attempt, status),
    {
        if status == TOO_MANY_REQUESTS && attempt < self.max_retries {
            Verdict::Retry { backoff_ms: self.backoff_ms(attempt).unwrap() }
        } else if status >= 200 && status <= 299 {
            Verdict::Success
        } else if status == TOO_MANY_REQUESTS {
            Verdict::Fail(Failure::RateLimited { attempts: attempt + 1 })
        } else {
            Verdict::Fail(Failure::Api { status })
        }
    }
}

/// Later retries wait at least as long as earlier ones.
pub proof fn lemma_backoff_grows(initial_backoff_ms: u64, earlier: u32, later: u32)
    requires
        earlier <= later,
    ensures
        backoff(initial_backoff_ms, earlier) <= backoff(initial_backoff_ms, later),
{
    if earlier < later {
        lemma_pow2_strictly_increases(earlier as nat, later as nat);
    }
    lemma_mul_inequality(
        pow2(earlier as nat) as int,
        pow2(later as nat) as int,
        initial_backoff_ms as int,
    );
    assert(initial_backoff_ms * pow2(earlier as nat) == pow2(earlier as nat) * initial_backoff_ms)
        by (nonlinear_arith);
    assert(initial_backoff_ms * pow2(later as nat) == pow2(later as nat) * initial_backoff_ms)
        by (nonlinear_arith);
}

/// The progress of one single-page fetch: the policy and the number of the
/// attempt whose response is awaited, counted from 0.
#[derive(Debug, Clone, Copy)]
pub struct PageFetch {
    pub config: RetryConfig,
    pub attempt: u32,
}

impl PageFetch {
    /// A fetch that has not sent anything yet.
    pub fn new(config: RetryConfig) -> (fetch: Self)
        ensures
            fetch.config == config,
            fetch.attempt == 0,
    {
        PageFetch { config, attempt: 0 }
    }

    /// Whether [`Self::on_status`] can take `status` now: the numbers of its
    /// decision fit their types.
    pub fn accepts(&self, status: u16) -> (fits: bool)
        ensures
            fits == self.config.representable(self.attempt, status),
    {
        self.config.is_representable(self.attempt, status)
    }

    /// Takes the status of the response to the current attempt and decides
    /// what follows. A retry moves on to the next attempt; any other verdict
    /// ends the fetch and leaves the state as it is.
    pub fn on_status(&mut self, status: u16) -> (verdict: Verdict)
        requires
            old(self).config.representable(old(self).attempt, status),
        ensures
            verdict == old(self).config.verdict(old(self).attempt, status),
            final(self).config == old(self).config,
            final(self).attempt == (if verdict is Retry {
                old(self).attempt + 1
            } else {
                old(self).attempt as int
            }),
    {
        let verdict = self.config.judge(self.attempt, status);
        if let Verdict::Retry { .. } = verdict {
            self.attempt = self.attempt + 1;
        }
        verdict
    }
}

/// What a fetch does when the server answers its attempts with given statuses.
pub struct Trace {
    /// The waits between attempts, in milliseconds, in order.
    pub waits: Seq<u64>,
    /// The number of requests sent.
    pub requests: nat,
    /// The final verdict, if the statuses reach one.
    pub outcome: Option<Verdict>,
}

/// The trace of a fetch that is at attempt `attempt` and receives `statuses`
/// in order: it follows [`RetryConfig::verdict`] and stops at the first
/// verdict that is not a retry.
pub open spec fn replay(config: RetryConfig, attempt: u32, statuses: Seq<u16>) -> Trace
    decreases statuses.len(),
{
    if statuses.len() == 0 {
        Trace { waits: Seq::empty(), requests: 0, outcome: None }
    } else {
        match config.verdict(attempt, statuses[0]) {
            Verdict::Retry { backoff_ms } => {
                let rest = replay(config, (attempt + 1) as u32, statuses.drop_first());
                Trace {
                    waits: seq![backoff_ms] + rest.waits,
                    requests: rest.requests + 1,
                    outcome: rest.outcome,
                }
            },
            last => Trace { waits: Seq::empty(), requests: 1, outcome: Some(last) },
        }
    }
}

/// A fetch at attempt `attempt` that is rate limited on every attempt up to
/// and including the last permitted one waits the doubling backoffs in turn
/// and then fails, having sent one request for each attempt.
proof fn lemma_rate_limited_from(config: RetryConfig, attempt: u32, statuses: Seq<u16>)
    requires
        attempt <= config.max_retries < u32::MAX,
        statuses.len() == config.max_retries - attempt + 1,
        forall|i: int| 0 <= i < statuses.len() ==> statuses[i] == TOO_MANY_REQUESTS,
        config.max_retries > 0 ==> backoff(
            config.initial_backoff_ms,
            (config.max_retries - 1) as u32,
        ) <= u64::MAX,
    ensures
        replay(config, attempt, statuses).requests == config.max_retries - attempt + 1,
        replay(config, attempt, statuses).waits.len() == config.max_retries - attempt,
        forall|i: int|
            0 <= i < config.max_retries - attempt ==> replay(config, attempt, statuses).waits[i]
                == backoff(config.initial_backoff_ms, (attempt + i) as u32),
        replay(config, attempt, statuses).outcome == Some(
            Verdict::Fail(Failure::RateLimited { attempts: (config.max_retries + 1) as u32 }),
        ),
    decreases statuses.len(),
{
    if attempt < config.max_retries {
        let rest = statuses.drop_first();
        lemma_backoff_grows(config.initial_backoff_ms, attempt, (config.max_retries - 1) as u32);
        lemma_rate_limited_from(config, (attempt + 1) as u32, rest);
        let tail = replay(config, (attempt + 1) as u32, rest);
        let all = replay(config, attempt, statuses);
        assert(all.waits == seq![backoff(config.initial_backoff_ms, attempt) as u64] + tail.waits);
        assert forall|i: int| 0 <= i < config.max_retries - attempt implies all.waits[i] == backoff(
            config.initial_backoff_ms,
            (attempt + i) as u32,
        ) by {
            if i > 0 {
                assert(all.waits[i] == tail.waits[i - 1]);
            }
        }
    }
}

/// A fetch that is rate limited on every attempt waits `initial_backoff * 2^i`
/// after attempt `i`, for each `i` below `max_retries`, and then fails with a
/// rate-limit failure that counts `max_retries + 1` attempts.
pub proof fn lemma_rate_limited_to_the_end(config: RetryConfig, statuses: Seq<u16>)
    requires
        config.max_retries < u32::MAX,
        statuses.len() == config.max_retries + 1,
        forall|i: int| 0 <= i < statuses.len() ==> statuses[i] == TOO_MANY_REQUESTS,
        config.max_retries > 0 ==> backoff(
            config.initial_backoff_ms,
            (config.max_retries - 1) as u32,
        ) <= u64::MAX,
    ensures
        replay(config, 0, statuses).requests == config.max_retries + 1,
        replay(config, 0, statuses).waits.len() == config.max_retries,
        forall|i: int|
            0 <= i < config.max_retries ==> replay(config, 0, statuses).waits[i] == backoff(
                config.initial_backoff_ms,
                i as u32,
            ),
        replay(config, 0, statuses).outcome == Some(
            Verdict::Fail(Failure::RateLimited { attempts: (config.max_retries + 1) as u32 }),
        ),
{
    lemma_rate_limited_from(config, 0, statuses);
}

/// A status that is neither success nor "too many requests" fails the fetch
/// at once, whatever the attempt and whatever retries are left: no wait, no
/// further request.
pub proof fn lemma_api_failure_is_immediate(
    config: RetryConfig,
    attempt: u32,
    status: u16,
    later: Seq<u16>,
)
    requires
        !is_success(status),
        status != TOO_MANY_REQUESTS,
    ensures
        config.representable(attempt, status),
        config.verdict(attempt, status) == Verdict::Fail(Failure::Api { status }),
        replay(config, attempt, seq![status] + later).waits == Seq::<u64>::empty(),
        replay(config, attempt, seq![status] + later).requests == 1,
        replay(config, attempt, seq![status] + later).outcome == Some(
            Verdict::Fail(Failure::Api { status }),
        ),
{
    assert((seq![status] + later)[0] == status);
}

} // verus!
