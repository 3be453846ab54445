//! Bounded retry with exponential backoff for connection establishment.
//!
//! Opening a database connection against an unreliable or rate-limited host
//! is retried up to a fixed number of total attempts, sleeping before each
//! retry, starting at a configured initial delay and doubling after every
//! failed attempt, with no jitter and no cap below the attempt bound.
//!
//! The policy is an explicit state machine (attempt number, current delay) so
//! that the caller — which owns the actual connection call and the sleeps —
//! drives it with an injectable clock: after each failed attempt it asks the
//! state machine whether another attempt is allowed and how long to sleep
//! first.

use vstd::arithmetic::mul::lemma_mul_inequality;
use vstd::arithmetic::power2::lemma2_to64;
use vstd::arithmetic::power2::lemma_pow2_strictly_increases;
use vstd::arithmetic::power2::lemma_pow2_unfold;
use vstd::arithmetic::power2::pow2;
use vstd::prelude::*;

verus! {

/// Total connection attempts made before giving up.
pub const MYSQL_MAX_CONNECTION_ATTEMPTS: u64 = 15;

/// Delay slept before the first retry, in milliseconds.
pub const MYSQL_CONNECTION_INITIAL_DELAY_MS: u64 = 100;

/// The delay slept after the `k`-th failed attempt (`k` counted from 0):
/// the initial delay doubled `k` times.
pub open spec fn delay_at(initial_delay_ms: u64, k: nat) -> nat {
    (initial_delay_ms as nat) * pow2(k)
}

/// Retry state machine for one connection-establishment episode: how many
/// attempts have failed so far and how long to sleep before the next one.
pub struct RetryState {
    /// Total attempts allowed, first attempt included.
    pub max_attempts: u64,
    /// Delay before the first retry, in milliseconds.
    pub initial_delay_ms: u64,
    /// Attempts made and failed so far.
    pub failures: u64,
    /// Delay before the next retry, in milliseconds.
    pub delay_ms: u64,
}

/// The state after one recorded failure: the failure count up one, the
/// pending delay doubled, the policy unchanged.
pub open spec fn after_failure(s: RetryState) -> RetryState {
    RetryState { failures: (s.failures + 1) as u64, delay_ms: (s.delay_ms * 2) as u64, ..s }
}

/// How many connection attempts an episode makes from state `s` when every
/// attempt fails: one for the attempt whose failure is recorded next, plus
/// the attempts after each granted retry.
pub open spec fn attempts_in_failing_episode(s: RetryState) -> nat
    decreases s.max_attempts - s.failures,
    when s.failures < s.max_attempts
{
    if s.failures + 1 < s.max_attempts {
        1 + attempts_in_failing_episode(after_failure(s))
    } else {
        1
    }
}

impl RetryState {
    /// State invariant: the failure count never exceeds the attempt bound,
    /// the pending delay always equals the initial delay doubled once per
    /// failure, and even the delay after the last allowed attempt fits in
    /// the machine word.
    pub open spec fn wf(self) -> bool {
        &&& self.max_attempts >= 1
        &&& self.failures <= self.max_attempts
        &&& delay_at(self.initial_delay_ms, self.max_attempts as nat) <= u64::MAX
        &&& self.delay_ms as nat == delay_at(self.initial_delay_ms, self.failures as nat)
    }

    /// A fresh episode: no attempt has failed yet, the first retry would
    /// sleep the initial delay.
    pub fn new(max_attempts: u64, initial_delay_ms: u64) -> (r: RetryState)
        requires
            max_attempts >= 1,
            delay_at(initial_delay_ms, max_attempts as nat) <= u64::MAX,
        ensures
            r.max_attempts == max_attempts,
            r.initial_delay_ms == initial_delay_ms,
            r.failures == 0,
            r.wf(),
    {
        proof {
            assert(pow2(0) == 1) by {
                lemma2_to64();
            }
        }
        RetryState { max_attempts, initial_delay_ms, failures: 0, delay_ms: initial_delay_ms }
    }

    /// A fresh episode with the policy used for every database connection:
    /// 15 total attempts, delays starting at 100 ms.
    pub fn new_mysql() -> (r: RetryState)
        ensures
            r.max_attempts == MYSQL_MAX_CONNECTION_ATTEMPTS,
            r.initial_delay_ms == MYSQL_CONNECTION_INITIAL_DELAY_MS,
            r.failures == 0,
            r.wf(),
    {
        proof {
            lemma2_to64();
        }
        RetryState::new(MYSQL_MAX_CONNECTION_ATTEMPTS, MYSQL_CONNECTION_INITIAL_DELAY_MS)
    }

    /// Records one failed connection attempt and decides what comes next:
    /// `Some(ms)` — sleep `ms` milliseconds, then attempt again — as long as
    /// the attempt bound is not yet exhausted, and `None` — give up, the
    /// configured maximum number of attempts has been made — once it is.
    /// The granted delays follow the doubling schedule exactly: the delay
    /// after the `k`-th failure is the initial delay times `2^k`.
    pub fn next_delay(&mut self) -> (r: Option<u64>)
        requires
            old(self).wf(),
            old(self).failures < old(self).max_attempts,
        ensures
            final(self).wf(),
            *final(self) == after_failure(*old(self)),
            final(self).max_attempts == old(self).max_attempts,
            final(self).initial_delay_ms == old(self).initial_delay_ms,
            final(self).failures == old(self).failures + 1,
            r is Some <==> old(self).failures + 1 < old(self).max_attempts,
            (r matches Some(d) ==> d as nat == delay_at(
                old(self).initial_delay_ms,
                old(self).failures as nat,
            )),
    {
        let ghost f = self.failures as nat;
        self.failures = self.failures + 1;
        proof {
            lemma_backoff_schedule(self.initial_delay_ms, f);
            lemma_delay_at_le(self.initial_delay_ms, f + 1, self.max_attempts as nat);
        }
        if self.failures < self.max_attempts {
            let granted = self.delay_ms;
            self.delay_ms = self.delay_ms * 2;
            Some(granted)
        } else {
            self.delay_ms = self.delay_ms * 2;
            None
        }
    }
}

/// The doubling schedule is monotone in the exponent: a delay earlier in the
/// schedule never exceeds a later one.
proof fn lemma_delay_at_le(initial_delay_ms: u64, k1: nat, k2: nat)
    requires
        k1 <= k2,
    ensures
        delay_at(initial_delay_ms, k1) <= delay_at(initial_delay_ms, k2),
{
    if k1 < k2 {
        lemma_pow2_strictly_increases(k1, k2);
    }
    lemma_mul_inequality(pow2(k1) as int, pow2(k2) as int, initial_delay_ms as int);
}

/// Counts the attempts of an all-failures episode from any mid-episode
/// state: the attempts still to come are exactly the attempts still
/// allowed.
proof fn lemma_failing_episode_attempts(s: RetryState)
    requires
        s.failures < s.max_attempts,
    ensures
        attempts_in_failing_episode(s) == s.max_attempts - s.failures,
    decreases s.max_attempts - s.failures,
{
    if s.failures + 1 < s.max_attempts {
        lemma_failing_episode_attempts(after_failure(s));
    }
}

/// Law: against an endpoint that always fails, an episode performs exactly
/// the configured maximum number of attempts, then gives up.
pub proof fn lemma_exactly_max_attempts(s: RetryState)
    requires
        s.max_attempts >= 1,
        s.failures == 0,
    ensures
        attempts_in_failing_episode(s) == s.max_attempts,
{
    lemma_failing_episode_attempts(s);
}

/// Law: the inter-attempt delays follow the doubling schedule from the
/// configured initial delay — each delay is exactly twice the one before —
/// and are therefore strictly non-decreasing across the whole episode.
pub proof fn lemma_backoff_schedule(initial_delay_ms: u64, k: nat)
    ensures
        delay_at(initial_delay_ms, k + 1) == 2 * delay_at(initial_delay_ms, k),
        delay_at(initial_delay_ms, k) <= delay_at(initial_delay_ms, k + 1),
{
    lemma_pow2_unfold(k + 1);
    assert((initial_delay_ms as nat) * pow2(k + 1) == 2 * ((initial_delay_ms as nat) * pow2(k)))
        by (nonlinear_arith)
        requires
            pow2(k + 1) == 2 * pow2(k),
    ;
    lemma_delay_at_le(initial_delay_ms, k, k + 1);
}

} // verus!
