//! Reconnect policy of the realtime subscription: exponential backoff from
//! 1s doubling up to a 60s cap, at most ten attempts, reset by a session that
//! delivered events.

use vstd::prelude::*;
use crate::error::DomainError;
use crate::text::owned;

verus! {

/// Maximum number of reconnect attempts before the subscription is ended.
pub const MAX_RECONNECT_ATTEMPTS: u32 = 10;

/// Lower bound of the exponential backoff, in seconds.
pub const MIN_BACKOFF_SECS: u64 = 1;

/// Upper bound (cap) of the exponential backoff, in seconds.
pub const MAX_BACKOFF_SECS: u64 = 60;

/// `2^k`.
pub open spec fn doubling(k: nat) -> nat
    decreases k,
{
    if k == 0 {
        1
    } else {
        2 * doubling((k - 1) as nat)
    }
}

/// The delay, in seconds, before reconnect attempt number `attempt`
/// (1-based; 0 counts as the first): 1 doubled `attempt - 1` times, clamped
/// to 60, i.e. 1, 2, 4, 8, 16, 32, 60, 60, ...
pub open spec fn backoff_secs_spec(attempt: u32) -> u64 {
    let shift: nat = if attempt == 0 { 0 } else { (attempt - 1) as nat };
    if shift >= 6 {
        MAX_BACKOFF_SECS
    } else {
        doubling(shift) as u64
    }
}

/// A `Duration` of `secs` whole seconds (`Duration::from_secs`).
pub uninterp spec fn duration_of_secs(secs: u64) -> std::time::Duration;

/// `Duration::from_secs(secs)`.
#[verifier::external_body]
fn duration_from_secs(secs: u64) -> (r: std::time::Duration)
    ensures
        r == duration_of_secs(secs),
{
    std::time::Duration::from_secs(secs)
}

/// Pure backoff schedule in seconds: see [`backoff_secs_spec`].
pub fn backoff_secs(attempt: u32) -> (r: u64)
    ensures
        r == backoff_secs_spec(attempt),
        MIN_BACKOFF_SECS <= r <= MAX_BACKOFF_SECS,
{
    let shift = attempt.saturating_sub(1);
    if shift >= 6 {
        return MAX_BACKOFF_SECS;
    }
    let mut secs: u64 = 1;
    let mut k: u32 = 0;
    while k < shift
        invariant
            shift < 6,
            k <= shift,
            secs == doubling(k as nat),
            secs <= 32,
        decreases shift - k,
    {
        proof {
            assert(doubling((k + 1) as nat) == 2 * doubling(k as nat));
            if k < 5 {
                lemma_doubling_small(k as nat);
            }
        }
        secs = secs * 2;
        k = k + 1;
    }
    proof {
        lemma_doubling_small(shift as nat);
    }
    secs
}

proof fn lemma_doubling_small(k: nat)
    requires
        k <= 5,
    ensures
        1 <= doubling(k) <= 32,
        k < 5 ==> doubling(k) <= 16,
{
    reveal_with_fuel(doubling, 7);
    assert(doubling(0) == 1 && doubling(1) == 2 && doubling(2) == 4 && doubling(3) == 8
        && doubling(4) == 16 && doubling(5) == 32);
}

/// Pure backoff schedule: the delay before reconnect attempt `attempt`.
pub fn backoff_delay(attempt: u32) -> (r: std::time::Duration)
    ensures
        r == duration_of_secs(backoff_secs_spec(attempt)),
{
    duration_from_secs(backoff_secs(attempt))
}

/// Every delay of the schedule lies within `[1s, 60s]`.
pub proof fn lemma_backoff_within_bounds(attempt: u32)
    ensures
        MIN_BACKOFF_SECS <= backoff_secs_spec(attempt) <= MAX_BACKOFF_SECS,
{
    let shift: nat = if attempt == 0 { 0 } else { (attempt - 1) as nat };
    if shift < 6 {
        lemma_doubling_small(shift);
    }
}

/// The schedule never shrinks as the attempt number grows.
pub proof fn lemma_backoff_monotonic(a: u32, b: u32)
    requires
        a <= b,
    ensures
        backoff_secs_spec(a) <= backoff_secs_spec(b),
{
    let sa: nat = if a == 0 { 0 } else { (a - 1) as nat };
    let sb: nat = if b == 0 { 0 } else { (b - 1) as nat };
    if sb < 6 {
        lemma_doubling_monotonic(sa, sb);
        lemma_doubling_small(sa);
        lemma_doubling_small(sb);
    } else if sa < 6 {
        lemma_doubling_small(sa);
    }
}

proof fn lemma_doubling_monotonic(a: nat, b: nat)
    requires
        a <= b,
    ensures
        doubling(a) <= doubling(b),
    decreases b,
{
    if a < b {
        lemma_doubling_monotonic(a, (b - 1) as nat);
        lemma_doubling_positive((b - 1) as nat);
    }
}

proof fn lemma_doubling_positive(k: nat)
    ensures
        doubling(k) >= 1,
    decreases k,
{
    if k > 0 {
        lemma_doubling_positive((k - 1) as nat);
    }
}

/// What to do once a subscription's stream has ended.
#[derive(Debug, Clone, Copy, PartialEq, Eq)]
pub enum ReconnectStep {
    /// Sleep `delay_secs` seconds, then subscribe again.
    Retry { delay_secs: u64 },
    /// End the subscription with [`exhausted_error`].
    GiveUp,
}

/// The attempt counter after a session end: reset by a session that
/// delivered events, then incremented.
pub open spec fn next_attempts(attempts: nat, delivered: bool) -> nat {
    (if delivered { 0 } else { attempts }) + 1
}

/// The step taken once the attempt counter has reached `attempts`.
pub open spec fn step_for(attempts: nat) -> ReconnectStep {
    if attempts >= MAX_RECONNECT_ATTEMPTS {
        ReconnectStep::GiveUp
    } else {
        ReconnectStep::Retry { delay_secs: backoff_secs_spec(attempts as u32) }
    }
}

/// The attempt counter after the sessions `sessions` (each: whether it
/// delivered events) have ended, starting from a fresh counter.
pub open spec fn attempts_after(sessions: Seq<bool>) -> nat
    decreases sessions.len(),
{
    if sessions.len() == 0 {
        0
    } else {
        next_attempts(attempts_after(sessions.drop_last()), sessions.last())
    }
}

/// Reconnect decisions of the realtime subscription loop. The caller
/// subscribes, forwards the events of the stream, and on its end (or a
/// failed subscribe, which delivered nothing) asks [`on_session_end`](Self::on_session_end)
/// what to do next.
#[derive(Debug)]
pub struct ReconnectPolicy {
    attempts: u32,
}

impl ReconnectPolicy {
    /// The attempt counter.
    pub closed spec fn attempts(&self) -> nat {
        self.attempts as nat
    }

    /// The policy has not given up yet.
    pub open spec fn active(&self) -> bool {
        self.attempts() < MAX_RECONNECT_ATTEMPTS
    }

    /// A fresh policy: no attempt made yet.
    pub fn new() -> (r: Self)
        ensures
            r.attempts() == 0,
            r.active(),
    {
        ReconnectPolicy { attempts: 0 }
    }

    /// Record the end of a session (`delivered`: whether it delivered at
    /// least one event) and decide the next step: a stable session resets the
    /// counter; the counter then grows by one, and reaching the maximum ends
    /// the subscription, otherwise the delay follows the backoff schedule.
    pub fn on_session_end(&mut self, delivered: bool) -> (r: ReconnectStep)
        requires
            old(self).active(),
        ensures
            final(self).attempts() == next_attempts(old(self).attempts(), delivered),
            r == step_for(final(self).attempts()),
            r is Retry <==> final(self).active(),
    {
        if delivered {
            self.attempts = 0;
        }
        self.attempts = self.attempts + 1;
        if self.attempts >= MAX_RECONNECT_ATTEMPTS {
            ReconnectStep::GiveUp
        } else {
            ReconnectStep::Retry { delay_secs: backoff_secs(self.attempts) }
        }
    }
}

/// The error that ends the subscription once the attempts are exhausted.
pub fn exhausted_error() -> (e: DomainError)
    ensures
        e matches DomainError::Transport(m) && m@
            == "realtime subscription ended after 10 reconnect attempts"@,
{
    DomainError::Transport(owned("realtime subscription ended after 10 reconnect attempts"))
}

/// On continuous drops from a fresh start, the `n`-th session end leaves the
/// counter at `n`: the `n`-th step sleeps `backoff(n)` for `n < 10` and the
/// tenth gives up, so exactly ten subscriptions are made, with the nine
/// delays `backoff(1..=9)` between them.
pub proof fn lemma_continuous_drops(n: nat)
    ensures
        attempts_after(Seq::new(n, |i: int| false)) == n,
        n >= 1 ==> step_for(attempts_after(Seq::new(n, |i: int| false))) == (if n
            >= MAX_RECONNECT_ATTEMPTS {
            ReconnectStep::GiveUp
        } else {
            ReconnectStep::Retry { delay_secs: backoff_secs_spec(n as u32) }
        }),
    decreases n,
{
    if n > 0 {
        let s = Seq::new(n, |i: int| false);
        assert(s.drop_last() =~= Seq::new((n - 1) as nat, |i: int| false));
        lemma_continuous_drops((n - 1) as nat);
    }
}

/// A session that delivered events resets the backoff: whatever the counter
/// was, the next delay is the first one of the schedule, one second.
pub proof fn lemma_stable_session_resets(sessions: Seq<bool>)
    requires
        sessions.len() > 0,
        sessions.last(),
    ensures
        attempts_after(sessions) == 1,
        step_for(attempts_after(sessions)) == (ReconnectStep::Retry { delay_secs: MIN_BACKOFF_SECS }),
{
}

/// The counter counts the sessions since the last one that delivered
/// events (that one included): after `k` further drops it stands at `k + 1`.
pub proof fn lemma_drops_after_stable(prefix: Seq<bool>, k: nat)
    requires
        prefix.len() > 0,
        prefix.last(),
    ensures
        attempts_after(prefix + Seq::new(k, |i: int| false)) == k + 1,
    decreases k,
{
    let s = prefix + Seq::new(k, |i: int| false);
    if k == 0 {
        assert(s =~= prefix);
    } else {
        assert(s.drop_last() =~= prefix + Seq::new((k - 1) as nat, |i: int| false));
        lemma_drops_after_stable(prefix, (k - 1) as nat);
    }
}

} // verus!
