//! Circuit breaker for SQL pool checkout.
//!
//! Prevents a cascade of connection failures from overwhelming the pool when
//! the database is unavailable. The breaker transitions:
//!
//! ```text
//! Closed ──(failures ≥ threshold)──► Open ──(recovery_timeout elapsed)──► HalfOpen
//!   ▲                                                                          │
//!   └────────────────────── (next checkout succeeds) ───────────────────────── ┘
//! ```
//!
//! In the `Open` state all checkout attempts immediately return
//! [`SqlError::PoolExhausted`] without touching the ODBC pool.
use vstd::prelude::*;
use crate::error::SqlError;

verus! {

/// Current breaker state.
#[derive(Debug, Clone, Copy, PartialEq, Eq)]
pub enum CircuitState {
    /// Normal operation — requests flow through.
    Closed,
    /// Too many failures — all requests are rejected immediately.
    Open,
    /// Recovery window — the next request is allowed through as a probe.
    HalfOpen,
}

/// Abstract state of a breaker.
pub struct BreakerView {
    pub failure_count: nat,
    pub failure_threshold: nat,
    pub recovery_timeout_ms: nat,
    pub last_failure_ms: nat,
    pub state: CircuitState,
}

/// `a - b`, or 0 when `b > a`.
pub open spec fn saturating_sub(a: nat, b: nat) -> nat {
    if a >= b { (a - b) as nat } else { 0 }
}

/// Whether a request checked at `now_ms` is let through.
pub open spec fn check_allows(b: BreakerView, now_ms: nat) -> bool {
    match b.state {
        CircuitState::Open => saturating_sub(now_ms, b.last_failure_ms) >= b.recovery_timeout_ms,
        _ => true,
    }
}

/// The breaker after a check at `now_ms`.
pub open spec fn after_check(b: BreakerView, now_ms: nat) -> BreakerView {
    if b.state == CircuitState::Open && check_allows(b, now_ms) {
        BreakerView { state: CircuitState::HalfOpen, ..b }
    } else {
        b
    }
}

/// The breaker after a success.
pub open spec fn after_success(b: BreakerView) -> BreakerView {
    BreakerView { failure_count: 0, state: CircuitState::Closed, ..b }
}

/// The breaker after a failure at `now_ms`.
pub open spec fn after_failure(b: BreakerView, now_ms: nat) -> BreakerView {
    let count = b.failure_count + 1;
    BreakerView {
        failure_count: count,
        last_failure_ms: now_ms,
        state: if count >= b.failure_threshold { CircuitState::Open } else { b.state },
        ..b
    }
}

/// The breaker after `k` failures, all at `now_ms`.
pub open spec fn after_failures(b: BreakerView, k: nat, now_ms: nat) -> BreakerView
    decreases k,
{
    if k == 0 { b } else { after_failure(after_failures(b, (k - 1) as nat, now_ms), now_ms) }
}

/// Milliseconds since the Unix epoch, from the system clock (0 if the clock is before it).
///
/// Nothing is stated of the value: it is the wall-clock time.
#[verifier::external_body]
fn now_ms() -> u64 {
    std::time::SystemTime::now()
        .duration_since(std::time::UNIX_EPOCH)
        .unwrap_or_default()
        .as_millis() as u64
}

/// A consecutive-failure circuit breaker.
pub struct CircuitBreaker {
    failure_count: u32,
    failure_threshold: u32,
    recovery_timeout_ms: u64,
    last_failure_ms: u64,
    state: CircuitState,
}

impl View for CircuitBreaker {
    type V = BreakerView;

    closed spec fn view(&self) -> BreakerView {
        BreakerView {
            failure_count: self.failure_count as nat,
            failure_threshold: self.failure_threshold as nat,
            recovery_timeout_ms: self.recovery_timeout_ms as nat,
            last_failure_ms: self.last_failure_ms as nat,
            state: self.state,
        }
    }
}

impl CircuitBreaker {
    /// A closed breaker that opens after `failure_threshold` consecutive failures
    /// and stays open for `recovery_timeout_ms` milliseconds.
    pub fn new(failure_threshold: u32, recovery_timeout_ms: u64) -> (b: CircuitBreaker)
        ensures
            b@ == (BreakerView {
                failure_count: 0,
                failure_threshold: failure_threshold as nat,
                recovery_timeout_ms: recovery_timeout_ms as nat,
                last_failure_ms: 0,
                state: CircuitState::Closed,
            }),
    {
        CircuitBreaker {
            failure_count: 0,
            failure_threshold,
            recovery_timeout_ms,
            last_failure_ms: 0,
            state: CircuitState::Closed,
        }
    }

    /// Check whether a request may proceed at the current time.
    ///
    /// Returns `Ok(())` for `Closed` / `HalfOpen`, or `Err(SqlError::PoolExhausted)` when `Open`.
    pub fn check(&mut self) -> (r: Result<(), SqlError>)
        ensures
            exists|now: nat|
                {
                    &&& final(self)@ == after_check(old(self)@, now)
                    &&& (check_allows(old(self)@, now) <==> r is Ok)
                },
            r matches Err(e) ==> e == (SqlError::PoolExhausted {
                timeout_ms: old(self)@.recovery_timeout_ms as u64,
            }),
    {
        let now = now_ms();
        self.check_at(now)
    }

    /// Check whether a request may proceed at time `now_ms`.
    pub fn check_at(&mut self, now_ms: u64) -> (r: Result<(), SqlError>)
        ensures
            final(self)@ == after_check(old(self)@, now_ms as nat),
            check_allows(old(self)@, now_ms as nat) ==> r is Ok,
            !check_allows(old(self)@, now_ms as nat) ==> r == Err::<(), SqlError>(
                SqlError::PoolExhausted { timeout_ms: old(self)@.recovery_timeout_ms as u64 },
            ),
    {
        match self.state {
            CircuitState::Closed => Ok(()),
            CircuitState::Open => {
                let elapsed = now_ms.saturating_sub(self.last_failure_ms);
                if elapsed >= self.recovery_timeout_ms {
                    self.state = CircuitState::HalfOpen;
                    Ok(())
                } else {
                    Err(SqlError::PoolExhausted { timeout_ms: self.recovery_timeout_ms })
                }
            },
            CircuitState::HalfOpen => Ok(()),
        }
    }

    /// Record a successful operation — resets the failure count and closes the circuit.
    pub fn record_success(&mut self)
        ensures
            final(self)@ == after_success(old(self)@),
    {
        self.failure_count = 0;
        self.state = CircuitState::Closed;
    }

    /// Record a failed operation at the current time.
    pub fn record_failure(&mut self)
        requires
            old(self)@.failure_count < u32::MAX,
        ensures
            exists|now: nat| final(self)@ == after_failure(old(self)@, now),
    {
        let now = now_ms();
        self.record_failure_at(now);
    }

    /// Record a failed operation at time `now_ms` — increments the counter and opens
    /// the circuit when the threshold is reached.
    pub fn record_failure_at(&mut self, now_ms: u64)
        requires
            old(self)@.failure_count < u32::MAX,
        ensures
            final(self)@ == after_failure(old(self)@, now_ms as nat),
    {
        let prev = self.failure_count;
        self.failure_count = prev + 1;
        self.last_failure_ms = now_ms;
        if prev + 1 >= self.failure_threshold {
            self.state = CircuitState::Open;
        }
    }

    /// Current circuit state (snapshot).
    pub fn state(&self) -> (s: CircuitState)
        ensures
            s == self@.state,
    {
        self.state
    }

    /// Consecutive failures recorded since the last success.
    pub fn failure_count(&self) -> (n: u32)
        ensures
            n as nat == self@.failure_count,
    {
        self.failure_count
    }
}

/// Once at least `failure_threshold` failures have been recorded since the count
/// was last reset, the breaker is open.
pub proof fn law_threshold_failures_open(b: BreakerView, k: nat, now_ms: nat)
    requires
        k >= 1,
        b.failure_count + k >= b.failure_threshold,
    ensures
        after_failures(b, k, now_ms).state == CircuitState::Open,
        after_failures(b, k, now_ms).failure_count == b.failure_count + k,
    decreases k,
{
    lemma_failures_count(b, k, now_ms);
}

/// Each failure adds one to the count; the other settings are untouched.
pub proof fn lemma_failures_count(b: BreakerView, k: nat, now_ms: nat)
    ensures
        after_failures(b, k, now_ms).failure_count == b.failure_count + k,
        after_failures(b, k, now_ms).failure_threshold == b.failure_threshold,
        after_failures(b, k, now_ms).recovery_timeout_ms == b.recovery_timeout_ms,
    decreases k,
{
    if k > 0 {
        lemma_failures_count(b, (k - 1) as nat, now_ms);
    }
}

/// Fewer failures than the threshold, starting from a reset closed breaker, keep it closed.
pub proof fn law_below_threshold_stays_closed(b: BreakerView, k: nat, now_ms: nat)
    requires
        b.failure_count == 0,
        b.state == CircuitState::Closed,
        k < b.failure_threshold,
    ensures
        after_failures(b, k, now_ms).state == CircuitState::Closed,
    decreases k,
{
    if k > 0 {
        law_below_threshold_stays_closed(b, (k - 1) as nat, now_ms);
        lemma_failures_count(b, (k - 1) as nat, now_ms);
    }
}

/// An open breaker rejects every check until the recovery timeout has elapsed since the
/// last failure, and lets the first check after that through, moving to half-open
/// (for a clock that has not gone back since that failure).
pub proof fn law_open_until_timeout(b: BreakerView, now_ms: nat)
    requires
        b.state == CircuitState::Open,
        now_ms >= b.last_failure_ms,
    ensures
        now_ms < b.last_failure_ms + b.recovery_timeout_ms ==> !check_allows(b, now_ms)
            && after_check(b, now_ms) == b,
        now_ms >= b.last_failure_ms + b.recovery_timeout_ms ==> check_allows(b, now_ms)
            && after_check(b, now_ms).state == CircuitState::HalfOpen,
{
}

/// A success always closes the breaker and clears the failure count, whatever its state.
pub proof fn law_success_closes(b: BreakerView)
    ensures
        after_success(b).state == CircuitState::Closed,
        after_success(b).failure_count == 0,
{
}

/// Closed and half-open breakers let every request through and do not change on a check.
pub proof fn law_closed_and_half_open_allow(b: BreakerView, now_ms: nat)
    requires
        b.state != CircuitState::Open,
    ensures
        check_allows(b, now_ms),
        after_check(b, now_ms) == b,
{
}

} // verus!
