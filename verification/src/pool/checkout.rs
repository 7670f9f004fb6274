//! The decisions of a checkout attempt and of the idle-connection sweep.
use vstd::prelude::*;
use crate::error::SqlError;
use crate::text::to_owned_string;

verus! {

/// What polling the idle queue gave.
#[derive(Debug, Clone, Copy, PartialEq, Eq, Structural)]
pub enum IdlePoll {
    /// An idle connection was taken.
    Got,
    /// The queue was empty.
    Empty,
    /// The queue's other end is gone.
    Disconnected,
}

/// What one round of a checkout does next.
#[derive(Debug, Clone, Copy, PartialEq, Eq, Structural)]
pub enum CheckoutAction {
    /// Hand out the idle connection just taken.
    UseIdle,
    /// Open a new connection and hand it out.
    CreateNew,
    /// Wait until a connection is returned or the deadline passes, then poll again.
    Wait,
    /// Stop: the idle queue is gone.
    Disconnected,
    /// Stop: the deadline passed with the pool full (the timeout counter goes up).
    TimedOut,
}

/// One round of a checkout: take an idle connection if there is one; else open a new
/// one while the pool is below `max_size`; else fail once the deadline has passed; else
/// wait.
pub open spec fn checkout_spec(
    poll: IdlePoll,
    active: u64,
    idle: u64,
    max_size: u32,
    deadline_passed: bool,
) -> CheckoutAction {
    match poll {
        IdlePoll::Got => CheckoutAction::UseIdle,
        IdlePoll::Disconnected => CheckoutAction::Disconnected,
        IdlePoll::Empty => if active + idle < max_size {
            CheckoutAction::CreateNew
        } else if deadline_passed {
            CheckoutAction::TimedOut
        } else {
            CheckoutAction::Wait
        },
    }
}

/// Decide one round of a checkout.
pub fn checkout_step(
    poll: IdlePoll,
    active: u64,
    idle: u64,
    max_size: u32,
    deadline_passed: bool,
) -> (a: CheckoutAction)
    requires
        poll == IdlePoll::Empty ==> active + idle <= u64::MAX,
    ensures
        a == checkout_spec(poll, active, idle, max_size, deadline_passed),
{
    match poll {
        IdlePoll::Got => CheckoutAction::UseIdle,
        IdlePoll::Disconnected => CheckoutAction::Disconnected,
        IdlePoll::Empty => {
            if active + idle < max_size as u64 {
                CheckoutAction::CreateNew
            } else if deadline_passed {
                CheckoutAction::TimedOut
            } else {
                CheckoutAction::Wait
            }
        },
    }
}

/// The error a checkout that stops returns: the pool-exhausted error with the configured
/// timeout, or a configuration error when the idle queue is gone.
pub fn checkout_failure(a: CheckoutAction, timeout_ms: u64) -> (e: Option<SqlError>)
    ensures
        a == CheckoutAction::TimedOut ==> e == Some(SqlError::PoolExhausted { timeout_ms }),
        a == CheckoutAction::Disconnected ==> (e matches Some(SqlError::Config(m))
            && m@ == "Pool channel disconnected"@),
        (a != CheckoutAction::TimedOut && a != CheckoutAction::Disconnected) ==> e is None,
{
    match a {
        CheckoutAction::TimedOut => Some(SqlError::PoolExhausted { timeout_ms }),
        CheckoutAction::Disconnected => Some(SqlError::config(to_owned_string("Pool channel disconnected"))),
        _ => None,
    }
}

/// Why the sweep closes an idle connection, or that it must be validated first.
#[derive(Debug, Clone, Copy, PartialEq, Eq, Structural)]
pub enum IdleVerdict {
    /// Older than the maximum lifetime.
    LifetimeExceeded,
    /// Unused for longer than the idle timeout.
    IdleTimeoutExceeded,
    /// Within both limits: keep it if a validation query succeeds.
    Validate,
}

/// `elapsed_nanos` is strictly longer than `secs` seconds.
pub open spec fn longer_than(elapsed_nanos: u128, secs: u64) -> bool {
    elapsed_nanos > secs * 1_000_000_000
}

/// The lifetime limit applies only when it is not 0; it is checked before the idle limit.
pub open spec fn idle_verdict_spec(
    max_lifetime_secs: u64,
    idle_timeout_secs: u64,
    age_nanos: u128,
    unused_nanos: u128,
) -> IdleVerdict {
    if max_lifetime_secs > 0 && longer_than(age_nanos, max_lifetime_secs) {
        IdleVerdict::LifetimeExceeded
    } else if longer_than(unused_nanos, idle_timeout_secs) {
        IdleVerdict::IdleTimeoutExceeded
    } else {
        IdleVerdict::Validate
    }
}

/// Judge one idle connection by its age and the time since it was last used.
pub fn idle_verdict(
    max_lifetime_secs: u64,
    idle_timeout_secs: u64,
    age_nanos: u128,
    unused_nanos: u128,
) -> (v: IdleVerdict)
    ensures
        v == idle_verdict_spec(max_lifetime_secs, idle_timeout_secs, age_nanos, unused_nanos),
{
    if max_lifetime_secs > 0 && age_nanos > (max_lifetime_secs as u128) * 1_000_000_000 {
        IdleVerdict::LifetimeExceeded
    } else if unused_nanos > (idle_timeout_secs as u128) * 1_000_000_000 {
        IdleVerdict::IdleTimeoutExceeded
    } else {
        IdleVerdict::Validate
    }
}

/// A pool never opens a connection beyond `max_size`: a new one is opened only while the
/// active and idle counts together are below it.
pub proof fn law_create_below_max(active: u64, idle: u64, max_size: u32, deadline_passed: bool)
    ensures
        checkout_spec(IdlePoll::Empty, active, idle, max_size, deadline_passed) is CreateNew
            <==> active + idle < max_size,
{
}

} // verus!
