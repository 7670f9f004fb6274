//! Pool counters and their snapshots.
use vstd::prelude::*;
use vstd::wrapping::u64_specs::{wrapping_add, wrapping_sub};

verus! {

/// The pool's counters. Every update wraps around on overflow, like an atomic
/// `fetch_add` / `fetch_sub`.
#[derive(Debug)]
pub struct PoolMetrics {
    pub active_count: u64,
    pub idle_count: u64,
    pub total_created: u64,
    pub total_destroyed: u64,
    pub total_checkouts: u64,
    pub total_timeouts: u64,
    pub total_deadlocks: u64,
    pub waiters: u64,
}

impl Default for PoolMetrics {
    fn default() -> (m: PoolMetrics)
        ensures
            snapshot_of(m) == (MetricsSnapshot {
                active: 0, idle: 0, total_created: 0, total_destroyed: 0,
                total_checkouts: 0, total_timeouts: 0, total_deadlocks: 0, waiters: 0,
            }),
    {
        PoolMetrics::new()
    }
}

/// A copy of the counters at one moment.
#[derive(Debug, Clone, Copy, PartialEq, Eq, Structural)]
pub struct MetricsSnapshot {
    pub active: u64,
    pub idle: u64,
    pub total_created: u64,
    pub total_destroyed: u64,
    pub total_checkouts: u64,
    pub total_timeouts: u64,
    pub total_deadlocks: u64,
    pub waiters: u64,
}

/// The snapshot that holds exactly the given counters.
pub open spec fn snapshot_of(m: PoolMetrics) -> MetricsSnapshot {
    MetricsSnapshot {
        active: m.active_count,
        idle: m.idle_count,
        total_created: m.total_created,
        total_destroyed: m.total_destroyed,
        total_checkouts: m.total_checkouts,
        total_timeouts: m.total_timeouts,
        total_deadlocks: m.total_deadlocks,
        waiters: m.waiters,
    }
}

impl PoolMetrics {
    /// All counters at zero.
    pub fn new() -> (m: PoolMetrics)
        ensures
            snapshot_of(m) == (MetricsSnapshot {
                active: 0, idle: 0, total_created: 0, total_destroyed: 0,
                total_checkouts: 0, total_timeouts: 0, total_deadlocks: 0, waiters: 0,
            }),
    {
        PoolMetrics {
            active_count: 0,
            idle_count: 0,
            total_created: 0,
            total_destroyed: 0,
            total_checkouts: 0,
            total_timeouts: 0,
            total_deadlocks: 0,
            waiters: 0,
        }
    }

    /// The current counters.
    pub fn snapshot(&self) -> (s: MetricsSnapshot)
        ensures
            s == snapshot_of(*self),
    {
        MetricsSnapshot {
            active: self.active_count,
            idle: self.idle_count,
            total_created: self.total_created,
            total_destroyed: self.total_destroyed,
            total_checkouts: self.total_checkouts,
            total_timeouts: self.total_timeouts,
            total_deadlocks: self.total_deadlocks,
            waiters: self.waiters,
        }
    }

    /// A new connection was opened.
    pub fn record_created(&mut self)
        ensures
            *final(self) == (PoolMetrics {
                total_created: wrapping_add(old(self).total_created, 1), ..*old(self)
            }),
    {
        self.total_created = self.total_created.wrapping_add(1);
    }

    /// A connection was closed by the idle sweep.
    pub fn record_destroyed(&mut self)
        ensures
            *final(self) == (PoolMetrics {
                total_destroyed: wrapping_add(old(self).total_destroyed, 1), ..*old(self)
            }),
    {
        self.total_destroyed = self.total_destroyed.wrapping_add(1);
    }

    /// A connection was put in the idle queue while the pool was filled.
    pub fn record_idle_added(&mut self)
        ensures
            *final(self) == (PoolMetrics {
                idle_count: wrapping_add(old(self).idle_count, 1), ..*old(self)
            }),
    {
        self.idle_count = self.idle_count.wrapping_add(1);
    }

    /// A caller started waiting for a connection.
    pub fn waiter_enter(&mut self)
        ensures
            *final(self) == (PoolMetrics { waiters: wrapping_add(old(self).waiters, 1), ..*old(self) }),
    {
        self.waiters = self.waiters.wrapping_add(1);
    }

    /// A caller stopped waiting for a connection.
    pub fn waiter_leave(&mut self)
        ensures
            *final(self) == (PoolMetrics { waiters: wrapping_sub(old(self).waiters, 1), ..*old(self) }),
    {
        self.waiters = self.waiters.wrapping_sub(1);
    }

    /// A checkout succeeded: one more active connection, one fewer idle one.
    pub fn record_checkout(&mut self)
        ensures
            *final(self) == (PoolMetrics {
                active_count: wrapping_add(old(self).active_count, 1),
                idle_count: wrapping_sub(old(self).idle_count, 1),
                total_checkouts: wrapping_add(old(self).total_checkouts, 1),
                ..*old(self)
            }),
    {
        self.active_count = self.active_count.wrapping_add(1);
        self.idle_count = self.idle_count.wrapping_sub(1);
        self.total_checkouts = self.total_checkouts.wrapping_add(1);
    }

    /// A checkout gave up at its deadline.
    pub fn record_timeout(&mut self)
        ensures
            *final(self) == (PoolMetrics {
                total_timeouts: wrapping_add(old(self).total_timeouts, 1), ..*old(self)
            }),
    {
        self.total_timeouts = self.total_timeouts.wrapping_add(1);
    }

    /// A deadlock was detected by the retry loop.
    pub fn record_deadlock(&mut self)
        ensures
            *final(self) == (PoolMetrics {
                total_deadlocks: wrapping_add(old(self).total_deadlocks, 1), ..*old(self)
            }),
    {
        self.total_deadlocks = self.total_deadlocks.wrapping_add(1);
    }

    /// After an idle sweep, exactly the connections kept are idle.
    pub fn set_idle(&mut self, kept: u64)
        ensures
            *final(self) == (PoolMetrics { idle_count: kept, ..*old(self) }),
    {
        self.idle_count = kept;
    }
}

} // verus!
