//! The connection pool's bookkeeping and decisions: counters, checkout, idle sweeps and
//! the per-connection session state.
pub mod metrics;
pub mod checkout;
pub mod conn;
