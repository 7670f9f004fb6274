//! Run-time SQL assembly: filtered and paged SELECTs, ORDER BY lists and named queries.
pub mod builder;
pub mod order;
pub mod registry;
