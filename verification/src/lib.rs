//! Statiq: the verified core of a compile-time MSSQL service library.
use vstd::prelude::*;

pub mod text;
pub mod error;
pub mod query;
pub mod circuit_breaker;
pub mod entity;
pub mod values;
pub mod temporal;
pub mod params;
pub mod binding;
pub mod textparse;
pub mod row;
pub mod sproc;
pub mod transaction;
pub mod pool;
pub mod config;
pub mod model;
pub mod cache;
pub mod service;
pub mod mock;
pub mod embed;

verus! {
} // verus!
