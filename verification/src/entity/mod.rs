//! Entity metadata and the SQL statements generated from it for `#[derive(SqlEntity)]`.
pub mod attrs;
pub mod parse;
pub mod sql_gen;
pub mod codegen;
