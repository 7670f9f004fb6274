//! The contract between the library and an entity type: the mapping of a row to an
//! entity, of an entity to its parameters, and its key. `#[derive(SqlEntity)]` writes the
//! implementation for a struct.
use vstd::prelude::*;
use crate::error::SqlError;
use crate::params::{OdbcParam, ParamView, PkValue};
use crate::row::{OdbcRow, RowView};

verus! {

/// The name and value of each parameter.
pub open spec fn param_views(ps: Seq<OdbcParam>) -> Seq<(Seq<char>, ParamView)> {
    ps.map_values(|p: OdbcParam| (p.name@, p.value@))
}

/// An entity type stored in one table.
///
/// The specification functions describe the entity's mapping; an implementation states
/// them for its type (implementations that leave them out describe nothing checkable).
pub trait SqlEntity: Sized {
    /// The entity a row maps to, or the mapping error.
    closed spec fn decode(row: RowView) -> Result<Self, SqlError> {
        arbitrary()
    }

    /// The entity's primary key.
    closed spec fn key(&self) -> PkValue {
        arbitrary()
    }

    /// The parameters written for the entity, in order.
    closed spec fn param_list(&self) -> Seq<(Seq<char>, ParamView)> {
        arbitrary()
    }

    /// The schema-qualified table name.
    closed spec fn table_spec() -> Seq<char> {
        arbitrary()
    }

    /// Whether the key is an identity column generated by the server.
    closed spec fn identity_spec() -> bool {
        arbitrary()
    }

    /// The prefix of the entity's cache keys.
    closed spec fn cache_prefix_spec() -> Seq<char> {
        arbitrary()
    }

    /// The schema-qualified table name.
    fn table_name() -> (s: &'static str)
        ensures
            s@ == Self::table_spec();

    /// Whether the key is an identity column generated by the server.
    fn pk_is_identity() -> (b: bool)
        ensures
            b == Self::identity_spec();

    /// The prefix of the entity's cache keys.
    fn cache_prefix() -> (s: &'static str)
        ensures
            s@ == Self::cache_prefix_spec();

    /// Map a row to an entity.
    fn from_row(row: &OdbcRow) -> (r: Result<Self, SqlError>)
        ensures
            r == Self::decode(row@);

    /// The parameters written for the entity (computed columns left out).
    fn to_params(&self) -> (r: Vec<OdbcParam>)
        ensures
            param_views(r@) == self.param_list();

    /// The entity's primary key.
    fn pk_value(&self) -> (r: PkValue)
        ensures
            r == self.key();
}

} // verus!
