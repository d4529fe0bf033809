//! The SQL backends that a migration can be written for

pub mod render;
pub mod write;

pub use self::render::Dialect;

use vstd::prelude::*;

verus! {

/// A backend that migrations can be written for: it names its dialect.
pub trait SqlGenerator {
    /// The dialect this backend writes.
    spec fn spec_dialect() -> Dialect;

    /// The dialect this backend writes.
    fn dialect() -> (d: Dialect)
        ensures
            d == Self::spec_dialect(),
    ;
}

/// PostgreSQL
pub struct Pg;

/// SQLite 3
pub struct Sqlite;

/// Microsoft SQL Server
pub struct MsSql;

impl SqlGenerator for Pg {
    open spec fn spec_dialect() -> Dialect {
        Dialect::Pg
    }

    fn dialect() -> (d: Dialect) {
        Dialect::Pg
    }
}

impl SqlGenerator for Sqlite {
    open spec fn spec_dialect() -> Dialect {
        Dialect::Sqlite
    }

    fn dialect() -> (d: Dialect) {
        Dialect::Sqlite
    }
}

impl SqlGenerator for MsSql {
    open spec fn spec_dialect() -> Dialect {
        Dialect::MsSql
    }

    fn dialect() -> (d: Dialect) {
        Dialect::MsSql
    }
}

} // verus!
