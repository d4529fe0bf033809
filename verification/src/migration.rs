//! A migration: a list of changes to a database, turned into SQL for a
//! chosen backend

use vstd::prelude::*;

use crate::backend::render::{change_writable, changes_sql, migration_sql, migration_writable};
use crate::backend::write::push_change;
use crate::backend::SqlGenerator;
use crate::table::{empty_table, SpecTable, Table};
use crate::types::opt_string_view;

verus! {

/// One change to a database.
pub enum DatabaseChange {
    /// Create the table, failing where it exists
    CreateTable(String, Table),
    /// Create the table unless it exists
    CreateTableIfNotExists(String, Table),
    /// Add the table's columns and constraints to an existing table
    ChangeTable(String, Table),
    /// Rename a table from the first name to the second
    RenameTable(String, String),
    /// Drop the table, failing where it does not exist
    DropTable(String),
    /// Drop the table where it exists
    DropTableIfExists(String),
}

/// The model of a [`DatabaseChange`].
pub enum SpecChange {
    CreateTable(Seq<char>, SpecTable),
    CreateTableIfNotExists(Seq<char>, SpecTable),
    ChangeTable(Seq<char>, SpecTable),
    RenameTable(Seq<char>, Seq<char>),
    DropTable(Seq<char>),
    DropTableIfExists(Seq<char>),
}

impl View for DatabaseChange {
    type V = SpecChange;

    open spec fn view(&self) -> SpecChange {
        match self {
            DatabaseChange::CreateTable(n, t) => SpecChange::CreateTable(n@, t@),
            DatabaseChange::CreateTableIfNotExists(n, t) => SpecChange::CreateTableIfNotExists(
                n@,
                t@,
            ),
            DatabaseChange::ChangeTable(n, t) => SpecChange::ChangeTable(n@, t@),
            DatabaseChange::RenameTable(a, b) => SpecChange::RenameTable(a@, b@),
            DatabaseChange::DropTable(n) => SpecChange::DropTable(n@),
            DatabaseChange::DropTableIfExists(n) => SpecChange::DropTableIfExists(n@),
        }
    }
}

/// A list of changes to a database, in the order they are to be made, and
/// the schema that the tables they name belong to.
pub struct Migration {
    pub schema: Option<String>,
    pub changes: Vec<DatabaseChange>,
}

/// The model of a [`Migration`].
pub struct SpecMigration {
    pub schema: Option<Seq<char>>,
    pub changes: Seq<SpecChange>,
}

impl View for Migration {
    type V = SpecMigration;

    open spec fn view(&self) -> SpecMigration {
        SpecMigration {
            schema: opt_string_view(self.schema),
            changes: self.changes@.map_values(|c: DatabaseChange| c@),
        }
    }
}

/// The migration `m` with one more change at its end.
pub open spec fn with_change(m: SpecMigration, c: SpecChange) -> SpecMigration {
    SpecMigration { schema: m.schema, changes: m.changes.push(c) }
}

impl Migration {
    /// A migration with no changes and no schema.
    pub fn new() -> (m: Migration)
        ensures
            m@ == (SpecMigration { schema: None, changes: Seq::empty() }),
    {
        let m = Migration { schema: None, changes: Vec::new() };
        assert(m@.changes =~= Seq::<SpecChange>::empty());
        m
    }

    /// This migration with its tables in the schema `schema`.
    pub fn schema(self, schema: &str) -> (m: Migration)
        ensures
            m@ == (SpecMigration { schema: Some(schema@), changes: self@.changes }),
    {
        Migration { schema: Some(String::from_str(schema)), changes: self.changes }
    }

    fn push(&mut self, c: DatabaseChange)
        ensures
            final(self)@ == with_change(old(self)@, c@),
    {
        let ghost before = self@;
        self.changes.push(c);
        assert(self@.changes =~= before.changes.push(c@));
    }

    /// Creates the table `name`, whose columns and constraints `cb` adds to
    /// an empty table.
    pub fn create_table<F: FnOnce(&mut Table)>(&mut self, name: &str, cb: F)
        requires
            forall|t: &mut Table| #[trigger] cb.requires((t,)),
        ensures
            exists|t: &mut Table|
                (*t)@ == empty_table() && #[trigger] cb.ensures((t,), ()) && final(self)@
                    == with_change(old(self)@, SpecChange::CreateTable(name@, (*final(t))@)),
    {
        let mut t = Table::new();
        cb(&mut t);
        self.push(DatabaseChange::CreateTable(String::from_str(name), t));
    }

    /// Creates the table `name` unless it exists; `cb` adds its columns and
    /// constraints to an empty table.
    pub fn create_table_if_not_exists<F: FnOnce(&mut Table)>(&mut self, name: &str, cb: F)
        requires
            forall|t: &mut Table| #[trigger] cb.requires((t,)),
        ensures
            exists|t: &mut Table|
                (*t)@ == empty_table() && #[trigger] cb.ensures((t,), ()) && final(self)@
                    == with_change(
                    old(self)@,
                    SpecChange::CreateTableIfNotExists(name@, (*final(t))@),
                ),
    {
        let mut t = Table::new();
        cb(&mut t);
        self.push(DatabaseChange::CreateTableIfNotExists(String::from_str(name), t));
    }

    /// Adds to the existing table `name` the columns and constraints that
    /// `cb` adds to an empty table.
    pub fn change_table<F: FnOnce(&mut Table)>(&mut self, name: &str, cb: F)
        requires
            forall|t: &mut Table| #[trigger] cb.requires((t,)),
        ensures
            exists|t: &mut Table|
                (*t)@ == empty_table() && #[trigger] cb.ensures((t,), ()) && final(self)@
                    == with_change(old(self)@, SpecChange::ChangeTable(name@, (*final(t))@)),
    {
        let mut t = Table::new();
        cb(&mut t);
        self.push(DatabaseChange::ChangeTable(String::from_str(name), t));
    }

    /// Renames the table `old_name` to `new_name`.
    pub fn rename_table(&mut self, old_name: &str, new_name: &str)
        ensures
            final(self)@ == with_change(
                old(self)@,
                SpecChange::RenameTable(old_name@, new_name@),
            ),
    {
        self.push(
            DatabaseChange::RenameTable(String::from_str(old_name), String::from_str(new_name)),
        );
    }

    /// Drops the table `name`.
    pub fn drop_table(&mut self, name: &str)
        ensures
            final(self)@ == with_change(old(self)@, SpecChange::DropTable(name@)),
    {
        self.push(DatabaseChange::DropTable(String::from_str(name)));
    }

    /// Drops the table `name` where it exists.
    pub fn drop_table_if_exists(&mut self, name: &str)
        ensures
            final(self)@ == with_change(old(self)@, SpecChange::DropTableIfExists(name@)),
    {
        self.push(DatabaseChange::DropTableIfExists(String::from_str(name)));
    }

    /// The SQL of this migration for the backend `T`: the statement of each
    /// change, in order.
    pub fn make<T: SqlGenerator>(&self) -> (sql: String)
        requires
            migration_writable(self@),
        ensures
            sql@ == migration_sql(T::spec_dialect(), self@),
    {
        let d = T::dialect();
        let ghost sch = self@.schema;
        let ghost cs = self@.changes;
        let mut out = String::new();
        let mut i: usize = 0;
        while i < self.changes.len()
            invariant
                i <= self.changes@.len(),
                sch == opt_string_view(self.schema),
                cs == self@.changes,
                migration_writable(self@),
                out@ == changes_sql(d, sch, cs.take(i as int)),
            decreases self.changes@.len() - i,
        {
            proof {
                assert(cs.take(i + 1).drop_last() =~= cs.take(i as int));
                assert(change_writable(cs[i as int]));
            }
            push_change(&mut out, d, &self.schema, &self.changes[i]);
            i = i + 1;
        }
        assert(cs.take(self.changes@.len() as int) =~= cs);
        out
    }
}

} // verus!
