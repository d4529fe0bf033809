//! A table: the columns and constraints that a migration creates or adds

use vstd::prelude::*;

use crate::types::{strings_view, to_strings, SpecType, Type};

verus! {

/// The columns and constraints of a table, in the order they were added,
/// and its primary key.
pub struct Table {
    /// Columns and constraints, each with its name
    pub items: Vec<(String, Type)>,
    /// The columns of the table's primary key, where one was set
    pub primary_key: Option<Vec<String>>,
}

/// The model of a [`Table`].
pub struct SpecTable {
    pub items: Seq<(Seq<char>, SpecType)>,
    pub primary_key: Option<Seq<Seq<char>>>,
}

/// The model of a named column or constraint.
pub open spec fn item_view(item: (String, Type)) -> (Seq<char>, SpecType) {
    (item.0@, item.1@)
}

impl View for Table {
    type V = SpecTable;

    open spec fn view(&self) -> SpecTable {
        SpecTable {
            items: self.items@.map_values(|item: (String, Type)| item_view(item)),
            primary_key: match self.primary_key {
                Some(cols) => Some(strings_view(cols@)),
                None => None,
            },
        }
    }
}

/// A table with no columns, no constraints and no primary key.
pub open spec fn empty_table() -> SpecTable {
    SpecTable { items: Seq::empty(), primary_key: None }
}

impl Table {
    /// An empty table.
    pub fn new() -> (t: Table)
        ensures
            t@ == empty_table(),
    {
        let t = Table { items: Vec::new(), primary_key: None };
        assert(t@.items =~= Seq::<(Seq<char>, SpecType)>::empty());
        t
    }

    /// Adds the column `name` of type `t`.
    pub fn add_column(&mut self, name: &str, t: Type)
        ensures
            final(self)@ == (SpecTable {
                items: old(self)@.items.push((name@, t@)),
                ..old(self)@
            }),
    {
        let ghost before = self@;
        self.items.push((String::from_str(name), t));
        assert(self@.items =~= before.items.push((name@, t@)));
    }

    /// Adds the constraint `name`, described by `t` (see
    /// `types::unique_constraint` and its siblings).
    pub fn add_constraint(&mut self, name: &str, t: Type)
        ensures
            final(self)@ == (SpecTable {
                items: old(self)@.items.push((name@, t@)),
                ..old(self)@
            }),
    {
        let ghost before = self@;
        self.items.push((String::from_str(name), t));
        assert(self@.items =~= before.items.push((name@, t@)));
    }

    /// Makes `columns` the table's primary key, in place of any set before.
    pub fn set_primary_key(&mut self, columns: &[&str])
        ensures
            final(self)@ == (SpecTable {
                primary_key: Some(columns@.map_values(|s: &str| s@)),
                ..old(self)@
            }),
    {
        self.primary_key = Some(to_strings(columns));
    }
}

} // verus!
