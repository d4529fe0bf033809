//! Default values that a column can be given

use vstd::prelude::*;
use vstd::std_specs::convert::FromSpecImpl;

verus! {

/// A default value for a column
#[derive(PartialEq, Debug, Clone)]
pub enum WrappedDefault<'outer> {
    /// Any text, written as a quoted string literal
    AnyText(&'outer str),
    /// A simple integer
    Integer(i64),
    /// True or False
    Boolean(bool),
    /// Any SQL expression, written as it is
    Custom(&'static str),
    /// The null value
    Null,
}

/// The model of a [`WrappedDefault`].
pub enum SpecDefault {
    AnyText(Seq<char>),
    Integer(i64),
    Boolean(bool),
    Custom(Seq<char>),
    Null,
}

impl<'outer> View for WrappedDefault<'outer> {
    type V = SpecDefault;

    open spec fn view(&self) -> SpecDefault {
        match self {
            WrappedDefault::AnyText(s) => SpecDefault::AnyText(s@),
            WrappedDefault::Integer(i) => SpecDefault::Integer(*i),
            WrappedDefault::Boolean(b) => SpecDefault::Boolean(*b),
            WrappedDefault::Custom(s) => SpecDefault::Custom(s@),
            WrappedDefault::Null => SpecDefault::Null,
        }
    }
}

impl<'outer> From<&'outer str> for WrappedDefault<'outer> {
    fn from(s: &'outer str) -> (r: Self) {
        WrappedDefault::AnyText(s)
    }
}

impl<'outer> FromSpecImpl<&'outer str> for WrappedDefault<'outer> {
    open spec fn obeys_from_spec() -> bool {
        true
    }

    open spec fn from_spec(s: &'outer str) -> Self {
        WrappedDefault::AnyText(s)
    }
}

impl<'outer> From<i64> for WrappedDefault<'outer> {
    fn from(i: i64) -> (r: Self) {
        WrappedDefault::Integer(i)
    }
}

impl<'outer> FromSpecImpl<i64> for WrappedDefault<'outer> {
    open spec fn obeys_from_spec() -> bool {
        true
    }

    open spec fn from_spec(i: i64) -> Self {
        WrappedDefault::Integer(i)
    }
}

impl<'outer> From<i32> for WrappedDefault<'outer> {
    fn from(i: i32) -> (r: Self) {
        WrappedDefault::Integer(i as i64)
    }
}

impl<'outer> FromSpecImpl<i32> for WrappedDefault<'outer> {
    open spec fn obeys_from_spec() -> bool {
        true
    }

    open spec fn from_spec(i: i32) -> Self {
        WrappedDefault::Integer(i as i64)
    }
}

impl<'outer> From<bool> for WrappedDefault<'outer> {
    fn from(b: bool) -> (r: Self) {
        WrappedDefault::Boolean(b)
    }
}

impl<'outer> FromSpecImpl<bool> for WrappedDefault<'outer> {
    open spec fn obeys_from_spec() -> bool {
        true
    }

    open spec fn from_spec(b: bool) -> Self {
        WrappedDefault::Boolean(b)
    }
}

} // verus!
