//! Types to construct columns and constraints with

mod defaults;
mod impls;

pub use self::defaults::{SpecDefault, WrappedDefault};
pub use self::impls::{
    action_keyword, base_view, default_type, constraint_keyword, copy_strings, lemma_action_keyword_injective, lemma_builder_last_wins, lemma_builders_commute,
    opt_string_view, strings_view, to_strings, BaseType, Constraint, ReferentialAction,
    SpecBaseType, SpecConstraint, SpecType, Type, WrapVec,
};

use vstd::prelude::*;

verus! {

/// A text column
pub fn text() -> (r: Type)
    ensures
        r@ == default_type(SpecBaseType::Text),
{
    Type::new(BaseType::Text)
}

/// A variable-length string column of at most `len` characters
pub fn varchar(len: usize) -> (r: Type)
    ensures
        r@ == default_type(SpecBaseType::Varchar(len)),
{
    Type::new(BaseType::Varchar(len))
}

/// An auto-incrementing primary key column: it is not null and unique by
/// its kind, so neither is asked for again
pub fn primary() -> (r: Type)
    ensures
        r@ == (SpecType { nullable: true, increments: true, ..default_type(SpecBaseType::Primary) }),
{
    Type::new(BaseType::Primary).nullable(true).increments(true).unique(false).indexed(false)
}

/// An integer column
pub fn integer() -> (r: Type)
    ensures
        r@ == default_type(SpecBaseType::Integer),
{
    Type::new(BaseType::Integer)
}

/// An auto-incrementing integer column
pub fn serial() -> (r: Type)
    ensures
        r@ == default_type(SpecBaseType::Serial),
{
    Type::new(BaseType::Serial)
}

/// A floating point number column
pub fn float() -> (r: Type)
    ensures
        r@ == default_type(SpecBaseType::Float),
{
    Type::new(BaseType::Float)
}

/// A double precision floating point number column
pub fn double() -> (r: Type)
    ensures
        r@ == default_type(SpecBaseType::Double),
{
    Type::new(BaseType::Double)
}

/// A boolean column
pub fn boolean() -> (r: Type)
    ensures
        r@ == default_type(SpecBaseType::Boolean),
{
    Type::new(BaseType::Boolean)
}

/// A unique identifier column
pub fn uuid() -> (r: Type)
    ensures
        r@ == default_type(SpecBaseType::UUID),
{
    Type::new(BaseType::UUID)
}

/// A column of JSON encoded data
pub fn json() -> (r: Type)
    ensures
        r@ == default_type(SpecBaseType::Json),
{
    Type::new(BaseType::Json)
}

/// A date column
pub fn date() -> (r: Type)
    ensures
        r@ == default_type(SpecBaseType::Date),
{
    Type::new(BaseType::Date)
}

/// A time column
pub fn time() -> (r: Type)
    ensures
        r@ == default_type(SpecBaseType::Time),
{
    Type::new(BaseType::Time)
}

/// A date and time column
pub fn datetime() -> (r: Type)
    ensures
        r@ == default_type(SpecBaseType::DateTime),
{
    Type::new(BaseType::DateTime)
}

/// A binary data column
pub fn binary() -> (r: Type)
    ensures
        r@ == default_type(SpecBaseType::Binary),
{
    Type::new(BaseType::Binary)
}

/// A column of a type that this library does not know, written as given
pub fn custom(sql: &'static str) -> (r: Type)
    ensures
        r@ == default_type(SpecBaseType::Custom(sql@)),
{
    Type::new(BaseType::Custom(sql))
}

/// A column that refers to the columns `keys` of the table `table`
pub fn foreign(table: &str, keys: &[&str]) -> (r: Type)
    ensures
        r@ == default_type(
            SpecBaseType::Foreign(None, table@, keys@.map_values(|s: &str| s@)),
        ),
{
    let r = Type::new(BaseType::Foreign(None, String::from_str(table), WrapVec(to_strings(keys))));
    r
}

/// A column holding many values of the type `inner`
pub fn array(inner: &Type) -> (r: Type)
    ensures
        r@ == default_type(SpecBaseType::Array(Box::new(inner.inner@))),
{
    Type::new(BaseType::Array(Box::new(inner.get_inner())))
}

/// A constraint that the values of `columns` are unique together
pub fn unique_constraint(columns: &[&str]) -> (r: Type)
    ensures
        r@ == default_type(
            SpecBaseType::Constraint(SpecConstraint::Unique, columns@.map_values(|s: &str| s@)),
        ),
{
    Type::new(BaseType::Constraint(Constraint::Unique, to_strings(columns)))
}

/// A constraint that `columns` form the table's primary key
pub fn primary_constraint(columns: &[&str]) -> (r: Type)
    ensures
        r@ == default_type(
            SpecBaseType::Constraint(SpecConstraint::PrimaryKey, columns@.map_values(|s: &str| s@)),
        ),
{
    Type::new(BaseType::Constraint(Constraint::PrimaryKey, to_strings(columns)))
}

/// A constraint that `columns` refer to `referenced_columns` of the table
/// `referenced_table`, with the actions to take when the referenced rows
/// are deleted or updated
pub fn foreign_constraint(
    columns: &[&str],
    referenced_table: &str,
    referenced_columns: &[&str],
    on_delete: Option<ReferentialAction>,
    on_update: Option<ReferentialAction>,
) -> (r: Type)
    ensures
        r@ == default_type(
            SpecBaseType::Constraint(
                SpecConstraint::ForeignKey {
                    table: referenced_table@,
                    foreign_columns: referenced_columns@.map_values(|s: &str| s@),
                    on_delete,
                    on_update,
                },
                columns@.map_values(|s: &str| s@),
            ),
        ),
{
    let c = Constraint::ForeignKey {
        table: String::from_str(referenced_table),
        foreign_columns: to_strings(referenced_columns),
        on_delete,
        on_update,
    };
    Type::new(BaseType::Constraint(c, to_strings(columns)))
}

} // verus!
