//! Implementation specifics for the type system

use vstd::prelude::*;
use vstd::std_specs::convert::{FromSpecImpl, IntoSpec};

use super::defaults::{SpecDefault, WrappedDefault};

verus! {

/// The text of each string in a sequence.
pub open spec fn strings_view(v: Seq<String>) -> Seq<Seq<char>> {
    v.map_values(|s: String| s@)
}

/// A copy of a list of strings.
pub fn copy_strings(v: &Vec<String>) -> (r: Vec<String>)
    ensures
        strings_view(r@) == strings_view(v@),
{
    let mut r: Vec<String> = Vec::new();
    let mut i: usize = 0;
    while i < v.len()
        invariant
            i <= v@.len(),
            r@.len() == i,
            forall|j: int| 0 <= j < i ==> #[trigger] r@[j]@ == v@[j]@,
        decreases v@.len() - i,
    {
        r.push(v[i].clone());
        i = i + 1;
    }
    assert(strings_view(r@) =~= strings_view(v@));
    r
}

/// A list of string slices as owned strings.
pub fn to_strings(v: &[&str]) -> (r: Vec<String>)
    ensures
        strings_view(r@) == v@.map_values(|s: &str| s@),
{
    let mut r: Vec<String> = Vec::new();
    let mut i: usize = 0;
    while i < v.len()
        invariant
            i <= v@.len(),
            r@.len() == i,
            forall|j: int| 0 <= j < i ==> #[trigger] r@[j]@ == v@[j]@,
        decreases v@.len() - i,
    {
        r.push(String::from_str(v[i]));
        i = i + 1;
    }
    assert(strings_view(r@) =~= v@.map_values(|s: &str| s@));
    r
}

/// A smol wrapper around `Vec<T>` to get around the orphan rules
#[derive(PartialEq, Debug, Clone)]
pub struct WrapVec<T>(pub Vec<T>);

impl<T> View for WrapVec<T> {
    type V = Seq<T>;

    open spec fn view(&self) -> Seq<T> {
        self.0@
    }
}

impl<'a> From<&'a str> for WrapVec<String> {
    /// A list of the one name `s`.
    fn from(s: &'a str) -> (r: Self)
        ensures
            strings_view(r@) == seq![s@],
    {
        let mut v: Vec<String> = Vec::new();
        v.push(String::from_str(s));
        let r = WrapVec(v);
        assert(strings_view(r@) =~= seq![s@]);
        r
    }
}

impl<'a> FromSpecImpl<&'a str> for WrapVec<String> {
    /// A `String` is known by its text only, so no exact value is named.
    open spec fn obeys_from_spec() -> bool {
        false
    }

    open spec fn from_spec(s: &'a str) -> Self {
        arbitrary()
    }
}

impl From<String> for WrapVec<String> {
    /// A list of the one name `s`.
    fn from(s: String) -> (r: Self)
        ensures
            r@ == seq![s],
    {
        let mut v: Vec<String> = Vec::new();
        v.push(s);
        let r = WrapVec(v);
        assert(r@ =~= seq![s]);
        r
    }
}

impl FromSpecImpl<String> for WrapVec<String> {
    open spec fn obeys_from_spec() -> bool {
        false
    }

    open spec fn from_spec(s: String) -> Self {
        arbitrary()
    }
}

impl<I: Into<String>> From<Vec<I>> for WrapVec<String> {
    /// Each item of `v`, turned into a `String`, in order.
    fn from(v: Vec<I>) -> (r: Self)
        ensures
            r@.len() == v@.len(),
            <I as IntoSpec<String>>::obeys_into_spec() ==> forall|i: int|
                0 <= i < v@.len() ==> #[trigger] r@[i] == v@[i].into_spec(),
    {
        let ghost items = v@;
        let mut rest = v;
        let mut out: Vec<String> = Vec::new();
        while rest.len() > 0
            invariant
                out@.len() + rest@.len() == items.len(),
                rest@ == items.subrange(out@.len() as int, items.len() as int),
                <I as IntoSpec<String>>::obeys_into_spec() ==> forall|i: int|
                    0 <= i < out@.len() ==> #[trigger] out@[i] == items[i].into_spec(),
            decreases rest@.len(),
        {
            let x = rest.remove(0);
            out.push(x.into());
            assert(rest@ =~= items.subrange(out@.len() as int, items.len() as int));
        }
        WrapVec(out)
    }
}

impl<I: Into<String>> FromSpecImpl<Vec<I>> for WrapVec<String> {
    open spec fn obeys_from_spec() -> bool {
        false
    }

    open spec fn from_spec(v: Vec<I>) -> Self {
        arbitrary()
    }
}

#[derive(PartialEq, Debug, Clone)]
pub enum Constraint {
    Unique,
    PrimaryKey,
    ForeignKey {
        table: String,
        foreign_columns: Vec<String>,
        on_delete: Option<ReferentialAction>,
        on_update: Option<ReferentialAction>,
    },
}

/// The model of a [`Constraint`]: names as text.
pub enum SpecConstraint {
    Unique,
    PrimaryKey,
    ForeignKey {
        table: Seq<char>,
        foreign_columns: Seq<Seq<char>>,
        on_delete: Option<ReferentialAction>,
        on_update: Option<ReferentialAction>,
    },
}

impl View for Constraint {
    type V = SpecConstraint;

    open spec fn view(&self) -> SpecConstraint {
        match self {
            Constraint::Unique => SpecConstraint::Unique,
            Constraint::PrimaryKey => SpecConstraint::PrimaryKey,
            Constraint::ForeignKey { table, foreign_columns, on_delete, on_update } =>
                SpecConstraint::ForeignKey {
                table: table@,
                foreign_columns: strings_view(foreign_columns@),
                on_delete: *on_delete,
                on_update: *on_update,
            },
        }
    }
}

/// The keyword that introduces a constraint of this kind.
pub open spec fn constraint_keyword(c: SpecConstraint) -> Seq<char> {
    match c {
        SpecConstraint::Unique => "UNIQUE"@,
        SpecConstraint::PrimaryKey => "PRIMARY KEY"@,
        SpecConstraint::ForeignKey { .. } => "FOREIGN KEY"@,
    }
}

impl Constraint {
    /// The constraint's keyword, as `Display` shows it.
    pub fn to_string(&self) -> (s: String)
        ensures
            s@ == constraint_keyword(self@),
    {
        match self {
            Constraint::Unique => String::from_str("UNIQUE"),
            Constraint::PrimaryKey => String::from_str("PRIMARY KEY"),
            Constraint::ForeignKey { .. } => String::from_str("FOREIGN KEY"),
        }
    }

    /// A copy of this constraint.
    pub fn copy(&self) -> (r: Constraint)
        ensures
            r@ == self@,
    {
        match self {
            Constraint::Unique => Constraint::Unique,
            Constraint::PrimaryKey => Constraint::PrimaryKey,
            Constraint::ForeignKey { table, foreign_columns, on_delete, on_update } => {
                Constraint::ForeignKey {
                    table: table.clone(),
                    foreign_columns: copy_strings(foreign_columns),
                    on_delete: *on_delete,
                    on_update: *on_update,
                }
            },
        }
    }
}

// The ON DELETE clause specifies the action to perform when a referenced row in
// the referenced table is being deleted. Likewise, the ON UPDATE clause
// specifies the action to perform when a referenced column in the referenced
// table is being updated to a new value. If the row is updated, but the
// referenced column is not actually changed, no action is done. Referential
// actions other than the NO ACTION check cannot be deferred, even if the
// constraint is declared deferrable.
#[derive(Debug, PartialEq, Eq, Clone, Copy)]
pub enum ReferentialAction {
    // Delete any rows referencing the deleted row, or update the values of the
    // referencing column(s) to the new values of the referenced columns,
    // respectively.
    Cascade,
    // Produce an error indicating that the deletion or update would create a
    // foreign key constraint violation. If the constraint is deferred, this
    // error will be produced at constraint check time if there still exist any
    // referencing rows. This is the default action.
    NoAction,
    // Produce an error indicating that the deletion or update would create a
    // foreign key constraint violation. This is the same as NO ACTION except
    // that the check is not deferrable.
    Restrict,
    // Set the referencing column(s) to null.
    SetNull,
    // Set the referencing column(s) to their default values. (There must be a
    // row in the referenced table matching the default values, if they are not
    // null, or the operation will fail.)
    SetDefault,
}

/// The SQL words of a referential action.
pub open spec fn action_keyword(a: ReferentialAction) -> Seq<char> {
    match a {
        ReferentialAction::Cascade => "CASCADE"@,
        ReferentialAction::NoAction => "NO ACTION"@,
        ReferentialAction::Restrict => "RESTRICT"@,
        ReferentialAction::SetNull => "SET NULL"@,
        ReferentialAction::SetDefault => "SET DEFAULT"@,
    }
}

impl ReferentialAction {
    /// The action's SQL words, as `Display` shows them.
    pub fn to_string(&self) -> (s: String)
        ensures
            s@ == action_keyword(*self),
    {
        match self {
            ReferentialAction::Cascade => String::from_str("CASCADE"),
            ReferentialAction::NoAction => String::from_str("NO ACTION"),
            ReferentialAction::Restrict => String::from_str("RESTRICT"),
            ReferentialAction::SetNull => String::from_str("SET NULL"),
            ReferentialAction::SetDefault => String::from_str("SET DEFAULT"),
        }
    }
}

/// Distinct referential actions have distinct SQL words.
pub proof fn lemma_action_keyword_injective(a: ReferentialAction, b: ReferentialAction)
    ensures
        action_keyword(a) == action_keyword(b) <==> a == b,
{
    reveal_strlit("CASCADE");
    reveal_strlit("NO ACTION");
    reveal_strlit("RESTRICT");
    reveal_strlit("SET NULL");
    reveal_strlit("SET DEFAULT");
    if a != b {
        let x = action_keyword(a);
        let y = action_keyword(b);
        if x.len() == y.len() {
            assert(x[0] != y[0] || x[4] != y[4]);
        }
    }
}

/// Core type enum, describing the basic type
#[derive(PartialEq, Debug)]
pub enum BaseType {
    /// A string blob, stored in the heap with a pointer in the row
    Text,
    /// Variable-length string that (hopefully) is stored to the row
    Varchar(usize),
    /// Fixed-length string that is stored to the row
    Char(usize),
    /// Primary key (utility for incrementing integer – postgres supports this, we just mirror it)
    Primary,
    /// Simple integer
    Integer,
    /// An integer that as a default value of the next biggest number
    Serial,
    /// Floating point number
    Float,
    /// Like Float but `~ ~ d o u b l e    p r e c i s i o n ~ ~`
    Double,
    /// A unique identifier type
    UUID,
    /// True or False
    Boolean,
    /// Json encoded data
    Json,
    /// Date
    Date,
    /// Date
    Time,
    /// Date and time
    DateTime,
    /// <inconceivable jibberish>
    Binary,
    /// Foreign key to other table
    Foreign(Option<String>, String, WrapVec<String>),
    /// I have no idea what you are – but I *like* it
    Custom(&'static str),
    /// Any of the above, but **many** of them
    Array(Box<BaseType>),
    /// Indexing over multiple columns
    Index(Vec<String>),
    /// Indexing over multiple columns
    Constraint(Constraint, Vec<String>),
}

/// The model of a [`BaseType`]: names as text.
pub enum SpecBaseType {
    Text,
    Varchar(usize),
    Char(usize),
    Primary,
    Integer,
    Serial,
    Float,
    Double,
    UUID,
    Boolean,
    Json,
    Date,
    Time,
    DateTime,
    Binary,
    Foreign(Option<Seq<char>>, Seq<char>, Seq<Seq<char>>),
    Custom(Seq<char>),
    Array(Box<SpecBaseType>),
    Index(Seq<Seq<char>>),
    Constraint(SpecConstraint, Seq<Seq<char>>),
}

/// The text of an optional string.
pub open spec fn opt_string_view(o: Option<String>) -> Option<Seq<char>> {
    match o {
        Some(s) => Some(s@),
        None => None,
    }
}

/// The model of a base type.
pub open spec fn base_view(t: BaseType) -> SpecBaseType
    decreases t,
{
    match t {
        BaseType::Text => SpecBaseType::Text,
        BaseType::Varchar(n) => SpecBaseType::Varchar(n),
        BaseType::Char(n) => SpecBaseType::Char(n),
        BaseType::Primary => SpecBaseType::Primary,
        BaseType::Integer => SpecBaseType::Integer,
        BaseType::Serial => SpecBaseType::Serial,
        BaseType::Float => SpecBaseType::Float,
        BaseType::Double => SpecBaseType::Double,
        BaseType::UUID => SpecBaseType::UUID,
        BaseType::Boolean => SpecBaseType::Boolean,
        BaseType::Json => SpecBaseType::Json,
        BaseType::Date => SpecBaseType::Date,
        BaseType::Time => SpecBaseType::Time,
        BaseType::DateTime => SpecBaseType::DateTime,
        BaseType::Binary => SpecBaseType::Binary,
        BaseType::Foreign(schema, table, keys) => SpecBaseType::Foreign(
            opt_string_view(schema),
            table@,
            strings_view(keys.0@),
        ),
        BaseType::Custom(s) => SpecBaseType::Custom(s@),
        BaseType::Array(inner) => SpecBaseType::Array(Box::new(base_view(*inner))),
        BaseType::Index(cols) => SpecBaseType::Index(strings_view(cols@)),
        BaseType::Constraint(c, cols) => SpecBaseType::Constraint(c@, strings_view(cols@)),
    }
}

impl View for BaseType {
    type V = SpecBaseType;

    open spec fn view(&self) -> SpecBaseType {
        base_view(*self)
    }
}

impl BaseType {
    /// A copy of this type.
    pub fn copy(&self) -> (r: BaseType)
        ensures
            r@ == self@,
        decreases self,
    {
        match self {
            BaseType::Text => BaseType::Text,
            BaseType::Varchar(n) => BaseType::Varchar(*n),
            BaseType::Char(n) => BaseType::Char(*n),
            BaseType::Primary => BaseType::Primary,
            BaseType::Integer => BaseType::Integer,
            BaseType::Serial => BaseType::Serial,
            BaseType::Float => BaseType::Float,
            BaseType::Double => BaseType::Double,
            BaseType::UUID => BaseType::UUID,
            BaseType::Boolean => BaseType::Boolean,
            BaseType::Json => BaseType::Json,
            BaseType::Date => BaseType::Date,
            BaseType::Time => BaseType::Time,
            BaseType::DateTime => BaseType::DateTime,
            BaseType::Binary => BaseType::Binary,
            BaseType::Foreign(schema, table, keys) => {
                let s = match schema {
                    Some(s) => Some(s.clone()),
                    None => None,
                };
                BaseType::Foreign(s, table.clone(), WrapVec(copy_strings(&keys.0)))
            },
            BaseType::Custom(s) => BaseType::Custom(*s),
            BaseType::Array(inner) => {
                let i = (**inner).copy();
                BaseType::Array(Box::new(i))
            },
            BaseType::Index(cols) => BaseType::Index(copy_strings(cols)),
            BaseType::Constraint(c, cols) => BaseType::Constraint(c.copy(), copy_strings(cols)),
        }
    }
}

impl Clone for BaseType {
    fn clone(&self) -> (r: Self)
        ensures
            r@ == self@,
    {
        self.copy()
    }
}

/// A database column type and all the metadata attached to it
///
/// Using this struct directly is not recommended. Instead, you should be
/// using the constructor APIs in the `types` module.
///
/// A `Type` is a struct provided to the other APIs of this library in order
/// to generate SQL datatypes. Working with them directly is possible
/// but not recommended.
///
/// Instead, you can use these helper functions to construct `Type` enums of
/// different...types and constraints. Field metadata is added via chainable
/// factory pattern functions.
///
/// ## Default values
///
/// If no additional arguments are provided, some assumptions will be made
/// about the metadata of a column type.
///
/// - `nullable`: `false`
/// - `indexed`: `false`
/// - `unique`: `false`
/// - `default`:  `None`
/// - `size`: `None` (which will error if size is important)
#[derive(Debug, Clone, PartialEq)]
pub struct Type {
    pub nullable: bool,
    pub unique: bool,
    pub increments: bool,
    pub indexed: bool,
    pub primary: bool,
    pub default: Option<WrappedDefault<'static>>,
    pub size: Option<usize>,
    pub inner: BaseType,
}

/// The model of a [`Type`].
pub struct SpecType {
    pub nullable: bool,
    pub unique: bool,
    pub increments: bool,
    pub indexed: bool,
    pub primary: bool,
    pub default: Option<SpecDefault>,
    pub size: Option<usize>,
    pub inner: SpecBaseType,
}

impl View for Type {
    type V = SpecType;

    open spec fn view(&self) -> SpecType {
        SpecType {
            nullable: self.nullable,
            unique: self.unique,
            increments: self.increments,
            indexed: self.indexed,
            primary: self.primary,
            default: match self.default {
                Some(d) => Some(d@),
                None => None,
            },
            size: self.size,
            inner: self.inner@,
        }
    }
}

/// The model of a type over `inner` with all metadata at its defaults.
pub open spec fn default_type(inner: SpecBaseType) -> SpecType {
    SpecType {
        nullable: false,
        unique: false,
        increments: false,
        indexed: false,
        primary: false,
        default: None,
        size: None,
        inner,
    }
}

/// This is a public API, be considered about breaking thigns
impl Type {
    /// A type over `inner` with all metadata at its defaults: not nullable,
    /// not unique, not incrementing, not indexed, not a primary key, no
    /// default value and no size.
    pub fn new(inner: BaseType) -> (r: Self)
        ensures
            r == (Type {
                nullable: false,
                unique: false,
                increments: false,
                indexed: false,
                primary: false,
                default: None,
                size: None,
                inner,
            }),
            r@ == default_type(inner@),
    {
        Self {
            nullable: false,
            unique: false,
            increments: false,
            indexed: false,
            primary: false,
            default: None,
            size: None,
            inner,
        }
    }

    /// Function used to hide the inner type to outside users (sneaky, I know)
    pub fn get_inner(&self) -> (r: BaseType)
        ensures
            r@ == self.inner@,
    {
        self.inner.copy()
    }

    /// Set the nullability of this type
    pub fn nullable(self, arg: bool) -> (r: Self)
        ensures
            r == (Type { nullable: arg, ..self }),
    {
        Self { nullable: arg, ..self }
    }

    /// Set the uniqueness of this type
    pub fn unique(self, arg: bool) -> (r: Self)
        ensures
            r == (Type { unique: arg, ..self }),
    {
        Self { unique: arg, ..self }
    }

    /// Specify if this type should auto-increment
    pub fn increments(self, arg: bool) -> (r: Self)
        ensures
            r == (Type { increments: arg, ..self }),
    {
        Self { increments: arg, ..self }
    }

    /// Specify if this type should be indexed by your SQL implementation
    pub fn indexed(self, arg: bool) -> (r: Self)
        ensures
            r == (Type { indexed: arg, ..self }),
    {
        Self { indexed: arg, ..self }
    }

    /// Specify if this type should be a primary key
    pub fn primary(self, arg: bool) -> (r: Self)
        ensures
            r == (Type { primary: arg, ..self }),
    {
        Self { primary: arg, ..self }
    }

    /// Provide a default value for a type column
    pub fn default<D: Into<WrappedDefault<'static>>>(self, arg: D) -> (r: Self)
        ensures
            r == (Type { default: r.default, ..self }),
            r.default is Some,
            <D as IntoSpec<WrappedDefault<'static>>>::obeys_into_spec() ==> r.default == Some(
                arg.into_spec(),
            ),
    {
        Self { default: Some(arg.into()), ..self }
    }

    /// Specify a size limit (important or varchar & similar)
    pub fn size(self, arg: usize) -> (r: Self)
        ensures
            r == (Type { size: Some(arg), ..self }),
    {
        Self { size: Some(arg), ..self }
    }
}

/// The builders overwrite: of two settings of one property, the later one
/// stands.
pub proof fn lemma_builder_last_wins(t: Type, a: bool, b: bool, m: usize, n: usize)
    ensures
        (Type { nullable: b, ..Type { nullable: a, ..t } }) == (Type { nullable: b, ..t }),
        (Type { unique: b, ..Type { unique: a, ..t } }) == (Type { unique: b, ..t }),
        (Type { increments: b, ..Type { increments: a, ..t } }) == (Type { increments: b, ..t }),
        (Type { indexed: b, ..Type { indexed: a, ..t } }) == (Type { indexed: b, ..t }),
        (Type { primary: b, ..Type { primary: a, ..t } }) == (Type { primary: b, ..t }),
        (Type { size: Some(n), ..Type { size: Some(m), ..t } }) == (Type { size: Some(n), ..t }),
{
}

/// Builders of different properties can be chained in any order.
pub proof fn lemma_builders_commute(t: Type, a: bool, b: bool, n: usize)
    ensures
        (Type { increments: b, ..Type { nullable: a, ..t } }) == (Type {
            nullable: a,
            ..Type { increments: b, ..t }
        }),
        (Type { primary: b, ..Type { increments: a, ..t } }) == (Type {
            increments: a,
            ..Type { primary: b, ..t }
        }),
        (Type { unique: b, ..Type { nullable: a, ..t } }) == (Type {
            nullable: a,
            ..Type { unique: b, ..t }
        }),
        (Type { indexed: b, ..Type { primary: a, ..t } }) == (Type {
            primary: a,
            ..Type { indexed: b, ..t }
        }),
        (Type { size: Some(n), ..Type { nullable: a, ..t } }) == (Type {
            nullable: a,
            ..Type { size: Some(n), ..t }
        }),
{
}

} // verus!
