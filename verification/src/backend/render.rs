//! What SQL each backend writes for a migration, stated over the models of
//! the library's types.

use vstd::prelude::*;

use crate::migration::{SpecChange, SpecMigration};
use crate::table::SpecTable;
use crate::text::{decimal, join, signed_decimal};
use crate::types::{
    action_keyword, constraint_keyword, ReferentialAction, SpecBaseType, SpecConstraint,
    SpecDefault, SpecType,
};

verus! {

/// The SQL dialects that migrations can be written in.
#[derive(Debug, Clone, Copy, PartialEq, Eq, Structural)]
pub enum Dialect {
    /// PostgreSQL
    Pg,
    /// SQLite 3
    Sqlite,
    /// Microsoft SQL Server
    MsSql,
}

/// An identifier in the dialect's quotes: `"name"`, or `[name]` for
/// MsSql.
pub open spec fn quote(d: Dialect, name: Seq<char>) -> Seq<char> {
    match d {
        Dialect::MsSql => "["@ + name + "]"@,
        _ => "\""@ + name + "\""@,
    }
}

/// A table's name as statements write it: quoted, and behind its quoted
/// schema where there is one.
pub open spec fn qualified(d: Dialect, schema: Option<Seq<char>>, name: Seq<char>) -> Seq<char> {
    match schema {
        Some(s) => quote(d, s) + "."@ + quote(d, name),
        None => quote(d, name),
    }
}

/// What stands before the name of a referenced table: the schema and a dot
/// where there is a schema (quoted, but for MsSql), else nothing.
pub open spec fn reference_prefix(d: Dialect, schema: Option<Seq<char>>) -> Seq<char> {
    match schema {
        Some(s) => match d {
            Dialect::MsSql => s + "."@,
            _ => quote(d, s) + "."@,
        },
        None => Seq::empty(),
    }
}

/// Column names, each quoted, separated by ", ".
pub open spec fn quoted_list(d: Dialect, cols: Seq<Seq<char>>) -> Seq<char> {
    join(cols.map_values(|c: Seq<char>| quote(d, c)), ", "@)
}

/// The type of the integer columns that refer to other tables.
pub open spec fn reference_type(d: Dialect) -> Seq<char> {
    match d {
        Dialect::MsSql => "INT"@,
        _ => "INTEGER"@,
    }
}

/// Whether the dialect can write a column of this base type: index and
/// constraint descriptions are not column types.
pub open spec fn column_type_writable(t: SpecBaseType) -> bool
    decreases t,
{
    match t {
        SpecBaseType::Index(_) => false,
        SpecBaseType::Constraint(_, _) => false,
        SpecBaseType::Array(inner) => column_type_writable(*inner),
        _ => true,
    }
}

/// The SQL type of a column of base type `t`; `increments` asks for an
/// auto-incrementing integer.
pub open spec fn type_sql(
    d: Dialect,
    schema: Option<Seq<char>>,
    t: SpecBaseType,
    increments: bool,
) -> Seq<char>
    decreases t,
{
    match t {
        SpecBaseType::Text => "TEXT"@,
        SpecBaseType::Varchar(n) => "VARCHAR("@ + decimal(n as nat) + ")"@,
        SpecBaseType::Char(n) => "CHAR("@ + decimal(n as nat) + ")"@,
        SpecBaseType::Primary => match d {
            Dialect::Pg => "SERIAL PRIMARY KEY NOT NULL"@,
            Dialect::Sqlite => "INTEGER NOT NULL PRIMARY KEY"@,
            Dialect::MsSql => "INT IDENTITY(1,1) PRIMARY KEY NOT NULL"@,
        },
        SpecBaseType::Integer => match d {
            Dialect::Pg => if increments {
                "SERIAL"@
            } else {
                "INTEGER"@
            },
            Dialect::Sqlite => "INTEGER"@,
            Dialect::MsSql => if increments {
                "INT IDENTITY(1,1)"@
            } else {
                "INT"@
            },
        },
        SpecBaseType::Serial => match d {
            Dialect::Pg => "SERIAL"@,
            Dialect::Sqlite => "INTEGER"@,
            Dialect::MsSql => "INT IDENTITY(1,1)"@,
        },
        SpecBaseType::Float => match d {
            Dialect::Pg => "FLOAT"@,
            Dialect::Sqlite => "REAL"@,
            Dialect::MsSql => "FLOAT(24)"@,
        },
        SpecBaseType::Double => match d {
            Dialect::Pg => "DOUBLE PRECISION"@,
            Dialect::Sqlite => "DOUBLE"@,
            Dialect::MsSql => "FLOAT(53)"@,
        },
        SpecBaseType::UUID => match d {
            Dialect::Pg => "UUID"@,
            Dialect::Sqlite => "CHAR(36)"@,
            Dialect::MsSql => "UNIQUEIDENTIFIER"@,
        },
        SpecBaseType::Boolean => match d {
            Dialect::MsSql => "BIT"@,
            _ => "BOOLEAN"@,
        },
        SpecBaseType::Json => match d {
            Dialect::Pg => "JSON"@,
            Dialect::Sqlite => "TEXT"@,
            Dialect::MsSql => "NVARCHAR(MAX)"@,
        },
        SpecBaseType::Date => "DATE"@,
        SpecBaseType::Time => "TIME"@,
        SpecBaseType::DateTime => match d {
            Dialect::Pg => "TIMESTAMP"@,
            Dialect::Sqlite => "DATETIME"@,
            Dialect::MsSql => "DATETIME2"@,
        },
        SpecBaseType::Binary => match d {
            Dialect::Pg => "BYTEA"@,
            Dialect::Sqlite => "BLOB"@,
            Dialect::MsSql => "VARBINARY(MAX)"@,
        },
        SpecBaseType::Foreign(own_schema, table, keys) => reference_type(d) + " REFERENCES "@
            + reference_prefix(
            d,
            match own_schema {
                Some(s) => Some(s),
                None => schema,
            },
        ) + quote(d, table) + "("@ + quoted_list(d, keys) + ")"@,
        SpecBaseType::Custom(sql) => sql,
        SpecBaseType::Array(inner) => type_sql(d, schema, *inner, false) + "[]"@,
        SpecBaseType::Index(_) => Seq::empty(),
        SpecBaseType::Constraint(_, _) => Seq::empty(),
    }
}

/// A default value as SQL: text in single quotes, numbers in decimal.
pub open spec fn default_value_sql(v: SpecDefault) -> Seq<char> {
    match v {
        SpecDefault::AnyText(s) => "'"@ + s + "'"@,
        SpecDefault::Integer(i) => signed_decimal(i as int),
        SpecDefault::Boolean(b) => if b {
            "true"@
        } else {
            "false"@
        },
        SpecDefault::Custom(s) => s,
        SpecDefault::Null => "NULL"@,
    }
}

/// A referential action clause such as " ON DELETE CASCADE", or nothing.
pub open spec fn action_sql(event: Seq<char>, a: Option<ReferentialAction>) -> Seq<char> {
    match a {
        Some(a) => " ON "@ + event + " "@ + action_keyword(a),
        None => Seq::empty(),
    }
}

/// The body of a constraint over the columns `cols`.
pub open spec fn constraint_sql(
    d: Dialect,
    schema: Option<Seq<char>>,
    c: SpecConstraint,
    cols: Seq<Seq<char>>,
) -> Seq<char> {
    let head = constraint_keyword(c) + " ("@ + quoted_list(d, cols) + ")"@;
    match c {
        SpecConstraint::ForeignKey { table, foreign_columns, on_delete, on_update } => head
            + " REFERENCES "@ + reference_prefix(d, schema) + quote(d, table) + "("@
            + quoted_list(d, foreign_columns) + ")"@ + action_sql("DELETE"@, on_delete)
            + action_sql("UPDATE"@, on_update),
        _ => head,
    }
}

/// A column definition: name, type, then its primary key, default, null and
/// unique clauses.
pub open spec fn column_sql(d: Dialect, schema: Option<Seq<char>>, name: Seq<char>, t: SpecType) -> Seq<char> {
    quote(d, name) + " "@ + type_sql(d, schema, t.inner, t.increments) + (if t.primary {
        " PRIMARY KEY"@
    } else {
        Seq::empty()
    }) + (match t.default {
        Some(v) => " DEFAULT "@ + default_value_sql(v),
        None => Seq::empty(),
    }) + (if t.nullable {
        Seq::empty()
    } else {
        " NOT NULL"@
    }) + (if t.unique {
        " UNIQUE"@
    } else {
        Seq::empty()
    })
}

/// Whether a named item of a table can be written: a constraint, or a
/// column of a type that columns can have.
pub open spec fn item_writable(t: SpecType) -> bool {
    match t.inner {
        SpecBaseType::Constraint(_, _) => true,
        _ => column_type_writable(t.inner),
    }
}

/// A named item of a table as a `CREATE TABLE` writes it.
pub open spec fn item_sql(d: Dialect, schema: Option<Seq<char>>, name: Seq<char>, t: SpecType) -> Seq<char> {
    match t.inner {
        SpecBaseType::Constraint(c, cols) => "CONSTRAINT "@ + quote(d, name) + " "@
            + constraint_sql(d, schema, c, cols),
        _ => column_sql(d, schema, name, t),
    }
}

/// A named item of a table as an `ALTER TABLE` adds it.
pub open spec fn alter_item_sql(
    d: Dialect,
    schema: Option<Seq<char>>,
    name: Seq<char>,
    t: SpecType,
) -> Seq<char> {
    match t.inner {
        SpecBaseType::Constraint(_, _) => "ADD "@ + item_sql(d, schema, name, t),
        _ => match d {
            Dialect::MsSql => "ADD "@ + item_sql(d, schema, name, t),
            _ => "ADD COLUMN "@ + item_sql(d, schema, name, t),
        },
    }
}

/// A primary key clause over `cols`.
pub open spec fn primary_key_sql(d: Dialect, cols: Seq<Seq<char>>) -> Seq<char> {
    "PRIMARY KEY ("@ + quoted_list(d, cols) + ")"@
}

/// The parts of a `CREATE TABLE` body: the items, then the primary key.
pub open spec fn create_parts(d: Dialect, schema: Option<Seq<char>>, t: SpecTable) -> Seq<Seq<char>> {
    let items = t.items.map_values(|it: (Seq<char>, SpecType)| item_sql(d, schema, it.0, it.1));
    match t.primary_key {
        Some(cols) => items.push(primary_key_sql(d, cols)),
        None => items,
    }
}

/// The parts of an `ALTER TABLE`: each item added, then the primary key.
pub open spec fn alter_parts(d: Dialect, schema: Option<Seq<char>>, t: SpecTable) -> Seq<Seq<char>> {
    let items = t.items.map_values(
        |it: (Seq<char>, SpecType)| alter_item_sql(d, schema, it.0, it.1),
    );
    match t.primary_key {
        Some(cols) => items.push("ADD "@ + primary_key_sql(d, cols)),
        None => items,
    }
}

/// Whether every item of the table can be written.
pub open spec fn table_writable(t: SpecTable) -> bool {
    forall|i: int| 0 <= i < t.items.len() ==> #[trigger] item_writable(t.items[i].1)
}

/// The body of a `CREATE TABLE`, in parentheses.
pub open spec fn table_body(d: Dialect, schema: Option<Seq<char>>, t: SpecTable) -> Seq<char> {
    " ("@ + join(create_parts(d, schema, t), ", "@) + ");"@
}

/// The statement that makes one change.
pub open spec fn change_sql(d: Dialect, schema: Option<Seq<char>>, c: SpecChange) -> Seq<char> {
    match c {
        SpecChange::CreateTable(name, t) => "CREATE TABLE "@ + qualified(d, schema, name)
            + table_body(d, schema, t),
        SpecChange::CreateTableIfNotExists(name, t) => match d {
            Dialect::MsSql => "IF NOT EXISTS (SELECT * FROM sys.tables WHERE name='"@ + name
                + "') CREATE TABLE "@ + qualified(d, schema, name) + table_body(d, schema, t),
            _ => "CREATE TABLE IF NOT EXISTS "@ + qualified(d, schema, name) + table_body(
                d,
                schema,
                t,
            ),
        },
        SpecChange::ChangeTable(name, t) => "ALTER TABLE "@ + qualified(d, schema, name) + " "@
            + join(alter_parts(d, schema, t), ", "@) + ";"@,
        SpecChange::RenameTable(old, new) => match d {
            Dialect::MsSql => "EXEC sp_rename '"@ + old + "', '"@ + new + "';"@,
            _ => "ALTER TABLE "@ + qualified(d, schema, old) + " RENAME TO "@ + quote(d, new)
                + ";"@,
        },
        SpecChange::DropTable(name) => "DROP TABLE "@ + qualified(d, schema, name) + ";"@,
        SpecChange::DropTableIfExists(name) => "DROP TABLE IF EXISTS "@ + qualified(
            d,
            schema,
            name,
        ) + ";"@,
    }
}

/// Whether a change can be written: the tables it creates or changes can.
pub open spec fn change_writable(c: SpecChange) -> bool {
    match c {
        SpecChange::CreateTable(_, t) => table_writable(t),
        SpecChange::CreateTableIfNotExists(_, t) => table_writable(t),
        SpecChange::ChangeTable(_, t) => table_writable(t),
        _ => true,
    }
}

/// The statements for the changes, one after the other.
pub open spec fn changes_sql(d: Dialect, schema: Option<Seq<char>>, cs: Seq<SpecChange>) -> Seq<char>
    decreases cs.len(),
{
    if cs.len() == 0 {
        Seq::empty()
    } else {
        changes_sql(d, schema, cs.drop_last()) + change_sql(d, schema, cs.last())
    }
}

/// The SQL of a whole migration.
pub open spec fn migration_sql(d: Dialect, m: SpecMigration) -> Seq<char> {
    changes_sql(d, m.schema, m.changes)
}

/// Whether every change of the migration can be written.
pub open spec fn migration_writable(m: SpecMigration) -> bool {
    forall|i: int| 0 <= i < m.changes.len() ==> #[trigger] change_writable(m.changes[i])
}

/// A migration with one more change writes what it wrote before, followed
/// by that change's statement: `make` is the statements of the changes, in
/// the order they were made.
pub proof fn lemma_migration_sql_with_change(d: Dialect, m: SpecMigration, c: SpecChange)
    ensures
        migration_sql(d, SpecMigration { schema: m.schema, changes: m.changes.push(c) })
            == migration_sql(d, m) + change_sql(d, m.schema, c),
{
    assert(m.changes.push(c).drop_last() =~= m.changes);
}

/// A migration without changes writes nothing.
pub proof fn lemma_migration_sql_empty(d: Dialect, schema: Option<Seq<char>>)
    ensures
        migration_sql(d, SpecMigration { schema, changes: Seq::empty() }) == Seq::<char>::empty(),
{
}

/// A column that is not nullable (and not unique, whose clause would come
/// last) ends in " NOT NULL"; a unique column ends in " UNIQUE".
pub proof fn lemma_column_sql_ends(d: Dialect, schema: Option<Seq<char>>, name: Seq<char>, t: SpecType)
    ensures
        !t.nullable && !t.unique ==> column_sql(d, schema, name, t).subrange(
            column_sql(d, schema, name, t).len() - " NOT NULL"@.len(),
            column_sql(d, schema, name, t).len() as int,
        ) == " NOT NULL"@,
        t.unique ==> column_sql(d, schema, name, t).subrange(
            column_sql(d, schema, name, t).len() - " UNIQUE"@.len(),
            column_sql(d, schema, name, t).len() as int,
        ) == " UNIQUE"@,
{
    let s = column_sql(d, schema, name, t);
    let head = quote(d, name) + " "@ + type_sql(d, schema, t.inner, t.increments) + (if t.primary {
        " PRIMARY KEY"@
    } else {
        Seq::empty()
    }) + (match t.default {
        Some(v) => " DEFAULT "@ + default_value_sql(v),
        None => Seq::empty(),
    });
    if !t.nullable && !t.unique {
        assert(s =~= head + " NOT NULL"@);
        assert(s.subrange(s.len() - " NOT NULL"@.len(), s.len() as int) =~= " NOT NULL"@);
    }
    if t.unique {
        let head2 = head + (if t.nullable {
            Seq::empty()
        } else {
            " NOT NULL"@
        });
        assert(s =~= head2 + " UNIQUE"@);
        assert(s.subrange(s.len() - " UNIQUE"@.len(), s.len() as int) =~= " UNIQUE"@);
    }
}

/// The actions of a foreign key are independent: its SQL is that of the
/// same key without actions, then " ON DELETE <action>" exactly when there
/// is a delete action, then " ON UPDATE <action>" exactly when there is an
/// update action. Without an update action there is no ON UPDATE clause,
/// whatever the delete action.
pub proof fn lemma_foreign_key_actions(
    d: Dialect,
    schema: Option<Seq<char>>,
    table: Seq<char>,
    foreign_columns: Seq<Seq<char>>,
    cols: Seq<Seq<char>>,
    on_delete: Option<ReferentialAction>,
    on_update: Option<ReferentialAction>,
)
    ensures
        constraint_sql(
            d,
            schema,
            SpecConstraint::ForeignKey { table, foreign_columns, on_delete, on_update },
            cols,
        ) == constraint_sql(
            d,
            schema,
            SpecConstraint::ForeignKey { table, foreign_columns, on_delete: None, on_update: None },
            cols,
        ) + match on_delete {
            Some(a) => seq![' ', 'O', 'N', ' ', 'D', 'E', 'L', 'E', 'T', 'E', ' '] + action_keyword(a),
            None => Seq::empty(),
        } + match on_update {
            Some(a) => seq![' ', 'O', 'N', ' ', 'U', 'P', 'D', 'A', 'T', 'E', ' '] + action_keyword(a),
            None => Seq::empty(),
        },
{
    reveal_strlit(" ON ");
    reveal_strlit("DELETE");
    reveal_strlit("UPDATE");
    reveal_strlit(" ");
    let full = constraint_sql(
        d,
        schema,
        SpecConstraint::ForeignKey { table, foreign_columns, on_delete, on_update },
        cols,
    );
    let base = constraint_sql(
        d,
        schema,
        SpecConstraint::ForeignKey { table, foreign_columns, on_delete: None, on_update: None },
        cols,
    );
    let del = match on_delete {
        Some(a) => seq![' ', 'O', 'N', ' ', 'D', 'E', 'L', 'E', 'T', 'E', ' '] + action_keyword(a),
        None => Seq::<char>::empty(),
    };
    let upd = match on_update {
        Some(a) => seq![' ', 'O', 'N', ' ', 'U', 'P', 'D', 'A', 'T', 'E', ' '] + action_keyword(a),
        None => Seq::<char>::empty(),
    };
    assert(action_sql("DELETE"@, on_delete) =~= del);
    assert(action_sql("UPDATE"@, on_update) =~= upd);
    assert(action_sql("DELETE"@, None) =~= Seq::<char>::empty());
    assert(action_sql("UPDATE"@, None) =~= Seq::<char>::empty());
    assert(full =~= base + del + upd);
}

/// An array column's SQL type is its element type's SQL type followed by
/// the two characters "[]", so it always differs from the element type.
pub proof fn lemma_array_type_sql(
    d: Dialect,
    schema: Option<Seq<char>>,
    inner: SpecBaseType,
    increments: bool,
)
    ensures
        ({
            let a = type_sql(d, schema, SpecBaseType::Array(Box::new(inner)), increments);
            let i = type_sql(d, schema, inner, false);
            &&& a.len() == i.len() + 2
            &&& a.subrange(0, i.len() as int) == i
            &&& a.subrange(i.len() as int, a.len() as int) == seq!['[', ']']
            &&& a != i
        }),
{
    reveal_strlit("[]");
    let a = type_sql(d, schema, SpecBaseType::Array(Box::new(inner)), increments);
    let i = type_sql(d, schema, inner, false);
    assert(a =~= i + seq!['[', ']']);
    assert(a.subrange(0, i.len() as int) =~= i);
    assert(a.subrange(i.len() as int, a.len() as int) =~= seq!['[', ']']);
    assert(a.len() != i.len());
}

/// Default values of one kind are written apart: two booleans, two
/// integers, two texts, two custom expressions give the same SQL only when
/// they are the same value; `true` is written "true" and `false` "false".
pub proof fn lemma_default_value_sql_injective(a: SpecDefault, b: SpecDefault)
    ensures
        default_value_sql(SpecDefault::Boolean(true)) == seq!['t', 'r', 'u', 'e'],
        default_value_sql(SpecDefault::Boolean(false)) == seq!['f', 'a', 'l', 's', 'e'],
        (a is Boolean && b is Boolean) || (a is Integer && b is Integer) || (a is AnyText
            && b is AnyText) || (a is Custom && b is Custom) ==> (default_value_sql(a)
            == default_value_sql(b) <==> a == b),
{
    reveal_strlit("true");
    reveal_strlit("false");
    reveal_strlit("'");
    assert(default_value_sql(SpecDefault::Boolean(true)) =~= seq!['t', 'r', 'u', 'e']);
    assert(default_value_sql(SpecDefault::Boolean(false)) =~= seq!['f', 'a', 'l', 's', 'e']);
    match (a, b) {
        (SpecDefault::Integer(x), SpecDefault::Integer(y)) => {
            crate::text::lemma_signed_decimal_injective(x as int, y as int);
        },
        (SpecDefault::AnyText(x), SpecDefault::AnyText(y)) => {
            let sx = default_value_sql(a);
            let sy = default_value_sql(b);
            if sx == sy {
                assert(sx.subrange(1, sx.len() - 1) =~= x);
                assert(sy.subrange(1, sy.len() - 1) =~= y);
            }
        },
        (SpecDefault::Boolean(x), SpecDefault::Boolean(y)) => {
            if x != y {
                assert(default_value_sql(a).len() != default_value_sql(b).len());
            }
        },
        _ => {},
    }
}

/// The table name that a statement names, behind the migration's schema
/// when it has one: the quoted schema, a dot, the quoted name.
pub open spec fn schema_name(d: Dialect, schema: Option<Seq<char>>, name: Seq<char>) -> Seq<char> {
    match schema {
        Some(s) => quote(d, s) + seq!['.'] + quote(d, name),
        None => quote(d, name),
    }
}

/// Every statement about a table names it the same way, behind the
/// migration's schema: creating, changing, renaming and dropping the table
/// `name` all write `schema_name(d, schema, name)` right after their
/// keywords.
pub proof fn lemma_statements_name_schema_table(
    d: Dialect,
    schema: Option<Seq<char>>,
    name: Seq<char>,
    t: SpecTable,
    new_name: Seq<char>,
)
    ensures
        ({
            let q = schema_name(d, schema, name);
            &&& change_sql(d, schema, SpecChange::DropTable(name)) == "DROP TABLE "@ + q + seq![';']
            &&& change_sql(d, schema, SpecChange::DropTableIfExists(name)) == "DROP TABLE IF EXISTS "@
                + q + seq![';']
            &&& change_sql(d, schema, SpecChange::ChangeTable(name, t)).subrange(
                0,
                ("ALTER TABLE "@.len() + q.len()) as int,
            ) == "ALTER TABLE "@ + q
            &&& change_sql(d, schema, SpecChange::CreateTable(name, t)).subrange(
                0,
                ("CREATE TABLE "@.len() + q.len()) as int,
            ) == "CREATE TABLE "@ + q
            &&& d != Dialect::MsSql ==> change_sql(
                d,
                schema,
                SpecChange::CreateTableIfNotExists(name, t),
            ).subrange(0, ("CREATE TABLE IF NOT EXISTS "@.len() + q.len()) as int)
                == "CREATE TABLE IF NOT EXISTS "@ + q
            &&& d != Dialect::MsSql ==> change_sql(
                d,
                schema,
                SpecChange::RenameTable(name, new_name),
            ).subrange(0, ("ALTER TABLE "@.len() + q.len()) as int) == "ALTER TABLE "@ + q
        }),
{
    reveal_strlit(".");
    reveal_strlit(";");
    let q = schema_name(d, schema, name);
    assert(qualified(d, schema, name) =~= q);
    assert(change_sql(d, schema, SpecChange::DropTable(name)) =~= "DROP TABLE "@ + q + seq![';']);
    assert(change_sql(d, schema, SpecChange::DropTableIfExists(name)) =~= "DROP TABLE IF EXISTS "@
        + q + seq![';']);
    let c = change_sql(d, schema, SpecChange::ChangeTable(name, t));
    assert(c =~= ("ALTER TABLE "@ + q) + (" "@ + join(alter_parts(d, schema, t), ", "@) + ";"@));
    assert(c.subrange(0, ("ALTER TABLE "@.len() + q.len()) as int) =~= "ALTER TABLE "@ + q);
    let c = change_sql(d, schema, SpecChange::CreateTable(name, t));
    assert(c =~= ("CREATE TABLE "@ + q) + table_body(d, schema, t));
    assert(c.subrange(0, ("CREATE TABLE "@.len() + q.len()) as int) =~= "CREATE TABLE "@ + q);
    if d != Dialect::MsSql {
        let c = change_sql(d, schema, SpecChange::CreateTableIfNotExists(name, t));
        assert(c =~= ("CREATE TABLE IF NOT EXISTS "@ + q) + table_body(d, schema, t));
        assert(c.subrange(0, ("CREATE TABLE IF NOT EXISTS "@.len() + q.len()) as int)
            =~= "CREATE TABLE IF NOT EXISTS "@ + q);
        let c = change_sql(d, schema, SpecChange::RenameTable(name, new_name));
        assert(c =~= ("ALTER TABLE "@ + q) + (" RENAME TO "@ + quote(d, new_name) + ";"@));
        assert(c.subrange(0, ("ALTER TABLE "@.len() + q.len()) as int) =~= "ALTER TABLE "@ + q);
    }
}

} // verus!
