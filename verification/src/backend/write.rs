//! Writing SQL text: each function appends to a `String` exactly what the
//! matching function of `render` states.

use vstd::prelude::*;

use super::render::{
    action_sql, alter_item_sql, alter_parts, change_sql, change_writable, column_sql,
    column_type_writable, constraint_sql, create_parts, default_value_sql, item_sql,
    item_writable, primary_key_sql, qualified, quote, quoted_list, reference_prefix, reference_type,
    table_writable, type_sql, Dialect,
};
use crate::migration::DatabaseChange;
use crate::table::Table;
use crate::text::{join, lemma_concat_assoc, lemma_concat_empty, lemma_join_push, push_decimal, push_signed_decimal, push_str};
use crate::types::{
    opt_string_view, strings_view, BaseType, Constraint, ReferentialAction, SpecBaseType, Type,
    WrappedDefault,
};

verus! {

/// Appends `name` in the dialect's quotes.
pub fn push_quoted(out: &mut String, d: Dialect, name: &str)
    ensures
        final(out)@ == old(out)@ + quote(d, name@),
{
    let ghost start = out@;
    match d {
        Dialect::MsSql => {
            push_str(out, "[");
            push_str(out, name);
            push_str(out, "]");
        },
        _ => {
            push_str(out, "\"");
            push_str(out, name);
            push_str(out, "\"");
        },
    }
    assert(out@ =~= start + quote(d, name@));
}

/// Appends a table's name behind its schema, if any.
pub fn push_qualified(out: &mut String, d: Dialect, schema: &Option<String>, name: &str)
    ensures
        final(out)@ == old(out)@ + qualified(d, opt_string_view(*schema), name@),
{
    let ghost start = out@;
    match schema {
        Some(s) => {
            push_quoted(out, d, s.as_str());
            push_str(out, ".");
            push_quoted(out, d, name);
        },
        None => {
            push_quoted(out, d, name);
        },
    }
    assert(out@ =~= start + qualified(d, opt_string_view(*schema), name@));
}

/// Appends what stands before the name of a referenced table.
pub fn push_reference_prefix(out: &mut String, d: Dialect, schema: &Option<String>)
    ensures
        final(out)@ == old(out)@ + reference_prefix(d, opt_string_view(*schema)),
{
    let ghost start = out@;
    match schema {
        Some(s) => {
            match d {
                Dialect::MsSql => {
                    push_str(out, s.as_str());
                },
                _ => {
                    push_quoted(out, d, s.as_str());
                },
            }
            push_str(out, ".");
        },
        None => {},
    }
    assert(out@ =~= start + reference_prefix(d, opt_string_view(*schema)));
}

/// Appends the column names `cols`, quoted and separated by ", ".
pub fn push_quoted_list(out: &mut String, d: Dialect, cols: &Vec<String>)
    ensures
        final(out)@ == old(out)@ + quoted_list(d, strings_view(cols@)),
{
    let ghost start = out@;
    let ghost parts = strings_view(cols@).map_values(|c: Seq<char>| quote(d, c));
    let mut i: usize = 0;
    while i < cols.len()
        invariant
            i <= cols@.len(),
            parts == strings_view(cols@).map_values(|c: Seq<char>| quote(d, c)),
            out@ == start + join(parts.take(i as int), ", "@),
        decreases cols@.len() - i,
    {
        proof {
            lemma_join_push(parts.take(i as int), ", "@, parts[i as int]);
            assert(parts.take(i + 1) =~= parts.take(i as int).push(parts[i as int]));
        }
        if i > 0 {
            push_str(out, ", ");
        }
        push_quoted(out, d, cols[i].as_str());
        assert(out@ =~= start + join(parts.take(i + 1), ", "@));
        i = i + 1;
    }
    assert(parts.take(cols@.len() as int) =~= parts);
}

/// The SQL type of a column whose base type the dialect names by a fixed
/// keyword.
fn type_keyword(d: Dialect, t: &BaseType, increments: bool) -> (k: &'static str)
    requires
        !(t is Varchar || t is Char || t is Foreign || t is Custom || t is Array || t is Index
            || t is Constraint),
    ensures
        k@ == type_sql(d, None, t@, increments),
{
    match t {
        BaseType::Text => "TEXT",
        BaseType::Primary => match d {
            Dialect::Pg => "SERIAL PRIMARY KEY NOT NULL",
            Dialect::Sqlite => "INTEGER NOT NULL PRIMARY KEY",
            Dialect::MsSql => "INT IDENTITY(1,1) PRIMARY KEY NOT NULL",
        },
        BaseType::Integer => match d {
            Dialect::Pg => if increments {
                "SERIAL"
            } else {
                "INTEGER"
            },
            Dialect::Sqlite => "INTEGER",
            Dialect::MsSql => if increments {
                "INT IDENTITY(1,1)"
            } else {
                "INT"
            },
        },
        BaseType::Serial => match d {
            Dialect::Pg => "SERIAL",
            Dialect::Sqlite => "INTEGER",
            Dialect::MsSql => "INT IDENTITY(1,1)",
        },
        BaseType::Float => match d {
            Dialect::Pg => "FLOAT",
            Dialect::Sqlite => "REAL",
            Dialect::MsSql => "FLOAT(24)",
        },
        BaseType::Double => match d {
            Dialect::Pg => "DOUBLE PRECISION",
            Dialect::Sqlite => "DOUBLE",
            Dialect::MsSql => "FLOAT(53)",
        },
        BaseType::UUID => match d {
            Dialect::Pg => "UUID",
            Dialect::Sqlite => "CHAR(36)",
            Dialect::MsSql => "UNIQUEIDENTIFIER",
        },
        BaseType::Boolean => match d {
            Dialect::MsSql => "BIT",
            _ => "BOOLEAN",
        },
        BaseType::Json => match d {
            Dialect::Pg => "JSON",
            Dialect::Sqlite => "TEXT",
            Dialect::MsSql => "NVARCHAR(MAX)",
        },
        BaseType::Date => "DATE",
        BaseType::Time => "TIME",
        BaseType::DateTime => match d {
            Dialect::Pg => "TIMESTAMP",
            Dialect::Sqlite => "DATETIME",
            Dialect::MsSql => "DATETIME2",
        },
        _ => match d {
            Dialect::Pg => "BYTEA",
            Dialect::Sqlite => "BLOB",
            Dialect::MsSql => "VARBINARY(MAX)",
        },
    }
}

/// Appends a reference to the columns `keys` of `table`: its type, the
/// table behind the schema that applies, and the columns.
fn push_reference(
    out: &mut String,
    d: Dialect,
    schema: &Option<String>,
    own_schema: &Option<String>,
    table: &String,
    keys: &Vec<String>,
)
    ensures
        final(out)@ == old(out)@ + type_sql(
            d,
            opt_string_view(*schema),
            SpecBaseType::Foreign(opt_string_view(*own_schema), table@, strings_view(keys@)),
            false,
        ),
{
    let ghost start = out@;
    match d {
        Dialect::MsSql => push_str(out, "INT"),
        _ => push_str(out, "INTEGER"),
    }
    push_str(out, " REFERENCES ");
    let ghost effective = match opt_string_view(*own_schema) {
        Some(s) => Some(s),
        None => opt_string_view(*schema),
    };
    let ghost head = reference_type(d) + " REFERENCES "@;
    assert(out@ =~= start + head);
    if own_schema.is_some() {
        push_reference_prefix(out, d, own_schema);
    } else {
        push_reference_prefix(out, d, schema);
    }
    assert(out@ =~= start + (head + reference_prefix(d, effective)));
    push_quoted(out, d, table.as_str());
    push_str(out, "(");
    push_quoted_list(out, d, keys);
    push_str(out, ")");
    assert(out@ =~= start + type_sql(
        d,
        opt_string_view(*schema),
        SpecBaseType::Foreign(opt_string_view(*own_schema), table@, strings_view(keys@)),
        false,
    ));
}

/// Appends the SQL type of a column of base type `t`.
pub fn push_type(out: &mut String, d: Dialect, schema: &Option<String>, t: &BaseType, increments: bool)
    requires
        column_type_writable(t@),
    ensures
        final(out)@ == old(out)@ + type_sql(d, opt_string_view(*schema), t@, increments),
    decreases t,
{
    let ghost start = out@;
    match t {
        BaseType::Varchar(n) => {
            push_str(out, "VARCHAR(");
            push_decimal(out, *n as u64);
            push_str(out, ")");
            assert(out@ =~= start + type_sql(d, opt_string_view(*schema), t@, increments));
        },
        BaseType::Char(n) => {
            push_str(out, "CHAR(");
            push_decimal(out, *n as u64);
            push_str(out, ")");
            assert(out@ =~= start + type_sql(d, opt_string_view(*schema), t@, increments));
        },
        BaseType::Foreign(own_schema, table, keys) => {
            push_reference(out, d, schema, own_schema, table, &keys.0);
        },
        BaseType::Custom(sql) => push_str(out, *sql),
        BaseType::Array(inner) => {
            push_type(out, d, schema, &**inner, false);
            push_str(out, "[]");
            assert(out@ =~= start + type_sql(d, opt_string_view(*schema), t@, increments));
        },
        BaseType::Index(_) => {},
        BaseType::Constraint(_, _) => {},
        _ => {
            let k = type_keyword(d, t, increments);
            push_str(out, k);
        },
    }
}

/// Appends a default value.
pub fn push_default_value(out: &mut String, v: &WrappedDefault)
    ensures
        final(out)@ == old(out)@ + default_value_sql(v@),
{
    let ghost start = out@;
    match v {
        WrappedDefault::AnyText(s) => {
            push_str(out, "'");
            push_str(out, *s);
            push_str(out, "'");
        },
        WrappedDefault::Integer(i) => push_signed_decimal(out, *i),
        WrappedDefault::Boolean(b) => if *b {
            push_str(out, "true")
        } else {
            push_str(out, "false")
        },
        WrappedDefault::Custom(s) => push_str(out, *s),
        WrappedDefault::Null => push_str(out, "NULL"),
    }
    assert(out@ =~= start + default_value_sql(v@));
}

/// Appends a referential action clause for `event`, if there is an action.
pub fn push_action(out: &mut String, event: &str, a: Option<ReferentialAction>)
    ensures
        final(out)@ == old(out)@ + action_sql(event@, a),
{
    let ghost start = out@;
    match a {
        Some(a) => {
            push_str(out, " ON ");
            push_str(out, event);
            push_str(out, " ");
            let words = a.to_string();
            push_str(out, words.as_str());
        },
        None => {},
    }
    assert(out@ =~= start + action_sql(event@, a));
}

/// Appends the body of the constraint `c` over the columns `cols`.
#[verifier::rlimit(30)]
pub fn push_constraint(
    out: &mut String,
    d: Dialect,
    schema: &Option<String>,
    c: &Constraint,
    cols: &Vec<String>,
)
    ensures
        final(out)@ == old(out)@ + constraint_sql(d, opt_string_view(*schema), c@, strings_view(cols@)),
{
    let ghost start = out@;
    let keyword = c.to_string();
    push_str(out, keyword.as_str());
    push_str(out, " (");
    push_quoted_list(out, d, cols);
    push_str(out, ")");
    match c {
        Constraint::ForeignKey { table, foreign_columns, on_delete, on_update } => {
            push_str(out, " REFERENCES ");
            push_reference_prefix(out, d, schema);
            push_quoted(out, d, table.as_str());
            push_str(out, "(");
            push_quoted_list(out, d, foreign_columns);
            push_str(out, ")");
            push_action(out, "DELETE", *on_delete);
            push_action(out, "UPDATE", *on_update);
        },
        _ => {},
    }
    assert(out@ =~= start + constraint_sql(d, opt_string_view(*schema), c@, strings_view(cols@)));
}

/// Appends the column `name` of type `t`.
pub fn push_column(out: &mut String, d: Dialect, schema: &Option<String>, name: &str, t: &Type)
    requires
        column_type_writable(t.inner@),
    ensures
        final(out)@ == old(out)@ + column_sql(d, opt_string_view(*schema), name@, t@),
{
    let ghost start = out@;
    let ghost sch = opt_string_view(*schema);
    push_quoted(out, d, name);
    push_str(out, " ");
    let ghost acc = quote(d, name@) + " "@;
    proof { lemma_concat_assoc(start, quote(d, name@), " "@); }
    push_type(out, d, schema, &t.inner, t.increments);
    proof {
        lemma_concat_assoc(start, acc, type_sql(d, sch, t.inner@, t.increments));
        acc = acc + type_sql(d, sch, t.inner@, t.increments);
    }
    let ghost p = if t.primary { " PRIMARY KEY"@ } else { Seq::<char>::empty() };
    if t.primary {
        push_str(out, " PRIMARY KEY");
    }
    proof {
        lemma_concat_empty(start + acc);
        lemma_concat_assoc(start, acc, p);
        acc = acc + p;
    }
    let ghost p = match t@.default {
        Some(v) => " DEFAULT "@ + default_value_sql(v),
        None => Seq::<char>::empty(),
    };
    match &t.default {
        Some(v) => {
            push_str(out, " DEFAULT ");
            push_default_value(out, v);
            proof { lemma_concat_assoc(start + acc, " DEFAULT "@, default_value_sql(v@)); }
        },
        None => {},
    }
    proof {
        lemma_concat_empty(start + acc);
        lemma_concat_assoc(start, acc, p);
        acc = acc + p;
    }
    let ghost p = if t.nullable { Seq::<char>::empty() } else { " NOT NULL"@ };
    if !t.nullable {
        push_str(out, " NOT NULL");
    }
    proof {
        lemma_concat_empty(start + acc);
        lemma_concat_assoc(start, acc, p);
        acc = acc + p;
    }
    let ghost p = if t.unique { " UNIQUE"@ } else { Seq::<char>::empty() };
    if t.unique {
        push_str(out, " UNIQUE");
    }
    proof {
        lemma_concat_empty(start + acc);
        lemma_concat_assoc(start, acc, p);
        acc = acc + p;
    }
    assert(acc == column_sql(d, sch, name@, t@));
}

/// Appends the item `name` of a table, as a `CREATE TABLE` writes it.
pub fn push_item(out: &mut String, d: Dialect, schema: &Option<String>, name: &str, t: &Type)
    requires
        item_writable(t@),
    ensures
        final(out)@ == old(out)@ + item_sql(d, opt_string_view(*schema), name@, t@),
{
    let ghost start = out@;
    match &t.inner {
        BaseType::Constraint(c, cols) => {
            push_str(out, "CONSTRAINT ");
            push_quoted(out, d, name);
            push_str(out, " ");
            push_constraint(out, d, schema, c, cols);
        },
        _ => {
            push_column(out, d, schema, name, t);
        },
    }
    assert(out@ =~= start + item_sql(d, opt_string_view(*schema), name@, t@));
}

/// Appends the item `name` of a table, as an `ALTER TABLE` adds it.
pub fn push_alter_item(out: &mut String, d: Dialect, schema: &Option<String>, name: &str, t: &Type)
    requires
        item_writable(t@),
    ensures
        final(out)@ == old(out)@ + alter_item_sql(d, opt_string_view(*schema), name@, t@),
{
    let ghost start = out@;
    match &t.inner {
        BaseType::Constraint(_, _) => push_str(out, "ADD "),
        _ => match d {
            Dialect::MsSql => push_str(out, "ADD "),
            _ => push_str(out, "ADD COLUMN "),
        },
    }
    push_item(out, d, schema, name, t);
    assert(out@ =~= start + alter_item_sql(d, opt_string_view(*schema), name@, t@));
}

/// Appends a primary key clause over `cols`.
pub fn push_primary_key(out: &mut String, d: Dialect, cols: &Vec<String>)
    ensures
        final(out)@ == old(out)@ + primary_key_sql(d, strings_view(cols@)),
{
    let ghost start = out@;
    push_str(out, "PRIMARY KEY (");
    push_quoted_list(out, d, cols);
    push_str(out, ")");
    assert(out@ =~= start + primary_key_sql(d, strings_view(cols@)));
}

/// The parts of a table's SQL, for a `CREATE TABLE` or an `ALTER TABLE`.
pub open spec fn table_parts(d: Dialect, schema: Option<Seq<char>>, t: crate::table::SpecTable, alter: bool) -> Seq<Seq<char>> {
    if alter {
        alter_parts(d, schema, t)
    } else {
        create_parts(d, schema, t)
    }
}

/// Appends the parts of a table's SQL, separated by ", ".
pub fn push_table_parts(out: &mut String, d: Dialect, schema: &Option<String>, t: &Table, alter: bool)
    requires
        table_writable(t@),
    ensures
        final(out)@ == old(out)@ + join(table_parts(d, opt_string_view(*schema), t@, alter), ", "@),
{
    let ghost start = out@;
    let ghost sch = opt_string_view(*schema);
    let ghost items = t@.items.map_values(
        |it: (Seq<char>, crate::types::SpecType)|
            if alter {
                alter_item_sql(d, sch, it.0, it.1)
            } else {
                item_sql(d, sch, it.0, it.1)
            },
    );
    let mut i: usize = 0;
    while i < t.items.len()
        invariant
            i <= t.items@.len(),
            sch == opt_string_view(*schema),
            table_writable(t@),
            items == t@.items.map_values(
                |it: (Seq<char>, crate::types::SpecType)|
                    if alter {
                        alter_item_sql(d, sch, it.0, it.1)
                    } else {
                        item_sql(d, sch, it.0, it.1)
                    },
            ),
            out@ == start + join(items.take(i as int), ", "@),
        decreases t.items@.len() - i,
    {
        proof {
            lemma_join_push(items.take(i as int), ", "@, items[i as int]);
            assert(items.take(i + 1) =~= items.take(i as int).push(items[i as int]));
            assert(item_writable(t@.items[i as int].1));
        }
        if i > 0 {
            push_str(out, ", ");
        }
        let item = &t.items[i];
        if alter {
            push_alter_item(out, d, schema, item.0.as_str(), &item.1);
        } else {
            push_item(out, d, schema, item.0.as_str(), &item.1);
        }
        assert(out@ =~= start + join(items.take(i + 1), ", "@));
        i = i + 1;
    }
    proof {
        assert(items.take(t.items@.len() as int) =~= items);
    }
    match &t.primary_key {
        Some(cols) => {
            proof {
                let pk = if alter {
                    "ADD "@ + primary_key_sql(d, strings_view(cols@))
                } else {
                    primary_key_sql(d, strings_view(cols@))
                };
                lemma_join_push(items, ", "@, pk);
                assert(table_parts(d, sch, t@, alter) =~= items.push(pk));
            }
            if t.items.len() > 0 {
                push_str(out, ", ");
            }
            if alter {
                push_str(out, "ADD ");
            }
            push_primary_key(out, d, cols);
        },
        None => {
            assert(table_parts(d, sch, t@, alter) =~= items);
        },
    }
    assert(out@ =~= start + join(table_parts(d, opt_string_view(*schema), t@, alter), ", "@));
}

/// Appends the statement that makes the change `c`.
#[verifier::rlimit(30)]
pub fn push_change(out: &mut String, d: Dialect, schema: &Option<String>, c: &DatabaseChange)
    requires
        change_writable(c@),
    ensures
        final(out)@ == old(out)@ + change_sql(d, opt_string_view(*schema), c@),
{
    let ghost start = out@;
    match c {
        DatabaseChange::CreateTable(name, t) => {
            push_str(out, "CREATE TABLE ");
            push_qualified(out, d, schema, name.as_str());
            push_str(out, " (");
            push_table_parts(out, d, schema, t, false);
            push_str(out, ");");
        },
        DatabaseChange::CreateTableIfNotExists(name, t) => {
            match d {
                Dialect::MsSql => {
                    push_str(out, "IF NOT EXISTS (SELECT * FROM sys.tables WHERE name='");
                    push_str(out, name.as_str());
                    push_str(out, "') CREATE TABLE ");
                },
                _ => {
                    push_str(out, "CREATE TABLE IF NOT EXISTS ");
                },
            }
            push_qualified(out, d, schema, name.as_str());
            push_str(out, " (");
            push_table_parts(out, d, schema, t, false);
            push_str(out, ");");
        },
        DatabaseChange::ChangeTable(name, t) => {
            push_str(out, "ALTER TABLE ");
            push_qualified(out, d, schema, name.as_str());
            push_str(out, " ");
            push_table_parts(out, d, schema, t, true);
            push_str(out, ";");
        },
        DatabaseChange::RenameTable(old_name, new_name) => match d {
            Dialect::MsSql => {
                push_str(out, "EXEC sp_rename '");
                push_str(out, old_name.as_str());
                push_str(out, "', '");
                push_str(out, new_name.as_str());
                push_str(out, "';");
            },
            _ => {
                push_str(out, "ALTER TABLE ");
                push_qualified(out, d, schema, old_name.as_str());
                push_str(out, " RENAME TO ");
                push_quoted(out, d, new_name.as_str());
                push_str(out, ";");
            },
        },
        DatabaseChange::DropTable(name) => {
            push_str(out, "DROP TABLE ");
            push_qualified(out, d, schema, name.as_str());
            push_str(out, ";");
        },
        DatabaseChange::DropTableIfExists(name) => {
            push_str(out, "DROP TABLE IF EXISTS ");
            push_qualified(out, d, schema, name.as_str());
            push_str(out, ";");
        },
    }
    assert(out@ =~= start + change_sql(d, opt_string_view(*schema), c@));
}

} // verus!
