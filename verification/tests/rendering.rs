//! Column types, defaults, constraints and statements beyond the basic
//! scenarios, and the laws of the library on concrete values.

use lib::backend::{MsSql, Pg, Sqlite};
use lib::types::{self, BaseType, Constraint, ReferentialAction, Type, WrapVec};
use lib::{Migration, Table};

fn one_table<F: FnOnce(&mut Table)>(cb: F) -> Migration {
    let mut m = Migration::new();
    m.create_table("t", cb);
    m
}

#[test]
fn new_type_has_default_metadata() {
    let t = Type::new(BaseType::Text);
    assert!(!t.nullable);
    assert!(!t.unique);
    assert!(!t.increments);
    assert!(!t.indexed);
    assert!(!t.primary);
    assert_eq!(t.default, None);
    assert_eq!(t.size, None);
    assert_eq!(t.inner, BaseType::Text);
}

#[test]
fn builders_set_one_field_each() {
    let t = types::integer()
        .nullable(true)
        .unique(true)
        .increments(true)
        .indexed(true)
        .primary(true)
        .size(8);
    assert!(t.nullable && t.unique && t.increments && t.indexed && t.primary);
    assert_eq!(t.size, Some(8));
    assert_eq!(t.inner, BaseType::Integer);
    assert_eq!(t.get_inner(), BaseType::Integer);
}

#[test]
fn builder_last_setting_wins() {
    assert_eq!(
        types::integer().nullable(true).nullable(false),
        types::integer().nullable(false)
    );
    assert_eq!(types::text().size(3).size(9), types::text().size(9));
}

#[test]
fn builders_commute() {
    assert_eq!(
        types::integer().increments(true).nullable(false),
        types::integer().nullable(false).increments(true)
    );
    assert_eq!(
        types::integer().primary(true).unique(true),
        types::integer().unique(true).primary(true)
    );
}

#[test]
fn get_inner_copies_nested_types() {
    let inner = BaseType::Array(Box::new(BaseType::Foreign(
        Some(String::from("s")),
        String::from("planets"),
        WrapVec(vec![String::from("id")]),
    )));
    let t = Type::new(inner.clone());
    assert_eq!(t.get_inner(), inner);
}

#[test]
fn constraint_and_action_words() {
    assert_eq!(Constraint::Unique.to_string(), "UNIQUE");
    assert_eq!(Constraint::PrimaryKey.to_string(), "PRIMARY KEY");
    let fk = Constraint::ForeignKey {
        table: String::from("x"),
        foreign_columns: vec![],
        on_delete: None,
        on_update: None,
    };
    assert_eq!(fk.to_string(), "FOREIGN KEY");
    let all = [
        ReferentialAction::Cascade,
        ReferentialAction::NoAction,
        ReferentialAction::Restrict,
        ReferentialAction::SetNull,
        ReferentialAction::SetDefault,
    ];
    let words: Vec<String> = all.iter().map(|a| a.to_string()).collect();
    assert_eq!(words, vec!["CASCADE", "NO ACTION", "RESTRICT", "SET NULL", "SET DEFAULT"]);
    for i in 0..words.len() {
        for j in 0..words.len() {
            assert_eq!(words[i] == words[j], i == j);
        }
    }
}

#[test]
fn wrap_vec_conversions() {
    let a: WrapVec<String> = WrapVec::from("id");
    assert_eq!(a.0, vec![String::from("id")]);
    let b: WrapVec<String> = WrapVec::from(String::from("x"));
    assert_eq!(b.0, vec![String::from("x")]);
    let c: WrapVec<String> = WrapVec::from(vec!["a", "b", "c"]);
    assert_eq!(c.0, vec![String::from("a"), String::from("b"), String::from("c")]);
    let d: WrapVec<String> = WrapVec::from(Vec::<String>::new());
    assert!(d.0.is_empty());
}

#[test]
fn empty_migration_writes_nothing() {
    let m = Migration::new();
    assert_eq!(m.make::<Pg>(), "");
    assert_eq!(m.make::<MsSql>(), "");
    assert_eq!(m.make::<Sqlite>(), "");
}

#[test]
fn make_is_the_statements_in_order() {
    let mut both = Migration::new();
    both.drop_table("a");
    both.rename_table("b", "c");
    let mut first = Migration::new();
    first.drop_table("a");
    let mut second = Migration::new();
    second.rename_table("b", "c");
    assert_eq!(
        both.make::<Pg>(),
        format!("{}{}", first.make::<Pg>(), second.make::<Pg>())
    );
    assert_eq!(both.make::<Pg>(), "DROP TABLE \"a\";ALTER TABLE \"b\" RENAME TO \"c\";");
    // make leaves the migration as it was
    assert_eq!(both.make::<Pg>(), both.make::<Pg>());
}

#[test]
fn defaults_are_written() {
    let m = one_table(|t| {
        t.add_column("name", types::varchar(20).default("Anonymous"));
        t.add_column("age", types::integer().default(100));
        t.add_column("debt", types::integer().default(-42i64));
        t.add_column("ok", types::boolean().default(false));
        t.add_column("gone", types::text().nullable(true).default(types::WrappedDefault::Null));
    });
    assert_eq!(
        m.make::<Pg>(),
        "CREATE TABLE \"t\" (\"name\" VARCHAR(20) DEFAULT 'Anonymous' NOT NULL, \"age\" INTEGER DEFAULT 100 NOT NULL, \"debt\" INTEGER DEFAULT -42 NOT NULL, \"ok\" BOOLEAN DEFAULT false NOT NULL, \"gone\" TEXT DEFAULT NULL);"
    );
}

#[test]
fn extreme_integer_defaults() {
    let m = one_table(|t| {
        t.add_column("lo", types::integer().default(i64::MIN));
        t.add_column("hi", types::integer().default(i64::MAX));
        t.add_column("zero", types::integer().default(0));
    });
    assert_eq!(
        m.make::<Sqlite>(),
        "CREATE TABLE \"t\" (\"lo\" INTEGER DEFAULT -9223372036854775808 NOT NULL, \"hi\" INTEGER DEFAULT 9223372036854775807 NOT NULL, \"zero\" INTEGER DEFAULT 0 NOT NULL);"
    );
}

#[test]
fn unique_and_primary_clauses() {
    let m = one_table(|t| {
        t.add_column("a", types::text().unique(true));
        t.add_column("b", types::text().nullable(true).unique(true));
        t.add_column("c", types::integer().primary(true));
    });
    assert_eq!(
        m.make::<Pg>(),
        "CREATE TABLE \"t\" (\"a\" TEXT NOT NULL UNIQUE, \"b\" TEXT UNIQUE, \"c\" INTEGER PRIMARY KEY NOT NULL);"
    );
}

#[test]
fn sizes_in_decimal() {
    let m = one_table(|t| {
        t.add_column("a", types::varchar(0));
        t.add_column("b", types::varchar(7));
        t.add_column("c", types::varchar(1234567890));
    });
    assert_eq!(
        m.make::<MsSql>(),
        "CREATE TABLE [t] ([a] VARCHAR(0) NOT NULL, [b] VARCHAR(7) NOT NULL, [c] VARCHAR(1234567890) NOT NULL);"
    );
}

#[test]
fn every_type_in_every_dialect() {
    let cb = |t: &mut Table| {
        t.add_column("a", types::text());
        t.add_column("b", types::integer());
        t.add_column("c", types::serial());
        t.add_column("d", types::float());
        t.add_column("e", types::double());
        t.add_column("f", types::boolean());
        t.add_column("g", types::uuid());
        t.add_column("h", types::json());
        t.add_column("i", types::date());
        t.add_column("j", types::time());
        t.add_column("k", types::datetime());
        t.add_column("l", types::binary());
        t.add_column("m", types::custom("GEOMETRY"));
        t.add_column("n", types::array(&types::integer()));
        t.add_column("o", Type::new(BaseType::Char(3)));
    };
    assert_eq!(
        one_table(cb).make::<Pg>(),
        "CREATE TABLE \"t\" (\"a\" TEXT NOT NULL, \"b\" INTEGER NOT NULL, \"c\" SERIAL NOT NULL, \"d\" FLOAT NOT NULL, \"e\" DOUBLE PRECISION NOT NULL, \"f\" BOOLEAN NOT NULL, \"g\" UUID NOT NULL, \"h\" JSON NOT NULL, \"i\" DATE NOT NULL, \"j\" TIME NOT NULL, \"k\" TIMESTAMP NOT NULL, \"l\" BYTEA NOT NULL, \"m\" GEOMETRY NOT NULL, \"n\" INTEGER[] NOT NULL, \"o\" CHAR(3) NOT NULL);"
    );
    assert_eq!(
        one_table(cb).make::<Sqlite>(),
        "CREATE TABLE \"t\" (\"a\" TEXT NOT NULL, \"b\" INTEGER NOT NULL, \"c\" INTEGER NOT NULL, \"d\" REAL NOT NULL, \"e\" DOUBLE NOT NULL, \"f\" BOOLEAN NOT NULL, \"g\" CHAR(36) NOT NULL, \"h\" TEXT NOT NULL, \"i\" DATE NOT NULL, \"j\" TIME NOT NULL, \"k\" DATETIME NOT NULL, \"l\" BLOB NOT NULL, \"m\" GEOMETRY NOT NULL, \"n\" INTEGER[] NOT NULL, \"o\" CHAR(3) NOT NULL);"
    );
    assert_eq!(
        one_table(cb).make::<MsSql>(),
        "CREATE TABLE [t] ([a] TEXT NOT NULL, [b] INT NOT NULL, [c] INT IDENTITY(1,1) NOT NULL, [d] FLOAT(24) NOT NULL, [e] FLOAT(53) NOT NULL, [f] BIT NOT NULL, [g] UNIQUEIDENTIFIER NOT NULL, [h] NVARCHAR(MAX) NOT NULL, [i] DATE NOT NULL, [j] TIME NOT NULL, [k] DATETIME2 NOT NULL, [l] VARBINARY(MAX) NOT NULL, [m] GEOMETRY NOT NULL, [n] INT[] NOT NULL, [o] CHAR(3) NOT NULL);"
    );
}

#[test]
fn foreign_column_and_actions() {
    let m = one_table(|t| {
        t.add_column("planet", types::foreign("planets", &["id"]));
        t.add_constraint(
            "fk",
            types::foreign_constraint(
                &["a", "b"],
                "other",
                &["x", "y"],
                Some(ReferentialAction::Cascade),
                Some(ReferentialAction::SetNull),
            ),
        );
    });
    assert_eq!(
        m.make::<Pg>(),
        "CREATE TABLE \"t\" (\"planet\" INTEGER REFERENCES \"planets\"(\"id\") NOT NULL, CONSTRAINT \"fk\" FOREIGN KEY (\"a\", \"b\") REFERENCES \"other\"(\"x\", \"y\") ON DELETE CASCADE ON UPDATE SET NULL);"
    );
}

#[test]
fn schema_qualifies_tables_and_references() {
    let mut m = Migration::new().schema("s");
    m.create_table("users", |t| {
        t.add_column("planet", types::foreign("planets", &["id"]));
    });
    m.drop_table_if_exists("old");
    m.rename_table("a", "b");
    assert_eq!(
        m.make::<Pg>(),
        "CREATE TABLE \"s\".\"users\" (\"planet\" INTEGER REFERENCES \"s\".\"planets\"(\"id\") NOT NULL);DROP TABLE IF EXISTS \"s\".\"old\";ALTER TABLE \"s\".\"a\" RENAME TO \"b\";"
    );
    assert_eq!(
        m.make::<MsSql>(),
        "CREATE TABLE [s].[users] ([planet] INT REFERENCES s.[planets]([id]) NOT NULL);DROP TABLE IF EXISTS [s].[old];EXEC sp_rename 'a', 'b';"
    );
}

#[test]
fn change_table_adds_columns_and_keys() {
    let mut m = Migration::new();
    m.change_table("users", |t| {
        t.add_column("x", types::text().nullable(true));
        t.add_constraint("u", types::unique_constraint(&["x"]));
        t.set_primary_key(&["id", "x"]);
    });
    assert_eq!(
        m.make::<Pg>(),
        "ALTER TABLE \"users\" ADD COLUMN \"x\" TEXT, ADD CONSTRAINT \"u\" UNIQUE (\"x\"), ADD PRIMARY KEY (\"id\", \"x\");"
    );
    assert_eq!(
        m.make::<MsSql>(),
        "ALTER TABLE [users] ADD [x] TEXT, ADD CONSTRAINT [u] UNIQUE ([x]), ADD PRIMARY KEY ([id], [x]);"
    );
}

#[test]
fn primary_key_alone_and_replaced() {
    let m = one_table(|t| {
        t.set_primary_key(&["a"]);
        t.set_primary_key(&["b", "c"]);
    });
    assert_eq!(m.make::<Sqlite>(), "CREATE TABLE \"t\" (PRIMARY KEY (\"b\", \"c\"));");
}

#[test]
fn sqlite_rename_and_drop() {
    let mut m = Migration::new();
    m.rename_table("users", "people");
    m.drop_table("people");
    assert_eq!(
        m.make::<Sqlite>(),
        "ALTER TABLE \"users\" RENAME TO \"people\";DROP TABLE \"people\";"
    );
}
