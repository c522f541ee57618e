use sql_dialects::schema::column::SQLColumn;
use sql_dialects::schema::dialect::SQLDialect;
use sql_dialects::schema::types::DatabaseType;

fn type_text(column_type: &DatabaseType, dialect: SQLDialect) -> String {
    match (column_type, dialect) {
        (DatabaseType::Int { .. }, SQLDialect::PostgreSQL) => "integer".to_string(),
        (DatabaseType::Int { .. }, SQLDialect::SQLite) => "INTEGER".to_string(),
        (DatabaseType::Int { .. }, _) => "INT".to_string(),
        (DatabaseType::VarChar { m, .. }, _) => format!("VARCHAR({})", m),
        _ => "TEXT".to_string(),
    }
}

fn id_column() -> SQLColumn {
    SQLColumn::new(
        "id".to_string(),
        DatabaseType::Int { m: None, u: false },
        true,
        true,
        None,
        true,
    )
}

const ALL: [SQLDialect; 4] =
    [SQLDialect::MySQL, SQLDialect::PostgreSQL, SQLDialect::SQLite, SQLDialect::MSSQL];

#[test]
fn dialect_quote_character() {
    assert_eq!(SQLDialect::PostgreSQL.escape(), "\"");
    assert_eq!(SQLDialect::MySQL.escape(), "`");
    assert_eq!(SQLDialect::SQLite.escape(), "`");
    assert_eq!(SQLDialect::MSSQL.escape(), "`");
}

#[test]
fn dialect_predicates() {
    for dialect in ALL {
        assert_eq!(dialect.is_postgres(), dialect == SQLDialect::PostgreSQL);
        assert_eq!(dialect.is_mysql(), dialect == SQLDialect::MySQL);
    }
}

#[test]
fn auto_increment_in_mysql_and_postgres() {
    let column = id_column();
    let mysql = column.to_string(SQLDialect::MySQL, &type_text);
    assert!(mysql.contains("AUTO_INCREMENT"));
    assert!(mysql.contains("INT"));
    let postgres = column.to_string(SQLDialect::PostgreSQL, &type_text);
    assert!(postgres.contains("SERIAL"));
    assert!(!postgres.contains("AUTO_INCREMENT"));
    assert!(!postgres.contains("AUTOINCREMENT"));
    assert!(!postgres.contains("integer"));
}

#[test]
fn auto_increment_column_in_every_dialect() {
    let column = id_column();
    assert_eq!(
        column.to_string(SQLDialect::MySQL, &type_text),
        "`id` INT NOT NULL PRIMARY KEY AUTO_INCREMENT"
    );
    assert_eq!(
        column.to_string(SQLDialect::PostgreSQL, &type_text),
        "\"id\" SERIAL NOT NULL PRIMARY KEY"
    );
    assert_eq!(
        column.to_string(SQLDialect::SQLite, &type_text),
        "`id` INTEGER NOT NULL PRIMARY KEY AUTOINCREMENT"
    );
    assert_eq!(
        column.to_string(SQLDialect::MSSQL, &type_text),
        "`id` INT NOT NULL PRIMARY KEY AUTOINCREMENT"
    );
}

#[test]
fn nullability_is_always_written() {
    let nullable = SQLColumn::new(
        "note".to_string(),
        DatabaseType::Text { m: None, n: None, c: None },
        false,
        false,
        None,
        false,
    );
    assert_eq!(nullable.to_string(SQLDialect::MySQL, &type_text), "`note` TEXT NULL");
    assert_eq!(nullable.to_string(SQLDialect::PostgreSQL, &type_text), "\"note\" TEXT NULL");
    let required = SQLColumn::new(
        "note".to_string(),
        DatabaseType::Text { m: None, n: None, c: None },
        true,
        false,
        None,
        false,
    );
    assert_eq!(required.to_string(SQLDialect::SQLite, &type_text), "`note` TEXT NOT NULL");
}

#[test]
fn default_stands_before_nullability_as_given() {
    let column = SQLColumn::new(
        "name".to_string(),
        DatabaseType::VarChar { m: 40, n: None, c: None },
        true,
        false,
        Some("'it''s'".to_string()),
        false,
    );
    assert_eq!(
        column.to_string(SQLDialect::MySQL, &type_text),
        "`name` VARCHAR(40) DEFAULT 'it''s' NOT NULL"
    );
    assert_eq!(
        column.to_string(SQLDialect::PostgreSQL, &type_text),
        "\"name\" VARCHAR(40) DEFAULT 'it''s' NOT NULL"
    );
}

#[test]
fn every_part_in_its_place() {
    let column = SQLColumn::new(
        "n".to_string(),
        DatabaseType::Int { m: None, u: false },
        false,
        true,
        Some("0".to_string()),
        true,
    );
    assert_eq!(
        column.to_string(SQLDialect::MySQL, &type_text),
        "`n` INT DEFAULT 0 NULL PRIMARY KEY AUTO_INCREMENT"
    );
    assert_eq!(
        column.to_string(SQLDialect::PostgreSQL, &type_text),
        "\"n\" SERIAL DEFAULT 0 NULL PRIMARY KEY"
    );
}

#[test]
fn type_text_is_what_the_renderer_returns() {
    let column = SQLColumn::new(
        "c".to_string(),
        DatabaseType::Bool,
        true,
        false,
        None,
        false,
    );
    let odd = |_: &DatabaseType, dialect: SQLDialect| format!("<{:?}>", dialect);
    assert_eq!(column.to_string(SQLDialect::MSSQL, &odd), "`c` <MSSQL> NOT NULL");
    assert_eq!(column.to_string(SQLDialect::PostgreSQL, &odd), "\"c\" <PostgreSQL> NOT NULL");
}

#[test]
fn rendering_a_column_twice_gives_the_same_text() {
    let column = id_column();
    for dialect in ALL {
        assert_eq!(column.to_string(dialect, &type_text), column.to_string(dialect, &type_text));
    }
}

#[test]
fn getters_give_what_was_constructed() {
    let column = SQLColumn::new(
        "price".to_string(),
        DatabaseType::Decimal { m: Some(10), d: Some(2) },
        true,
        false,
        Some("0.00".to_string()),
        false,
    );
    assert_eq!(column.name(), "price");
    assert_eq!(column.column_type(), &DatabaseType::Decimal { m: Some(10), d: Some(2) });
    assert!(column.not_null());
    assert!(!column.null());
    assert!(!column.auto_increment());
    assert_eq!(column.default(), Some("0.00"));
    assert!(!column.primary_key());
    let id = id_column();
    assert_eq!(id.default(), None);
    assert!(id.auto_increment());
    assert!(id.primary_key());
}

#[test]
fn set_default_replaces_only_the_default() {
    let mut column = id_column();
    column.set_default(Some("7".to_string()));
    assert_eq!(column.default(), Some("7"));
    assert_eq!(column.name(), "id");
    assert_eq!(column.column_type(), &DatabaseType::Int { m: None, u: false });
    assert!(column.not_null() && column.auto_increment() && column.primary_key());
    assert_eq!(
        column.to_string(SQLDialect::MySQL, &type_text),
        "`id` INT DEFAULT 7 NOT NULL PRIMARY KEY AUTO_INCREMENT"
    );
    column.set_default(None);
    assert_eq!(column, id_column());
}
