use sql_dialects::schema::dialect::SQLDialect;
use sql_dialects::schema::types::decoder::{
    enum_of_choices, mssql_type_to_database_type, mysql_type_to_database_type,
    postgresql_type_to_database_type, sqlite_type_to_database_type, DecodeError, DecodeErrorKind,
    SQLTypeDecoder,
};
use sql_dialects::schema::types::{DatabaseType, DbEnum};

fn mysql(text: &str) -> Result<DatabaseType, DecodeError> {
    SQLTypeDecoder::decode(text, SQLDialect::MySQL)
}

fn postgres(text: &str) -> Result<DatabaseType, DecodeError> {
    SQLTypeDecoder::decode(text, SQLDialect::PostgreSQL)
}

fn sqlite(text: &str) -> Result<DatabaseType, DecodeError> {
    SQLTypeDecoder::decode(text, SQLDialect::SQLite)
}

fn kind_of(outcome: Result<DatabaseType, DecodeError>) -> DecodeErrorKind {
    match outcome {
        Ok(decoded) => panic!("decoded as {:?}", decoded),
        Err(e) => e.kind,
    }
}

fn choices(items: &[&str]) -> DatabaseType {
    DatabaseType::Enum(DbEnum { choices: items.iter().map(|s| s.to_string()).collect() })
}

#[test]
fn mysql_unsigned_integers_keep_width_and_sign() {
    assert_eq!(mysql("tinyint(3) unsigned"), Ok(DatabaseType::TinyInt { m: Some(3), u: true }));
    assert_eq!(mysql("smallint(5) unsigned"), Ok(DatabaseType::SmallInt { m: Some(5), u: true }));
    assert_eq!(mysql("mediumint(8) unsigned"), Ok(DatabaseType::MediumInt { m: Some(8), u: true }));
    assert_eq!(mysql("int(11) unsigned"), Ok(DatabaseType::Int { m: Some(11), u: true }));
    assert_eq!(mysql("bigint(20) unsigned"), Ok(DatabaseType::BigInt { m: Some(20), u: true }));
}

#[test]
fn mysql_signed_integers_keep_width() {
    assert_eq!(mysql("tinyint(3)"), Ok(DatabaseType::TinyInt { m: Some(3), u: false }));
    assert_eq!(mysql("smallint(5)"), Ok(DatabaseType::SmallInt { m: Some(5), u: false }));
    assert_eq!(mysql("mediumint(8)"), Ok(DatabaseType::MediumInt { m: Some(8), u: false }));
    assert_eq!(mysql("int(11)"), Ok(DatabaseType::Int { m: Some(11), u: false }));
    assert_eq!(mysql("bigint(20)"), Ok(DatabaseType::BigInt { m: Some(20), u: false }));
}

#[test]
fn mysql_integer_width_covers_every_u8() {
    for m in 0..=255u8 {
        assert_eq!(
            mysql(&format!("int({}) unsigned", m)),
            Ok(DatabaseType::Int { m: Some(m), u: true })
        );
        assert_eq!(mysql(&format!("int({})", m)), Ok(DatabaseType::Int { m: Some(m), u: false }));
    }
}

#[test]
fn mysql_integers_without_width() {
    assert_eq!(mysql("int"), Ok(DatabaseType::Int { m: None, u: false }));
    assert_eq!(mysql("int unsigned"), Ok(DatabaseType::Int { m: None, u: true }));
    assert_eq!(mysql("bigint unsigned"), Ok(DatabaseType::BigInt { m: None, u: true }));
}

#[test]
fn mysql_any_qualifier_counts_as_unsigned() {
    assert_eq!(mysql("int zerofill"), Ok(DatabaseType::Int { m: None, u: true }));
    assert_eq!(mysql("int(10) zerofill"), Ok(DatabaseType::Int { m: Some(10), u: true }));
    assert_eq!(
        mysql("int(10) unsigned zerofill"),
        Ok(DatabaseType::Int { m: Some(10), u: true })
    );
}

#[test]
fn mysql_arguments_inside_a_qualifier_are_not_read() {
    assert_eq!(mysql("int unsigned(11)"), Ok(DatabaseType::Int { m: None, u: true }));
}

#[test]
fn mysql_bit() {
    assert_eq!(mysql("bit(1)"), Ok(DatabaseType::Bit { m: Some(1) }));
    assert_eq!(mysql("bit"), Ok(DatabaseType::Bit { m: None }));
}

#[test]
fn mysql_varchar_needs_its_length() {
    assert_eq!(mysql("varchar(255)"), Ok(DatabaseType::VarChar { m: 255, n: None, c: None }));
    assert_eq!(
        mysql("varchar"),
        Err(DecodeError {
            kind: DecodeErrorKind::MissingArgument,
            text: "varchar".to_string(),
            dialect: SQLDialect::MySQL,
        })
    );
}

#[test]
fn mysql_varchar_length_is_a_u16() {
    assert_eq!(mysql("varchar(65535)"), Ok(DatabaseType::VarChar { m: 65535, n: None, c: None }));
    assert_eq!(kind_of(mysql("varchar(65536)")), DecodeErrorKind::MalformedArgument);
    assert_eq!(mysql("varchar(0)"), Ok(DatabaseType::VarChar { m: 0, n: None, c: None }));
}

#[test]
fn mysql_character_types() {
    assert_eq!(mysql("char(36)"), Ok(DatabaseType::Char { m: Some(36), n: None, c: None }));
    assert_eq!(mysql("char"), Ok(DatabaseType::Char { m: None, n: None, c: None }));
    assert_eq!(mysql("text"), Ok(DatabaseType::Text { m: None, n: None, c: None }));
    assert_eq!(mysql("mediumtext"), Ok(DatabaseType::MediumText { n: None, c: None }));
    assert_eq!(mysql("longtext"), Ok(DatabaseType::LongText { n: None, c: None }));
}

#[test]
fn mysql_approximate_numbers_drop_their_arguments() {
    assert_eq!(mysql("float"), Ok(DatabaseType::Float { m: None, d: None }));
    assert_eq!(mysql("float(7,3)"), Ok(DatabaseType::Float { m: None, d: None }));
    assert_eq!(mysql("double"), Ok(DatabaseType::Double { m: None, d: None }));
    assert_eq!(mysql("double precision"), Ok(DatabaseType::Double { m: None, d: None }));
}

#[test]
fn mysql_temporal_types() {
    assert_eq!(mysql("date"), Ok(DatabaseType::Date));
    assert_eq!(mysql("datetime(3)"), Ok(DatabaseType::DateTime(3)));
    assert_eq!(mysql("datetime(0)"), Ok(DatabaseType::DateTime(0)));
    assert_eq!(kind_of(mysql("datetime")), DecodeErrorKind::MissingArgument);
    assert_eq!(kind_of(mysql("datetime(x)")), DecodeErrorKind::MalformedArgument);
    assert_eq!(kind_of(mysql("timestamp")), DecodeErrorKind::UnrecognizedType);
}

#[test]
fn mysql_decimal() {
    assert_eq!(mysql("decimal"), Ok(DatabaseType::Decimal { m: None, d: None }));
    assert_eq!(mysql("decimal(10,2)"), Ok(DatabaseType::Decimal { m: Some(10), d: Some(2) }));
    assert_eq!(mysql("decimal(65,30)"), Ok(DatabaseType::Decimal { m: Some(65), d: Some(30) }));
    assert_eq!(
        mysql("decimal(10,2) unsigned"),
        Ok(DatabaseType::Decimal { m: Some(10), d: Some(2) })
    );
    assert_eq!(mysql("decimal(10,2,7)"), Ok(DatabaseType::Decimal { m: Some(10), d: Some(2) }));
}

#[test]
fn mysql_decimal_failures() {
    assert_eq!(kind_of(mysql("decimal(10)")), DecodeErrorKind::MissingArgument);
    assert_eq!(kind_of(mysql("decimal(x)")), DecodeErrorKind::MalformedArgument);
    assert_eq!(kind_of(mysql("decimal(x,2)")), DecodeErrorKind::MalformedArgument);
    assert_eq!(kind_of(mysql("decimal(10,x)")), DecodeErrorKind::MalformedArgument);
    assert_eq!(kind_of(mysql("decimal(10, 2)")), DecodeErrorKind::MalformedArgument);
    assert_eq!(kind_of(mysql("decimal(10,)")), DecodeErrorKind::MalformedArgument);
    assert_eq!(kind_of(mysql("decimal(,2)")), DecodeErrorKind::MalformedArgument);
    assert_eq!(kind_of(mysql("decimal(256,2)")), DecodeErrorKind::MalformedArgument);
}

#[test]
fn mysql_enum_choices_are_unescaped_in_order() {
    assert_eq!(mysql("enum('a','b','c')"), Ok(choices(&["a", "b", "c"])));
    assert_eq!(mysql("enum('one choice')"), Ok(choices(&["one choice"])));
    assert_eq!(mysql("enum(plain,\"double\")"), Ok(choices(&["plain", "double"])));
    assert_eq!(mysql("enum(\"tab\\there\")"), Ok(choices(&["tab\there"])));
    assert_eq!(mysql("enum('b','a')"), Ok(choices(&["b", "a"])));
}

#[test]
fn mysql_enum_splits_at_every_comma() {
    assert_eq!(mysql("enum('a,b','c')"), Ok(choices(&["a", "b", "c"])));
    assert_eq!(mysql("enum('a',)"), Ok(choices(&["a", ""])));
    assert_eq!(mysql("enum(,)"), Ok(choices(&["", ""])));
}

#[test]
fn mysql_enum_failures() {
    assert_eq!(kind_of(mysql("enum")), DecodeErrorKind::MissingArgument);
    assert_eq!(kind_of(mysql("enum()")), DecodeErrorKind::MissingArgument);
    assert_eq!(kind_of(mysql("enum(\"bad\\qescape\")")), DecodeErrorKind::MalformedArgument);
    assert_eq!(mysql("enum('a',\"b\\\")"), Ok(choices(&["a", "b\""])));
    assert_eq!(kind_of(mysql("enum('a',\"b\\)")), DecodeErrorKind::MalformedArgument);
    assert_eq!(kind_of(mysql("enum(\"\\u{110000}\")")), DecodeErrorKind::MalformedArgument);
}

#[test]
fn mysql_arguments_are_plain_numbers() {
    assert_eq!(mysql("int(+5)"), Ok(DatabaseType::Int { m: Some(5), u: false }));
    assert_eq!(mysql("int(007)"), Ok(DatabaseType::Int { m: Some(7), u: false }));
    assert_eq!(mysql("int(255)"), Ok(DatabaseType::Int { m: Some(255), u: false }));
    assert_eq!(kind_of(mysql("int(256)")), DecodeErrorKind::MalformedArgument);
    assert_eq!(kind_of(mysql("int(-1)")), DecodeErrorKind::MalformedArgument);
    assert_eq!(kind_of(mysql("int(+)")), DecodeErrorKind::MalformedArgument);
    assert_eq!(kind_of(mysql("int(1 )")), DecodeErrorKind::MalformedArgument);
    assert_eq!(kind_of(mysql("int(abc)")), DecodeErrorKind::MalformedArgument);
    assert_eq!(kind_of(mysql("int(1,2)")), DecodeErrorKind::MalformedArgument);
    assert_eq!(kind_of(mysql("int(99999999999999999999999)")), DecodeErrorKind::MalformedArgument);
}

#[test]
fn mysql_empty_parentheses_are_no_arguments() {
    assert_eq!(mysql("int()"), Ok(DatabaseType::Int { m: None, u: false }));
    assert_eq!(kind_of(mysql("varchar()")), DecodeErrorKind::MissingArgument);
    assert_eq!(mysql("int("), Ok(DatabaseType::Int { m: None, u: false }));
}

#[test]
fn mysql_arguments_end_at_the_last_parenthesis() {
    assert_eq!(kind_of(mysql("int(11) unsigned (x)")), DecodeErrorKind::MalformedArgument);
    assert_eq!(mysql("enum('(a)')"), Ok(choices(&["(a)"])));
}

#[test]
fn mysql_name_starts_after_spaces_and_parentheses() {
    assert_eq!(mysql(" int(3)"), Ok(DatabaseType::Int { m: Some(3), u: false }));
    assert_eq!(mysql("((int"), Ok(DatabaseType::Int { m: None, u: false }));
    assert_eq!(mysql(") date"), Ok(DatabaseType::Date));
}

#[test]
fn mysql_descriptor_ends_with_its_line() {
    assert_eq!(kind_of(mysql("int\nunsigned")), DecodeErrorKind::UnrecognizedType);
    assert_eq!(mysql("int \nunsigned"), Ok(DatabaseType::Int { m: None, u: false }));
    assert_eq!(mysql("int(1\n)"), Ok(DatabaseType::Int { m: None, u: false }));
    assert_eq!(mysql("int(1)\n unsigned"), Ok(DatabaseType::Int { m: Some(1), u: false }));
    assert_eq!(mysql("int(1) \nunsigned"), Ok(DatabaseType::Int { m: Some(1), u: false }));
    assert_eq!(mysql("int(1) u\n)"), Ok(DatabaseType::Int { m: Some(1), u: true }));
}

#[test]
fn mysql_unrecognized() {
    assert_eq!(
        mysql("geometry"),
        Err(DecodeError {
            kind: DecodeErrorKind::UnrecognizedType,
            text: "geometry".to_string(),
            dialect: SQLDialect::MySQL,
        })
    );
    assert_eq!(kind_of(mysql("")), DecodeErrorKind::UnrecognizedType);
    assert_eq!(kind_of(mysql("   ")), DecodeErrorKind::UnrecognizedType);
    assert_eq!(kind_of(mysql("()")), DecodeErrorKind::UnrecognizedType);
    assert_eq!(kind_of(mysql("integer")), DecodeErrorKind::UnrecognizedType);
    assert_eq!(kind_of(mysql("ints")), DecodeErrorKind::UnrecognizedType);
    assert_eq!(kind_of(mysql("in")), DecodeErrorKind::UnrecognizedType);
}

#[test]
fn decode_puts_the_text_in_lower_case() {
    assert_eq!(mysql("INT(11) UNSIGNED"), Ok(DatabaseType::Int { m: Some(11), u: true }));
    assert_eq!(mysql("VarChar(20)"), Ok(DatabaseType::VarChar { m: 20, n: None, c: None }));
    assert_eq!(mysql("ENUM('A','b')"), Ok(choices(&["a", "b"])));
    assert_eq!(postgres("INTEGER"), Ok(DatabaseType::Int { m: None, u: false }));
    assert_eq!(postgres("Array|Text"), postgres("array|text"));
    assert_eq!(sqlite("INTEGER"), Ok(DatabaseType::Int { m: None, u: false }));
    assert_eq!(mysql("ENUM('\u{c9}')"), Ok(choices(&["\u{e9}"])));
}

#[test]
fn decode_failure_carries_the_text_as_given() {
    assert_eq!(
        mysql("VARCHAR"),
        Err(DecodeError {
            kind: DecodeErrorKind::MissingArgument,
            text: "VARCHAR".to_string(),
            dialect: SQLDialect::MySQL,
        })
    );
    assert_eq!(
        postgres("Array|Geometry"),
        Err(DecodeError {
            kind: DecodeErrorKind::UnrecognizedType,
            text: "Array|Geometry".to_string(),
            dialect: SQLDialect::PostgreSQL,
        })
    );
}

#[test]
fn decode_lowered_does_not_change_case() {
    assert_eq!(
        SQLTypeDecoder::decode_lowered("int", SQLDialect::MySQL),
        Ok(DatabaseType::Int { m: None, u: false })
    );
    assert_eq!(
        SQLTypeDecoder::decode_lowered("INT", SQLDialect::MySQL),
        Err(DecodeErrorKind::UnrecognizedType)
    );
    assert_eq!(
        SQLTypeDecoder::decode_lowered("Integer", SQLDialect::PostgreSQL),
        Err(DecodeErrorKind::UnrecognizedType)
    );
}

#[test]
fn postgres_integer_synonyms() {
    assert_eq!(postgres("integer"), Ok(DatabaseType::Int { m: None, u: false }));
    assert_eq!(postgres("int4"), Ok(DatabaseType::Int { m: None, u: false }));
    assert_eq!(postgres("integer"), postgres("int4"));
}

#[test]
fn postgres_array_of_text() {
    assert_eq!(
        postgres("array|text"),
        Ok(DatabaseType::Array(Box::new(DatabaseType::Text { m: None, n: None, c: None })))
    );
}

#[test]
fn postgres_nested_arrays() {
    assert_eq!(
        postgres("array|array|int8"),
        Ok(DatabaseType::Array(Box::new(DatabaseType::Array(Box::new(DatabaseType::BigInt {
            m: None,
            u: false
        })))))
    );
    assert_eq!(kind_of(postgres("array|")), DecodeErrorKind::UnrecognizedType);
    assert_eq!(kind_of(postgres("array|array|")), DecodeErrorKind::UnrecognizedType);
    assert_eq!(kind_of(postgres("array|unknown")), DecodeErrorKind::UnrecognizedType);
    assert_eq!(kind_of(postgres("array")), DecodeErrorKind::UnrecognizedType);
    assert_eq!(kind_of(postgres("text|array")), DecodeErrorKind::UnrecognizedType);
}

#[test]
fn postgres_lookup_table() {
    assert_eq!(postgres("text"), Ok(DatabaseType::Text { m: None, n: None, c: None }));
    assert_eq!(
        postgres("timestamp without time zone"),
        Ok(DatabaseType::Timestamp { p: 3, z: false })
    );
    assert_eq!(postgres("timestamp"), Ok(DatabaseType::Timestamp { p: 3, z: false }));
    assert_eq!(postgres("boolean"), Ok(DatabaseType::Bool));
    assert_eq!(postgres("bool"), Ok(DatabaseType::Bool));
    assert_eq!(postgres("bigint"), Ok(DatabaseType::BigInt { m: None, u: false }));
    assert_eq!(postgres("int8"), Ok(DatabaseType::BigInt { m: None, u: false }));
    assert_eq!(postgres("double precision"), Ok(DatabaseType::Double { m: None, d: None }));
    assert_eq!(postgres("float8"), Ok(DatabaseType::Double { m: None, d: None }));
    assert_eq!(postgres("real"), Ok(DatabaseType::Real));
    assert_eq!(postgres("float4"), Ok(DatabaseType::Real));
    assert_eq!(postgres("date"), Ok(DatabaseType::Date));
}

#[test]
fn postgres_numeric_has_fixed_precision_and_scale() {
    assert_eq!(postgres("numeric"), Ok(DatabaseType::Decimal { m: Some(65), d: Some(30) }));
}

#[test]
fn postgres_names_are_looked_up_whole() {
    assert_eq!(kind_of(postgres("integer ")), DecodeErrorKind::UnrecognizedType);
    assert_eq!(kind_of(postgres(" integer")), DecodeErrorKind::UnrecognizedType);
    assert_eq!(kind_of(postgres("numeric(10,2)")), DecodeErrorKind::UnrecognizedType);
    assert_eq!(kind_of(postgres("int")), DecodeErrorKind::UnrecognizedType);
    assert_eq!(kind_of(postgres("timestamp with time zone")), DecodeErrorKind::UnrecognizedType);
    assert_eq!(kind_of(postgres("")), DecodeErrorKind::UnrecognizedType);
}

#[test]
fn sqlite_types() {
    assert_eq!(sqlite("integer"), Ok(DatabaseType::Int { m: None, u: false }));
    assert_eq!(sqlite("integer unsigned"), Ok(DatabaseType::Int { m: None, u: false }));
    assert_eq!(sqlite("text"), Ok(DatabaseType::Text { m: None, n: None, c: None }));
    assert_eq!(sqlite("real"), Ok(DatabaseType::Real));
    assert_eq!(sqlite("double"), Ok(DatabaseType::Double { m: None, d: None }));
    assert_eq!(sqlite("decimal"), Ok(DatabaseType::Decimal { m: None, d: None }));
    assert_eq!(sqlite("decimal(12,4)"), Ok(DatabaseType::Decimal { m: Some(12), d: Some(4) }));
    assert_eq!(sqlite("DECIMAL(12,4)"), Ok(DatabaseType::Decimal { m: Some(12), d: Some(4) }));
}

#[test]
fn sqlite_failures() {
    assert_eq!(kind_of(sqlite("int")), DecodeErrorKind::UnrecognizedType);
    assert_eq!(kind_of(sqlite("varchar(10)")), DecodeErrorKind::UnrecognizedType);
    assert_eq!(kind_of(sqlite("")), DecodeErrorKind::UnrecognizedType);
    assert_eq!(kind_of(sqlite("decimal(12)")), DecodeErrorKind::MissingArgument);
    assert_eq!(kind_of(sqlite("decimal(a,b)")), DecodeErrorKind::MalformedArgument);
}

#[test]
fn mssql_decodes_nothing() {
    for text in ["int", "varchar(10)", "", "bit", "nvarchar(max)"] {
        assert_eq!(
            SQLTypeDecoder::decode(text, SQLDialect::MSSQL),
            Err(DecodeError {
                kind: DecodeErrorKind::UnsupportedDialect,
                text: text.to_string(),
                dialect: SQLDialect::MSSQL,
            })
        );
        assert_eq!(mssql_type_to_database_type(text), Err(DecodeErrorKind::UnsupportedDialect));
    }
}

#[test]
fn dialect_decoders_take_lower_case_text() {
    assert_eq!(
        mysql_type_to_database_type("smallint(6)"),
        Ok(DatabaseType::SmallInt { m: Some(6), u: false })
    );
    assert_eq!(mysql_type_to_database_type("SMALLINT(6)"), Err(DecodeErrorKind::UnrecognizedType));
    assert_eq!(postgresql_type_to_database_type("bool"), Ok(DatabaseType::Bool));
    assert_eq!(sqlite_type_to_database_type("real"), Ok(DatabaseType::Real));
}

#[test]
fn enum_of_choices_needs_every_choice() {
    assert_eq!(
        enum_of_choices(vec![Some("a".to_string()), Some("b".to_string())]),
        Ok(choices(&["a", "b"]))
    );
    assert_eq!(
        enum_of_choices(vec![Some("a".to_string()), None]),
        Err(DecodeErrorKind::MalformedArgument)
    );
    assert_eq!(enum_of_choices(vec![None]), Err(DecodeErrorKind::MalformedArgument));
    assert_eq!(enum_of_choices(vec![]), Err(DecodeErrorKind::MissingArgument));
}

#[test]
fn decoded_type_can_be_cloned() {
    let decoded = postgres("array|numeric").unwrap();
    assert_eq!(decoded.clone(), decoded);
    let decoded = mysql("enum('x','y')").unwrap();
    assert_eq!(decoded.clone(), decoded);
    let named = DatabaseType::Char { m: Some(2), n: Some("utf8".to_string()), c: None };
    assert_eq!(named.clone(), named);
}
