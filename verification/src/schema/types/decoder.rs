//! Decoding of the type text that a database reports for a column.

use vstd::prelude::*;
use crate::schema::dialect::SQLDialect;
use crate::schema::types::descriptor::{
    scan, span_of, split_descriptor, split_has_a_piece, split_of_name, split_of_parts, split_on,
    split_spans, Descriptor, Span,
};
use crate::schema::types::number::{
    decimal_text_reads_back, digit_value, parse_u16, parse_u8, read_unsigned,
};
use crate::schema::types::{DatabaseType, DatabaseTypeView, DbEnum};
use crate::text::{decimal_text, text_of, to_chars};

verus! {

/// Why a type text was not decoded.
#[derive(Clone, Copy, Debug, PartialEq, Eq, Structural)]
pub enum DecodeErrorKind {
    /// The text holds no type name, or one that the dialect does not know.
    UnrecognizedType,
    /// The type needs an argument that the text does not give.
    MissingArgument,
    /// An argument is no number of the expected size, or no quoted choice.
    MalformedArgument,
    /// No type text of the dialect is decoded.
    UnsupportedDialect,
}

/// A failure to decode, with the text and the dialect that it was
/// decoded for.
#[derive(Debug, PartialEq, Eq)]
pub struct DecodeError {
    pub kind: DecodeErrorKind,
    pub text: String,
    pub dialect: SQLDialect,
}

/// What `str::to_lowercase` returns for a text.
pub uninterp spec fn lowercase_of(text: Seq<char>) -> Seq<char>;

/// What `snailquote::unescape` returns for a text: the unescaped text, or
/// `None` where it reports an error.
pub uninterp spec fn unescaped(text: Seq<char>) -> Option<Seq<char>>;

/// `snailquote::UnescapeError`, the error of `snailquote::unescape`. It is
/// carried and not looked into.
#[verifier::external_type_specification]
#[verifier::external_body]
pub struct ExUnescapeError(snailquote::UnescapeError);

/// Calls `str::to_lowercase`, which gives the lower-case equivalent of a
/// text by the rules of Unicode. Nothing is claimed of the result but that
/// it depends on the text alone.
#[verifier::external_body]
fn lowercase(text: &str) -> (lowered: String)
    ensures
        lowered@ == lowercase_of(text@),
{
    text.to_lowercase()
}

/// Calls `snailquote::unescape`, which removes shell-style quotes from a
/// text and resolves the escapes between double quotes. Nothing is claimed
/// of the outcome but that it depends on the text alone.
#[verifier::external_body]
fn unescape(text: &str) -> (outcome: Result<String, snailquote::UnescapeError>)
    ensures
        match outcome {
            Ok(plain) => unescaped(text@) == Some(plain@),
            Err(_) => unescaped(text@) is None,
        },
{
    snailquote::unescape(text)
}

/// The outcome of decoding, with each string as its characters.
pub open spec fn outcome_of(outcome: Result<DatabaseType, DecodeErrorKind>) -> Result<
    DatabaseTypeView,
    DecodeErrorKind,
> {
    match outcome {
        Ok(t) => Ok(t@),
        Err(kind) => Err(kind),
    }
}

/// An optional width: absent without arguments, else the arguments read as
/// one number up to 255.
pub open spec fn optional_width(arguments: Option<Seq<char>>) -> Result<
    Option<u8>,
    DecodeErrorKind,
> {
    match arguments {
        None => Ok(None),
        Some(a) => match parse_u8(a) {
            Some(m) => Ok(Some(m)),
            None => Err(DecodeErrorKind::MalformedArgument),
        },
    }
}

/// A mandatory number up to 255.
pub open spec fn required_u8(arguments: Option<Seq<char>>) -> Result<u8, DecodeErrorKind> {
    match arguments {
        None => Err(DecodeErrorKind::MissingArgument),
        Some(a) => match parse_u8(a) {
            Some(m) => Ok(m),
            None => Err(DecodeErrorKind::MalformedArgument),
        },
    }
}

/// A mandatory number up to 65535.
pub open spec fn required_u16(arguments: Option<Seq<char>>) -> Result<u16, DecodeErrorKind> {
    match arguments {
        None => Err(DecodeErrorKind::MissingArgument),
        Some(a) => match parse_u16(a) {
            Some(m) => Ok(m),
            None => Err(DecodeErrorKind::MalformedArgument),
        },
    }
}

/// A type with an optional width.
pub open spec fn with_width(
    arguments: Option<Seq<char>>,
    make: spec_fn(Option<u8>) -> DatabaseTypeView,
) -> Result<DatabaseTypeView, DecodeErrorKind> {
    match optional_width(arguments) {
        Ok(m) => Ok(make(m)),
        Err(kind) => Err(kind),
    }
}

/// A fixed-point type: without arguments it has neither precision nor
/// scale; with arguments, the first two pieces between commas are the
/// precision and the scale, and further pieces are ignored.
pub open spec fn decimal_of(arguments: Option<Seq<char>>) -> Result<
    DatabaseTypeView,
    DecodeErrorKind,
> {
    match arguments {
        None => Ok(DatabaseTypeView::Decimal { m: None, d: None }),
        Some(a) => {
            let pieces = split_on(a, ',');
            match parse_u8(pieces[0]) {
                None => Err(DecodeErrorKind::MalformedArgument),
                Some(m) => if pieces.len() < 2 {
                    Err(DecodeErrorKind::MissingArgument)
                } else {
                    match parse_u8(pieces[1]) {
                        None => Err(DecodeErrorKind::MalformedArgument),
                        Some(d) => Ok(DatabaseTypeView::Decimal { m: Some(m), d: Some(d) }),
                    }
                },
            }
        },
    }
}

/// The choices that the pieces write, where each piece unescapes.
pub open spec fn choices_of(pieces: Seq<Seq<char>>) -> Option<Seq<Seq<char>>> {
    if forall|i: int| 0 <= i < pieces.len() ==> (#[trigger] unescaped(pieces[i])) is Some {
        Some(Seq::new(pieces.len(), |i: int| unescaped(pieces[i])->0))
    } else {
        None
    }
}

/// An enumeration: the pieces of the arguments between commas, each
/// unescaped, in order.
pub open spec fn enum_of(arguments: Option<Seq<char>>) -> Result<
    DatabaseTypeView,
    DecodeErrorKind,
> {
    match arguments {
        None => Err(DecodeErrorKind::MissingArgument),
        Some(a) => match choices_of(split_on(a, ',')) {
            Some(choices) => Ok(DatabaseTypeView::Enum(choices)),
            None => Err(DecodeErrorKind::MalformedArgument),
        },
    }
}

/// The type that the parts of a MySQL descriptor stand for. A qualifier,
/// whatever it says, makes an integer type unsigned.
pub open spec fn mysql_type_of(d: Descriptor) -> Result<DatabaseTypeView, DecodeErrorKind> {
    let u = d.qualifier is Some;
    if d.name == "bit"@ {
        with_width(d.arguments, |m: Option<u8>| DatabaseTypeView::Bit { m })
    } else if d.name == "tinyint"@ {
        with_width(d.arguments, |m: Option<u8>| DatabaseTypeView::TinyInt { m, u })
    } else if d.name == "smallint"@ {
        with_width(d.arguments, |m: Option<u8>| DatabaseTypeView::SmallInt { m, u })
    } else if d.name == "mediumint"@ {
        with_width(d.arguments, |m: Option<u8>| DatabaseTypeView::MediumInt { m, u })
    } else if d.name == "int"@ {
        with_width(d.arguments, |m: Option<u8>| DatabaseTypeView::Int { m, u })
    } else if d.name == "bigint"@ {
        with_width(d.arguments, |m: Option<u8>| DatabaseTypeView::BigInt { m, u })
    } else if d.name == "float"@ {
        Ok(DatabaseTypeView::Float { m: None, d: None })
    } else if d.name == "double"@ {
        Ok(DatabaseTypeView::Double { m: None, d: None })
    } else if d.name == "char"@ {
        with_width(d.arguments, |m: Option<u8>| DatabaseTypeView::Char { m, n: None, c: None })
    } else if d.name == "varchar"@ {
        match required_u16(d.arguments) {
            Ok(m) => Ok(DatabaseTypeView::VarChar { m, n: None, c: None }),
            Err(kind) => Err(kind),
        }
    } else if d.name == "text"@ {
        Ok(DatabaseTypeView::Text { m: None, n: None, c: None })
    } else if d.name == "mediumtext"@ {
        Ok(DatabaseTypeView::MediumText { n: None, c: None })
    } else if d.name == "longtext"@ {
        Ok(DatabaseTypeView::LongText { n: None, c: None })
    } else if d.name == "date"@ {
        Ok(DatabaseTypeView::Date)
    } else if d.name == "datetime"@ {
        match required_u8(d.arguments) {
            Ok(p) => Ok(DatabaseTypeView::DateTime(p)),
            Err(kind) => Err(kind),
        }
    } else if d.name == "decimal"@ {
        decimal_of(d.arguments)
    } else if d.name == "enum"@ {
        enum_of(d.arguments)
    } else {
        Err(DecodeErrorKind::UnrecognizedType)
    }
}

/// The type that a lower-case MySQL type text stands for.
pub open spec fn mysql_type(text: Seq<char>) -> Result<DatabaseTypeView, DecodeErrorKind> {
    match split_descriptor(text) {
        Some(d) => mysql_type_of(d),
        None => Err(DecodeErrorKind::UnrecognizedType),
    }
}

/// The type that the parts of a SQLite descriptor stand for.
pub open spec fn sqlite_type_of(d: Descriptor) -> Result<DatabaseTypeView, DecodeErrorKind> {
    if d.name == "integer"@ {
        Ok(DatabaseTypeView::Int { m: None, u: false })
    } else if d.name == "text"@ {
        Ok(DatabaseTypeView::Text { m: None, n: None, c: None })
    } else if d.name == "real"@ {
        Ok(DatabaseTypeView::Real)
    } else if d.name == "double"@ {
        Ok(DatabaseTypeView::Double { m: None, d: None })
    } else if d.name == "decimal"@ {
        decimal_of(d.arguments)
    } else {
        Err(DecodeErrorKind::UnrecognizedType)
    }
}

/// The type that a lower-case SQLite type text stands for.
pub open spec fn sqlite_type(text: Seq<char>) -> Result<DatabaseTypeView, DecodeErrorKind> {
    match split_descriptor(text) {
        Some(d) => sqlite_type_of(d),
        None => Err(DecodeErrorKind::UnrecognizedType),
    }
}

/// The text begins with `array|`.
pub open spec fn is_array(text: Seq<char>) -> bool {
    text.len() >= 6 && text.take(6) == "array|"@
}

/// The type that a lower-case PostgreSQL type name stands for. The name
/// is looked up as a whole; `array|` before a name makes an array of what
/// the name stands for.
pub open spec fn postgresql_type(text: Seq<char>) -> Result<DatabaseTypeView, DecodeErrorKind>
    decreases text.len(),
{
    if text == "integer"@ || text == "int4"@ {
        Ok(DatabaseTypeView::Int { m: None, u: false })
    } else if text == "text"@ {
        Ok(DatabaseTypeView::Text { m: None, n: None, c: None })
    } else if text == "timestamp without time zone"@ || text == "timestamp"@ {
        Ok(DatabaseTypeView::Timestamp { p: 3, z: false })
    } else if text == "boolean"@ || text == "bool"@ {
        Ok(DatabaseTypeView::Bool)
    } else if text == "bigint"@ || text == "int8"@ {
        Ok(DatabaseTypeView::BigInt { m: None, u: false })
    } else if text == "double precision"@ || text == "float8"@ {
        Ok(DatabaseTypeView::Double { m: None, d: None })
    } else if text == "real"@ || text == "float4"@ {
        Ok(DatabaseTypeView::Real)
    } else if text == "date"@ {
        Ok(DatabaseTypeView::Date)
    } else if text == "numeric"@ {
        Ok(DatabaseTypeView::Decimal { m: Some(65), d: Some(30) })
    } else if is_array(text) {
        match postgresql_type(text.skip(6)) {
            Ok(inner) => Ok(DatabaseTypeView::Array(Box::new(inner))),
            Err(kind) => Err(kind),
        }
    } else {
        Err(DecodeErrorKind::UnrecognizedType)
    }
}

/// The type that a lower-case type text stands for in a dialect.
pub open spec fn type_of(text: Seq<char>, dialect: SQLDialect) -> Result<
    DatabaseTypeView,
    DecodeErrorKind,
> {
    match dialect {
        SQLDialect::MySQL => mysql_type(text),
        SQLDialect::PostgreSQL => postgresql_type(text),
        SQLDialect::SQLite => sqlite_type(text),
        SQLDialect::MSSQL => Err(DecodeErrorKind::UnsupportedDialect),
    }
}

/// The characters in `span` are those of `word`.
fn span_is(text: &Vec<char>, span: Span, word: &str) -> (yes: bool)
    requires
        span.within(text@),
    ensures
        yes == (span.of(text@) == word@),
{
    let n = word.unicode_len();
    if span.to - span.from != n {
        return false;
    }
    let mut i: usize = 0;
    while i < n
        invariant
            i <= n == word@.len(),
            span.within(text@),
            span.to - span.from == n,
            forall|j: int| 0 <= j < i ==> text@[span.from + j] == word@[j],
        decreases n - i,
    {
        if text[span.from + i] != word.get_char(i) {
            assert(span.of(text@)[i as int] != word@[i as int]);
            return false;
        }
        i += 1;
    }
    assert(span.of(text@) =~= word@);
    true
}

fn read_u8(text: &Vec<char>, span: Span) -> (n: Option<u8>)
    requires
        span.within(text@),
    ensures
        n == parse_u8(span.of(text@)),
{
    match read_unsigned(text, span.from, span.to, 255) {
        Some(n) => Some(n as u8),
        None => None,
    }
}

fn read_u16(text: &Vec<char>, span: Span) -> (n: Option<u16>)
    requires
        span.within(text@),
    ensures
        n == parse_u16(span.of(text@)),
{
    match read_unsigned(text, span.from, span.to, 65535) {
        Some(n) => Some(n as u16),
        None => None,
    }
}

fn read_width(text: &Vec<char>, arguments: Option<Span>) -> (m: Result<Option<u8>, DecodeErrorKind>)
    requires
        arguments matches Some(a) ==> a.within(text@),
    ensures
        m == optional_width(span_of(arguments, text@)),
{
    match arguments {
        None => Ok(None),
        Some(a) => match read_u8(text, a) {
            Some(m) => Ok(Some(m)),
            None => Err(DecodeErrorKind::MalformedArgument),
        },
    }
}

fn read_decimal(text: &Vec<char>, arguments: Option<Span>) -> (outcome: Result<
    DatabaseType,
    DecodeErrorKind,
>)
    requires
        arguments matches Some(a) ==> a.within(text@),
    ensures
        outcome_of(outcome) == decimal_of(span_of(arguments, text@)),
{
    match arguments {
        None => Ok(DatabaseType::Decimal { m: None, d: None }),
        Some(a) => {
            let pieces = split_spans(text, a.from, a.to, ',');
            match read_u8(text, pieces[0]) {
                None => Err(DecodeErrorKind::MalformedArgument),
                Some(m) => if pieces.len() < 2 {
                    Err(DecodeErrorKind::MissingArgument)
                } else {
                    match read_u8(text, pieces[1]) {
                        None => Err(DecodeErrorKind::MalformedArgument),
                        Some(d) => Ok(DatabaseType::Decimal { m: Some(m), d: Some(d) }),
                    }
                },
            }
        },
    }
}

/// The characters of each choice that is present.
pub open spec fn present_choices(choices: Seq<Option<String>>) -> Seq<Seq<char>> {
    Seq::new(choices.len(), |i: int| choices[i]->0@)
}

/// The enumeration of the given choices, in order, where every one of
/// them is present and there is at least one; `MalformedArgument` where one
/// is absent, `MissingArgument` where there is none at all.
pub fn enum_of_choices(choices: Vec<Option<String>>) -> (outcome: Result<
    DatabaseType,
    DecodeErrorKind,
>)
    ensures
        outcome_of(outcome) == if exists|i: int|
            0 <= i < choices.len() && (#[trigger] choices@[i]) is None {
            Err::<DatabaseTypeView, DecodeErrorKind>(DecodeErrorKind::MalformedArgument)
        } else if choices.len() == 0 {
            Err(DecodeErrorKind::MissingArgument)
        } else {
            Ok(DatabaseTypeView::Enum(present_choices(choices@)))
        },
{
    let mut present: Vec<String> = Vec::new();
    let mut rest = choices;
    let ghost given = rest@;
    let mut i: usize = 0;
    while i < rest.len()
        invariant
            i <= rest.len() == given.len(),
            given == choices@,
            present.len() == i,
            forall|k: int| 0 <= k < i ==> (#[trigger] given[k]) is Some,
            forall|k: int| 0 <= k < i ==> (#[trigger] present@[k])@ == given[k]->0@,
            forall|k: int| i <= k < given.len() ==> rest@[k] == given[k],
        decreases rest.len() - i,
    {
        let mut taken: Option<String> = None;
        std::mem::swap(&mut rest[i], &mut taken);
        match taken {
            Some(choice) => {
                present.push(choice);
            },
            None => {
                assert(given[i as int] is None);
                return Err(DecodeErrorKind::MalformedArgument);
            },
        }
        i += 1;
    }
    if present.len() == 0 {
        return Err(DecodeErrorKind::MissingArgument);
    }
    let decoded = DatabaseType::Enum(DbEnum { choices: present });
    assert(decoded@->Enum_0 =~= present_choices(given));
    Ok(decoded)
}

fn read_enum(lowered: &str, text: &Vec<char>, arguments: Option<Span>) -> (outcome: Result<
    DatabaseType,
    DecodeErrorKind,
>)
    requires
        text@ == lowered@,
        arguments matches Some(a) ==> a.within(text@),
    ensures
        outcome_of(outcome) == enum_of(span_of(arguments, text@)),
{
    match arguments {
        None => Err(DecodeErrorKind::MissingArgument),
        Some(a) => {
            let pieces = split_spans(text, a.from, a.to, ',');
            let ghost written = split_on(a.of(text@), ',');
            let mut choices: Vec<Option<String>> = Vec::new();
            let mut i: usize = 0;
            while i < pieces.len()
                invariant
                    i <= pieces.len() == written.len(),
                    text@ == lowered@,
                    choices.len() == i,
                    forall|k: int|
                        0 <= k < pieces.len() ==> (#[trigger] pieces[k]).within(text@)
                            && pieces[k].of(text@) == written[k],
                    forall|k: int|
                        0 <= k < i ==> text_of(#[trigger] choices@[k]) == unescaped(
                            written[k],
                        ),
                decreases pieces.len() - i,
            {
                let piece = lowered.substring_char(pieces[i].from, pieces[i].to);
                let choice = match unescape(piece) {
                    Ok(plain) => Some(plain),
                    Err(_) => None,
                };
                choices.push(choice);
                i += 1;
            }
            proof {
                if choices_of(written) is Some {
                    assert forall|k: int| 0 <= k < choices.len() implies (#[trigger] choices@[k])
                        is Some by {
                        assert(unescaped(written[k]) is Some);
                    }
                    assert(present_choices(choices@) =~= choices_of(written)->0);
                } else {
                    let k = choose|k: int|
                        0 <= k < written.len() && !((#[trigger] unescaped(written[k])) is Some);
                    assert(choices@[k] is None);
                }
            }
            enum_of_choices(choices)
        },
    }
}

/// Decodes a MySQL type text that is in lower case.
pub fn mysql_type_to_database_type(lowered: &str) -> (outcome: Result<
    DatabaseType,
    DecodeErrorKind,
>)
    ensures
        outcome_of(outcome) == mysql_type(lowered@),
{
    let text = to_chars(lowered);
    match scan(&text) {
        None => Err(DecodeErrorKind::UnrecognizedType),
        Some(parts) => {
            let name = parts.name;
            let arguments = parts.arguments;
            let u = parts.qualifier.is_some();
            if span_is(&text, name, "bit") {
                match read_width(&text, arguments) {
                    Ok(m) => Ok(DatabaseType::Bit { m }),
                    Err(kind) => Err(kind),
                }
            } else if span_is(&text, name, "tinyint") {
                match read_width(&text, arguments) {
                    Ok(m) => Ok(DatabaseType::TinyInt { m, u }),
                    Err(kind) => Err(kind),
                }
            } else if span_is(&text, name, "smallint") {
                match read_width(&text, arguments) {
                    Ok(m) => Ok(DatabaseType::SmallInt { m, u }),
                    Err(kind) => Err(kind),
                }
            } else if span_is(&text, name, "mediumint") {
                match read_width(&text, arguments) {
                    Ok(m) => Ok(DatabaseType::MediumInt { m, u }),
                    Err(kind) => Err(kind),
                }
            } else if span_is(&text, name, "int") {
                match read_width(&text, arguments) {
                    Ok(m) => Ok(DatabaseType::Int { m, u }),
                    Err(kind) => Err(kind),
                }
            } else if span_is(&text, name, "bigint") {
                match read_width(&text, arguments) {
                    Ok(m) => Ok(DatabaseType::BigInt { m, u }),
                    Err(kind) => Err(kind),
                }
            } else if span_is(&text, name, "float") {
                Ok(DatabaseType::Float { m: None, d: None })
            } else if span_is(&text, name, "double") {
                Ok(DatabaseType::Double { m: None, d: None })
            } else if span_is(&text, name, "char") {
                match read_width(&text, arguments) {
                    Ok(m) => Ok(DatabaseType::Char { m, n: None, c: None }),
                    Err(kind) => Err(kind),
                }
            } else if span_is(&text, name, "varchar") {
                match arguments {
                    None => Err(DecodeErrorKind::MissingArgument),
                    Some(a) => match read_u16(&text, a) {
                        Some(m) => Ok(DatabaseType::VarChar { m, n: None, c: None }),
                        None => Err(DecodeErrorKind::MalformedArgument),
                    },
                }
            } else if span_is(&text, name, "text") {
                Ok(DatabaseType::Text { m: None, n: None, c: None })
            } else if span_is(&text, name, "mediumtext") {
                Ok(DatabaseType::MediumText { n: None, c: None })
            } else if span_is(&text, name, "longtext") {
                Ok(DatabaseType::LongText { n: None, c: None })
            } else if span_is(&text, name, "date") {
                Ok(DatabaseType::Date)
            } else if span_is(&text, name, "datetime") {
                match arguments {
                    None => Err(DecodeErrorKind::MissingArgument),
                    Some(a) => match read_u8(&text, a) {
                        Some(p) => Ok(DatabaseType::DateTime(p)),
                        None => Err(DecodeErrorKind::MalformedArgument),
                    },
                }
            } else if span_is(&text, name, "decimal") {
                read_decimal(&text, arguments)
            } else if span_is(&text, name, "enum") {
                read_enum(lowered, &text, arguments)
            } else {
                Err(DecodeErrorKind::UnrecognizedType)
            }
        },
    }
}

/// Decodes a SQLite type text that is in lower case.
pub fn sqlite_type_to_database_type(lowered: &str) -> (outcome: Result<
    DatabaseType,
    DecodeErrorKind,
>)
    ensures
        outcome_of(outcome) == sqlite_type(lowered@),
{
    let text = to_chars(lowered);
    match scan(&text) {
        None => Err(DecodeErrorKind::UnrecognizedType),
        Some(parts) => {
            let name = parts.name;
            if span_is(&text, name, "integer") {
                Ok(DatabaseType::Int { m: None, u: false })
            } else if span_is(&text, name, "text") {
                Ok(DatabaseType::Text { m: None, n: None, c: None })
            } else if span_is(&text, name, "real") {
                Ok(DatabaseType::Real)
            } else if span_is(&text, name, "double") {
                Ok(DatabaseType::Double { m: None, d: None })
            } else if span_is(&text, name, "decimal") {
                read_decimal(&text, parts.arguments)
            } else {
                Err(DecodeErrorKind::UnrecognizedType)
            }
        },
    }
}

/// Decodes what stands in `text` from `from` on as a PostgreSQL type name.
fn postgresql_type_from(text: &Vec<char>, from: usize) -> (outcome: Result<
    DatabaseType,
    DecodeErrorKind,
>)
    requires
        from <= text.len(),
    ensures
        outcome_of(outcome) == postgresql_type(text@.skip(from as int)),
    decreases text.len() - from,
{
    let rest = Span { from, to: text.len() };
    assert(rest.of(text@) =~= text@.skip(from as int));
    if span_is(text, rest, "integer") || span_is(text, rest, "int4") {
        Ok(DatabaseType::Int { m: None, u: false })
    } else if span_is(text, rest, "text") {
        Ok(DatabaseType::Text { m: None, n: None, c: None })
    } else if span_is(text, rest, "timestamp without time zone") || span_is(
        text,
        rest,
        "timestamp",
    ) {
        Ok(DatabaseType::Timestamp { p: 3, z: false })
    } else if span_is(text, rest, "boolean") || span_is(text, rest, "bool") {
        Ok(DatabaseType::Bool)
    } else if span_is(text, rest, "bigint") || span_is(text, rest, "int8") {
        Ok(DatabaseType::BigInt { m: None, u: false })
    } else if span_is(text, rest, "double precision") || span_is(text, rest, "float8") {
        Ok(DatabaseType::Double { m: None, d: None })
    } else if span_is(text, rest, "real") || span_is(text, rest, "float4") {
        Ok(DatabaseType::Real)
    } else if span_is(text, rest, "date") {
        Ok(DatabaseType::Date)
    } else if span_is(text, rest, "numeric") {
        Ok(DatabaseType::Decimal { m: Some(65), d: Some(30) })
    } else if text.len() - from >= 6 && span_is(text, Span { from, to: from + 6 }, "array|") {
        proof {
            assert(text@.skip(from as int).take(6) =~= text@.subrange(from as int, from + 6));
            assert(text@.skip(from as int).skip(6) =~= text@.skip(from + 6));
        }
        match postgresql_type_from(text, from + 6) {
            Ok(inner) => Ok(DatabaseType::Array(Box::new(inner))),
            Err(kind) => Err(kind),
        }
    } else {
        proof {
            if text.len() - from >= 6 {
                assert(text@.skip(from as int).take(6) =~= text@.subrange(from as int, from + 6));
            }
        }
        Err(DecodeErrorKind::UnrecognizedType)
    }
}

/// Decodes a PostgreSQL type name that is in lower case.
pub fn postgresql_type_to_database_type(lowered: &str) -> (outcome: Result<
    DatabaseType,
    DecodeErrorKind,
>)
    ensures
        outcome_of(outcome) == postgresql_type(lowered@),
{
    let text = to_chars(lowered);
    assert(text@.skip(0) =~= text@);
    postgresql_type_from(&text, 0)
}

/// Decodes no MSSQL type text: every text is refused.
pub fn mssql_type_to_database_type(_lowered: &str) -> (outcome: Result<
    DatabaseType,
    DecodeErrorKind,
>)
    ensures
        outcome == Err::<DatabaseType, DecodeErrorKind>(DecodeErrorKind::UnsupportedDialect),
{
    Err(DecodeErrorKind::UnsupportedDialect)
}

/// Decodes the type text of a column as a database reports it.
pub struct SQLTypeDecoder {}

impl SQLTypeDecoder {
    /// Decodes a type text for a dialect. The text is put in lower case
    /// and then decoded as `decode_lowered` says; a failure carries the text
    /// as it was given and the dialect.
    pub fn decode(text: &str, dialect: SQLDialect) -> (outcome: Result<DatabaseType, DecodeError>)
        ensures
            match outcome {
                Ok(decoded) => type_of(lowercase_of(text@), dialect) == Ok::<
                    DatabaseTypeView,
                    DecodeErrorKind,
                >(decoded@) && decoded@.well_formed(),
                Err(e) => type_of(lowercase_of(text@), dialect) == Err::<
                    DatabaseTypeView,
                    DecodeErrorKind,
                >(e.kind) && e.text@ == text@ && e.dialect == dialect,
            },
    {
        let lowered = lowercase(text);
        match Self::decode_lowered(lowered.as_str(), dialect) {
            Ok(decoded) => Ok(decoded),
            Err(kind) => Err(DecodeError { kind, text: String::from_str(text), dialect }),
        }
    }

    /// Decodes a type text that is in lower case: the type that it stands
    /// for in the dialect, or the reason why it stands for none.
    pub fn decode_lowered(lowered: &str, dialect: SQLDialect) -> (outcome: Result<
        DatabaseType,
        DecodeErrorKind,
    >)
        ensures
            outcome_of(outcome) == type_of(lowered@, dialect),
            outcome matches Ok(decoded) ==> decoded@.well_formed(),
    {
        proof {
            decoded_types_are_well_formed(lowered@, dialect);
        }
        match dialect {
            SQLDialect::MySQL => mysql_type_to_database_type(lowered),
            SQLDialect::PostgreSQL => postgresql_type_to_database_type(lowered),
            SQLDialect::SQLite => sqlite_type_to_database_type(lowered),
            SQLDialect::MSSQL => mssql_type_to_database_type(lowered),
        }
    }
}

/// A decoded type is well formed: precision and scale come together, and
/// an enumeration has a choice.
pub proof fn decoded_types_are_well_formed(text: Seq<char>, dialect: SQLDialect)
    ensures
        type_of(text, dialect) matches Ok(decoded) ==> decoded.well_formed(),
    decreases text.len(),
{
    match dialect {
        SQLDialect::MySQL => {
            if let Some(d) = split_descriptor(text) {
                if let Some(a) = d.arguments {
                    split_has_a_piece(a, ',');
                }
            }
        },
        SQLDialect::SQLite => {},
        SQLDialect::PostgreSQL => {
            if is_array(text) {
                decoded_types_are_well_formed(text.skip(6), dialect);
            }
        },
        SQLDialect::MSSQL => {},
    }
}

/// The names of the MySQL integer types that have a width and a sign.
pub open spec fn is_integer_name(name: Seq<char>) -> bool {
    ||| name == "tinyint"@
    ||| name == "smallint"@
    ||| name == "mediumint"@
    ||| name == "int"@
    ||| name == "bigint"@
}

/// The integer type of the given name, width and sign.
pub open spec fn integer_type(name: Seq<char>, m: Option<u8>, u: bool) -> DatabaseTypeView {
    if name == "tinyint"@ {
        DatabaseTypeView::TinyInt { m, u }
    } else if name == "smallint"@ {
        DatabaseTypeView::SmallInt { m, u }
    } else if name == "mediumint"@ {
        DatabaseTypeView::MediumInt { m, u }
    } else if name == "int"@ {
        DatabaseTypeView::Int { m, u }
    } else {
        DatabaseTypeView::BigInt { m, u }
    }
}

/// The type text that MySQL reports for an integer column: the name, the
/// width between parentheses, and ` unsigned` for an unsigned column.
pub open spec fn integer_descriptor(name: Seq<char>, m: u8, u: bool) -> Seq<char> {
    name + "("@ + decimal_text(m as nat) + if u {
        ") unsigned"@
    } else {
        ")"@
    }
}

/// In MySQL, the descriptor of an integer type decodes to that type, with
/// the width that stands between the parentheses; the type is unsigned
/// where ` unsigned` follows, and signed where it does not.
pub proof fn mysql_integer_descriptors(name: Seq<char>, m: u8, u: bool)
    requires
        is_integer_name(name),
    ensures
        mysql_type(integer_descriptor(name, m, u)) == Ok::<DatabaseTypeView, DecodeErrorKind>(
            integer_type(name, Some(m), u),
        ),
{
    reveal_strlit("bit");
    reveal_strlit("tinyint");
    reveal_strlit("smallint");
    reveal_strlit("mediumint");
    reveal_strlit("int");
    reveal_strlit("bigint");
    reveal_strlit("(");
    reveal_strlit(")");
    reveal_strlit(") unsigned");
    let digits = decimal_text(m as nat);
    decimal_text_reads_back(m as nat);
    let rest: Seq<char> = if u {
        ") unsigned"@.skip(1)
    } else {
        Seq::empty()
    };
    assert forall|i: int| 0 <= i < digits.len() implies #[trigger] digits[i] != '\n' by {
        assert(digit_value(digits[i]) is Some);
    }
    split_of_parts(name, digits, rest);
    assert(integer_descriptor(name, m, u) =~= name + seq!['('] + digits + seq![')'] + rest);
    let d = split_descriptor(integer_descriptor(name, m, u))->0;
    assert(d.qualifier is Some <==> u);
    assert(parse_u8(digits) == Some(m));
    assert("int"@[0] != "bit"@[0]);
}

/// In MySQL, whatever follows the width of an integer type as a
/// qualifier makes the type unsigned: the qualifier is not read.
pub proof fn mysql_qualifier_means_unsigned(name: Seq<char>, m: u8, qualifier: Seq<char>)
    requires
        is_integer_name(name),
        qualifier.len() > 0,
        forall|i: int|
            0 <= i < qualifier.len() ==> #[trigger] qualifier[i] != ')' && qualifier[i] != '\n',
    ensures
        mysql_type(name + "("@ + decimal_text(m as nat) + ") "@ + qualifier) == Ok::<
            DatabaseTypeView,
            DecodeErrorKind,
        >(integer_type(name, Some(m), true)),
{
    reveal_strlit("bit");
    reveal_strlit("tinyint");
    reveal_strlit("smallint");
    reveal_strlit("mediumint");
    reveal_strlit("int");
    reveal_strlit("bigint");
    reveal_strlit("(");
    reveal_strlit(") ");
    let digits = decimal_text(m as nat);
    decimal_text_reads_back(m as nat);
    let rest = seq![' '] + qualifier;
    assert forall|i: int| 0 <= i < digits.len() implies #[trigger] digits[i] != '\n' by {
        assert(digit_value(digits[i]) is Some);
    }
    split_of_parts(name, digits, rest);
    let text = name + "("@ + digits + ") "@ + qualifier;
    assert(text =~= name + seq!['('] + digits + seq![')'] + rest);
    assert(split_descriptor(text)->0.qualifier is Some);
    assert(parse_u8(digits) == Some(m));
    assert("int"@[0] != "bit"@[0]);
}

/// In MySQL, an integer type without a width has none; it is signed where
/// its name stands alone, and unsigned where a qualifier follows the name.
pub proof fn mysql_integer_names(name: Seq<char>, qualifier: Option<Seq<char>>)
    requires
        is_integer_name(name),
        qualifier matches Some(q) ==> q.len() > 0 && forall|i: int|
            0 <= i < q.len() ==> #[trigger] q[i] != '\n',
    ensures
        mysql_type(
            match qualifier {
                Some(q) => name + " "@ + q,
                None => name,
            },
        ) == Ok::<DatabaseTypeView, DecodeErrorKind>(integer_type(name, None, qualifier is Some)),
{
    reveal_strlit("bit");
    reveal_strlit("tinyint");
    reveal_strlit("smallint");
    reveal_strlit("mediumint");
    reveal_strlit("int");
    reveal_strlit("bigint");
    reveal_strlit(" ");
    split_of_name(name, qualifier);
    if let Some(q) = qualifier {
        assert(name + " "@ + q =~= name + seq![' '] + q);
    }
    assert("int"@[0] != "bit"@[0]);
}

/// In MySQL, `varchar` with a length between parentheses decodes to a
/// `VarChar` of that length, and `varchar` alone is refused for want of
/// its length.
pub proof fn mysql_varchar_descriptors(m: u16)
    ensures
        mysql_type("varchar"@ + "("@ + decimal_text(m as nat) + ")"@) == Ok::<
            DatabaseTypeView,
            DecodeErrorKind,
        >(DatabaseTypeView::VarChar { m, n: None, c: None }),
        mysql_type("varchar"@) == Err::<DatabaseTypeView, DecodeErrorKind>(
            DecodeErrorKind::MissingArgument,
        ),
{
    reveal_strlit("bit");
    reveal_strlit("tinyint");
    reveal_strlit("smallint");
    reveal_strlit("mediumint");
    reveal_strlit("int");
    reveal_strlit("bigint");
    reveal_strlit("float");
    reveal_strlit("double");
    reveal_strlit("char");
    reveal_strlit("varchar");
    reveal_strlit("(");
    reveal_strlit(")");
    let name = "varchar"@;
    let digits = decimal_text(m as nat);
    decimal_text_reads_back(m as nat);
    assert forall|i: int| 0 <= i < digits.len() implies #[trigger] digits[i] != '\n' by {
        assert(digit_value(digits[i]) is Some);
    }
    split_of_parts(name, digits, Seq::empty());
    assert(name + "("@ + digits + ")"@ =~= name + seq!['('] + digits + seq![')'] + Seq::empty());
    split_of_name(name, None);
    assert(parse_u16(digits) == Some(m));
    assert(name[0] != "tinyint"@[0]);
}

/// In PostgreSQL, `array|` before a type name decodes to an array of what
/// the name decodes to, and fails as the name fails.
pub proof fn postgresql_arrays(inner: Seq<char>)
    ensures
        postgresql_type("array|"@ + inner) == match postgresql_type(inner) {
            Ok(t) => Ok::<DatabaseTypeView, DecodeErrorKind>(DatabaseTypeView::Array(Box::new(t))),
            Err(kind) => Err(kind),
        },
{
    reveal_strlit("array|");
    reveal_strlit("integer");
    reveal_strlit("int4");
    reveal_strlit("text");
    reveal_strlit("timestamp without time zone");
    reveal_strlit("timestamp");
    reveal_strlit("boolean");
    reveal_strlit("bool");
    reveal_strlit("bigint");
    reveal_strlit("int8");
    reveal_strlit("double precision");
    reveal_strlit("float8");
    reveal_strlit("real");
    reveal_strlit("float4");
    reveal_strlit("date");
    reveal_strlit("numeric");
    let text = "array|"@ + inner;
    assert(text[0] == 'a');
    assert(text.take(6) =~= "array|"@);
    assert(text.skip(6) =~= inner);
}

} // verus!
