//! The canonical, dialect-independent model of a column's type.

use vstd::prelude::*;
use crate::text::text_of;

pub mod decoder;
pub mod descriptor;
pub mod number;

verus! {

/// The choices of an enumerated column type, in their declared order.
#[derive(Debug, PartialEq, Eq, Hash)]
pub struct DbEnum {
    pub choices: Vec<String>,
}

/// A column type. No variant stores a dialect's spelling of it.
///
/// `m` is a display width, a length or a precision, `d` a scale, `u` the
/// unsigned flag, `n` a character set and `c` a collation.
#[derive(Debug, PartialEq, Eq, Hash)]
#[allow(inconsistent_fields)]
pub enum DatabaseType {
    Bit { m: Option<u8> },
    TinyInt { m: Option<u8>, u: bool },
    SmallInt { m: Option<u8>, u: bool },
    MediumInt { m: Option<u8>, u: bool },
    Int { m: Option<u8>, u: bool },
    BigInt { m: Option<u8>, u: bool },
    Float { m: Option<u8>, d: Option<u8> },
    Double { m: Option<u8>, d: Option<u8> },
    Real,
    Decimal { m: Option<u8>, d: Option<u8> },
    Char { m: Option<u8>, n: Option<String>, c: Option<String> },
    VarChar { m: u16, n: Option<String>, c: Option<String> },
    Text { m: Option<u8>, n: Option<String>, c: Option<String> },
    MediumText { n: Option<String>, c: Option<String> },
    LongText { n: Option<String>, c: Option<String> },
    Date,
    /// A date and time with the given fractional-second precision.
    DateTime(u8),
    /// A timestamp with precision `p`, with a time zone where `z` holds.
    Timestamp { p: u8, z: bool },
    Bool,
    Enum(DbEnum),
    /// An array of the inner type. The nesting depth is not limited.
    Array(Box<DatabaseType>),
}

/// What a `DatabaseType` is, with each string as its characters.
#[allow(inconsistent_fields)]
pub enum DatabaseTypeView {
    Bit { m: Option<u8> },
    TinyInt { m: Option<u8>, u: bool },
    SmallInt { m: Option<u8>, u: bool },
    MediumInt { m: Option<u8>, u: bool },
    Int { m: Option<u8>, u: bool },
    BigInt { m: Option<u8>, u: bool },
    Float { m: Option<u8>, d: Option<u8> },
    Double { m: Option<u8>, d: Option<u8> },
    Real,
    Decimal { m: Option<u8>, d: Option<u8> },
    Char { m: Option<u8>, n: Option<Seq<char>>, c: Option<Seq<char>> },
    VarChar { m: u16, n: Option<Seq<char>>, c: Option<Seq<char>> },
    Text { m: Option<u8>, n: Option<Seq<char>>, c: Option<Seq<char>> },
    MediumText { n: Option<Seq<char>>, c: Option<Seq<char>> },
    LongText { n: Option<Seq<char>>, c: Option<Seq<char>> },
    Date,
    DateTime(u8),
    Timestamp { p: u8, z: bool },
    Bool,
    Enum(Seq<Seq<char>>),
    Array(Box<DatabaseTypeView>),
}

impl View for DbEnum {
    type V = Seq<Seq<char>>;

    open spec fn view(&self) -> Seq<Seq<char>> {
        self.choices@.map_values(|s: String| s@)
    }
}

impl DatabaseType {
    /// The type with each string as its characters; `@` gives the same.
    pub open spec fn model(&self) -> DatabaseTypeView
        decreases self,
    {
        match self {
            DatabaseType::Bit { m } => DatabaseTypeView::Bit { m: *m },
            DatabaseType::TinyInt { m, u } => DatabaseTypeView::TinyInt { m: *m, u: *u },
            DatabaseType::SmallInt { m, u } => DatabaseTypeView::SmallInt { m: *m, u: *u },
            DatabaseType::MediumInt { m, u } => DatabaseTypeView::MediumInt { m: *m, u: *u },
            DatabaseType::Int { m, u } => DatabaseTypeView::Int { m: *m, u: *u },
            DatabaseType::BigInt { m, u } => DatabaseTypeView::BigInt { m: *m, u: *u },
            DatabaseType::Float { m, d } => DatabaseTypeView::Float { m: *m, d: *d },
            DatabaseType::Double { m, d } => DatabaseTypeView::Double { m: *m, d: *d },
            DatabaseType::Real => DatabaseTypeView::Real,
            DatabaseType::Decimal { m, d } => DatabaseTypeView::Decimal { m: *m, d: *d },
            DatabaseType::Char { m, n, c } => DatabaseTypeView::Char {
                m: *m,
                n: text_of(*n),
                c: text_of(*c),
            },
            DatabaseType::VarChar { m, n, c } => DatabaseTypeView::VarChar {
                m: *m,
                n: text_of(*n),
                c: text_of(*c),
            },
            DatabaseType::Text { m, n, c } => DatabaseTypeView::Text {
                m: *m,
                n: text_of(*n),
                c: text_of(*c),
            },
            DatabaseType::MediumText { n, c } => DatabaseTypeView::MediumText {
                n: text_of(*n),
                c: text_of(*c),
            },
            DatabaseType::LongText { n, c } => DatabaseTypeView::LongText {
                n: text_of(*n),
                c: text_of(*c),
            },
            DatabaseType::Date => DatabaseTypeView::Date,
            DatabaseType::DateTime(p) => DatabaseTypeView::DateTime(*p),
            DatabaseType::Timestamp { p, z } => DatabaseTypeView::Timestamp { p: *p, z: *z },
            DatabaseType::Bool => DatabaseTypeView::Bool,
            DatabaseType::Enum(e) => DatabaseTypeView::Enum(e@),
            DatabaseType::Array(inner) => DatabaseTypeView::Array(Box::new(inner.model())),
        }
    }
}

impl View for DatabaseType {
    type V = DatabaseTypeView;

    open spec fn view(&self) -> DatabaseTypeView {
        self.model()
    }
}

fn clone_text(s: &Option<String>) -> (copy: Option<String>)
    ensures
        text_of(copy) == text_of(*s),
{
    match s {
        Some(s) => Some(s.clone()),
        None => None,
    }
}

impl Clone for DbEnum {
    fn clone(&self) -> (copy: Self)
        ensures
            copy@ == self@,
    {
        let mut choices: Vec<String> = Vec::new();
        let mut i: usize = 0;
        while i < self.choices.len()
            invariant
                i <= self.choices.len(),
                choices.len() == i,
                forall|k: int| 0 <= k < i ==> (#[trigger] choices@[k])@ == self.choices@[k]@,
            decreases self.choices.len() - i,
        {
            choices.push(self.choices[i].clone());
            i += 1;
        }
        let copy = DbEnum { choices };
        assert(copy@ =~= self@);
        copy
    }
}

impl Clone for DatabaseType {
    fn clone(&self) -> (copy: Self)
        ensures
            copy@ == self@,
        decreases self,
    {
        match self {
            DatabaseType::Bit { m } => DatabaseType::Bit { m: *m },
            DatabaseType::TinyInt { m, u } => DatabaseType::TinyInt { m: *m, u: *u },
            DatabaseType::SmallInt { m, u } => DatabaseType::SmallInt { m: *m, u: *u },
            DatabaseType::MediumInt { m, u } => DatabaseType::MediumInt { m: *m, u: *u },
            DatabaseType::Int { m, u } => DatabaseType::Int { m: *m, u: *u },
            DatabaseType::BigInt { m, u } => DatabaseType::BigInt { m: *m, u: *u },
            DatabaseType::Float { m, d } => DatabaseType::Float { m: *m, d: *d },
            DatabaseType::Double { m, d } => DatabaseType::Double { m: *m, d: *d },
            DatabaseType::Real => DatabaseType::Real,
            DatabaseType::Decimal { m, d } => DatabaseType::Decimal { m: *m, d: *d },
            DatabaseType::Char { m, n, c } => DatabaseType::Char {
                m: *m,
                n: clone_text(n),
                c: clone_text(c),
            },
            DatabaseType::VarChar { m, n, c } => DatabaseType::VarChar {
                m: *m,
                n: clone_text(n),
                c: clone_text(c),
            },
            DatabaseType::Text { m, n, c } => DatabaseType::Text {
                m: *m,
                n: clone_text(n),
                c: clone_text(c),
            },
            DatabaseType::MediumText { n, c } => DatabaseType::MediumText {
                n: clone_text(n),
                c: clone_text(c),
            },
            DatabaseType::LongText { n, c } => DatabaseType::LongText {
                n: clone_text(n),
                c: clone_text(c),
            },
            DatabaseType::Date => DatabaseType::Date,
            DatabaseType::DateTime(p) => DatabaseType::DateTime(*p),
            DatabaseType::Timestamp { p, z } => DatabaseType::Timestamp { p: *p, z: *z },
            DatabaseType::Bool => DatabaseType::Bool,
            DatabaseType::Enum(e) => DatabaseType::Enum(e.clone()),
            DatabaseType::Array(inner) => DatabaseType::Array(Box::new((&**inner).clone())),
        }
    }
}

impl DatabaseTypeView {
    /// What holds of every type that is decoded: precision and scale come
    /// together or not at all, and an enumeration has at least one choice;
    /// an array is well formed where its inner type is. A width, a length
    /// or a precision is the number that the database reports, whatever it
    /// is.
    pub open spec fn well_formed(self) -> bool
        decreases self,
    {
        match self {
            DatabaseTypeView::Float { m, d } => m is Some <==> d is Some,
            DatabaseTypeView::Double { m, d } => m is Some <==> d is Some,
            DatabaseTypeView::Decimal { m, d } => m is Some <==> d is Some,
            DatabaseTypeView::Enum(choices) => choices.len() > 0,
            DatabaseTypeView::Array(inner) => inner.well_formed(),
            _ => true,
        }
    }
}

} // verus!
