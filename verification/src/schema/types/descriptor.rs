//! The grammar of a MySQL or SQLite column-type descriptor.
//!
//! A descriptor holds a name, and after it either a qualifier or an
//! argument list that a qualifier may follow:
//!
//! ```text
//! name
//! name qualifier
//! name(arguments)
//! name(arguments) qualifier
//! ```
//!
//! The name begins at the first character that is no space and no
//! parenthesis, and runs up to the next space or parenthesis. A qualifier
//! is a space and all that follows it on the line, and it is not looked
//! into: an argument list inside it is part of the qualifier. An argument
//! list runs from the parenthesis that ends the name to the last closing
//! parenthesis on the same line, and is not empty. What follows the
//! descriptor on further lines is ignored.
//!
//! Written as a pattern, of which the first match in the text counts:
//!
//! ```text
//! ([^ ()]+)( (.+))?(\((.+)\))?( (.+))?
//! ```

use vstd::prelude::*;

verus! {

/// A character that can stand in a name.
pub open spec fn is_name_char(c: char) -> bool {
    c != ' ' && c != '(' && c != ')'
}

/// The index of the first name character at or after `from`; the length
/// of `s` where there is none.
pub open spec fn name_start(s: Seq<char>, from: int) -> int
    decreases s.len() - from,
{
    if from >= s.len() {
        s.len() as int
    } else if is_name_char(s[from]) {
        from
    } else {
        name_start(s, from + 1)
    }
}

/// The index of the first character at or after `from` that cannot stand
/// in a name; the length of `s` where there is none.
pub open spec fn name_end(s: Seq<char>, from: int) -> int
    decreases s.len() - from,
{
    if from >= s.len() {
        s.len() as int
    } else if !is_name_char(s[from]) {
        from
    } else {
        name_end(s, from + 1)
    }
}

/// The index of the first `c` at or after `from`; the length of `s` where
/// there is none.
pub open spec fn find(s: Seq<char>, from: int, c: char) -> int
    decreases s.len() - from,
{
    if from >= s.len() {
        s.len() as int
    } else if s[from] == c {
        from
    } else {
        find(s, from + 1, c)
    }
}

/// The index at which the line that holds `from` ends.
pub open spec fn line_end(s: Seq<char>, from: int) -> int {
    find(s, from, '\n')
}

/// The index of the last closing parenthesis in `s[from..to]`.
pub open spec fn last_close(s: Seq<char>, from: int, to: int) -> Option<int>
    decreases to - from,
{
    if to <= from {
        None
    } else if s[to - 1] == ')' {
        Some(to - 1)
    } else {
        last_close(s, from, to - 1)
    }
}

/// A qualifier begins at `at`: a space, and after it at least one
/// character on the same line.
pub open spec fn qualifier_at(s: Seq<char>, at: int) -> bool {
    0 <= at && at + 1 < s.len() && s[at] == ' ' && s[at + 1] != '\n'
}

/// The qualifier that begins at `at`, if one does.
pub open spec fn qualifier_from(s: Seq<char>, at: int) -> Option<Seq<char>> {
    if qualifier_at(s, at) {
        Some(s.subrange(at + 1, line_end(s, at + 1)))
    } else {
        None
    }
}

/// The parts of a descriptor.
pub struct Descriptor {
    pub name: Seq<char>,
    pub qualifier: Option<Seq<char>>,
    pub arguments: Option<Seq<char>>,
}

/// The parts of the descriptor `s`; `None` where `s` holds no name.
pub open spec fn split_descriptor(s: Seq<char>) -> Option<Descriptor> {
    let start = name_start(s, 0);
    let end = name_end(s, start);
    let name = s.subrange(start, end);
    if start >= s.len() {
        None
    } else if qualifier_at(s, end) {
        Some(Descriptor { name, qualifier: qualifier_from(s, end), arguments: None })
    } else if end < s.len() && s[end] == '(' {
        match last_close(s, end + 2, line_end(s, end + 1)) {
            Some(close) => Some(
                Descriptor {
                    name,
                    qualifier: qualifier_from(s, close + 1),
                    arguments: Some(s.subrange(end + 1, close)),
                },
            ),
            None => Some(Descriptor { name, qualifier: None, arguments: None }),
        }
    } else {
        Some(Descriptor { name, qualifier: None, arguments: None })
    }
}

/// `find` gives an index between `from` and the length of `s`.
pub proof fn find_in_bounds(s: Seq<char>, from: int, c: char)
    requires
        from <= s.len(),
    ensures
        from <= find(s, from, c) <= s.len(),
    decreases s.len() - from,
{
    if from < s.len() && s[from] != c {
        find_in_bounds(s, from + 1, c);
    }
}

/// The pieces of `s` from `from` on that `sep` separates.
pub open spec fn split_from(s: Seq<char>, from: int, sep: char) -> Seq<Seq<char>>
    recommends
        0 <= from <= s.len(),
    decreases s.len() - from,
    via split_from_ends
{
    let next = find(s, from, sep);
    if next >= s.len() {
        seq![s.subrange(from, s.len() as int)]
    } else {
        seq![s.subrange(from, next)] + split_from(s, next + 1, sep)
    }
}

#[via_fn]
proof fn split_from_ends(s: Seq<char>, from: int, sep: char) {
    if from <= s.len() {
        find_in_bounds(s, from, sep);
    }
}

/// The pieces of `s` that `sep` separates: one more than `s` holds
/// separators, each possibly empty.
pub open spec fn split_on(s: Seq<char>, sep: char) -> Seq<Seq<char>> {
    split_from(s, 0, sep)
}

/// A text has at least one piece, whatever separates its pieces.
pub proof fn split_has_a_piece(s: Seq<char>, sep: char)
    ensures
        split_on(s, sep).len() > 0,
{
}

/// `name_start` is the one index before which no name character stands
/// and at which one does.
pub proof fn name_start_is(s: Seq<char>, from: int, at: int)
    requires
        0 <= from <= at <= s.len(),
        forall|j: int| from <= j < at ==> !is_name_char(#[trigger] s[j]),
        at < s.len() ==> is_name_char(s[at]),
    ensures
        name_start(s, from) == at,
    decreases at - from,
{
    if from < at {
        name_start_is(s, from + 1, at);
    }
}

/// `name_end` is the one index before which only name characters stand
/// and at which none does.
pub proof fn name_end_is(s: Seq<char>, from: int, at: int)
    requires
        0 <= from <= at <= s.len(),
        forall|j: int| from <= j < at ==> is_name_char(#[trigger] s[j]),
        at < s.len() ==> !is_name_char(s[at]),
    ensures
        name_end(s, from) == at,
    decreases at - from,
{
    if from < at {
        name_end_is(s, from + 1, at);
    }
}

/// `find` is the one index before which no `c` stands and at which one
/// does.
pub proof fn find_is(s: Seq<char>, from: int, at: int, c: char)
    requires
        0 <= from <= at <= s.len(),
        forall|j: int| from <= j < at ==> #[trigger] s[j] != c,
        at < s.len() ==> s[at] == c,
    ensures
        find(s, from, c) == at,
    decreases at - from,
{
    if from < at {
        find_is(s, from + 1, at, c);
    }
}

/// `last_close` is the one index in the range that holds a closing
/// parenthesis and has none after it.
pub proof fn last_close_is(s: Seq<char>, from: int, to: int, at: int)
    requires
        from <= at < to,
        s[at] == ')',
        forall|j: int| at < j < to ==> #[trigger] s[j] != ')',
    ensures
        last_close(s, from, to) == Some(at),
    decreases to - at,
{
    if at < to - 1 {
        last_close_is(s, from, to - 1, at);
    }
}

/// `last_close` finds nothing where the range holds no closing
/// parenthesis.
pub proof fn last_close_none(s: Seq<char>, from: int, to: int)
    requires
        forall|j: int| from <= j < to ==> #[trigger] s[j] != ')',
    ensures
        last_close(s, from, to) is None,
    decreases to - from,
{
    if from < to {
        last_close_none(s, from, to - 1);
    }
}

/// A name, an argument list between parentheses and what follows it on
/// the line are the parts of the text that they make up together. What
/// follows is a qualifier where it is a space and at least one character
/// more.
pub proof fn split_of_parts(name: Seq<char>, arguments: Seq<char>, rest: Seq<char>)
    requires
        name.len() > 0,
        forall|i: int| 0 <= i < name.len() ==> is_name_char(#[trigger] name[i]),
        arguments.len() > 0,
        forall|i: int| 0 <= i < arguments.len() ==> #[trigger] arguments[i] != '\n',
        forall|i: int| 0 <= i < rest.len() ==> #[trigger] rest[i] != ')' && rest[i] != '\n',
    ensures
        split_descriptor(name + seq!['('] + arguments + seq![')'] + rest) == Some(
            Descriptor {
                name,
                qualifier: if rest.len() >= 2 && rest[0] == ' ' {
                    Some(rest.skip(1))
                } else {
                    None
                },
                arguments: Some(arguments),
            },
        ),
{
    let s = name + seq!['('] + arguments + seq![')'] + rest;
    let end = name.len() as int;
    let close = end + 1 + arguments.len();
    assert(s.len() == close + 1 + rest.len());
    assert forall|j: int| 0 <= j < end implies is_name_char(#[trigger] s[j]) by {
        assert(s[j] == name[j]);
    }
    assert(s[end] == '(');
    name_start_is(s, 0, 0);
    name_end_is(s, 0, end);
    assert(s.subrange(0, end) =~= name);
    assert forall|j: int| end + 1 <= j < s.len() implies #[trigger] s[j] != '\n' by {
        if j < close {
            assert(s[j] == arguments[j - end - 1]);
        } else if j > close {
            assert(s[j] == rest[j - close - 1]);
        }
    }
    find_is(s, end + 1, s.len() as int, '\n');
    assert(s[close] == ')');
    assert forall|j: int| close < j < s.len() implies #[trigger] s[j] != ')' by {
        assert(s[j] == rest[j - close - 1]);
    }
    last_close_is(s, end + 2, s.len() as int, close);
    assert(s.subrange(end + 1, close) =~= arguments);
    if rest.len() >= 2 && rest[0] == ' ' {
        assert(s[close + 1] == rest[0]);
        assert(s[close + 2] == rest[1]);
        find_is(s, close + 2, s.len() as int, '\n');
        assert(s.subrange(close + 2, s.len() as int) =~= rest.skip(1));
    } else if rest.len() >= 1 {
        assert(s[close + 1] == rest[0]);
    }
}

/// A name alone is a descriptor with that name and nothing else; a name,
/// a space and a qualifier on one line is a descriptor with that name and
/// that qualifier.
pub proof fn split_of_name(name: Seq<char>, qualifier: Option<Seq<char>>)
    requires
        name.len() > 0,
        forall|i: int| 0 <= i < name.len() ==> is_name_char(#[trigger] name[i]),
        qualifier matches Some(q) ==> q.len() > 0 && forall|i: int|
            0 <= i < q.len() ==> #[trigger] q[i] != '\n',
    ensures
        split_descriptor(
            match qualifier {
                Some(q) => name + seq![' '] + q,
                None => name,
            },
        ) == Some(Descriptor { name, qualifier, arguments: None }),
{
    let end = name.len() as int;
    match qualifier {
        Some(q) => {
            let s = name + seq![' '] + q;
            assert forall|j: int| 0 <= j < end implies is_name_char(#[trigger] s[j]) by {
                assert(s[j] == name[j]);
            }
            assert(s[end] == ' ');
            name_start_is(s, 0, 0);
            name_end_is(s, 0, end);
            assert(s.subrange(0, end) =~= name);
            assert(s[end + 1] == q[0]);
            assert forall|j: int| end + 1 <= j < s.len() implies #[trigger] s[j] != '\n' by {
                assert(s[j] == q[j - end - 1]);
            }
            find_is(s, end + 1, s.len() as int, '\n');
            assert(s.subrange(end + 1, s.len() as int) =~= q);
        },
        None => {
            name_start_is(name, 0, 0);
            name_end_is(name, 0, end);
            assert(name.subrange(0, end) =~= name);
        },
    }
}

/// A range of indices into a text: `from` is the first, `to` the one
/// after the last.
#[derive(Clone, Copy, Debug, PartialEq, Eq, Structural)]
pub struct Span {
    pub from: usize,
    pub to: usize,
}

impl Span {
    /// The range lies inside `s`.
    pub open spec fn within(self, s: Seq<char>) -> bool {
        self.from <= self.to <= s.len()
    }

    /// The characters of `s` in the range.
    pub open spec fn of(self, s: Seq<char>) -> Seq<char> {
        s.subrange(self.from as int, self.to as int)
    }
}

/// The characters of `s` in an optional range.
pub open spec fn span_of(span: Option<Span>, s: Seq<char>) -> Option<Seq<char>> {
    match span {
        Some(span) => Some(span.of(s)),
        None => None,
    }
}

/// Where the parts of a descriptor stand in its text.
#[derive(Clone, Copy, Debug)]
pub struct Scanned {
    pub name: Span,
    pub qualifier: Option<Span>,
    pub arguments: Option<Span>,
}

impl Scanned {
    /// Every range lies inside `s`.
    pub open spec fn within(self, s: Seq<char>) -> bool {
        &&& self.name.within(s)
        &&& self.qualifier matches Some(q) ==> q.within(s)
        &&& self.arguments matches Some(a) ==> a.within(s)
    }

    /// The parts that the ranges cut out of `s`.
    pub open spec fn of(self, s: Seq<char>) -> Descriptor {
        Descriptor {
            name: self.name.of(s),
            qualifier: span_of(self.qualifier, s),
            arguments: span_of(self.arguments, s),
        }
    }
}

/// The index of the first `c` in `text[from..to]`, or `to`.
pub fn find_char(text: &Vec<char>, from: usize, to: usize, c: char) -> (at: usize)
    requires
        from <= to <= text.len(),
    ensures
        from <= at <= to,
        forall|j: int| from <= j < at ==> #[trigger] text@[j] != c,
        at < to ==> text@[at as int] == c,
{
    let mut at: usize = from;
    while at < to && text[at] != c
        invariant
            from <= at <= to <= text.len(),
            forall|j: int| from <= j < at ==> #[trigger] text@[j] != c,
        decreases to - at,
    {
        at += 1;
    }
    at
}

fn is_name(c: char) -> (yes: bool)
    ensures
        yes == is_name_char(c),
{
    c != ' ' && c != '(' && c != ')'
}

/// The qualifier that begins at `at`.
fn scan_qualifier(text: &Vec<char>, at: usize) -> (q: Option<Span>)
    requires
        at <= text.len(),
    ensures
        q matches Some(span) ==> span.within(text@),
        span_of(q, text@) == qualifier_from(text@, at as int),
{
    if at < text.len() && text.len() - at > 1 && text[at] == ' ' && text[at + 1] != '\n' {
        let to = find_char(text, at + 1, text.len(), '\n');
        proof {
            find_is(text@, at + 1, to as int, '\n');
        }
        Some(Span { from: at + 1, to })
    } else {
        None
    }
}

/// Finds the parts of the descriptor `text`.
pub fn scan(text: &Vec<char>) -> (parts: Option<Scanned>)
    ensures
        match parts {
            Some(parts) => parts.within(text@) && split_descriptor(text@) == Some(
                parts.of(text@),
            ),
            None => split_descriptor(text@) is None,
        },
{
    let len = text.len();
    let mut start: usize = 0;
    while start < len && !is_name(text[start])
        invariant
            start <= len == text.len(),
            forall|j: int| 0 <= j < start ==> !is_name_char(#[trigger] text@[j]),
        decreases len - start,
    {
        start += 1;
    }
    proof {
        name_start_is(text@, 0, start as int);
    }
    if start == len {
        return None;
    }
    let mut end: usize = start;
    while end < len && is_name(text[end])
        invariant
            start <= end <= len == text.len(),
            forall|j: int| start <= j < end ==> is_name_char(#[trigger] text@[j]),
        decreases len - end,
    {
        end += 1;
    }
    proof {
        name_end_is(text@, start as int, end as int);
    }
    let name = Span { from: start, to: end };
    let after_name = scan_qualifier(text, end);
    if after_name.is_some() {
        return Some(Scanned { name, qualifier: after_name, arguments: None });
    }
    if end == len || text[end] != '(' {
        return Some(Scanned { name, qualifier: None, arguments: None });
    }
    let line = find_char(text, end + 1, len, '\n');
    proof {
        find_is(text@, end + 1, line as int, '\n');
    }
    let mut close: usize = line;
    while close - end > 2 && text[close - 1] != ')'
        invariant
            end < end + 1 <= close <= line <= len == text.len(),
            forall|j: int| close <= j < line ==> #[trigger] text@[j] != ')',
        decreases close,
    {
        close -= 1;
    }
    if close - end > 2 {
        let at: usize = close - 1;
        proof {
            last_close_is(text@, end + 2, line as int, at as int);
        }
        let qualifier = scan_qualifier(text, close);
        Some(Scanned { name, qualifier, arguments: Some(Span { from: end + 1, to: at }) })
    } else {
        proof {
            assert forall|j: int| end + 2 <= j < line implies #[trigger] text@[j] != ')' by {}
            last_close_none(text@, end + 2, line as int);
        }
        Some(Scanned { name, qualifier: None, arguments: None })
    }
}

/// The ranges of the pieces of `text[from..to]` that `sep` separates.
pub fn split_spans(text: &Vec<char>, from: usize, to: usize, sep: char) -> (pieces: Vec<Span>)
    requires
        from <= to <= text.len(),
    ensures
        pieces.len() == split_on(text@.subrange(from as int, to as int), sep).len(),
        pieces.len() > 0,
        forall|i: int|
            0 <= i < pieces.len() ==> (#[trigger] pieces[i]).within(text@) && pieces[i].of(text@)
                == split_on(text@.subrange(from as int, to as int), sep)[i],
{
    let ghost s = text@.subrange(from as int, to as int);
    let mut pieces: Vec<Span> = Vec::new();
    let mut at: usize = from;
    loop
        invariant_except_break
            from <= at <= to <= text.len(),
            s == text@.subrange(from as int, to as int),
            split_on(s, sep) =~= Seq::new(pieces.len() as nat, |i: int| pieces[i].of(text@))
                + split_from(s, at - from, sep),
            forall|i: int| 0 <= i < pieces.len() ==> (#[trigger] pieces[i]).within(text@),
        ensures
            pieces.len() > 0,
            split_on(s, sep) =~= Seq::new(pieces.len() as nat, |i: int| pieces[i].of(text@)),
            forall|i: int| 0 <= i < pieces.len() ==> (#[trigger] pieces[i]).within(text@),
        decreases to - at,
    {
        let next = find_char(text, at, to, sep);
        let ghost before = Seq::new(pieces.len() as nat, |i: int| pieces[i].of(text@));
        proof {
            assert forall|j: int| at - from <= j < next - from implies #[trigger] s[j] != sep by {
                assert(s[j] == text@[j + from]);
            }
            find_is(s, at - from, next - from, sep);
            assert(s.subrange(at - from, next - from) =~= text@.subrange(at as int, next as int));
        }
        pieces.push(Span { from: at, to: next });
        let ghost after = Seq::new(pieces.len() as nat, |i: int| pieces[i].of(text@));
        assert(after =~= before.push(text@.subrange(at as int, next as int)));
        if next == to {
            break;
        }
        at = next + 1;
    }
    pieces
}

} // verus!
