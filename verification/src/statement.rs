//! Assembling SQL statements from the lines of a dump.
//!
//! A dump spreads a statement over several lines.  The assembler is fed one
//! line at a time; it drops comments and blank lines, joins the other lines,
//! and hands back each complete `CREATE TABLE` or `INSERT INTO` statement,
//! ready for the SQL parser.

use vstd::prelude::*;

use crate::cleanup::{
    cleaned_key_line, cleanup_create_table_chars, cleanup_key_chars, option_value_end,
    row_format_marker, without_row_format,
};
use crate::text::{
    chars_of, ends_with, find_from, has_prefix, has_suffix, is_white_space, lemma_find_from,
    occurs_at, starts_with, string_of, trim_bounds, trimmed,
};

verus! {

/// `--`, which begins a comment line.
pub open spec fn line_comment_marker() -> Seq<char> {
    seq!['-', '-']
}

/// `/*`, which begins a block comment.
pub open spec fn block_comment_start() -> Seq<char> {
    seq!['/', '*']
}

/// `*/;`, which ends a MySQL conditional comment statement.
pub open spec fn block_comment_end() -> Seq<char> {
    seq!['*', '/', ';']
}

/// `CREATE TABLE`
pub open spec fn create_table_keyword() -> Seq<char> {
    seq!['C', 'R', 'E', 'A', 'T', 'E', ' ', 'T', 'A', 'B', 'L', 'E']
}

/// `INSERT INTO`
pub open spec fn insert_into_keyword() -> Seq<char> {
    seq!['I', 'N', 'S', 'E', 'R', 'T', ' ', 'I', 'N', 'T', 'O']
}

/// `;`, which ends a statement.
pub open spec fn statement_end() -> Seq<char> {
    seq![';']
}

/// Whether a trimmed line carries no statement text: a `--` comment, a
/// `/* ... */;` comment, or an empty line.
pub open spec fn is_ignored_line(t: Seq<char>) -> bool {
    ||| has_prefix(t, line_comment_marker())
    ||| has_prefix(t, block_comment_start()) && has_suffix(t, block_comment_end())
    ||| t.len() == 0
}

/// The pending statement text after appending the trimmed line `t`:
/// inside a `CREATE TABLE` statement the line is cleaned by `cleanup_key`.
pub open spec fn appended(pending: Seq<char>, t: Seq<char>) -> Seq<char> {
    if has_prefix(pending, create_table_keyword()) {
        pending + cleaned_key_line(t)
    } else {
        pending + t
    }
}

/// What a complete statement is handed on as: a `CREATE TABLE` statement
/// trimmed and cleaned by `cleanup_create_table`, an `INSERT INTO`
/// statement trimmed, anything else dropped.
pub open spec fn completed(stmt: Seq<char>) -> Option<Seq<char>> {
    if has_prefix(stmt, create_table_keyword()) {
        Some(without_row_format(trimmed(stmt)))
    } else if has_prefix(stmt, insert_into_keyword()) {
        Some(trimmed(stmt))
    } else {
        None
    }
}

/// The pending text and the statement handed on (if any) after feeding
/// `line` to an assembler whose pending text is `pending`.
pub open spec fn feed(pending: Seq<char>, line: Seq<char>) -> (Seq<char>, Option<Seq<char>>) {
    let t = trimmed(line);
    if is_ignored_line(t) {
        (pending, None)
    } else {
        let next = appended(pending, t);
        if has_suffix(next, statement_end()) {
            (seq![], completed(next))
        } else {
            (next, None)
        }
    }
}

/// Joins dump lines into statements.
pub struct StatementAssembler {
    pending: Vec<char>,
}

impl View for StatementAssembler {
    type V = Seq<char>;

    /// The statement text gathered so far.
    closed spec fn view(&self) -> Seq<char> {
        self.pending@
    }
}

impl StatementAssembler {
    /// An assembler with no pending statement text.
    pub fn new() -> (r: Self)
        ensures
            r@ == Seq::<char>::empty(),
    {
        StatementAssembler { pending: Vec::new() }
    }

    /// Feeds one line of the dump.  Returns the statement that this line
    /// completes, if it completes a `CREATE TABLE` or `INSERT INTO` one.
    pub fn feed_line(&mut self, line: &str) -> (r: Option<String>)
        ensures
            final(self)@ == feed(old(self)@, line@).0,
            match r {
                Some(s) => feed(old(self)@, line@).1 == Some(s@),
                None => feed(old(self)@, line@).1 is None,
            },
    {
        let chars = chars_of(line);
        let (start, stop) = trim_bounds(&chars);
        let t = vstd::slice::slice_subrange(chars.as_slice(), start, stop);
        let dash = vec!['-', '-'];
        let open = vec!['/', '*'];
        let close = vec!['*', '/', ';'];
        assert(dash@ =~= line_comment_marker());
        assert(open@ =~= block_comment_start());
        assert(close@ =~= block_comment_end());
        if starts_with(t, &dash) || starts_with(t, &open) && ends_with(t, &close) || t.len() == 0 {
            return None;
        }
        let create = vec!['C', 'R', 'E', 'A', 'T', 'E', ' ', 'T', 'A', 'B', 'L', 'E'];
        let insert = vec!['I', 'N', 'S', 'E', 'R', 'T', ' ', 'I', 'N', 'T', 'O'];
        assert(create@ =~= create_table_keyword());
        assert(insert@ =~= insert_into_keyword());
        let mut extra = if starts_with(&self.pending, &create) {
            cleanup_key_chars(t)
        } else {
            slice_to_vec_chars(t)
        };
        self.pending.append(&mut extra);
        let semi = vec![';'];
        assert(semi@ =~= statement_end());
        if !ends_with(&self.pending, &semi) {
            return None;
        }
        let (s, e) = trim_bounds(&self.pending);
        let body = vstd::slice::slice_subrange(self.pending.as_slice(), s, e);
        let out = if starts_with(&self.pending, &create) {
            Some(string_of(&cleanup_create_table_chars(body)))
        } else if starts_with(&self.pending, &insert) {
            Some(string_of(body))
        } else {
            None
        };
        self.pending.clear();
        out
    }
}

proof fn lemma_trimmed_unchanged(s: Seq<char>)
    requires
        s.len() > 0,
        !is_white_space(s[0]),
        !is_white_space(s.last()),
    ensures
        trimmed(s) == s,
{
}

proof fn lemma_value_end_before_last(s: Seq<char>, from: int)
    requires
        0 <= from < s.len(),
        s.last() == ';',
    ensures
        from <= option_value_end(s, from) < s.len(),
    decreases s.len() - from,
{
    if s[from] != ' ' && s[from] != ';' {
        lemma_value_end_before_last(s, from + 1);
    }
}

proof fn lemma_cleaned_create_table_shape(s: Seq<char>)
    requires
        has_prefix(s, create_table_keyword()),
        has_suffix(s, statement_end()),
    ensures
        has_prefix(without_row_format(s), create_table_keyword()),
        has_suffix(without_row_format(s), statement_end()),
{
    let marker = row_format_marker();
    lemma_find_from(s, marker, 0);
    assert(s[0] == s.subrange(0, 12)[0]);
    assert(s.last() == s.subrange(s.len() - 1, s.len() as int)[0]);
    match find_from(s, marker, 0) {
        None => {},
        Some(idx) => {
            assert(occurs_at(s, marker, idx));
            if idx < 12 {
                assert(s[idx] == s.subrange(idx, idx + 12)[0]);
                assert(s[idx] == s.subrange(0, 12)[idx]);
                assert(s[idx + 1] == s.subrange(idx, idx + 12)[1]);
                if idx + 1 < 12 {
                    assert(s[idx + 1] == s.subrange(0, 12)[idx + 1]);
                }
                assert(false);
            }
            if idx + 12 == s.len() {
                assert(s[idx + 11] == s.subrange(idx, idx + 12)[11]);
                assert(false);
            }
            lemma_value_end_before_last(s, idx + 12);
            let end = option_value_end(s, idx + 12);
            let r = without_row_format(s);
            assert(r == s.subrange(0, idx) + s.subrange(end, s.len() as int));
            assert(r.subrange(0, 12) =~= s.subrange(0, 12));
            assert(r.subrange(r.len() - 1, r.len() as int) =~= s.subrange(
                s.len() - 1,
                s.len() as int,
            ));
        },
    }
}

/// Every statement that the assembler hands on begins with `CREATE TABLE`
/// or `INSERT INTO` and ends with `;`.
pub proof fn completed_statement_shape(pending: Seq<char>, line: Seq<char>)
    ensures
        feed(pending, line).1 matches Some(stmt) ==> (has_prefix(stmt, create_table_keyword())
            || has_prefix(stmt, insert_into_keyword())) && has_suffix(stmt, statement_end()),
{
    let t = trimmed(line);
    if !is_ignored_line(t) {
        let next = appended(pending, t);
        if has_suffix(next, statement_end()) && completed(next) is Some {
            assert(next.last() == next.subrange(next.len() - 1, next.len() as int)[0]);
            assert(next[0] == next.subrange(0, 11)[0]);
            lemma_trimmed_unchanged(next);
            if has_prefix(next, create_table_keyword()) {
                lemma_cleaned_create_table_shape(next);
            }
        }
    }
}

/// A comment or blank line changes nothing and completes no statement.
pub proof fn ignored_lines_change_nothing(pending: Seq<char>, line: Seq<char>)
    requires
        is_ignored_line(trimmed(line)),
    ensures
        feed(pending, line) == (pending, None::<Seq<char>>),
{
}

/// Every line whose trimmed text begins with `--` is a comment: it changes
/// no pending text and completes nothing.  So does a line that is blank
/// once trimmed, and one whose trimmed text begins with `/*` and ends with
/// `*/;`.
pub proof fn comment_lines_are_skipped(pending: Seq<char>, line: Seq<char>)
    requires
        has_prefix(trimmed(line), seq!['-', '-']) || trimmed(line).len() == 0 || (has_prefix(
            trimmed(line),
            seq!['/', '*'],
        ) && has_suffix(trimmed(line), seq!['*', '/', ';'])),
    ensures
        feed(pending, line) == (pending, None::<Seq<char>>),
{
    assert(line_comment_marker() =~= seq!['-', '-']);
    assert(block_comment_start() =~= seq!['/', '*']);
    assert(block_comment_end() =~= seq!['*', '/', ';']);
}

/// Whether a trimmed line is none of the kinds of comment or blank line
/// that the assembler skips.
pub open spec fn carries_text(t: Seq<char>) -> bool {
    &&& t.len() > 0
    &&& !has_prefix(t, seq!['-', '-'])
    &&& !(has_prefix(t, seq!['/', '*']) && has_suffix(t, seq!['*', '/', ';']))
}

/// The lines of a statement are joined, trimmed: a line that carries text
/// is appended to the pending text (inside a `CREATE TABLE` statement as
/// `cleanup_key` cleans it); where the joined text does not end with `;`
/// it stays pending and nothing is handed on.  Where it ends with `;`, an
/// `INSERT INTO` statement is handed on trimmed, a `CREATE TABLE` statement
/// trimmed and without its `ROW_FORMAT=` option, and the pending text is
/// cleared either way.
pub proof fn lines_are_joined(pending: Seq<char>, line: Seq<char>)
    requires
        carries_text(trimmed(line)),
    ensures
        ({
            let t = trimmed(line);
            let create = seq!['C', 'R', 'E', 'A', 'T', 'E', ' ', 'T', 'A', 'B', 'L', 'E'];
            let insert = seq!['I', 'N', 'S', 'E', 'R', 'T', ' ', 'I', 'N', 'T', 'O'];
            let next = if has_prefix(pending, create) {
                pending + cleaned_key_line(t)
            } else {
                pending + t
            };
            &&& !has_suffix(next, seq![';']) ==> feed(pending, line) == (next, None::<Seq<char>>)
            &&& has_suffix(next, seq![';']) ==> feed(pending, line).0 == Seq::<char>::empty()
            &&& has_suffix(next, seq![';']) && has_prefix(next, insert) ==> feed(pending, line).1
                == Some(trimmed(next))
            &&& has_suffix(next, seq![';']) && has_prefix(next, create) ==> feed(pending, line).1
                == Some(without_row_format(trimmed(next)))
        }),
{
    assert(line_comment_marker() =~= seq!['-', '-']);
    assert(block_comment_start() =~= seq!['/', '*']);
    assert(block_comment_end() =~= seq!['*', '/', ';']);
    assert(create_table_keyword() =~= seq!['C', 'R', 'E', 'A', 'T', 'E', ' ', 'T', 'A', 'B', 'L', 'E']);
    assert(insert_into_keyword() =~= seq!['I', 'N', 'S', 'E', 'R', 'T', ' ', 'I', 'N', 'T', 'O']);
    assert(statement_end() =~= seq![';']);
    let next = appended(pending, trimmed(line));
    if has_prefix(next, insert_into_keyword()) {
        assert(next[0] == next.subrange(0, 11)[0]);
        assert(next[0] == 'I');
        if has_prefix(next, create_table_keyword()) {
            assert(next[0] == next.subrange(0, 12)[0]);
        }
    }
}

/// A statement written on one line is handed on at once: an `INSERT INTO`
/// statement trimmed, a `CREATE TABLE` statement trimmed and without its
/// `ROW_FORMAT=` option.
pub proof fn one_line_statements(line: Seq<char>)
    ensures
        ({
            let t = trimmed(line);
            &&& has_prefix(t, seq!['I', 'N', 'S', 'E', 'R', 'T', ' ', 'I', 'N', 'T', 'O'])
                && has_suffix(t, seq![';']) ==> feed(Seq::<char>::empty(), line) == (
                Seq::<char>::empty(),
                Some(t),
            )
            &&& has_prefix(t, seq!['C', 'R', 'E', 'A', 'T', 'E', ' ', 'T', 'A', 'B', 'L', 'E'])
                && has_suffix(t, seq![';']) ==> feed(Seq::<char>::empty(), line) == (
                Seq::<char>::empty(),
                Some(without_row_format(t)),
            )
        }),
{
    let t = trimmed(line);
    let e = Seq::<char>::empty();
    assert(create_table_keyword() =~= seq!['C', 'R', 'E', 'A', 'T', 'E', ' ', 'T', 'A', 'B', 'L', 'E']);
    assert(insert_into_keyword() =~= seq!['I', 'N', 'S', 'E', 'R', 'T', ' ', 'I', 'N', 'T', 'O']);
    assert(statement_end() =~= seq![';']);
    assert(e + t =~= t);
    if has_suffix(t, seq![';']) && (has_prefix(t, insert_into_keyword()) || has_prefix(
        t,
        create_table_keyword(),
    )) {
        assert(t[0] == t.subrange(0, 11)[0]);
        assert(t.last() == t.subrange(t.len() - 1, t.len() as int)[0]);
        lemma_trimmed_unchanged(t);
        assert(!has_prefix(t, line_comment_marker()));
        assert(!has_prefix(t, block_comment_start()));
        if has_prefix(t, insert_into_keyword()) {
            assert(!has_prefix(t, create_table_keyword())) by {
                if has_prefix(t, create_table_keyword()) {
                    assert(t[0] == t.subrange(0, 12)[0]);
                }
            }
        }
    }
}

/// The pending text never ends with `;`: a complete statement is handed on
/// (or dropped) by the same call that completes it.
pub proof fn pending_is_never_complete(pending: Seq<char>, line: Seq<char>)
    requires
        !has_suffix(pending, statement_end()),
    ensures
        !has_suffix(feed(pending, line).0, statement_end()),
{
}

fn slice_to_vec_chars(s: &[char]) -> (v: Vec<char>)
    ensures
        v@ == s@,
{
    let mut v: Vec<char> = Vec::new();
    let mut i: usize = 0;
    while i < s.len()
        invariant
            i <= s.len(),
            v@ == s@.take(i as int),
        decreases s.len() - i,
    {
        v.push(s[i]);
        i = i + 1;
    }
    assert(s@.take(s.len() as int) =~= s@);
    v
}

} // verus!
