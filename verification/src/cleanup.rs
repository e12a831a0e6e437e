//! Clean-up of MySQL-specific syntax that the SQL parser does not accept.

use vstd::prelude::*;

use crate::text::{chars_of, contains_seq, find, find_from, lemma_find_from, occurs_at, string_of};

verus! {

/// The marker `KEY ` that flags an index definition line.
pub open spec fn key_marker() -> Seq<char> {
    seq!['K', 'E', 'Y', ' ']
}

/// One step of removing nested parentheses: the output so far and the
/// current parenthesis depth, updated with character `c`.  Characters at
/// depth two or more are dropped, and so is the `)` that returns to depth one.
pub open spec fn strip_step(state: (Seq<char>, int), c: char) -> (Seq<char>, int) {
    let depth = if c == '(' {
        state.1 + 1
    } else if c == ')' {
        state.1 - 1
    } else {
        state.1
    };
    if c == ')' && depth == 1 {
        (state.0, depth)
    } else if depth >= 2 {
        (state.0, depth)
    } else {
        (state.0.push(c), depth)
    }
}

/// Output and depth after processing all of `s`.
pub open spec fn strip_state(s: Seq<char>) -> (Seq<char>, int)
    decreases s.len(),
{
    if s.len() == 0 {
        (seq![], 0)
    } else {
        strip_step(strip_state(s.drop_last()), s.last())
    }
}

/// `s` with every parenthesised group nested inside another one removed,
/// such as the prefix lengths `(144)` of an index's columns.
pub open spec fn strip_nested(s: Seq<char>) -> Seq<char> {
    strip_state(s).0
}

/// What `cleanup_key` gives for a line: nested groups are removed from
/// lines that hold `KEY `, other lines stay as they are.
pub open spec fn cleaned_key_line(s: Seq<char>) -> Seq<char> {
    if contains_seq(s, key_marker()) {
        strip_nested(s)
    } else {
        s
    }
}

fn key_marker_chars() -> (v: Vec<char>)
    ensures
        v@ == key_marker(),
{
    let v = vec!['K', 'E', 'Y', ' '];
    assert(v@ =~= key_marker());
    v
}

/// `cleaned_key_line` on a character sequence.
pub fn cleanup_key_chars(chars: &[char]) -> (out: Vec<char>)
    ensures
        out@ == cleaned_key_line(chars@),
{
    let marker = key_marker_chars();
    let found = find(chars, &marker, 0);
    proof {
        lemma_find_from(chars@, marker@, 0);
    }
    let mut out: Vec<char> = Vec::new();
    if found.is_none() {
        assert(!contains_seq(chars@, key_marker()));
        let mut k: usize = 0;
        while k < chars.len()
            invariant
                k <= chars.len(),
                out@ == chars@.take(k as int),
            decreases chars.len() - k,
        {
            out.push(chars[k]);
            k = k + 1;
        }
        assert(chars@.take(chars.len() as int) =~= chars@);
        return out;
    }
    assert(contains_seq(chars@, key_marker()));
    let mut depth: i128 = 0;
    let mut i: usize = 0;
    while i < chars.len()
        invariant
            i <= chars.len(),
            -(i as int) <= depth <= i,
            (out@, depth as int) == strip_state(chars@.take(i as int)),
        decreases chars.len() - i,
    {
        let c = chars[i];
        proof {
            assert(chars@.take(i + 1).drop_last() =~= chars@.take(i as int));
        }
        if c == '(' {
            depth = depth + 1;
        }
        if c == ')' {
            depth = depth - 1;
            if depth == 1 {
                i = i + 1;
                continue;
            }
        }
        if depth >= 2 {
            i = i + 1;
            continue;
        }
        out.push(c);
        i = i + 1;
    }
    assert(chars@.take(chars.len() as int) =~= chars@);
    out
}

/// Removes the prefix lengths of index columns from an index definition
/// line, e.g. ``KEY `k` (`a`(144),`b`)`` becomes ``KEY `k` (`a`,`b`)``; a
/// line without `KEY ` is returned unchanged.
pub fn cleanup_key(line: &str) -> (r: String)
    ensures
        r@ == cleaned_key_line(line@),
{
    let chars = chars_of(line);
    let out = cleanup_key_chars(&chars);
    string_of(&out)
}

proof fn lemma_strip_state_fixed(s: Seq<char>)
    ensures
        strip_state(strip_state(s).0) == (
            strip_state(s).0,
            if strip_state(s).1 >= 1 {
                1
            } else {
                strip_state(s).1
            },
        ),
    decreases s.len(),
{
    if s.len() > 0 {
        let p = s.drop_last();
        lemma_strip_state_fixed(p);
        let out = strip_state(p).0;
        let next = strip_state(s).0;
        if next != out {
            assert(next.drop_last() =~= out);
        }
    }
}

/// Cleaning an index definition line twice gives the same line as cleaning
/// it once.
pub proof fn cleanup_key_idempotent(s: Seq<char>)
    ensures
        cleaned_key_line(cleaned_key_line(s)) == cleaned_key_line(s),
{
    lemma_strip_state_fixed(s);
}

/// The parenthesis balance of `s`: how many `(` it holds more than `)`.
pub open spec fn paren_balance(s: Seq<char>) -> int
    decreases s.len(),
{
    if s.len() == 0 {
        0
    } else {
        paren_balance(s.drop_last()) + if s.last() == '(' {
            1int
        } else if s.last() == ')' {
            -1int
        } else {
            0int
        }
    }
}

/// Whether no prefix of `s` is more than one parenthesis deep.
pub open spec fn at_most_one_deep(s: Seq<char>) -> bool {
    forall|k: int| 0 <= k <= s.len() ==> paren_balance(#[trigger] s.take(k)) <= 1
}

proof fn lemma_strip_nesting(s: Seq<char>)
    ensures
        strip_state(s).1 == paren_balance(s),
        at_most_one_deep(strip_state(s).0),
        paren_balance(strip_state(s).0) == if paren_balance(s) >= 1 {
            1
        } else {
            paren_balance(s)
        },
    decreases s.len(),
{
    if s.len() > 0 {
        let p = s.drop_last();
        lemma_strip_nesting(p);
        let out = strip_state(p).0;
        let next = strip_state(s).0;
        if next != out {
            assert(next.drop_last() =~= out);
            assert forall|k: int| 0 <= k <= next.len() implies paren_balance(#[trigger] next.take(k))
                <= 1 by {
                if k < next.len() {
                    assert(next.take(k) =~= out.take(k));
                } else {
                    assert(next.take(k) =~= next);
                    assert(next.take(k).drop_last() =~= out);
                }
            }
        }
    }
}

proof fn lemma_shallow_unchanged(s: Seq<char>)
    requires
        at_most_one_deep(s),
    ensures
        strip_state(s).0 == s,
        strip_state(s).1 == paren_balance(s),
    decreases s.len(),
{
    if s.len() > 0 {
        let p = s.drop_last();
        assert forall|k: int| 0 <= k <= p.len() implies paren_balance(#[trigger] p.take(k)) <= 1 by {
            assert(p.take(k) =~= s.take(k));
        }
        lemma_shallow_unchanged(p);
        assert(s.take(s.len() as int) =~= s);
        assert(s.take(p.len() as int) =~= p);
        assert(p.push(s.last()) =~= s);
    }
}

/// Whether the character at index `k` of `s` survives cleaning: the
/// parentheses up to and including it leave it less than two deep, and it
/// is not the `)` that closes a group two deep.
pub open spec fn kept_at(s: Seq<char>, k: int) -> bool {
    let depth = paren_balance(s.take(k + 1));
    depth < 2 && !(s[k] == ')' && depth == 1)
}

/// The characters among the first `n` of `s` that survive cleaning, in
/// order.
pub open spec fn kept_prefix(s: Seq<char>, n: int) -> Seq<char>
    decreases n,
{
    if n <= 0 {
        seq![]
    } else if kept_at(s, n - 1) {
        kept_prefix(s, n - 1).push(s[n - 1])
    } else {
        kept_prefix(s, n - 1)
    }
}

proof fn lemma_strip_keeps(s: Seq<char>, n: int)
    requires
        0 <= n <= s.len(),
    ensures
        strip_state(s.take(n)).0 == kept_prefix(s, n),
    decreases n,
{
    if n > 0 {
        lemma_strip_keeps(s, n - 1);
        assert(s.take(n).drop_last() =~= s.take(n - 1));
        lemma_strip_nesting(s.take(n - 1));
        assert(s.take(n).last() == s[n - 1]);
    }
}

/// A line holding `KEY ` keeps exactly the characters that are less than
/// two parentheses deep, except the `)` that closes a group two deep, in
/// their order.
pub proof fn key_lines_keep_shallow_characters(s: Seq<char>)
    ensures
        contains_seq(s, seq!['K', 'E', 'Y', ' ']) ==> cleaned_key_line(s) == kept_prefix(
            s,
            s.len() as int,
        ),
{
    assert(key_marker() =~= seq!['K', 'E', 'Y', ' ']);
    lemma_strip_keeps(s, s.len() as int);
    assert(s.take(s.len() as int) =~= s);
}

/// Every line that holds `KEY ` anywhere (`KEY`, `UNIQUE KEY`, `PRIMARY
/// KEY`, `FOREIGN KEY`) has its nested groups removed: the cleaned line is
/// never more than one parenthesis deep, and a line that was never more
/// than one deep is kept whole.  A line without `KEY ` is kept whole.
pub proof fn key_lines_lose_nested_groups(s: Seq<char>)
    ensures
        contains_seq(s, seq!['K', 'E', 'Y', ' ']) ==> at_most_one_deep(cleaned_key_line(s)),
        contains_seq(s, seq!['K', 'E', 'Y', ' ']) ==> cleaned_key_line(s) == strip_nested(s),
        at_most_one_deep(s) ==> cleaned_key_line(s) == s,
        !contains_seq(s, seq!['K', 'E', 'Y', ' ']) ==> cleaned_key_line(s) == s,
{
    assert(key_marker() =~= seq!['K', 'E', 'Y', ' ']);
    lemma_strip_nesting(s);
    if at_most_one_deep(s) {
        lemma_shallow_unchanged(s);
    }
}

/// A statement without a ` ROW_FORMAT=` option is left unchanged.
pub proof fn statement_without_row_format_is_unchanged(s: Seq<char>)
    requires
        !contains_seq(s, row_format_marker()),
    ensures
        without_row_format(s) == s,
{
    lemma_find_from(s, row_format_marker(), 0);
    if let Some(k) = find_from(s, row_format_marker(), 0) {
        assert(occurs_at(s, row_format_marker(), k));
    }
}

/// The marker ` ROW_FORMAT=` that begins a MySQL row format table option.
pub open spec fn row_format_marker() -> Seq<char> {
    seq![' ', 'R', 'O', 'W', '_', 'F', 'O', 'R', 'M', 'A', 'T', '=']
}

/// The first index at or after `from` that holds a space or a `;`, or the
/// length of `s` where there is none.
pub open spec fn option_value_end(s: Seq<char>, from: int) -> int
    decreases s.len() - from,
{
    if from < 0 || from >= s.len() {
        s.len() as int
    } else if s[from] == ' ' || s[from] == ';' {
        from
    } else {
        option_value_end(s, from + 1)
    }
}

/// What `cleanup_create_table` gives: the first ` ROW_FORMAT=` option and
/// its value (up to the next space or `;`) removed.
pub open spec fn without_row_format(s: Seq<char>) -> Seq<char> {
    match find_from(s, row_format_marker(), 0) {
        None => s,
        Some(idx) => s.subrange(0, idx) + s.subrange(
            option_value_end(s, idx + row_format_marker().len()),
            s.len() as int,
        ),
    }
}

fn row_format_marker_chars() -> (v: Vec<char>)
    ensures
        v@ == row_format_marker(),
{
    let v = vec![' ', 'R', 'O', 'W', '_', 'F', 'O', 'R', 'M', 'A', 'T', '='];
    assert(v@ =~= row_format_marker());
    v
}

proof fn lemma_option_value_end(s: Seq<char>, from: int)
    requires
        0 <= from <= s.len(),
    ensures
        from <= option_value_end(s, from) <= s.len(),
        option_value_end(s, from) < s.len() ==> (s[option_value_end(s, from)] == ' '
            || s[option_value_end(s, from)] == ';'),
    decreases s.len() - from,
{
    if from < s.len() && s[from] != ' ' && s[from] != ';' {
        lemma_option_value_end(s, from + 1);
    }
}

proof fn lemma_option_value_end_scan(s: Seq<char>, from: int)
    requires
        0 <= from <= s.len(),
    ensures
        forall|k: int| from <= k < option_value_end(s, from) ==> s[k] != ' ' && s[k] != ';',
    decreases s.len() - from,
{
    if from < s.len() && s[from] != ' ' && s[from] != ';' {
        lemma_option_value_end_scan(s, from + 1);
    }
}

/// Whether `r` is `s` with the text from `idx` up to `end` cut out, where
/// `end` is the first space or `;` at or after `idx + 12`, or the end of `s`.
pub open spec fn cut_up_to_separator(s: Seq<char>, r: Seq<char>, idx: int, end: int) -> bool {
    &&& idx + 12 <= end <= s.len()
    &&& end < s.len() ==> s[end] == ' ' || s[end] == ';'
    &&& forall|k: int| idx + 12 <= k < end ==> s[k] != ' ' && s[k] != ';'
    &&& r == s.subrange(0, idx) + s.subrange(end, s.len() as int)
}

/// Cleaning a `CREATE TABLE` statement removes its first ` ROW_FORMAT=`
/// option together with the option's value: everything from the marker up
/// to (not including) the next space or `;` after it, or to the end.  The
/// text before and after is kept, and a statement without the marker is
/// kept whole.
pub proof fn row_format_option_cut_out(s: Seq<char>, idx: int)
    ensures
        !contains_seq(s, seq![' ', 'R', 'O', 'W', '_', 'F', 'O', 'R', 'M', 'A', 'T', '='])
            ==> without_row_format(s) == s,
        occurs_at(s, seq![' ', 'R', 'O', 'W', '_', 'F', 'O', 'R', 'M', 'A', 'T', '='], idx)
            && (forall|p: int|
            0 <= p < idx ==> !occurs_at(
                s,
                seq![' ', 'R', 'O', 'W', '_', 'F', 'O', 'R', 'M', 'A', 'T', '='],
                p,
            )) ==> exists|end: int| #[trigger]
                cut_up_to_separator(s, without_row_format(s), idx, end),
{
    let m = seq![' ', 'R', 'O', 'W', '_', 'F', 'O', 'R', 'M', 'A', 'T', '='];
    assert(row_format_marker() =~= m);
    lemma_find_from(s, m, 0);
    if !contains_seq(s, m) {
        statement_without_row_format_is_unchanged(s);
    }
    if occurs_at(s, m, idx) && (forall|p: int| 0 <= p < idx ==> !occurs_at(s, m, p)) {
        match find_from(s, m, 0) {
            None => {
                assert(!occurs_at(s, m, idx));
            },
            Some(k) => {
                if k < idx {
                    assert(!occurs_at(s, m, k));
                }
                if idx < k {
                    assert(!occurs_at(s, m, idx));
                }
                assert(k == idx);
            },
        }
        lemma_option_value_end(s, idx + 12);
        lemma_option_value_end_scan(s, idx + 12);
        let end = option_value_end(s, idx + 12);
        assert(m.len() == 12);
        assert(without_row_format(s) == s.subrange(0, idx) + s.subrange(end, s.len() as int));
        assert(cut_up_to_separator(s, without_row_format(s), idx, end));
    }
}

/// Whether ` ROW_FORMAT=` occurs at most once in `s`.
pub open spec fn row_format_at_most_once(s: Seq<char>) -> bool {
    forall|i: int, j: int|
        occurs_at(s, row_format_marker(), i) && occurs_at(s, row_format_marker(), j) ==> i == j
}

/// A statement with at most one ` ROW_FORMAT=` option has none left after
/// cleaning, so cleaning it again changes nothing, and cleaning never makes
/// it longer.
pub proof fn row_format_removed(s: Seq<char>)
    requires
        row_format_at_most_once(s),
    ensures
        !contains_seq(without_row_format(s), row_format_marker()),
        without_row_format(without_row_format(s)) == without_row_format(s),
        without_row_format(s).len() <= s.len(),
{
    let m = row_format_marker();
    lemma_find_from(s, m, 0);
    let r = without_row_format(s);
    match find_from(s, m, 0) {
        None => {},
        Some(idx) => {
            assert(occurs_at(s, m, idx));
            lemma_option_value_end(s, idx + 12);
            let end = option_value_end(s, idx + 12);
            assert(r == s.subrange(0, idx) + s.subrange(end, s.len() as int));
            assert forall|p: int| !occurs_at(r, m, p) by {
                if occurs_at(r, m, p) {
                    let w = r.subrange(p, p + 12);
                    if p + 12 <= idx {
                        assert(s.subrange(p, p + 12) =~= w);
                        assert(occurs_at(s, m, p));
                    } else if p >= idx {
                        let q = p - idx + end;
                        assert(s.subrange(q, q + 12) =~= w);
                        assert(occurs_at(s, m, q));
                    } else {
                        assert(r[idx] == s[end]);
                        assert(r[idx] == w[idx - p]);
                        assert(w[idx - p] == m[idx - p]);
                    }
                }
            }
        },
    }
    statement_without_row_format_is_unchanged(r);
}

/// `without_row_format` on a character sequence.
pub fn cleanup_create_table_chars(chars: &[char]) -> (out: Vec<char>)
    ensures
        out@ == without_row_format(chars@),
{
    let marker = row_format_marker_chars();
    let found = find(chars, &marker, 0);
    proof {
        lemma_find_from(chars@, marker@, 0);
    }
    let (idx, end) = match found {
        None => (chars.len(), chars.len()),
        Some(idx) => {
            assert(occurs_at(chars@, marker@, idx as int));
            assert(idx + marker.len() <= chars.len());
            let value_start = idx + marker.len();
            let mut end: usize = value_start;
            while end < chars.len() && chars[end] != ' ' && chars[end] != ';'
                invariant
                    value_start <= end <= chars.len(),
                    option_value_end(chars@, value_start as int) == option_value_end(
                        chars@,
                        end as int,
                    ),
                decreases chars.len() - end,
            {
                end = end + 1;
            }
            (idx, end)
        },
    };
    let mut out: Vec<char> = Vec::new();
    let mut i: usize = 0;
    while i < idx
        invariant
            idx <= chars.len(),
            i <= idx,
            out@ == chars@.subrange(0, i as int),
        decreases idx - i,
    {
        out.push(chars[i]);
        i = i + 1;
    }
    let mut j: usize = end;
    while j < chars.len()
        invariant
            idx <= end <= j <= chars.len(),
            out@ == chars@.subrange(0, idx as int) + chars@.subrange(end as int, j as int),
        decreases chars.len() - j,
    {
        out.push(chars[j]);
        j = j + 1;
    }
    if found.is_none() {
        assert(out@ =~= chars@);
    }
    out
}

/// Removes MySQL-specific syntax that the SQL parser does not support
/// from a `CREATE TABLE` statement: the first `ROW_FORMAT=...` table option.
pub fn cleanup_create_table(stmt: &str) -> (r: String)
    ensures
        r@ == without_row_format(stmt@),
{
    let chars = chars_of(stmt);
    let out = cleanup_create_table_chars(&chars);
    string_of(&out)
}

} // verus!
