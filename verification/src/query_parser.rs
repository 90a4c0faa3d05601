//! Reading SQL statements: the statement's kind and the tables it names.
//!
//! A statement is read as a sequence of tokens: maximal runs of ASCII
//! letters, digits and underscores; each double-quoted identifier, quotes
//! included, as one token; and each comma, dot and parenthesis as a token of
//! its own. Single-quoted literals, comments (`--` to the end of the line,
//! and `/* .. */`) and all other characters only separate tokens. Keywords
//! are compared without regard to ASCII case, and a quoted identifier is
//! never a keyword.
use vstd::prelude::*;

use crate::rcd_enum::{DatabaseType, DmlType};
use crate::text::chars_of;

verus! {

/// A character that belongs to a word.
pub open spec fn is_word_char(c: char) -> bool {
    ('a' <= c && c <= 'z') || ('A' <= c && c <= 'Z') || ('0' <= c && c <= '9') || c == '_'
}

/// A character that is a token by itself.
pub open spec fn is_punct_char(c: char) -> bool {
    c == ',' || c == '.' || c == '(' || c == ')'
}

/// The token collected so far, as a list of at most one token.
pub open spec fn flush(cur: Seq<char>) -> Seq<Seq<char>> {
    if cur.len() > 0 {
        seq![cur]
    } else {
        Seq::empty()
    }
}

/// The tokens of `s` from position `i` on, with `cur` the token being
/// collected. `mode` is 0 outside quotes and comments, 1 inside a
/// single-quoted literal, 2 inside a double-quoted identifier (whose token
/// `cur` is), 3 inside a line comment and 4 inside a block comment.
pub open spec fn words_from(s: Seq<char>, i: int, cur: Seq<char>, mode: int) -> Seq<Seq<char>>
    decreases s.len() - i,
{
    if i < 0 || i >= s.len() {
        flush(cur)
    } else if mode == 1 {
        words_from(s, i + 1, Seq::empty(), if s[i] == '\'' { 0 } else { 1 })
    } else if mode == 2 {
        if s[i] == '"' {
            seq![cur.push(s[i])] + words_from(s, i + 1, Seq::empty(), 0)
        } else {
            words_from(s, i + 1, cur.push(s[i]), 2)
        }
    } else if mode == 3 {
        words_from(s, i + 1, Seq::empty(), if s[i] == '\n' { 0 } else { 3 })
    } else if mode == 4 {
        if s[i] == '*' && i + 1 < s.len() && s[i + 1] == '/' {
            words_from(s, i + 2, Seq::empty(), 0)
        } else {
            words_from(s, i + 1, Seq::empty(), 4)
        }
    } else if s[i] == '-' && i + 1 < s.len() && s[i + 1] == '-' {
        flush(cur) + words_from(s, i + 2, Seq::empty(), 3)
    } else if s[i] == '/' && i + 1 < s.len() && s[i + 1] == '*' {
        flush(cur) + words_from(s, i + 2, Seq::empty(), 4)
    } else if s[i] == '\'' {
        flush(cur) + words_from(s, i + 1, Seq::empty(), 1)
    } else if s[i] == '"' {
        flush(cur) + words_from(s, i + 1, seq![s[i]], 2)
    } else if is_punct_char(s[i]) {
        flush(cur) + seq![seq![s[i]]] + words_from(s, i + 1, Seq::empty(), 0)
    } else if is_word_char(s[i]) {
        words_from(s, i + 1, cur.push(s[i]), 0)
    } else {
        flush(cur) + words_from(s, i + 1, Seq::empty(), 0)
    }
}

/// The tokens of a statement.
pub open spec fn words(s: Seq<char>) -> Seq<Seq<char>> {
    words_from(s, 0, Seq::empty(), 0)
}

/// The upper-case form of an ASCII letter; other characters are kept.
pub open spec fn ascii_upper(c: char) -> char {
    if 'a' <= c && c <= 'z' {
        (((c as u8) - 32) as u8) as char
    } else {
        c
    }
}

/// `w` is the upper-case keyword `kw`, read without regard to ASCII case.
pub open spec fn word_is_keyword(w: Seq<char>, kw: Seq<char>) -> bool {
    &&& w.len() == kw.len()
    &&& forall|j: int| 0 <= j < w.len() ==> ascii_upper(w[j]) == kw[j]
}

/// The statement kind that a token opens, or Unknown for any other token.
pub open spec fn dml_of_word(w: Seq<char>) -> DmlType {
    if word_is_keyword(w, "SELECT"@) {
        DmlType::Select
    } else if word_is_keyword(w, "INSERT"@) {
        DmlType::Insert
    } else if word_is_keyword(w, "UPDATE"@) {
        DmlType::Update
    } else if word_is_keyword(w, "DELETE"@) {
        DmlType::Delete
    } else {
        DmlType::Unknown
    }
}

/// The kind opened by the last of the tokens that opens one; Unknown when
/// none does.
pub open spec fn last_dml(ws: Seq<Seq<char>>) -> DmlType
    decreases ws.len(),
{
    if ws.len() == 0 {
        DmlType::Unknown
    } else if dml_of_word(ws.last()) != DmlType::Unknown {
        dml_of_word(ws.last())
    } else {
        last_dml(ws.drop_last())
    }
}

/// The kind of statement that a text holds: that of the last statement
/// keyword in it, so that a statement that ends in a query, such as
/// `INSERT .. SELECT` or a DELETE with a subquery, reads as a SELECT.
pub open spec fn dml_type_of(s: Seq<char>) -> DmlType {
    last_dml(words(s))
}

/// A token after which a table is named.
pub open spec fn is_table_keyword(w: Seq<char>) -> bool {
    word_is_keyword(w, "FROM"@) || word_is_keyword(w, "INTO"@) || word_is_keyword(w, "UPDATE"@)
        || word_is_keyword(w, "JOIN"@)
}

/// A token of one punctuation character.
pub open spec fn is_punct_word(w: Seq<char>) -> bool {
    w.len() == 1 && is_punct_char(w[0])
}

/// A token that can name a table or an alias: no punctuation and none of
/// the keywords that open or structure a statement.
pub open spec fn is_name_word(w: Seq<char>) -> bool {
    &&& w.len() > 0
    &&& !is_punct_word(w)
    &&& !is_table_keyword(w)
    &&& dml_of_word(w) == DmlType::Unknown
    &&& !word_is_keyword(w, "AS"@)
    &&& !word_is_keyword(w, "WHERE"@)
    &&& !word_is_keyword(w, "SET"@)
    &&& !word_is_keyword(w, "ON"@)
    &&& !word_is_keyword(w, "VALUES"@)
}

/// A table list is read with states: 0 outside one, 1 where a table name is
/// due (after FROM, INTO, UPDATE, JOIN, or a comma that follows a table),
/// 2 after a table name, 3 after AS, 4 after an alias.
pub open spec fn takes_name(w: Seq<char>, st: int) -> bool {
    st == 1 && is_name_word(w)
}

/// The state after token `w` read in state `st`.
pub open spec fn next_state(w: Seq<char>, st: int) -> int {
    if is_table_keyword(w) {
        1
    } else if st == 1 && is_name_word(w) {
        2
    } else if (st == 2 || st == 4) && w == seq![','] {
        1
    } else if st == 2 && word_is_keyword(w, "AS"@) {
        3
    } else if (st == 2 || st == 3) && is_name_word(w) {
        4
    } else {
        0
    }
}

/// The name that a token gives: a double-quoted identifier without its
/// quotes, any other token as it stands.
pub open spec fn unquoted(w: Seq<char>) -> Seq<char> {
    if w.len() >= 2 && w[0] == '"' && w[w.len() - 1] == '"' {
        w.subrange(1, w.len() - 1)
    } else {
        w
    }
}

/// The tokens start with a name qualified by its schema: a name, a dot and
/// a name.
pub open spec fn qualified_at(ws: Seq<Seq<char>>) -> bool {
    ws.len() >= 3 && ws[1] == seq!['.'] && is_name_word(ws[2])
}

/// The table names that the tokens give, read from state `st`. A name
/// qualified by its schema gives the table's name, after the dot.
pub open spec fn names_from(ws: Seq<Seq<char>>, st: int) -> Seq<Seq<char>>
    decreases ws.len(),
{
    if ws.len() == 0 {
        Seq::empty()
    } else if takes_name(ws[0], st) {
        if qualified_at(ws) {
            seq![unquoted(ws[2])] + names_from(ws.skip(3), 2)
        } else {
            seq![unquoted(ws[0])] + names_from(ws.drop_first(), next_state(ws[0], st))
        }
    } else {
        names_from(ws.drop_first(), next_state(ws[0], st))
    }
}

/// The position, from `m` on, of the first parenthesis token; the number of
/// tokens where there is none.
pub open spec fn first_paren(ws: Seq<Seq<char>>, m: int) -> int
    decreases ws.len() - m,
{
    if m < 0 || m >= ws.len() {
        ws.len() as int
    } else if ws[m] == seq!['('] || ws[m] == seq![')'] {
        m
    } else {
        first_paren(ws, m + 1)
    }
}

/// Position `i` of the tokens holds a name that a WITH clause defines: the
/// name is followed by AS and an opening parenthesis, or by a
/// parenthesised list of columns, AS and an opening parenthesis.
pub open spec fn cte_at(ws: Seq<Seq<char>>, i: int) -> bool {
    &&& 0 <= i < ws.len()
    &&& is_name_word(ws[i])
    &&& {
        ||| i + 2 < ws.len() && word_is_keyword(ws[i + 1], "AS"@) && ws[i + 2] == seq!['(']
        ||| {
            let j = first_paren(ws, i + 2);
            &&& i + 1 < ws.len()
            &&& ws[i + 1] == seq!['(']
            &&& j + 2 < ws.len()
            &&& ws[j] == seq![')']
            &&& word_is_keyword(ws[j + 1], "AS"@)
            &&& ws[j + 2] == seq!['(']
        }
    }
}

/// The names that a WITH clause defines among the first `n` tokens, in
/// order.
pub open spec fn cte_names_upto(ws: Seq<Seq<char>>, n: int) -> Seq<Seq<char>>
    decreases n,
{
    if n <= 0 {
        Seq::empty()
    } else {
        cte_names_upto(ws, n - 1) + if cte_at(ws, n - 1) {
            seq![unquoted(ws[n - 1])]
        } else {
            Seq::empty()
        }
    }
}

/// Two names that SQLite takes as the same: equal without regard to ASCII
/// case.
pub open spec fn same_table_name(a: Seq<char>, b: Seq<char>) -> bool {
    &&& a.len() == b.len()
    &&& forall|j: int| 0 <= j < a.len() ==> ascii_upper(a[j]) == ascii_upper(b[j])
}

/// `n` is one of the names `ctes`.
pub open spec fn is_cte_name(ctes: Seq<Seq<char>>, n: Seq<char>) -> bool {
    exists|k: int| 0 <= k < ctes.len() && same_table_name(#[trigger] ctes[k], n)
}

/// The names of `names` that are none of `ctes`, in order.
pub open spec fn without_ctes(names: Seq<Seq<char>>, ctes: Seq<Seq<char>>) -> Seq<Seq<char>>
    decreases names.len(),
{
    if names.len() == 0 {
        Seq::empty()
    } else {
        without_ctes(names.drop_last(), ctes) + if is_cte_name(ctes, names.last()) {
            Seq::empty()
        } else {
            seq![names.last()]
        }
    }
}

/// The tables that a statement names, in order: the names of its table
/// lists, less the names that a WITH clause of it defines.
pub open spec fn table_names_of(s: Seq<char>) -> Seq<Seq<char>> {
    let ws = words(s);
    without_ctes(names_from(ws, 0), cte_names_upto(ws, ws.len() as int))
}

/// The views of a list of strings.
pub open spec fn texts(v: Seq<String>) -> Seq<Seq<char>> {
    v.map_values(|w: String| w@)
}

fn is_word_character(c: char) -> (r: bool)
    ensures
        r == is_word_char(c),
{
    ('a' <= c && c <= 'z') || ('A' <= c && c <= 'Z') || ('0' <= c && c <= '9') || c == '_'
}

/// Appends the token `s[start..i]`, if it is not empty.
fn flush_token(out: &mut Vec<String>, s: &str, start: usize, i: usize)
    requires
        start <= i <= s@.len(),
    ensures
        texts(final(out)@) == texts(old(out)@) + flush(s@.subrange(start as int, i as int)),
{
    let ghost before = texts(out@);
    if start < i {
        let w = s.substring_char(start, i);
        out.push(String::from_str(w));
        assert(texts(out@) =~= before + seq![s@.subrange(start as int, i as int)]);
    } else {
        assert(texts(out@) =~= before + flush(s@.subrange(start as int, i as int)));
    }
}

/// The tokens of a statement (see `words`).
pub fn split_words(s: &str) -> (r: Vec<String>)
    ensures
        texts(r@) == words(s@),
{
    let sv = chars_of(s);
    let n = sv.len();
    let mut out: Vec<String> = Vec::new();
    let mut start: usize = 0;
    let mut i: usize = 0;
    let mut mode: u8 = 0;
    assert(s@.subrange(0, 0) =~= Seq::<char>::empty());
    assert(texts(out@) =~= Seq::<Seq<char>>::empty());
    while i < n
        invariant
            sv@ == s@,
            n == s@.len(),
            start <= i <= n,
            mode <= 4,
            mode == 1 || mode == 3 || mode == 4 ==> start == i,
            texts(out@) + words_from(s@, i as int, s@.subrange(start as int, i as int), mode as int)
                == words(s@),
        decreases n - i,
    {
        let c = sv[i];
        let ghost cur = s@.subrange(start as int, i as int);
        let ghost before = texts(out@);
        assert(c == s@[i as int]);
        if mode == 1 {
            if c == '\'' {
                mode = 0;
            }
            i = i + 1;
            start = i;
            assert(s@.subrange(start as int, i as int) =~= Seq::<char>::empty());
        } else if mode == 2 {
            if c == '"' {
                let w = s.substring_char(start, i + 1);
                out.push(String::from_str(w));
                assert(s@.subrange(start as int, i + 1) =~= cur.push(c));
                assert(texts(out@) =~= before + seq![cur.push(c)]);
                mode = 0;
                i = i + 1;
                start = i;
                assert(s@.subrange(start as int, i as int) =~= Seq::<char>::empty());
            } else {
                assert(s@.subrange(start as int, i + 1) =~= cur.push(c));
                i = i + 1;
            }
        } else if mode == 3 {
            if c == '\n' {
                mode = 0;
            }
            i = i + 1;
            start = i;
            assert(s@.subrange(start as int, i as int) =~= Seq::<char>::empty());
        } else if mode == 4 {
            if c == '*' && i + 1 < n && sv[i + 1] == '/' {
                mode = 0;
                i = i + 2;
            } else {
                i = i + 1;
            }
            start = i;
            assert(s@.subrange(start as int, i as int) =~= Seq::<char>::empty());
        } else if (c == '-' || c == '/') && i + 1 < n && sv[i + 1] == (if c == '-' {
            '-'
        } else {
            '*'
        }) {
            flush_token(&mut out, s, start, i);
            mode = if c == '-' {
                3
            } else {
                4
            };
            i = i + 2;
            start = i;
            assert(s@.subrange(start as int, i as int) =~= Seq::<char>::empty());
        } else if c == '\'' {
            flush_token(&mut out, s, start, i);
            mode = 1;
            i = i + 1;
            start = i;
            assert(s@.subrange(start as int, i as int) =~= Seq::<char>::empty());
        } else if c == '"' {
            flush_token(&mut out, s, start, i);
            mode = 2;
            start = i;
            i = i + 1;
            assert(s@.subrange(start as int, i as int) =~= seq![c]);
        } else if c == ',' || c == '.' || c == '(' || c == ')' {
            flush_token(&mut out, s, start, i);
            let ghost mid = texts(out@);
            let p = s.substring_char(i, i + 1);
            out.push(String::from_str(p));
            assert(p@ =~= seq![c]);
            assert(texts(out@) =~= mid + seq![seq![c]]);
            i = i + 1;
            start = i;
            assert(s@.subrange(start as int, i as int) =~= Seq::<char>::empty());
        } else if is_word_character(c) {
            assert(s@.subrange(start as int, i + 1) =~= cur.push(c));
            i = i + 1;
        } else {
            flush_token(&mut out, s, start, i);
            i = i + 1;
            start = i;
            assert(s@.subrange(start as int, i as int) =~= Seq::<char>::empty());
        }
    }
    flush_token(&mut out, s, start, i);
    out
}

fn upper_char(c: char) -> (r: char)
    ensures
        r == ascii_upper(c),
{
    if 'a' <= c && c <= 'z' {
        let b = c as u8;
        assert(b >= 97);
        ((b - 32) as u8) as char
    } else {
        c
    }
}

/// Whether the word `w` is the upper-case keyword `kw`, read without regard
/// to ASCII case.
pub fn word_is(w: &str, kw: &str) -> (r: bool)
    ensures
        r == word_is_keyword(w@, kw@),
{
    let wv = chars_of(w);
    let kv = chars_of(kw);
    if wv.len() != kv.len() {
        return false;
    }
    let mut j: usize = 0;
    while j < wv.len()
        invariant
            wv@ == w@,
            kv@ == kw@,
            wv.len() == kv.len(),
            forall|k: int| 0 <= k < j ==> ascii_upper(w@[k]) == kw@[k],
        decreases wv.len() - j,
    {
        if upper_char(wv[j]) != kv[j] {
            return false;
        }
        j = j + 1;
    }
    true
}

/// The statement kind that a token opens.
fn dml_of_token(w: &str) -> (r: DmlType)
    ensures
        r == dml_of_word(w@),
{
    if word_is(w, "SELECT") {
        DmlType::Select
    } else if word_is(w, "INSERT") {
        DmlType::Insert
    } else if word_is(w, "UPDATE") {
        DmlType::Update
    } else if word_is(w, "DELETE") {
        DmlType::Delete
    } else {
        DmlType::Unknown
    }
}

/// Determines the kind of a SQL statement: SELECT, INSERT, UPDATE or
/// DELETE, read without regard to case, by the last of these keywords in
/// the text (see `dml_type_of`); a text with none of them is Unknown.
pub fn determine_statement_type(sql_text: String) -> (r: DmlType)
    ensures
        r == dml_type_of(sql_text@),
{
    let ws = split_words(sql_text.as_str());
    let ghost wsv = texts(ws@);
    let mut kind = DmlType::Unknown;
    let mut k: usize = 0;
    assert(wsv.take(0) =~= Seq::<Seq<char>>::empty());
    while k < ws.len()
        invariant
            wsv == texts(ws@),
            wsv == words(sql_text@),
            k <= ws.len(),
            kind == last_dml(wsv.take(k as int)),
        decreases ws.len() - k,
    {
        let d = dml_of_token(ws[k].as_str());
        assert(wsv.take(k + 1).drop_last() =~= wsv.take(k as int));
        assert(wsv.take(k + 1).last() == ws@[k as int]@);
        if d != DmlType::Unknown {
            kind = d;
        }
        k = k + 1;
    }
    assert(wsv.take(k as int) =~= wsv);
    kind
}

/// Whether the token names a table after it.
fn is_table_keyword_word(w: &str) -> (r: bool)
    ensures
        r == is_table_keyword(w@),
{
    word_is(w, "FROM") || word_is(w, "INTO") || word_is(w, "UPDATE") || word_is(w, "JOIN")
}

/// Whether the token is a single comma.
fn is_comma(w: &str) -> (r: bool)
    ensures
        r == (w@ == seq![',']),
{
    let v = chars_of(w);
    if v.len() == 1 && v[0] == ',' {
        assert(w@ =~= seq![',']);
        true
    } else {
        false
    }
}

/// Whether the token can name a table or an alias.
fn is_name_token(w: &str) -> (r: bool)
    ensures
        r == is_name_word(w@),
{
    let v = chars_of(w);
    if v.len() == 0 {
        return false;
    }
    if v.len() == 1 && (v[0] == ',' || v[0] == '.' || v[0] == '(' || v[0] == ')') {
        return false;
    }
    !is_table_keyword_word(w) && dml_of_token(w) == DmlType::Unknown && !word_is(w, "AS")
        && !word_is(w, "WHERE") && !word_is(w, "SET") && !word_is(w, "ON") && !word_is(
        w,
        "VALUES",
    )
}

/// The state after a token (see `next_state`).
fn step_state(w: &str, st: u8) -> (r: u8)
    requires
        st <= 4,
    ensures
        r as int == next_state(w@, st as int),
        r <= 4,
{
    if is_table_keyword_word(w) {
        1
    } else if st == 1 && is_name_token(w) {
        2
    } else if (st == 2 || st == 4) && is_comma(w) {
        1
    } else if st == 2 && word_is(w, "AS") {
        3
    } else if (st == 2 || st == 3) && is_name_token(w) {
        4
    } else {
        0
    }
}

/// The name that a token gives (see `unquoted`).
fn unquote(w: &str) -> (r: String)
    ensures
        r@ == unquoted(w@),
{
    let v = chars_of(w);
    let n = v.len();
    if n >= 2 && v[0] == '"' && v[n - 1] == '"' {
        String::from_str(w.substring_char(1, n - 1))
    } else {
        String::from_str(w)
    }
}

/// Whether the token is the single character `c`.
fn is_char_token(w: &str, c: char) -> (r: bool)
    ensures
        r == (w@ == seq![c]),
{
    let v = chars_of(w);
    if v.len() == 1 && v[0] == c {
        assert(w@ =~= seq![c]);
        true
    } else {
        false
    }
}

/// The table names of the table lists among the tokens (see `names_from`).
fn names_of_tokens(ws: &Vec<String>) -> (r: Vec<String>)
    ensures
        texts(r@) == names_from(texts(ws@), 0),
{
    let ghost wsv = texts(ws@);
    let mut out: Vec<String> = Vec::new();
    let mut k: usize = 0;
    let mut st: u8 = 0;
    assert(wsv.skip(0) =~= wsv);
    assert(texts(out@) =~= Seq::<Seq<char>>::empty());
    while k < ws.len()
        invariant
            wsv == texts(ws@),
            k <= ws.len(),
            st <= 4,
            texts(out@) + names_from(wsv.skip(k as int), st as int) == names_from(wsv, 0),
        decreases ws.len() - k,
    {
        let ghost rest = wsv.skip(k as int);
        let ghost before = texts(out@);
        let w = ws[k].as_str();
        assert(rest.drop_first() =~= wsv.skip(k + 1));
        assert(rest[0] == w@);
        if st == 1 && is_name_token(w) {
            if ws.len() - k > 2 && is_char_token(ws[k + 1].as_str(), '.') && is_name_token(ws[k + 2].as_str()) {
                assert(rest[1] == ws@[k + 1]@ && rest[2] == ws@[k + 2]@);
                assert(rest.skip(3) =~= wsv.skip(k + 3));
                out.push(unquote(ws[k + 2].as_str()));
                assert(texts(out@) =~= before + seq![unquoted(rest[2])]);
                st = 2;
                k = k + 3;
            } else {
                assert(!qualified_at(rest)) by {
                    if qualified_at(rest) {
                        assert(rest[1] == ws@[k + 1]@ && rest[2] == ws@[k + 2]@);
                    }
                }
                out.push(unquote(w));
                assert(texts(out@) =~= before + seq![unquoted(rest[0])]);
                st = step_state(w, st);
                k = k + 1;
            }
        } else {
            st = step_state(w, st);
            k = k + 1;
        }
    }
    assert(wsv.skip(k as int) =~= Seq::<Seq<char>>::empty());
    out
}

/// The position, from `m` on, of the first parenthesis token (see
/// `first_paren`).
fn first_paren_token(ws: &Vec<String>, m: usize) -> (r: usize)
    requires
        m <= ws@.len(),
    ensures
        r as int == first_paren(texts(ws@), m as int),
        r <= ws@.len(),
{
    let ghost wsv = texts(ws@);
    let mut j = m;
    while j < ws.len()
        invariant
            wsv == texts(ws@),
            m <= j <= ws@.len(),
            first_paren(wsv, m as int) == first_paren(wsv, j as int),
        decreases ws.len() - j,
    {
        assert(wsv[j as int] == ws@[j as int]@);
        if is_char_token(ws[j].as_str(), '(') || is_char_token(ws[j].as_str(), ')') {
            return j;
        }
        j = j + 1;
    }
    j
}

/// Whether position `i` holds a name that a WITH clause defines (see
/// `cte_at`).
fn is_cte_token(ws: &Vec<String>, i: usize) -> (r: bool)
    requires
        i < ws@.len(),
    ensures
        r == cte_at(texts(ws@), i as int),
{
    let ghost wsv = texts(ws@);
    assert(wsv[i as int] == ws@[i as int]@);
    if !is_name_token(ws[i].as_str()) {
        return false;
    }
    let n = ws.len();
    if n - i > 2 && word_is(ws[i + 1].as_str(), "AS") && is_char_token(ws[i + 2].as_str(), '(') {
        assert(wsv[i + 1] == ws@[i + 1]@ && wsv[i + 2] == ws@[i + 2]@);
        return true;
    }
    assert(i + 2 < n ==> wsv[i + 1] == ws@[i + 1]@ && wsv[i + 2] == ws@[i + 2]@);
    if n - i > 1 && is_char_token(ws[i + 1].as_str(), '(') {
        assert(wsv[i + 1] == ws@[i + 1]@);
        let j = first_paren_token(ws, i + 2);
        if n - j > 2 {
            assert(wsv[j as int] == ws@[j as int]@ && wsv[j + 1] == ws@[j + 1]@ && wsv[j + 2] == ws@[j + 2]@);
            return is_char_token(ws[j].as_str(), ')') && word_is(ws[j + 1].as_str(), "AS") && is_char_token(
                ws[j + 2].as_str(),
                '(',
            );
        }
        return false;
    }
    assert(i + 1 < n ==> wsv[i + 1] == ws@[i + 1]@);
    false
}

/// The names that a WITH clause defines among the tokens (see
/// `cte_names_upto`).
fn cte_names_of_tokens(ws: &Vec<String>) -> (r: Vec<String>)
    ensures
        texts(r@) == cte_names_upto(texts(ws@), ws@.len() as int),
{
    let ghost wsv = texts(ws@);
    let mut out: Vec<String> = Vec::new();
    let mut k: usize = 0;
    assert(texts(out@) =~= Seq::<Seq<char>>::empty());
    while k < ws.len()
        invariant
            wsv == texts(ws@),
            k <= ws@.len(),
            texts(out@) == cte_names_upto(wsv, k as int),
        decreases ws.len() - k,
    {
        let ghost before = texts(out@);
        if is_cte_token(ws, k) {
            out.push(unquote(ws[k].as_str()));
            assert(wsv[k as int] == ws@[k as int]@);
            assert(texts(out@) =~= before + seq![unquoted(wsv[k as int])]);
        } else {
            assert(texts(out@) =~= before + Seq::<Seq<char>>::empty());
        }
        k = k + 1;
    }
    out
}

/// Whether two names are the same without regard to ASCII case.
fn same_name_text(a: &str, b: &str) -> (r: bool)
    ensures
        r == same_table_name(a@, b@),
{
    let av = chars_of(a);
    let bv = chars_of(b);
    if av.len() != bv.len() {
        return false;
    }
    let mut j: usize = 0;
    while j < av.len()
        invariant
            av@ == a@,
            bv@ == b@,
            av.len() == bv.len(),
            forall|k: int| 0 <= k < j ==> ascii_upper(a@[k]) == ascii_upper(b@[k]),
        decreases av.len() - j,
    {
        if upper_char(av[j]) != upper_char(bv[j]) {
            return false;
        }
        j = j + 1;
    }
    true
}

/// Whether `n` is one of the names `ctes` (see `is_cte_name`).
fn is_cte_name_text(ctes: &Vec<String>, n: &str) -> (r: bool)
    ensures
        r == is_cte_name(texts(ctes@), n@),
{
    let ghost cv = texts(ctes@);
    let mut k: usize = 0;
    while k < ctes.len()
        invariant
            cv == texts(ctes@),
            k <= ctes@.len(),
            forall|m: int| 0 <= m < k ==> !same_table_name(#[trigger] cv[m], n@),
        decreases ctes.len() - k,
    {
        assert(cv[k as int] == ctes@[k as int]@);
        if same_name_text(ctes[k].as_str(), n) {
            return true;
        }
        k = k + 1;
    }
    false
}

/// Takes a SQL statement and returns the list of tables involved in it, in
/// order: the name after each FROM, INTO, UPDATE or JOIN and each further
/// name of a comma-separated table list (a name qualified by its schema
/// gives the table's own name), less the names that a WITH clause of the
/// statement defines. Only SQLite statements are read.
pub fn get_table_names(cmd: &str, db_type: DatabaseType) -> (r: Vec<String>)
    requires
        db_type == DatabaseType::Sqlite,
    ensures
        texts(r@) == table_names_of(cmd@),
{
    let ws = split_words(cmd);
    let names = names_of_tokens(&ws);
    let ctes = cte_names_of_tokens(&ws);
    let ghost nv = texts(names@);
    let ghost cv = texts(ctes@);
    let mut out: Vec<String> = Vec::new();
    let mut k: usize = 0;
    assert(nv.take(0) =~= Seq::<Seq<char>>::empty());
    assert(texts(out@) =~= Seq::<Seq<char>>::empty());
    while k < names.len()
        invariant
            nv == texts(names@),
            cv == texts(ctes@),
            k <= names@.len(),
            texts(out@) == without_ctes(nv.take(k as int), cv),
        decreases names.len() - k,
    {
        let ghost before = texts(out@);
        assert(nv.take(k + 1).drop_last() =~= nv.take(k as int));
        assert(nv.take(k + 1).last() == names@[k as int]@);
        if !is_cte_name_text(&ctes, names[k].as_str()) {
            out.push(String::from_str(names[k].as_str()));
            assert(texts(out@) =~= before + seq![names@[k as int]@]);
        } else {
            assert(texts(out@) =~= before + Seq::<Seq<char>>::empty());
        }
        k = k + 1;
    }
    assert(nv.take(k as int) =~= nv);
    out
}

/// The first table that a SQLite statement names, or the empty text when it
/// names none.
pub fn get_table_name(cmd: &str, db_type: DatabaseType) -> (r: String)
    requires
        db_type == DatabaseType::Sqlite,
    ensures
        table_names_of(cmd@).len() > 0 ==> r@ == table_names_of(cmd@)[0],
        table_names_of(cmd@).len() == 0 ==> r@ == Seq::<char>::empty(),
{
    let names = get_table_names(cmd, db_type);
    if names.len() > 0 {
        assert(texts(names@)[0] == names@[0]@);
        String::from_str(names[0].as_str())
    } else {
        String::new()
    }
}

/// Determines the kind of a statement; only SQLite statements are read.
pub fn determine_dml_type(cmd: &str, db_type: DatabaseType) -> (r: DmlType)
    requires
        db_type == DatabaseType::Sqlite,
    ensures
        r == dml_type_of(cmd@),
{
    determine_statement_type(String::from_str(cmd))
}

/// A character with an ASCII capital letter made small; any other
/// character as it is.
pub open spec fn lower_char(c: char) -> char {
    if 'A' <= c && c <= 'Z' {
        ((c as int) + 32) as char
    } else {
        c
    }
}

/// A text with its ASCII capital letters made small.
pub open spec fn lower_text(s: Seq<char>) -> Seq<char> {
    s.map_values(|c: char| lower_char(c))
}

/// Reading a text with its capitals made small gives the same tokens, each
/// with its capitals made small.
proof fn lemma_words_lower(s: Seq<char>, i: int, cur: Seq<char>, mode: int)
    ensures
        words_from(lower_text(s), i, lower_text(cur), mode) == words_from(s, i, cur, mode).map_values(
            |w: Seq<char>| lower_text(w),
        ),
    decreases s.len() - i,
{
    let ls = lower_text(s);
    let lc = lower_text(cur);
    let f = |w: Seq<char>| lower_text(w);
    let e = Seq::<char>::empty();
    assert(lower_text(e) =~= e);
    if i < 0 || i >= s.len() {
        assert(flush(lc) =~= flush(cur).map_values(f));
    } else {
        let c = s[i];
        assert(ls[i] == lower_char(c));
        assert(i + 1 < s.len() ==> ls[i + 1] == lower_char(s[i + 1]));
        if mode == 1 {
            lemma_words_lower(s, i + 1, e, if c == '\'' { 0 } else { 1 });
        } else if mode == 2 {
            assert(lower_text(cur.push(c)) =~= lc.push(ls[i]));
            if c == '"' {
                lemma_words_lower(s, i + 1, e, 0);
                let rest = words_from(s, i + 1, e, 0);
                assert((seq![cur.push(c)] + rest).map_values(f) =~= seq![lc.push(ls[i])] + rest.map_values(f));
            } else {
                lemma_words_lower(s, i + 1, cur.push(c), 2);
            }
        } else if mode == 3 {
            lemma_words_lower(s, i + 1, e, if c == '\n' { 0 } else { 3 });
        } else if mode == 4 {
            if c == '*' && i + 1 < s.len() && s[i + 1] == '/' {
                lemma_words_lower(s, i + 2, e, 0);
            } else {
                lemma_words_lower(s, i + 1, e, 4);
            }
        } else if c == '-' && i + 1 < s.len() && s[i + 1] == '-' {
            lemma_words_lower(s, i + 2, e, 3);
            let rest = words_from(s, i + 2, e, 3);
            assert((flush(cur) + rest).map_values(f) =~= flush(lc) + rest.map_values(f));
        } else if c == '/' && i + 1 < s.len() && s[i + 1] == '*' {
            lemma_words_lower(s, i + 2, e, 4);
            let rest = words_from(s, i + 2, e, 4);
            assert((flush(cur) + rest).map_values(f) =~= flush(lc) + rest.map_values(f));
        } else if c == '\'' {
            lemma_words_lower(s, i + 1, e, 1);
            let rest = words_from(s, i + 1, e, 1);
            assert((flush(cur) + rest).map_values(f) =~= flush(lc) + rest.map_values(f));
        } else if c == '"' {
            lemma_words_lower(s, i + 1, seq![c], 2);
            assert(lower_text(seq![c]) =~= seq![ls[i]]);
            let rest = words_from(s, i + 1, seq![c], 2);
            assert((flush(cur) + rest).map_values(f) =~= flush(lc) + rest.map_values(f));
        } else if is_punct_char(c) {
            lemma_words_lower(s, i + 1, e, 0);
            let rest = words_from(s, i + 1, e, 0);
            assert(lower_text(seq![c]) =~= seq![ls[i]]);
            assert((flush(cur) + seq![seq![c]] + rest).map_values(f) =~= flush(lc) + seq![seq![ls[i]]]
                + rest.map_values(f));
        } else if is_word_char(c) {
            assert(lower_text(cur.push(c)) =~= lc.push(ls[i]));
            lemma_words_lower(s, i + 1, cur.push(c), 0);
        } else {
            lemma_words_lower(s, i + 1, e, 0);
            let rest = words_from(s, i + 1, e, 0);
            assert((flush(cur) + rest).map_values(f) =~= flush(lc) + rest.map_values(f));
        }
    }
}

/// A token with its capitals made small opens the same kind of statement.
proof fn lemma_dml_of_lower(w: Seq<char>)
    ensures
        dml_of_word(lower_text(w)) == dml_of_word(w),
{
    assert forall|kw: Seq<char>| #[trigger] word_is_keyword(lower_text(w), kw) == word_is_keyword(w, kw) by {
        assert forall|j: int| 0 <= j < w.len() implies ascii_upper(#[trigger] lower_text(w)[j]) == ascii_upper(
            w[j],
        ) by {
            assert(lower_text(w)[j] == lower_char(w[j]));
        }
        if word_is_keyword(w, kw) {
            assert forall|j: int| 0 <= j < lower_text(w).len() implies ascii_upper(lower_text(w)[j]) == kw[j] by {
                assert(ascii_upper(lower_text(w)[j]) == ascii_upper(w[j]));
            }
        }
        if word_is_keyword(lower_text(w), kw) {
            assert forall|j: int| 0 <= j < w.len() implies ascii_upper(w[j]) == kw[j] by {
                assert(ascii_upper(lower_text(w)[j]) == ascii_upper(w[j]));
            }
        }
    }
}

proof fn lemma_last_dml_lower(ws: Seq<Seq<char>>)
    ensures
        last_dml(ws.map_values(|w: Seq<char>| lower_text(w))) == last_dml(ws),
    decreases ws.len(),
{
    let lw = ws.map_values(|w: Seq<char>| lower_text(w));
    if ws.len() > 0 {
        assert(lw.drop_last() =~= ws.drop_last().map_values(|w: Seq<char>| lower_text(w)));
        assert(lw.last() == lower_text(ws.last()));
        lemma_dml_of_lower(ws.last());
        lemma_last_dml_lower(ws.drop_last());
    }
}

/// Statement keywords are read in any letter case: making the ASCII
/// capitals of a statement small does not change its kind, so
/// `update t set a = 1` is an UPDATE as `UPDATE t SET a = 1` is.
pub proof fn law_statement_kind_ignores_case(s: Seq<char>)
    ensures
        dml_type_of(lower_text(s)) == dml_type_of(s),
{
    assert(lower_text(Seq::<char>::empty()) =~= Seq::<char>::empty());
    lemma_words_lower(s, 0, Seq::empty(), 0);
    lemma_last_dml_lower(words(s));
}

/// A character of an unquoted SQL identifier.
pub open spec fn is_identifier_char(c: char) -> bool {
    ('a' <= c && c <= 'z') || ('A' <= c && c <= 'Z') || ('0' <= c && c <= '9') || c == '_'
}

/// `w` spells the upper-case keyword `kw` in some mix of cases.
pub open spec fn spells_keyword(w: Seq<char>, kw: Seq<char>) -> bool {
    &&& w.len() == kw.len()
    &&& forall|j: int| 0 <= j < w.len() ==> w[j] == kw[j] || w[j] as int == kw[j] as int + 32
}

/// The keywords that open or structure a statement or a table list.
pub open spec fn is_sql_keyword(w: Seq<char>) -> bool {
    ||| spells_keyword(w, "SELECT"@)
    ||| spells_keyword(w, "INSERT"@)
    ||| spells_keyword(w, "UPDATE"@)
    ||| spells_keyword(w, "DELETE"@)
    ||| spells_keyword(w, "FROM"@)
    ||| spells_keyword(w, "INTO"@)
    ||| spells_keyword(w, "JOIN"@)
    ||| spells_keyword(w, "AS"@)
    ||| spells_keyword(w, "WHERE"@)
    ||| spells_keyword(w, "SET"@)
    ||| spells_keyword(w, "ON"@)
    ||| spells_keyword(w, "VALUES"@)
}

/// A token read as the keyword `kw` (upper-case letters) spells it.
proof fn lemma_keyword_spelled(w: Seq<char>, kw: Seq<char>)
    requires
        forall|j: int| 0 <= j < kw.len() ==> 'A' <= #[trigger] kw[j] && kw[j] <= 'Z',
        word_is_keyword(w, kw),
    ensures
        spells_keyword(w, kw),
{
    assert forall|j: int| 0 <= j < w.len() implies w[j] == kw[j] || w[j] as int == kw[j] as int + 32 by {
        assert(ascii_upper(w[j]) == kw[j]);
    }
}

/// A run of identifier characters up to the end of the text is one token.
proof fn lemma_identifier_run(s: Seq<char>, i: int, cur: Seq<char>)
    requires
        0 <= i <= s.len(),
        forall|j: int| i <= j < s.len() ==> is_identifier_char(#[trigger] s[j]),
    ensures
        words_from(s, i, cur, 0) == flush(cur + s.subrange(i, s.len() as int)),
    decreases s.len() - i,
{
    if i == s.len() {
        assert(cur + s.subrange(i, s.len() as int) =~= cur);
    } else {
        assert(is_identifier_char(s[i]));
        lemma_identifier_run(s, i + 1, cur.push(s[i]));
        assert(cur.push(s[i]) + s.subrange(i + 1, s.len() as int) =~= cur + s.subrange(i, s.len() as int));
    }
}

/// A table name of identifier characters after FROM is the table the
/// statement names, whole: `SELECT * FROM order_items` names
/// `order_items`.
pub proof fn law_table_after_from_is_named_whole(w: Seq<char>)
    requires
        w.len() > 0,
        forall|j: int| 0 <= j < w.len() ==> is_identifier_char(#[trigger] w[j]),
        !is_sql_keyword(w),
    ensures
        table_names_of("SELECT * FROM "@ + w) == seq![w],
{
    reveal_strlit("SELECT * FROM ");
    reveal_strlit("SELECT");
    reveal_strlit("INSERT");
    reveal_strlit("UPDATE");
    reveal_strlit("DELETE");
    reveal_strlit("FROM");
    reveal_strlit("INTO");
    reveal_strlit("JOIN");
    reveal_strlit("AS");
    reveal_strlit("WHERE");
    reveal_strlit("SET");
    reveal_strlit("ON");
    reveal_strlit("VALUES");
    let p = "SELECT * FROM "@;
    let s = p + w;
    let e = Seq::<char>::empty();
    assert(p.len() == 14);
    assert forall|j: int| 0 <= j < 14 implies s[j] == p[j] by {}
    assert forall|j: int| 14 <= j < s.len() implies is_identifier_char(#[trigger] s[j]) by {
        assert(s[j] == w[j - 14]);
    }
    let sel = seq!['S', 'E', 'L', 'E', 'C', 'T'];
    let frm = seq!['F', 'R', 'O', 'M'];
    lemma_identifier_run(s, 14, e);
    assert(s.subrange(14, s.len() as int) =~= w);
    assert(e + w =~= w);
    let tail = words_from(s, 14, e, 0);
    assert(tail == seq![w]);
    assert(words_from(s, 13, frm, 0) == seq![frm] + tail);
    assert(seq!['F', 'R', 'O'].push('M') =~= frm);
    assert(seq!['F', 'R'].push('O') =~= seq!['F', 'R', 'O']);
    assert(seq!['F'].push('R') =~= seq!['F', 'R']);
    assert(seq!['S', 'E', 'L', 'E', 'C'].push('T') =~= sel);
    assert(seq!['S', 'E', 'L', 'E'].push('C') =~= seq!['S', 'E', 'L', 'E', 'C']);
    assert(seq!['S', 'E', 'L'].push('E') =~= seq!['S', 'E', 'L', 'E']);
    assert(seq!['S', 'E'].push('L') =~= seq!['S', 'E', 'L']);
    assert(seq!['S'].push('E') =~= seq!['S', 'E']);
    assert(e.push('S') =~= seq!['S']);
    assert(words_from(s, 12, seq!['F', 'R', 'O'], 0) == words_from(s, 13, frm, 0));
    assert(words_from(s, 11, seq!['F', 'R'], 0) == words_from(s, 12, seq!['F', 'R', 'O'], 0));
    assert(words_from(s, 10, seq!['F'], 0) == words_from(s, 11, seq!['F', 'R'], 0));
    assert(e.push('F') =~= seq!['F']);
    assert(words_from(s, 9, e, 0) == words_from(s, 10, seq!['F'], 0));
    assert(words_from(s, 8, e, 0) == words_from(s, 9, e, 0));
    assert(words_from(s, 7, e, 0) == words_from(s, 8, e, 0));
    assert(words_from(s, 6, sel, 0) == seq![sel] + words_from(s, 7, e, 0));
    assert(words_from(s, 5, seq!['S', 'E', 'L', 'E', 'C'], 0) == words_from(s, 6, sel, 0));
    assert(words_from(s, 4, seq!['S', 'E', 'L', 'E'], 0) == words_from(s, 5, seq!['S', 'E', 'L', 'E', 'C'], 0));
    assert(words_from(s, 3, seq!['S', 'E', 'L'], 0) == words_from(s, 4, seq!['S', 'E', 'L', 'E'], 0));
    assert(words_from(s, 2, seq!['S', 'E'], 0) == words_from(s, 3, seq!['S', 'E', 'L'], 0));
    assert(words_from(s, 1, seq!['S'], 0) == words_from(s, 2, seq!['S', 'E'], 0));
    assert(words_from(s, 0, e, 0) == words_from(s, 1, seq!['S'], 0));
    let ws = seq![sel, frm, w];
    assert(words(s) =~= ws);
    assert(sel =~= "SELECT"@);
    assert(frm =~= "FROM"@);
    // the name is no keyword
    assert forall|kw: Seq<char>|
        (forall|j: int| 0 <= j < kw.len() ==> 'A' <= #[trigger] kw[j] && kw[j] <= 'Z') && word_is_keyword(
            w,
            kw,
        ) implies #[trigger] spells_keyword(w, kw) by {
        lemma_keyword_spelled(w, kw);
    }
    assert(!word_is_keyword(w, "SELECT"@) && !word_is_keyword(w, "INSERT"@) && !word_is_keyword(w, "UPDATE"@)
        && !word_is_keyword(w, "DELETE"@));
    assert(!word_is_keyword(w, "FROM"@) && !word_is_keyword(w, "INTO"@) && !word_is_keyword(w, "JOIN"@));
    assert(!word_is_keyword(w, "AS"@) && !word_is_keyword(w, "WHERE"@) && !word_is_keyword(w, "SET"@)
        && !word_is_keyword(w, "ON"@) && !word_is_keyword(w, "VALUES"@));
    assert(is_identifier_char(w[0]));
    assert(is_name_word(w));
    // SELECT is read, then FROM, then the name
    assert(word_is_keyword(sel, "SELECT"@));
    assert(!word_is_keyword(sel, "UPDATE"@)) by {
        assert(ascii_upper(sel[0]) != "UPDATE"@[0]);
    }
    assert(!is_table_keyword(sel));
    assert(!word_is_keyword(frm, "INTO"@)) by {
        assert(ascii_upper(frm[0]) != "INTO"@[0]);
    }
    assert(!word_is_keyword(frm, "JOIN"@)) by {
        assert(ascii_upper(frm[0]) != "JOIN"@[0]);
    }
    assert(next_state(sel, 0) == 0);
    assert(is_table_keyword(frm));
    assert(!takes_name(frm, 0));
    assert(next_state(frm, 0) == 1);
    assert(ws.drop_first() =~= seq![frm, w]);
    assert(seq![frm, w].drop_first() =~= seq![w]);
    assert(seq![w].drop_first() =~= Seq::<Seq<char>>::empty());
    assert(!qualified_at(seq![w]));
    assert(w[0] != '"');
    assert(unquoted(w) == w);
    assert(names_from(seq![w], 1) == seq![w] + names_from(Seq::<Seq<char>>::empty(), next_state(w, 1)));
    assert(takes_name(w, 1));
    assert(names_from(seq![frm, w], 0) == names_from(seq![w], 1));
    assert(names_from(ws, 0) == names_from(seq![frm, w], 0));
    assert(names_from(ws, 0) =~= seq![w]);
    // no WITH clause defines a name
    assert(!cte_at(ws, 0));
    assert(!cte_at(ws, 1));
    assert(!cte_at(ws, 2));
    assert(cte_names_upto(ws, 0) =~= Seq::<Seq<char>>::empty());
    assert(cte_names_upto(ws, 1) =~= Seq::<Seq<char>>::empty());
    assert(cte_names_upto(ws, 2) =~= Seq::<Seq<char>>::empty());
    assert(cte_names_upto(ws, 3) =~= Seq::<Seq<char>>::empty());
    let names = seq![w];
    assert(names.drop_last() =~= Seq::<Seq<char>>::empty());
    assert(!is_cte_name(Seq::<Seq<char>>::empty(), w));
    assert(names.last() == w);
    assert(without_ctes(names.drop_last(), Seq::<Seq<char>>::empty()) =~= Seq::<Seq<char>>::empty());
    assert(without_ctes(names, Seq::<Seq<char>>::empty()) =~= seq![w]);
}

/// A token of identifier characters that spells no keyword can name a
/// table.
proof fn lemma_identifier_is_name(w: Seq<char>)
    requires
        w.len() > 0,
        forall|j: int| 0 <= j < w.len() ==> is_identifier_char(#[trigger] w[j]),
        !is_sql_keyword(w),
    ensures
        is_name_word(w),
        unquoted(w) == w,
{
    reveal_strlit("SELECT");
    reveal_strlit("INSERT");
    reveal_strlit("UPDATE");
    reveal_strlit("DELETE");
    reveal_strlit("FROM");
    reveal_strlit("INTO");
    reveal_strlit("JOIN");
    reveal_strlit("AS");
    reveal_strlit("WHERE");
    reveal_strlit("SET");
    reveal_strlit("ON");
    reveal_strlit("VALUES");
    assert forall|kw: Seq<char>|
        (forall|j: int| 0 <= j < kw.len() ==> 'A' <= #[trigger] kw[j] && kw[j] <= 'Z') && word_is_keyword(
            w,
            kw,
        ) implies #[trigger] spells_keyword(w, kw) by {
        lemma_keyword_spelled(w, kw);
    }
    assert(!word_is_keyword(w, "SELECT"@) && !word_is_keyword(w, "INSERT"@) && !word_is_keyword(w, "UPDATE"@)
        && !word_is_keyword(w, "DELETE"@));
    assert(!word_is_keyword(w, "FROM"@) && !word_is_keyword(w, "INTO"@) && !word_is_keyword(w, "JOIN"@));
    assert(!word_is_keyword(w, "AS"@) && !word_is_keyword(w, "WHERE"@) && !word_is_keyword(w, "SET"@)
        && !word_is_keyword(w, "ON"@) && !word_is_keyword(w, "VALUES"@));
    assert(is_identifier_char(w[0]));
}

/// A token that spells FROM, INTO, UPDATE or JOIN in any case names a table
/// after it.
pub open spec fn spells_table_keyword(k: Seq<char>) -> bool {
    spells_keyword(k, "FROM"@) || spells_keyword(k, "INTO"@) || spells_keyword(k, "UPDATE"@)
        || spells_keyword(k, "JOIN"@)
}

proof fn lemma_spelled_table_keyword(k: Seq<char>)
    requires
        spells_table_keyword(k),
    ensures
        is_table_keyword(k),
{
    reveal_strlit("FROM");
    reveal_strlit("INTO");
    reveal_strlit("UPDATE");
    reveal_strlit("JOIN");
    assert forall|kw: Seq<char>|
        (forall|j: int| 0 <= j < kw.len() ==> 'A' <= #[trigger] kw[j] && kw[j] <= 'Z') && spells_keyword(k, kw)
            implies word_is_keyword(k, kw) by {
        assert forall|j: int| 0 <= j < k.len() implies ascii_upper(k[j]) == kw[j] by {
            assert('A' <= kw[j] && kw[j] <= 'Z');
        }
    }
}

/// The tables of a table list are the names in it, in order: after a
/// keyword that names a table (FROM, INTO, UPDATE or JOIN, in any case),
/// a name gives that table, and a comma and a second name a second table.
pub proof fn law_table_list_gives_its_names(k: Seq<char>, a: Seq<char>, b: Seq<char>)
    requires
        spells_table_keyword(k),
        a.len() > 0,
        b.len() > 0,
        forall|j: int| 0 <= j < a.len() ==> is_identifier_char(#[trigger] a[j]),
        forall|j: int| 0 <= j < b.len() ==> is_identifier_char(#[trigger] b[j]),
        !is_sql_keyword(a),
        !is_sql_keyword(b),
    ensures
        names_from(seq![k, a], 0) == seq![a],
        names_from(seq![k, a, seq![','], b], 0) == seq![a, b],
{
    reveal_strlit("FROM");
    reveal_strlit("INTO");
    reveal_strlit("UPDATE");
    reveal_strlit("JOIN");
    lemma_spelled_table_keyword(k);
    lemma_identifier_is_name(a);
    lemma_identifier_is_name(b);
    let c = seq![','];
    let e = Seq::<Seq<char>>::empty();
    assert(!takes_name(k, 0));
    assert(next_state(k, 0) == 1);
    assert(seq![k, a].drop_first() =~= seq![a]);
    assert(seq![a].drop_first() =~= e);
    assert(!qualified_at(seq![a]));
    assert(names_from(seq![a], 1) == seq![a] + names_from(e, next_state(a, 1)));
    assert(names_from(seq![k, a], 0) =~= seq![a]);
    let l = seq![k, a, c, b];
    assert(l.drop_first() =~= seq![a, c, b]);
    assert(seq![a, c, b].drop_first() =~= seq![c, b]);
    assert(seq![c, b].drop_first() =~= seq![b]);
    assert(seq![b].drop_first() =~= e);
    assert(seq![a, c, b][1][0] != '.');
    assert(!qualified_at(seq![a, c, b]));
    assert(next_state(a, 1) == 2);
    assert(!is_table_keyword(c)) by {
        assert(c.len() == 1);
    }
    assert(!takes_name(c, 2));
    assert(next_state(c, 2) == 1);
    assert(!qualified_at(seq![b]));
    assert(names_from(seq![b], 1) == seq![b] + names_from(e, next_state(b, 1)));
    assert(names_from(seq![c, b], 2) == names_from(seq![b], 1));
    assert(names_from(seq![a, c, b], 1) == seq![a] + names_from(seq![c, b], 2));
    assert(names_from(l, 0) == names_from(seq![a, c, b], 1));
    assert(names_from(l, 0) =~= seq![a, b]);
}

/// The kind of a statement is that of its last statement keyword: a token
/// that spells SELECT, INSERT, UPDATE or DELETE in any case sets the kind,
/// and any other token leaves it as it was.
pub proof fn law_statement_kind_is_its_last_keyword(ws: Seq<Seq<char>>, w: Seq<char>)
    ensures
        spells_keyword(w, "SELECT"@) ==> last_dml(ws.push(w)) == DmlType::Select,
        spells_keyword(w, "INSERT"@) ==> last_dml(ws.push(w)) == DmlType::Insert,
        spells_keyword(w, "UPDATE"@) ==> last_dml(ws.push(w)) == DmlType::Update,
        spells_keyword(w, "DELETE"@) ==> last_dml(ws.push(w)) == DmlType::Delete,
        !spells_keyword(w, "SELECT"@) && !spells_keyword(w, "INSERT"@) && !spells_keyword(w, "UPDATE"@)
            && !spells_keyword(w, "DELETE"@) ==> last_dml(ws.push(w)) == last_dml(ws),
{
    reveal_strlit("SELECT");
    reveal_strlit("INSERT");
    reveal_strlit("UPDATE");
    reveal_strlit("DELETE");
    assert(ws.push(w).last() == w);
    assert(ws.push(w).drop_last() =~= ws);
    assert forall|kw: Seq<char>|
        (forall|j: int| 0 <= j < kw.len() ==> 'A' <= #[trigger] kw[j] && kw[j] <= 'Z') implies (word_is_keyword(
            w,
            kw,
        ) <==> #[trigger] spells_keyword(w, kw)) by {
        if word_is_keyword(w, kw) {
            lemma_keyword_spelled(w, kw);
        }
        if spells_keyword(w, kw) {
            assert forall|j: int| 0 <= j < w.len() implies ascii_upper(w[j]) == kw[j] by {
                assert('A' <= kw[j] && kw[j] <= 'Z');
            }
        }
    }
    assert(word_is_keyword(w, "SELECT"@) == spells_keyword(w, "SELECT"@));
    assert(word_is_keyword(w, "INSERT"@) == spells_keyword(w, "INSERT"@));
    assert(word_is_keyword(w, "UPDATE"@) == spells_keyword(w, "UPDATE"@));
    assert(word_is_keyword(w, "DELETE"@) == spells_keyword(w, "DELETE"@));
    assert(spells_keyword(w, "SELECT"@) ==> !spells_keyword(w, "INSERT"@) && !spells_keyword(w, "UPDATE"@)
        && !spells_keyword(w, "DELETE"@)) by {
        if spells_keyword(w, "SELECT"@) {
            assert(w[0] == 'S' || w[0] == 's');
        }
    }
    assert(spells_keyword(w, "INSERT"@) ==> !spells_keyword(w, "UPDATE"@) && !spells_keyword(w, "DELETE"@)) by {
        if spells_keyword(w, "INSERT"@) {
            assert(w[0] == 'I' || w[0] == 'i');
        }
    }
    assert(spells_keyword(w, "UPDATE"@) ==> !spells_keyword(w, "DELETE"@)) by {
        if spells_keyword(w, "UPDATE"@) {
            assert(w[0] == 'U' || w[0] == 'u');
        }
    }
}

} // verus!

