//! A small parser for the Lua tables that addons save their variables in:
//! global assignments `name = value`, where a value is a string, a number or
//! a table of `["key"] = value` entries.

use vstd::prelude::*;

use crate::text::{chars_of, char_is_ascii_alphanumeric, char_is_ascii_digit, char_is_whitespace, is_ascii_alphanumeric, is_ascii_digit, is_whitespace, string_from_chars};

verus! {

/// A Lua value. A number is held as the numeral it was written as, which
/// `str::parse::<f64>` accepts.
#[derive(Debug)]
pub enum LuaValue {
    Nil,
    Boolean(bool),
    Number(String),
    String(String),
    Table(Vec<LuaEntry>),
}

/// One `key = value` entry of a Lua table.
#[derive(Debug)]
pub struct LuaEntry {
    /// The entry's key.
    pub key: String,
    /// The entry's value.
    pub value: LuaValue,
}

/// A Lua value as plain values; a table is its entries, keys all distinct,
/// in the order in which each key was first given.
pub enum LuaModel {
    Nil,
    Boolean(bool),
    Number(Seq<char>),
    Str(Seq<char>),
    Table(Seq<(Seq<char>, LuaModel)>),
}

impl LuaValue {
    /// Returns the value as a string slice, if it is a string.
    pub fn as_string(&self) -> (r: Option<&str>)
        ensures
            match self {
                LuaValue::String(s) => r matches Some(t) && t@ == s@,
                _ => r is None,
            },
    {
        match self {
            LuaValue::String(s) => Some(s.as_str()),
            _ => None,
        }
    }

    /// Returns the value as a table, if it is a table.
    pub fn as_table(&self) -> (r: Option<&Vec<LuaEntry>>)
        ensures
            match self {
                LuaValue::Table(t) => r == Some(t),
                _ => r is None,
            },
    {
        match self {
            LuaValue::Table(t) => Some(t),
            _ => None,
        }
    }
}

/// The plain form of a Lua value.
pub open spec fn lua_model(v: LuaValue) -> LuaModel
    decreases v,
{
    match v {
        LuaValue::Nil => LuaModel::Nil,
        LuaValue::Boolean(b) => LuaModel::Boolean(b),
        LuaValue::Number(n) => LuaModel::Number(n@),
        LuaValue::String(s) => LuaModel::Str(s@),
        LuaValue::Table(es) => LuaModel::Table(entries_model(es@)),
    }
}

/// The plain form of the entries of a Lua table.
pub open spec fn entries_model(es: Seq<LuaEntry>) -> Seq<(Seq<char>, LuaModel)>
    decreases es,
{
    if es.len() == 0 {
        Seq::<(Seq<char>, LuaModel)>::empty()
    } else {
        entries_model(es.drop_last()).push((es.last().key@, lua_model(es.last().value)))
    }
}

/// The position of the first character at or after `p` that is not white space.
pub open spec fn skip_ws(s: Seq<char>, p: int) -> int
    decreases s.len() - p,
{
    if 0 <= p < s.len() && is_whitespace(s[p]) {
        skip_ws(s, p + 1)
    } else {
        p
    }
}

/// Skipping white space never moves back nor past the end.
pub proof fn lemma_skip_ws(s: Seq<char>, p: int)
    requires
        0 <= p <= s.len(),
    ensures
        p <= skip_ws(s, p) <= s.len(),
        skip_ws(s, p) < s.len() ==> !is_whitespace(s[skip_ws(s, p)]),
    decreases s.len() - p,
{
    if p < s.len() && is_whitespace(s[p]) {
        lemma_skip_ws(s, p + 1);
    }
}

/// Expecting the character `c` after white space: whether it is there, and
/// the position after it (or at it, when it is not there).
pub open spec fn expect_at(s: Seq<char>, p: int, c: char) -> (bool, int) {
    let q = skip_ws(s, p);
    if 0 <= q < s.len() && s[q] == c {
        (true, q + 1)
    } else {
        (false, q)
    }
}

/// Whether `c` may appear in an identifier.
pub open spec fn is_ident_char(c: char) -> bool {
    is_ascii_alphanumeric(c) || c == '_'
}

/// The end of the run of identifier characters that starts at `p`.
pub open spec fn ident_end(s: Seq<char>, p: int) -> int
    decreases s.len() - p,
{
    if 0 <= p < s.len() && is_ident_char(s[p]) {
        ident_end(s, p + 1)
    } else {
        p
    }
}

/// An identifier after white space, and the position after it.
pub open spec fn parse_identifier_at(s: Seq<char>, p: int) -> Option<(Seq<char>, int)> {
    let q = skip_ws(s, p);
    let e = ident_end(s, q);
    if e == q {
        None
    } else {
        Some((s.subrange(q, e), e))
    }
}

/// The position of the first `"` at or after `p`, or the end of the text.
pub open spec fn quote_at_or_end(s: Seq<char>, p: int) -> int
    decreases s.len() - p,
{
    if 0 <= p < s.len() && s[p] != '"' {
        quote_at_or_end(s, p + 1)
    } else {
        p
    }
}

/// A string in double quotes after white space (no escapes), and the
/// position after its closing quote.
pub open spec fn parse_string_at(s: Seq<char>, p: int) -> Option<(Seq<char>, int)> {
    let (open, q) = expect_at(s, p, '"');
    if !open {
        None
    } else {
        let e = quote_at_or_end(s, q);
        if e < s.len() {
            Some((s.subrange(q, e), e + 1))
        } else {
            None
        }
    }
}

/// Whether `c` is read as part of a number.
pub open spec fn is_number_char(c: char) -> bool {
    is_ascii_digit(c) || c == '.' || c == '-' || c == '+'
}

/// The end of the run of number characters that starts at `p`.
pub open spec fn number_end(s: Seq<char>, p: int) -> int
    decreases s.len() - p,
{
    if 0 <= p < s.len() && is_number_char(s[p]) {
        number_end(s, p + 1)
    } else {
        p
    }
}

/// The number of `.` in `t`.
pub open spec fn dot_count(t: Seq<char>) -> nat
    decreases t.len(),
{
    if t.len() == 0 {
        0
    } else {
        dot_count(t.drop_last()) + (if t.last() == '.' { 1nat } else { 0nat })
    }
}

/// Whether `str::parse::<f64>` accepts a run of number characters that
/// starts with a digit. Its documented grammar is an optional sign, then
/// digits with at most one `.`, then an optional exponent that starts with
/// `e`; starting with a digit and holding no `e`, the run is accepted
/// exactly when it has no sign and at most one `.`.
pub open spec fn is_float_numeral(t: Seq<char>) -> bool {
    !t.contains('+') && !t.contains('-') && dot_count(t) <= 1
}

/// A number after white space: the run of number characters, when
/// `str::parse::<f64>` accepts it, and the position after it.
pub open spec fn parse_number_at(s: Seq<char>, p: int) -> Option<(Seq<char>, int)> {
    let q = skip_ws(s, p);
    let e = number_end(s, q);
    let t = s.subrange(q, e);
    if 0 <= q < e && is_ascii_digit(s[q]) && is_float_numeral(t) {
        Some((t, e))
    } else {
        None
    }
}

/// A key of a table entry after white space: an optional `[`, a string, an
/// optional `]`; and the position after it.
pub open spec fn parse_key_at(s: Seq<char>, p: int) -> Option<(Seq<char>, int)> {
    let q = skip_ws(s, p);
    let q2 = expect_at(s, q, '[').1;
    match parse_string_at(s, q2) {
        None => None,
        Some((k, q3)) => Some((k, expect_at(s, q3, ']').1)),
    }
}

/// How many entries a table is read with at most.
pub const TABLE_ENTRY_LIMIT: usize = 10000;

/// A value after white space: a string, a table or a number; and the
/// position after it.
pub open spec fn parse_value_at(s: Seq<char>, p: int) -> Option<(LuaModel, int)>
    decreases s.len() - p, 1int,
{
    if p < 0 || p > s.len() {
        None
    } else {
        let q = skip_ws(s, p);
        proof {
            lemma_skip_ws(s, p);
        }
        if q >= s.len() {
            None
        } else if s[q] == '"' {
            match parse_string_at(s, q) {
                Some((t, e)) => Some((LuaModel::Str(t), e)),
                None => None,
            }
        } else if s[q] == '{' {
            match parse_table_at(s, q) {
                Some((t, e)) => Some((LuaModel::Table(t), e)),
                None => None,
            }
        } else if is_ascii_digit(s[q]) {
            match parse_number_at(s, q) {
                Some((t, e)) => Some((LuaModel::Number(t), e)),
                None => None,
            }
        } else {
            None
        }
    }
}

/// A table after white space: `{`, entries `key = value` each optionally
/// followed by `,`, then `}`; and the position after it. Reading stops
/// after `TABLE_ENTRY_LIMIT` entries, before any `}`.
pub open spec fn parse_table_at(s: Seq<char>, p: int) -> Option<(Seq<(Seq<char>, LuaModel)>, int)>
    decreases s.len() - p, 0int,
{
    if p < 0 || p > s.len() {
        None
    } else {
        let q = expect_at(s, p, '{').1;
        proof {
            lemma_skip_ws(s, p);
        }
        if q <= p {
            None
        } else {
            table_entries_at(s, q, TABLE_ENTRY_LIMIT as nat, Seq::<(Seq<char>, LuaModel)>::empty())
        }
    }
}

/// The position after the white space and the optional `,` that follow an
/// entry ending at `p`.
pub open spec fn after_comma(s: Seq<char>, p: int) -> int {
    let q = skip_ws(s, p);
    if 0 <= q < s.len() && s[q] == ',' {
        q + 1
    } else {
        q
    }
}

/// One `key = value` entry of a table, the `=` being optional, followed by
/// an optional `,`; and the position after it.
pub open spec fn table_entry_at(s: Seq<char>, p: int) -> Option<(Seq<char>, LuaModel, int)>
    decreases s.len() - p, 0int,
{
    if p < 0 || p > s.len() {
        None
    } else {
        match parse_key_at(s, p) {
            None => None,
            Some((key, q1)) => {
                let q3 = expect_at(s, skip_ws(s, q1), '=').1;
                proof {
                    lemma_key_at(s, p);
                    lemma_skip_ws(s, q1);
                    lemma_expect_at(s, skip_ws(s, q1), '=');
                }
                match parse_value_at(s, q3) {
                    None => None,
                    Some((v, q4)) => Some((key, v, after_comma(s, q4))),
                }
            },
        }
    }
}

/// The entries of a table from `p` on, added to `acc`, with at most `fuel`
/// more entries read; and the position after the table.
pub open spec fn table_entries_at(
    s: Seq<char>,
    p: int,
    fuel: nat,
    acc: Seq<(Seq<char>, LuaModel)>,
) -> Option<(Seq<(Seq<char>, LuaModel)>, int)>
    decreases s.len() - p, 1int,
{
    if p < 0 || p > s.len() {
        None
    } else if fuel == 0 {
        Some((acc, p))
    } else {
        let q = skip_ws(s, p);
        proof {
            lemma_skip_ws(s, p);
        }
        if q < s.len() && s[q] == '}' {
            Some((acc, q + 1))
        } else {
            match table_entry_at(s, q) {
                None => None,
                Some((key, v, e)) => if e <= p || e > s.len() {
                    None
                } else {
                    table_entries_at(s, e, (fuel - 1) as nat, table_insert(acc, key, v))
                },
            }
        }
    }
}

/// `expect_at` never moves back nor past the end, and moves on when the
/// character is there.
pub proof fn lemma_expect_at(s: Seq<char>, p: int, c: char)
    requires
        0 <= p <= s.len(),
    ensures
        p <= expect_at(s, p, c).1 <= s.len(),
        expect_at(s, p, c).0 ==> p < expect_at(s, p, c).1,
{
    lemma_skip_ws(s, p);
}

/// The end of a run never comes before its start nor after the text.
pub proof fn lemma_quote_at_or_end(s: Seq<char>, p: int)
    requires
        0 <= p <= s.len(),
    ensures
        p <= quote_at_or_end(s, p) <= s.len(),
        quote_at_or_end(s, p) < s.len() ==> s[quote_at_or_end(s, p)] == '"',
        forall|i: int| p <= i < quote_at_or_end(s, p) ==> s[i] != '"',
    decreases s.len() - p,
{
    if p < s.len() && s[p] != '"' {
        lemma_quote_at_or_end(s, p + 1);
    }
}

/// A string ends after where it starts, inside the text.
pub proof fn lemma_string_at(s: Seq<char>, p: int)
    requires
        0 <= p <= s.len(),
    ensures
        parse_string_at(s, p) matches Some((t, e)) ==> p < e <= s.len(),
{
    lemma_expect_at(s, p, '"');
    let q = expect_at(s, p, '"').1;
    lemma_quote_at_or_end(s, q);
}

/// A key ends after where it starts, inside the text.
pub proof fn lemma_key_at(s: Seq<char>, p: int)
    requires
        0 <= p <= s.len(),
    ensures
        parse_key_at(s, p) matches Some((k, e)) ==> p < e <= s.len(),
{
    lemma_skip_ws(s, p);
    let q = skip_ws(s, p);
    lemma_expect_at(s, q, '[');
    let q2 = expect_at(s, q, '[').1;
    lemma_string_at(s, q2);
    if let Some((k, q3)) = parse_string_at(s, q2) {
        lemma_expect_at(s, q3, ']');
    }
}

/// A character of a Lua name: an ASCII letter or digit, or `_`.
pub open spec fn is_lua_name_char(c: char) -> bool {
    ('a' <= c && c <= 'z') || ('A' <= c && c <= 'Z') || ('0' <= c && c <= '9') || c == '_'
}

proof fn lemma_ident_end_over_name(w: Seq<char>, rest: Seq<char>, k: int)
    requires
        0 <= k <= w.len(),
        forall|i: int| 0 <= i < w.len() ==> is_lua_name_char(#[trigger] w[i]),
        rest.len() == 0 || !is_lua_name_char(rest[0]),
    ensures
        ident_end(w + rest, k) == w.len(),
    decreases w.len() - k,
{
    let s = w + rest;
    if k < w.len() {
        assert(s[k] == w[k]);
        assert(is_lua_name_char(w[k]));
        lemma_ident_end_over_name(w, rest, k + 1);
    } else if rest.len() > 0 {
        assert(s[k] == rest[0]);
    }
}

/// Law: a name made of ASCII letters, digits and `_`, followed by anything
/// that does not continue it, is read whole as an identifier, and a global
/// assignment read there is named by exactly that name.
pub proof fn law_identifier_read_whole(w: Seq<char>, rest: Seq<char>)
    requires
        w.len() > 0,
        forall|i: int| 0 <= i < w.len() ==> is_lua_name_char(#[trigger] w[i]),
        rest.len() == 0 || !is_lua_name_char(rest[0]),
    ensures
        parse_identifier_at(w + rest, 0) == Some((w, w.len() as int)),
        global_at(w + rest, 0) matches Some((name, _, _)) ==> name == w,
{
    let s = w + rest;
    assert(s[0] == w[0]);
    assert(is_lua_name_char(w[0]));
    assert(skip_ws(s, 0) == 0);
    lemma_ident_end_over_name(w, rest, 0);
    assert(s.subrange(0, w.len() as int) =~= w);
}

/// One global assignment `name = value` at `p`, the `=` being optional; and
/// the position after it and the white space that follows.
pub open spec fn global_at(s: Seq<char>, p: int) -> Option<(Seq<char>, LuaModel, int)> {
    match parse_identifier_at(s, p) {
        None => None,
        Some((name, q1)) => match parse_value_at(s, expect_at(s, skip_ws(s, q1), '=').1) {
            None => None,
            Some((v, q4)) => Some((name, v, skip_ws(s, q4))),
        },
    }
}

/// The global assignments from `p` on, added to `acc`; `None` when one does
/// not read.
pub open spec fn globals_at(s: Seq<char>, p: int, acc: Seq<(Seq<char>, LuaModel)>) -> Option<
    Seq<(Seq<char>, LuaModel)>,
>
    decreases s.len() - p,
{
    if p < 0 || p > s.len() {
        None
    } else if p == s.len() || skip_ws(s, p) >= s.len() {
        Some(acc)
    } else {
        match global_at(s, skip_ws(s, p)) {
            None => None,
            Some((name, v, e)) => if e <= p || e > s.len() {
                None
            } else {
                globals_at(s, e, table_insert(acc, name, v))
            },
        }
    }
}

/// The position of the first entry of `t` with the given key, if any.
pub open spec fn first_key_index(t: Seq<(Seq<char>, LuaModel)>, key: Seq<char>) -> Option<int>
    decreases t.len(),
{
    if t.len() == 0 {
        None
    } else {
        match first_key_index(t.drop_last(), key) {
            Some(i) => Some(i),
            None => if t.last().0 == key {
                Some(t.len() - 1)
            } else {
                None
            },
        }
    }
}

/// `first_key_index` finds the first entry with the key, or tells that there is none.
pub proof fn lemma_first_key_index(t: Seq<(Seq<char>, LuaModel)>, key: Seq<char>)
    ensures
        match first_key_index(t, key) {
            Some(i) => 0 <= i < t.len() && t[i].0 == key && forall|j: int| 0 <= j < i ==> #[trigger] t[j].0 != key,
            None => forall|j: int| 0 <= j < t.len() ==> #[trigger] t[j].0 != key,
        },
    decreases t.len(),
{
    if t.len() > 0 {
        lemma_first_key_index(t.drop_last(), key);
        assert forall|j: int| 0 <= j < t.len() - 1 implies #[trigger] t[j] == t.drop_last()[j] by {}
    }
}

/// The first entry with the key is the one at `i` when no earlier one has it.
pub proof fn lemma_first_key_index_found(t: Seq<(Seq<char>, LuaModel)>, key: Seq<char>, i: int)
    requires
        0 <= i < t.len(),
        t[i].0 == key,
        forall|j: int| 0 <= j < i ==> #[trigger] t[j].0 != key,
    ensures
        first_key_index(t, key) == Some(i),
{
    lemma_first_key_index(t, key);
    if let Some(k) = first_key_index(t, key) {
        if k < i {
            assert(t[k].0 != key);
        } else if k > i {
            assert(t[i].0 == key);
        }
    }
}

/// No entry has the key when none of them has it.
pub proof fn lemma_first_key_index_absent(t: Seq<(Seq<char>, LuaModel)>, key: Seq<char>)
    requires
        forall|j: int| 0 <= j < t.len() ==> #[trigger] t[j].0 != key,
    ensures
        first_key_index(t, key) is None,
{
    lemma_first_key_index(t, key);
    if let Some(k) = first_key_index(t, key) {
        assert(t[k].0 != key);
    }
}

/// The entries of a table after setting `key` to `v`: the value of the
/// entry with that key is replaced, otherwise the entry is added at the end.
pub open spec fn table_insert(
    t: Seq<(Seq<char>, LuaModel)>,
    key: Seq<char>,
    v: LuaModel,
) -> Seq<(Seq<char>, LuaModel)> {
    match first_key_index(t, key) {
        Some(i) => t.update(i, (key, v)),
        None => t.push((key, v)),
    }
}

/// No key occurs twice among the entries of `t`.
pub open spec fn keys_distinct(t: Seq<(Seq<char>, LuaModel)>) -> bool {
    forall|i: int, j: int| 0 <= i < j < t.len() ==> #[trigger] t[i].0 != #[trigger] t[j].0
}

/// Law: setting a key in a table whose keys are distinct keeps them
/// distinct, and the key then holds the value set.
pub proof fn law_table_insert(t: Seq<(Seq<char>, LuaModel)>, key: Seq<char>, v: LuaModel)
    requires
        keys_distinct(t),
    ensures
        keys_distinct(table_insert(t, key, v)),
        exists|i: int|
            0 <= i < table_insert(t, key, v).len() && #[trigger] table_insert(t, key, v)[i] == (key, v),
{
    lemma_first_key_index(t, key);
    let r = table_insert(t, key, v);
    match first_key_index(t, key) {
        Some(i) => {
            assert(r[i] == (key, v));
        },
        None => {
            assert(r[t.len() as int] == (key, v));
        },
    }
}

/// Reading table entries keeps the keys read so far distinct.
pub proof fn lemma_table_entries_keys_distinct(
    s: Seq<char>,
    p: int,
    fuel: nat,
    acc: Seq<(Seq<char>, LuaModel)>,
)
    requires
        keys_distinct(acc),
    ensures
        table_entries_at(s, p, fuel, acc) matches Some((t, e)) ==> keys_distinct(t),
    decreases s.len() - p,
{
    if 0 <= p <= s.len() && fuel > 0 {
        let q = skip_ws(s, p);
        lemma_skip_ws(s, p);
        if !(q < s.len() && s[q] == '}') {
            if let Some((key, v, e)) = table_entry_at(s, q) {
                if !(e <= p || e > s.len()) {
                    law_table_insert(acc, key, v);
                    lemma_table_entries_keys_distinct(s, e, (fuel - 1) as nat, table_insert(acc, key, v));
                }
            }
        }
    }
}

/// Reading global assignments keeps the names read so far distinct.
pub proof fn lemma_globals_keys_distinct(s: Seq<char>, p: int, acc: Seq<(Seq<char>, LuaModel)>)
    requires
        keys_distinct(acc),
    ensures
        globals_at(s, p, acc) matches Some(t) ==> keys_distinct(t),
    decreases s.len() - p,
{
    if 0 <= p <= s.len() && !(p == s.len() || skip_ws(s, p) >= s.len()) {
        if let Some((name, v, e)) = global_at(s, skip_ws(s, p)) {
            if !(e <= p || e > s.len()) {
                law_table_insert(acc, name, v);
                lemma_globals_keys_distinct(s, e, table_insert(acc, name, v));
            }
        }
    }
}

/// Law: a table read from text never holds a key twice, and neither do the
/// globals read from a script: a key given again replaces its value.
pub proof fn law_parsed_keys_distinct(s: Seq<char>, p: int)
    ensures
        parse_table_at(s, p) matches Some((t, e)) ==> keys_distinct(t),
        globals_at(s, p, Seq::<(Seq<char>, LuaModel)>::empty()) matches Some(t) ==> keys_distinct(t),
{
    let empty = Seq::<(Seq<char>, LuaModel)>::empty();
    assert(keys_distinct(empty));
    if 0 <= p <= s.len() {
        let q = expect_at(s, p, '{').1;
        lemma_table_entries_keys_distinct(s, q, TABLE_ENTRY_LIMIT as nat, empty);
    }
    lemma_globals_keys_distinct(s, p, empty);
}

/// The plain form of a table entry.
pub open spec fn entry_model(e: LuaEntry) -> (Seq<char>, LuaModel) {
    (e.key@, lua_model(e.value))
}

/// The plain form of the entries, entry by entry.
pub proof fn lemma_entries_model(es: Seq<LuaEntry>)
    ensures
        entries_model(es).len() == es.len(),
        forall|i: int| 0 <= i < es.len() ==> #[trigger] entries_model(es)[i] == entry_model(es[i]),
    decreases es.len(),
{
    if es.len() > 0 {
        lemma_entries_model(es.drop_last());
        assert forall|i: int| 0 <= i < es.len() implies #[trigger] entries_model(es)[i] == entry_model(es[i]) by {
            if i < es.len() - 1 {
                assert(es.drop_last()[i] == es[i]);
            }
        }
    }
}

/// Sets `key` to `value` in the table `t`: the entry with that key gets the
/// value, or a new entry is added at the end.
fn table_set(t: &mut Vec<LuaEntry>, key: String, value: LuaValue)
    ensures
        entries_model(final(t)@) == table_insert(entries_model(old(t)@), key@, lua_model(value)),
{
    let ghost m = entries_model(t@);
    proof {
        lemma_entries_model(t@);
        lemma_first_key_index(m, key@);
    }
    let mut i: usize = 0;
    while i < t.len()
        invariant
            i <= t@.len(),
            t@ == old(t)@,
            m == entries_model(t@),
            m.len() == t@.len(),
            forall|j: int| 0 <= j < t@.len() ==> #[trigger] m[j] == entry_model(t@[j]),
            forall|j: int| 0 <= j < i ==> #[trigger] m[j].0 != key@,
        decreases t@.len() - i,
    {
        if t[i].key == key {
            proof {
                lemma_first_key_index_found(m, key@, i as int);
            }
            t.set(i, LuaEntry { key, value });
            proof {
                lemma_entries_model(t@);
                assert(entries_model(t@) =~= m.update(i as int, (key@, lua_model(value))));
            }
            return;
        }
        i = i + 1;
    }
    let ghost old_t = t@;
    t.push(LuaEntry { key, value });
    proof {
        assert(t@.drop_last() =~= old_t);
        lemma_first_key_index_absent(m, key@);
    }
}

/// A simple Lua table parser: the text, and the position of the next
/// character to read.
pub struct LuaTableParser {
    chars: Vec<char>,
    pos: usize,
}

impl LuaTableParser {
    /// The text being read.
    pub closed spec fn text(&self) -> Seq<char> {
        self.chars@
    }

    /// The position of the next character to read.
    pub closed spec fn position(&self) -> int {
        self.pos as int
    }

    /// The position never passes the end of the text.
    #[verifier::type_invariant]
    closed spec fn position_in_text(&self) -> bool {
        self.pos <= self.chars@.len()
    }

    /// Creates a new parser at the start of `input`.
    pub fn new(input: &str) -> (p: Self)
        ensures
            p.text() == input@,
            p.position() == 0,
    {
        LuaTableParser { chars: chars_of(input), pos: 0 }
    }

    /// Peeks at the next character without consuming it.
    fn peek(&self) -> (c: Option<char>)
        ensures
            c == (if self.position() < self.text().len() {
                Some(self.text()[self.position()])
            } else {
                None
            }),
    {
        if self.pos < self.chars.len() {
            Some(self.chars[self.pos])
        } else {
            None
        }
    }

    /// Advance to the next character, if there is one.
    fn bump(&mut self)
        ensures
            final(self).text() == old(self).text(),
            final(self).position() == (if old(self).position() < old(self).text().len() {
                old(self).position() + 1
            } else {
                old(self).position()
            }),
    {
        if self.pos < self.chars.len() {
            self.pos = self.pos + 1;
        }
    }

    /// Keep advancing the parser until a non-whitespace character is found.
    fn skip_whitespace(&mut self)
        ensures
            final(self).text() == old(self).text(),
            final(self).position() == skip_ws(old(self).text(), old(self).position()),
            old(self).position() <= final(self).position() <= final(self).text().len(),
    {
        proof {
            use_type_invariant(&*self);
        }
        let ghost s = self.chars@;
        let ghost start = self.pos as int;
        while self.pos < self.chars.len() && char_is_whitespace(self.chars[self.pos])
            invariant
                self.chars@ == s,
                start <= self.pos <= s.len(),
                skip_ws(s, self.pos as int) == skip_ws(s, start),
            decreases s.len() - self.pos,
        {
            self.pos = self.pos + 1;
        }
    }

    /// Expect the next character after white space to be `c`, consuming it if so.
    fn expect(&mut self, c: char) -> (b: bool)
        ensures
            final(self).text() == old(self).text(),
            old(self).position() <= final(self).position() <= final(self).text().len(),
            (b, final(self).position()) == expect_at(old(self).text(), old(self).position(), c),
    {
        self.skip_whitespace();
        match self.peek() {
            Some(p) => if p == c {
                self.bump();
                true
            } else {
                false
            },
            None => false,
        }
    }

    /// Parse an identifier after white space.
    fn parse_identifier(&mut self) -> (r: Option<String>)
        ensures
            final(self).text() == old(self).text(),
            old(self).position() <= final(self).position() <= final(self).text().len(),
            match r {
                Some(x) => parse_identifier_at(old(self).text(), old(self).position()) == Some(
                    (x@, final(self).position()),
                ),
                None => parse_identifier_at(old(self).text(), old(self).position()) is None,
            },
    {
        self.skip_whitespace();
        proof {
            use_type_invariant(&*self);
        }
        let ghost s = self.chars@;
        let start = self.pos;
        let mut out: Vec<char> = Vec::new();
        while self.pos < self.chars.len() && (char_is_ascii_alphanumeric(self.chars[self.pos])
            || self.chars[self.pos] == '_')
            invariant
                self.chars@ == s,
                start <= self.pos <= s.len(),
                ident_end(s, self.pos as int) == ident_end(s, start as int),
                out@ == s.subrange(start as int, self.pos as int),
            decreases s.len() - self.pos,
        {
            out.push(self.chars[self.pos]);
            self.pos = self.pos + 1;
        }
        if out.len() == 0 {
            return None;
        }
        Some(string_from_chars(out.as_slice()))
    }

    /// Parse a string in double quotes after white space.
    fn parse_string(&mut self) -> (r: Option<String>)
        ensures
            final(self).text() == old(self).text(),
            old(self).position() <= final(self).position() <= final(self).text().len(),
            match r {
                Some(x) => parse_string_at(old(self).text(), old(self).position()) == Some(
                    (x@, final(self).position()),
                ),
                None => parse_string_at(old(self).text(), old(self).position()) is None,
            },
    {
        if !self.expect('"') {
            return None;
        }
        proof {
            use_type_invariant(&*self);
        }
        let ghost s = self.chars@;
        let start = self.pos;
        let mut out: Vec<char> = Vec::new();
        while self.pos < self.chars.len() && self.chars[self.pos] != '"'
            invariant
                self.chars@ == s,
                start <= self.pos <= s.len(),
                quote_at_or_end(s, self.pos as int) == quote_at_or_end(s, start as int),
                out@ == s.subrange(start as int, self.pos as int),
            decreases s.len() - self.pos,
        {
            out.push(self.chars[self.pos]);
            self.pos = self.pos + 1;
        }
        if !self.expect('"') {
            return None;
        }
        Some(string_from_chars(out.as_slice()))
    }

    /// Parse a number after white space: the run of digits, `.`, `-` and
    /// `+`, when it starts with a digit and `str::parse::<f64>` accepts it.
    fn parse_number(&mut self) -> (r: Option<String>)
        ensures
            final(self).text() == old(self).text(),
            old(self).position() <= final(self).position() <= final(self).text().len(),
            match r {
                Some(x) => parse_number_at(old(self).text(), old(self).position()) == Some(
                    (x@, final(self).position()),
                ),
                None => parse_number_at(old(self).text(), old(self).position()) is None,
            },
    {
        self.skip_whitespace();
        proof {
            use_type_invariant(&*self);
        }
        let ghost s = self.chars@;
        let start = self.pos;
        let mut out: Vec<char> = Vec::new();
        let mut signs: usize = 0;
        let mut dots: usize = 0;
        while self.pos < self.chars.len() && (char_is_ascii_digit(self.chars[self.pos])
            || self.chars[self.pos] == '.' || self.chars[self.pos] == '-' || self.chars[self.pos]
            == '+')
            invariant
                self.chars@ == s,
                start <= self.pos <= s.len(),
                number_end(s, self.pos as int) == number_end(s, start as int),
                out@ == s.subrange(start as int, self.pos as int),
                dots == dot_count(out@),
                dots <= out@.len(),
                (signs == 0) == (!out@.contains('+') && !out@.contains('-')),
            decreases s.len() - self.pos,
        {
            let c = self.chars[self.pos];
            let ghost before = out@;
            out.push(c);
            assert(out@.drop_last() =~= before);
            if c == '.' {
                dots = dots + 1;
            }
            if c == '-' || c == '+' {
                signs = 1;
                assert(out@[out@.len() - 1] == c);
            } else if signs == 0 {
                assert(!out@.contains('+') && !out@.contains('-')) by {
                    if out@.contains('+') || out@.contains('-') {
                        let k = choose|k: int| 0 <= k < out@.len() && (out@[k] == '+' || out@[k] == '-');
                        if k < before.len() {
                            assert(before[k] == out@[k]);
                        }
                    }
                }
            } else {
                proof {
                    let k = choose|k: int| 0 <= k < before.len() && (before[k] == '+' || before[k] == '-');
                    assert(out@[k] == before[k]);
                }
            }
            self.pos = self.pos + 1;
        }
        if out.len() == 0 || !char_is_ascii_digit(out[0]) || signs != 0 || dots > 1 {
            proof {
                if out@.len() > 0 {
                    assert(out@[0] == s[start as int]);
                }
            }
            return None;
        }
        assert(out@[0] == s[start as int]);
        Some(string_from_chars(out.as_slice()))
    }

    /// Parse the key of a table entry after white space.
    fn parse_key(&mut self) -> (r: Option<String>)
        ensures
            final(self).text() == old(self).text(),
            old(self).position() <= final(self).position() <= final(self).text().len(),
            match r {
                Some(x) => parse_key_at(old(self).text(), old(self).position()) == Some(
                    (x@, final(self).position()),
                ),
                None => parse_key_at(old(self).text(), old(self).position()) is None,
            },
    {
        self.skip_whitespace();
        self.expect('[');
        let key = match self.parse_string() {
            Some(k) => k,
            None => return None,
        };
        self.expect(']');
        Some(key)
    }

    /// Parse a value after white space: a string, a table or a number.
    fn parse_value(&mut self) -> (r: Option<LuaValue>)
        ensures
            final(self).text() == old(self).text(),
            match r {
                Some(v) => parse_value_at(old(self).text(), old(self).position()) == Some(
                    (lua_model(v), final(self).position()),
                ) && old(self).position() < final(self).position() <= final(self).text().len(),
                None => parse_value_at(old(self).text(), old(self).position()) is None,
            },
        decreases self.chars@.len() - self.pos, 1int,
    {
        proof {
            use_type_invariant(&*self);
            lemma_skip_ws(self.chars@, self.pos as int);
        }
        self.skip_whitespace();
        let ghost q = self.pos as int;
        proof {
            lemma_string_at(self.chars@, q);
        }
        match self.peek() {
            Some(c) => if c == '"' {
                match self.parse_string() {
                    Some(t) => Some(LuaValue::String(t)),
                    None => None,
                }
            } else if c == '{' {
                match self.parse_table() {
                    Some(t) => Some(LuaValue::Table(t)),
                    None => None,
                }
            } else if char_is_ascii_digit(c) {
                match self.parse_number() {
                    Some(t) => Some(LuaValue::Number(t)),
                    None => None,
                }
            } else {
                None
            },
            None => None,
        }
    }

    /// Parse a table after white space: `{`, then entries up to `}`.
    fn parse_table(&mut self) -> (r: Option<Vec<LuaEntry>>)
        requires
            skip_ws(old(self).text(), old(self).position()) < old(self).text().len(),
            old(self).text()[skip_ws(old(self).text(), old(self).position())] == '{',
        ensures
            final(self).text() == old(self).text(),
            match r {
                Some(t) => parse_table_at(old(self).text(), old(self).position()) == Some(
                    (entries_model(t@), final(self).position()),
                ) && old(self).position() < final(self).position() <= final(self).text().len(),
                None => parse_table_at(old(self).text(), old(self).position()) is None,
            },
        decreases self.chars@.len() - self.pos, 0int,
    {
        proof {
            use_type_invariant(&*self);
            lemma_skip_ws(self.chars@, self.pos as int);
        }
        let ghost s = self.chars@;
        let ghost start = self.pos as int;
        let mut map: Vec<LuaEntry> = Vec::new();
        self.expect('{');
        let mut n: usize = 0;
        while n < TABLE_ENTRY_LIMIT
            invariant
                self.chars@ == s,
                s == old(self).chars@,
                start == old(self).pos,
                start < self.pos <= s.len(),
                n <= TABLE_ENTRY_LIMIT,
                parse_table_at(s, start) == table_entries_at(
                    s,
                    self.pos as int,
                    (TABLE_ENTRY_LIMIT - n) as nat,
                    entries_model(map@),
                ),
            decreases TABLE_ENTRY_LIMIT - n,
        {
            let ghost p = self.pos as int;
            let ghost acc = entries_model(map@);
            self.skip_whitespace();
            let ghost q = self.pos as int;
            if self.pos < self.chars.len() && self.chars[self.pos] == '}' {
                self.bump();
                return Some(map);
            }
            let key = match self.parse_key() {
                Some(k) => k,
                None => return None,
            };
            proof {
                lemma_key_at(s, q);
            }
            self.skip_whitespace();
            self.expect('=');
            let value = match self.parse_value() {
                Some(v) => v,
                None => return None,
            };
            let ghost v = lua_model(value);
            table_set(&mut map, key, value);
            self.skip_whitespace();
            if self.pos < self.chars.len() && self.chars[self.pos] == ',' {
                self.bump();
            }
            assert(table_entry_at(s, q) == Some((key@, v, self.pos as int)));
            n = n + 1;
        }
        Some(map)
    }

    /// Parse global variables from the Lua script: assignments `name = value`
    /// up to the end of the text.
    pub fn parse_globals(&mut self) -> (r: Option<Vec<LuaEntry>>)
        ensures
            final(self).text() == old(self).text(),
            match r {
                Some(t) => globals_at(
                    old(self).text(),
                    old(self).position(),
                    Seq::<(Seq<char>, LuaModel)>::empty(),
                ) == Some(entries_model(t@)),
                None => globals_at(
                    old(self).text(),
                    old(self).position(),
                    Seq::<(Seq<char>, LuaModel)>::empty(),
                ) is None,
            },
    {
        proof {
            use_type_invariant(&*self);
        }
        let ghost s = self.chars@;
        let ghost start = self.pos as int;
        let mut globals: Vec<LuaEntry> = Vec::new();
        proof {
            assert(entries_model(globals@) =~= Seq::<(Seq<char>, LuaModel)>::empty());
        }
        while self.pos < self.chars.len()
            invariant
                self.chars@ == s,
                s == old(self).chars@,
                start == old(self).pos,
                start <= self.pos <= s.len(),
                globals_at(s, start, Seq::<(Seq<char>, LuaModel)>::empty()) == globals_at(
                    s,
                    self.pos as int,
                    entries_model(globals@),
                ),
            decreases s.len() - self.pos,
        {
            let ghost p = self.pos as int;
            self.skip_whitespace();
            if self.pos >= self.chars.len() {
                return Some(globals);
            }
            let name = match self.parse_identifier() {
                Some(n) => n,
                None => return None,
            };
            self.skip_whitespace();
            self.expect('=');
            let value = match self.parse_value() {
                Some(v) => v,
                None => return None,
            };
            table_set(&mut globals, name, value);
            self.skip_whitespace();
        }
        Some(globals)
    }
}

} // verus!
