//! Reading a character's class from its saved configuration: the line
//! `SET EJLootClass "<id>"` of `config-cache.wtf`.

use vstd::prelude::*;

use crate::log::{lines_of, text_lines};
use crate::text::{char_is_ascii_digit, char_is_whitespace, chars_of, is_ascii_digit, is_whitespace, split_chars, split_on, string_from_chars};
use crate::wow::{WoWClass, class_of_id, lowercase_of, str_lowercase};

verus! {

/// Whether `s` starts with `p`.
pub open spec fn starts_with(s: Seq<char>, p: Seq<char>) -> bool {
    p.len() <= s.len() && s.take(p.len() as int) == p
}

/// The words of a text as `str::split_whitespace` documents them: the
/// maximal runs of characters that are not white space, in order.
pub open spec fn words(s: Seq<char>) -> Seq<Seq<char>>
    decreases s.len(),
{
    if s.len() == 0 {
        Seq::<Seq<char>>::empty()
    } else {
        let rest = words(s.drop_last());
        if is_whitespace(s.last()) {
            rest
        } else if s.len() >= 2 && !is_whitespace(s[s.len() - 2]) && rest.len() > 0 {
            rest.update(rest.len() - 1, rest.last().push(s.last()))
        } else {
            rest.push(seq![s.last()])
        }
    }
}

/// `t` without any `"` at its start or end (`str::trim_matches('"')`).
pub open spec fn trim_quotes(t: Seq<char>) -> Seq<char>
    decreases t.len(),
{
    if t.len() > 0 && t[0] == '"' {
        trim_quotes(t.drop_first())
    } else if t.len() > 0 && t.last() == '"' {
        trim_quotes(t.drop_last())
    } else {
        t
    }
}

/// The value of a run of decimal digits.
pub open spec fn digits_value(t: Seq<char>) -> nat
    decreases t.len(),
{
    if t.len() == 0 {
        0
    } else {
        digits_value(t.drop_last()) * 10 + ((t.last() as nat) - ('0' as nat)) as nat
    }
}

/// The text without a leading `+`.
pub open spec fn unsigned_part(t: Seq<char>) -> Seq<char> {
    if t.len() > 0 && t[0] == '+' {
        t.drop_first()
    } else {
        t
    }
}

/// Whether every character of `d` is a decimal digit.
pub open spec fn all_digits(d: Seq<char>) -> bool {
    forall|i: int| 0 <= i < d.len() ==> is_ascii_digit(#[trigger] d[i])
}

/// What `str::parse::<u8>` gives, as documented for integers: an optional
/// `+` followed by one or more digits whose value fits in a `u8`.
pub open spec fn parse_u8_text(t: Seq<char>) -> Option<u8> {
    let d = unsigned_part(t);
    if d.len() > 0 && all_digits(d) && digits_value(d) <= 255 {
        Some(digits_value(d) as u8)
    } else {
        None
    }
}

/// The first line of `lines` whose lower-case form starts with `prefix`.
pub open spec fn first_line_with_prefix(lines: Seq<Seq<char>>, prefix: Seq<char>) -> Option<Seq<char>>
    decreases lines.len(),
{
    if lines.len() == 0 {
        None
    } else if starts_with(str_lowercase(lines[0]), prefix) {
        Some(lines[0])
    } else {
        first_line_with_prefix(lines.drop_first(), prefix)
    }
}

/// The class identifier in a saved configuration: on the first line whose
/// lower-case form starts with `set ejlootclass`, the third word without
/// surrounding quotes, read as a `u8`.
pub open spec fn config_class_id(content: Seq<char>) -> Option<u8> {
    match first_line_with_prefix(text_lines(content), "set ejlootclass"@) {
        Some(line) => if words(line).len() >= 3 {
            parse_u8_text(trim_quotes(words(line)[2]))
        } else {
            None
        },
        None => None,
    }
}

/// Whether the text `s` starts with `p`.
pub fn chars_start_with(s: &Vec<char>, p: &Vec<char>) -> (b: bool)
    ensures
        b == starts_with(s@, p@),
{
    if p.len() > s.len() {
        return false;
    }
    let mut i: usize = 0;
    while i < p.len()
        invariant
            p@.len() <= s@.len(),
            i <= p@.len(),
            s@.take(i as int) == p@.take(i as int),
        decreases p@.len() - i,
    {
        if s[i] != p[i] {
            assert(s@.take(p@.len() as int)[i as int] != p@[i as int]);
            return false;
        }
        assert(s@.take(i as int + 1) =~= s@.take(i as int).push(s@[i as int]));
        assert(p@.take(i as int + 1) =~= p@.take(i as int).push(p@[i as int]));
        i = i + 1;
    }
    assert(p@.take(p@.len() as int) =~= p@);
    true
}

/// The words of a text, as `str::split_whitespace` gives them.
pub fn split_words(s: &Vec<char>) -> (r: Vec<Vec<char>>)
    ensures
        r@.len() == words(s@).len(),
        forall|i: int| 0 <= i < r@.len() ==> #[trigger] r@[i]@ == words(s@)[i],
{
    let mut out: Vec<Vec<char>> = Vec::new();
    let mut k: usize = 0;
    assert(s@.take(0) =~= Seq::<char>::empty());
    while k < s.len()
        invariant
            k <= s@.len(),
            out@.len() == words(s@.take(k as int)).len(),
            forall|i: int| 0 <= i < out@.len() ==> #[trigger] out@[i]@ == words(s@.take(k as int))[i],
        decreases s@.len() - k,
    {
        let c = s[k];
        let ghost t = s@.take(k as int + 1);
        assert(t.drop_last() =~= s@.take(k as int));
        assert(t.last() == c);
        let ghost before = out@;
        if char_is_whitespace(c) {
        } else if k >= 1 && !char_is_whitespace(s[k - 1]) && out.len() > 0 {
            assert(t[t.len() - 2] == s@[k - 1]);
            let last = out.len() - 1;
            let mut w = out.pop().unwrap();
            w.push(c);
            out.push(w);
            proof {
                assert forall|i: int| 0 <= i < out@.len() implies #[trigger] out@[i]@ == words(t)[i] by {
                    if i < last {
                        assert(out@[i] == before[i]);
                    }
                }
            }
        } else {
            proof {
                if k >= 1 {
                    assert(t[t.len() - 2] == s@[k - 1]);
                }
            }
            let mut w: Vec<char> = Vec::new();
            w.push(c);
            out.push(w);
            proof {
                assert forall|i: int| 0 <= i < out@.len() implies #[trigger] out@[i]@ == words(t)[i] by {
                    if i < before.len() {
                        assert(out@[i] == before[i]);
                    } else {
                        assert(out@[i]@ =~= seq![c]);
                    }
                }
            }
        }
        k = k + 1;
    }
    assert(s@.take(k as int) =~= s@);
    out
}

/// The text without any `"` at its start or end.
pub fn trim_quote_chars(t: &Vec<char>) -> (r: Vec<char>)
    ensures
        r@ == trim_quotes(t@),
{
    let mut cur: Vec<char> = Vec::new();
    let mut i: usize = 0;
    assert(t@.skip(0) =~= t@);
    while i < t.len() && t[i] == '"'
        invariant
            i <= t@.len(),
            trim_quotes(t@.skip(i as int)) == trim_quotes(t@),
        decreases t@.len() - i,
    {
        assert(t@.skip(i as int).drop_first() =~= t@.skip(i as int + 1));
        i = i + 1;
    }
    let start = i;
    let mut end = t.len();
    assert(t@.skip(start as int) =~= t@.subrange(start as int, end as int));
    while end > start && t[end - 1] == '"'
        invariant
            start <= end <= t@.len(),
            start == t@.len() || t@[start as int] != '"',
            trim_quotes(t@.subrange(start as int, end as int)) == trim_quotes(t@),
        decreases end,
    {
        let ghost u = t@.subrange(start as int, end as int);
        assert(u.drop_last() =~= t@.subrange(start as int, end - 1));
        assert(u[0] == t@[start as int]);
        end = end - 1;
    }
    let mut k = start;
    while k < end
        invariant
            start <= k <= end,
            end <= t@.len(),
            cur@ == t@.subrange(start as int, k as int),
        decreases end - k,
    {
        cur.push(t[k]);
        assert(cur@ =~= t@.subrange(start as int, k as int + 1));
        k = k + 1;
    }
    proof {
        let u = t@.subrange(start as int, end as int);
        if u.len() > 0 {
            assert(u[0] == t@[start as int]);
            assert(u.last() == t@[end - 1]);
        }
    }
    cur
}

/// The value of a digit run grows as digits are added.
pub proof fn lemma_digits_value_prefix(t: Seq<char>, k: int)
    requires
        0 <= k <= t.len(),
        forall|i: int| 0 <= i < t.len() ==> is_ascii_digit(#[trigger] t[i]),
    ensures
        digits_value(t.take(k)) <= digits_value(t),
    decreases t.len() - k,
{
    if k < t.len() {
        lemma_digits_value_prefix(t, k + 1);
        let u = t.take(k + 1);
        assert(u.drop_last() =~= t.take(k));
        assert(is_ascii_digit(u.last()));
    } else {
        assert(t.take(k) =~= t);
    }
}

/// Parse a text as a `u8`, as `str::parse::<u8>` does.
pub fn parse_u8_chars(t: &Vec<char>) -> (r: Option<u8>)
    ensures
        r == parse_u8_text(t@),
{
    let start: usize = if t.len() > 0 && t[0] == '+' {
        1
    } else {
        0
    };
    let ghost d = unsigned_part(t@);
    assert(d =~= t@.skip(start as int));
    if start == t.len() {
        return None;
    }
    let mut value: u32 = 0;
    let mut i: usize = start;
    while i < t.len()
        invariant
            start <= i <= t@.len(),
            d == t@.skip(start as int),
            d == unsigned_part(t@),
            value <= 255,
            value == digits_value(d.take(i - start)),
            forall|j: int| 0 <= j < i - start ==> is_ascii_digit(#[trigger] d[j]),
        decreases t@.len() - i,
    {
        let c = t[i];
        if !char_is_ascii_digit(c) {
            assert(d[i - start] == c);
            assert(!is_ascii_digit(d[i - start]));
            assert(!all_digits(d));
            return None;
        }
        assert(d.take(i - start + 1).drop_last() =~= d.take(i - start));
        assert(d.take(i - start + 1).last() == c);
        let digit: u32 = (c as u32) - ('0' as u32);
        let next = value * 10 + digit;
        assert(next == digits_value(d.take(i - start + 1)));
        if next > 255 {
            proof {
                assert(d[i - start] == c);
                if all_digits(d) {
                    lemma_digits_value_prefix(d, i - start + 1);
                }
            }
            return None;
        }
        value = next;
        i = i + 1;
    }
    assert(d.take(i - start) =~= d);
    Some(value as u8)
}

/// The class identifier in a saved configuration, as `config_class_id` describes.
pub fn class_id_from_config(content: &str) -> (r: Option<u8>)
    ensures
        r == config_class_id(content@),
{
    let cs = chars_of(content);
    let lines = lines_of(&cs);
    let ghost ls = text_lines(content@);
    let prefix = chars_of("set ejlootclass");
    let mut i: usize = 0;
    assert(ls.skip(0) =~= ls);
    while i < lines.len()
        invariant
            i <= lines@.len(),
            lines@.len() == ls.len(),
            ls == text_lines(content@),
            prefix@ == "set ejlootclass"@,
            forall|j: int| 0 <= j < lines@.len() ==> #[trigger] lines@[j]@ == ls[j],
            first_line_with_prefix(ls, prefix@) == first_line_with_prefix(ls.skip(i as int), prefix@),
        decreases lines@.len() - i,
    {
        assert(ls.skip(i as int)[0] == ls[i as int]);
        assert(ls.skip(i as int).drop_first() =~= ls.skip(i as int + 1));
        let line_text = string_from_chars(lines[i].as_slice());
        let lower = lowercase_of(line_text.as_str());
        let lower_chars = chars_of(lower.as_str());
        if chars_start_with(&lower_chars, &prefix) {
            let parts = split_words(&lines[i]);
            if parts.len() >= 3 {
                let trimmed = trim_quote_chars(&parts[2]);
                return parse_u8_chars(&trimmed);
            }
            return None;
        }
        i = i + 1;
    }
    assert(ls.skip(i as int) =~= Seq::<Seq<char>>::empty());
    None
}

} // verus!
