//! State of a single-line text input field: the entered text, a cursor
//! measured in characters, and word-wise editing and movement.

use vstd::prelude::*;

use crate::text::{char_is_whitespace, chars_of, is_whitespace, string_from_chars};
use crate::ui::{KeyInput, KeyPress};

verus! {

/// Whether the text field is being interacted with.
#[derive(Debug, Clone, Copy, PartialEq, Eq, Structural)]
pub enum InputMode {
    /// Text field is not being interacted with.
    Normal,
    /// Text field is being edited.
    Editing,
}

/// State for a text input field.
#[derive(Debug, Clone)]
pub struct TextInput {
    /// Optional placeholder text shown while the input is empty.
    pub placeholder: Option<String>,
    /// Current input mode.
    pub mode: InputMode,
    /// Current cursor position, counted in characters.
    pub character_index: usize,
    /// The entered text.
    pub input: String,
}

/// Punctuation that separates words, besides white space.
pub open spec fn is_boundary_punctuation(c: char) -> bool {
    ||| c == '.' ||| c == ',' ||| c == ';' ||| c == ':' ||| c == '!' ||| c == '?'
    ||| c == '-' ||| c == '_' ||| c == '/' ||| c == '\\' ||| c == '|' ||| c == '('
    ||| c == ')' ||| c == '[' ||| c == ']' ||| c == '{' ||| c == '}' ||| c == '<'
    ||| c == '>' ||| c == '"' ||| c == '\''
}

/// Characters at which word-wise movement and deletion stop.
pub open spec fn is_word_boundary(c: char) -> bool {
    is_whitespace(c) || is_boundary_punctuation(c)
}

/// Check if a character is considered a word boundary character.
pub fn is_word_boundary_character(c: char) -> (b: bool)
    ensures
        b == is_word_boundary(c),
{
    char_is_whitespace(c) || c == '.' || c == ',' || c == ';' || c == ':' || c == '!' || c
        == '?' || c == '-' || c == '_' || c == '/' || c == '\\' || c == '|' || c == '(' || c
        == ')' || c == '[' || c == ']' || c == '{' || c == '}' || c == '<' || c == '>' || c
        == '"' || c == '\''
}

/// Extension trait for `char` to check for word boundary characters.
pub trait WordBoundaryCharExt: Sized {
    /// The character this value stands for.
    spec fn boundary_char(self) -> char;

    /// Check if the character is a word boundary character.
    fn is_word_boundary(self) -> (b: bool)
        ensures
            b == is_word_boundary(self.boundary_char()),
    ;
}

impl WordBoundaryCharExt for char {
    open spec fn boundary_char(self) -> char {
        self
    }

    fn is_word_boundary(self) -> (b: bool) {
        is_word_boundary_character(self)
    }
}

impl<'a> WordBoundaryCharExt for &'a char {
    open spec fn boundary_char(self) -> char {
        *self
    }

    fn is_word_boundary(self) -> (b: bool) {
        is_word_boundary_character(*self)
    }
}

/// `i - 1`, stopping at zero.
pub open spec fn dec_sat(i: usize) -> int {
    if i == 0 { 0 } else { i - 1 }
}

/// `i + 1`, stopping at `usize::MAX`.
pub open spec fn inc_sat(i: usize) -> int {
    if i == usize::MAX { i as int } else { i + 1 }
}

/// The smaller of `pos` and `n`.
pub open spec fn clamp_to(pos: int, n: int) -> int {
    if pos <= n { pos } else { n }
}

/// Walking left from `n`, the first position whose left neighbour's
/// word-boundary status differs from `target`.
pub open spec fn run_start(s: Seq<char>, n: int, target: bool) -> int
    decreases n,
{
    if n > 0 && n <= s.len() && is_word_boundary(s[n - 1]) == target {
        run_start(s, n - 1, target)
    } else {
        n
    }
}

/// Walking right from `n`, the first position holding a character whose
/// word-boundary status differs from `target` (or the end of `s`).
pub open spec fn run_end(s: Seq<char>, n: int, target: bool) -> int
    decreases s.len() - n,
{
    if 0 <= n < s.len() && is_word_boundary(s[n]) == target {
        run_end(s, n + 1, target)
    } else {
        n
    }
}

/// The word boundary to the left of character position `from`: over a run
/// of two or more boundary characters it stops at the start of that run;
/// otherwise it skips at most one boundary character and then the word
/// before it.
pub open spec fn left_boundary(s: Seq<char>, from: int) -> int {
    if from <= 0 {
        0
    } else if from > 1 && is_word_boundary(s[from - 1]) && is_word_boundary(s[from - 2]) {
        run_start(s, from - 1, true)
    } else if is_word_boundary(s[from - 1]) {
        run_start(s, from - 1, false)
    } else {
        run_start(s, from, false)
    }
}

/// The word boundary to the right of character position `from`, mirroring
/// `left_boundary`; positions at or past the end give the length.
pub open spec fn right_boundary(s: Seq<char>, from: int) -> int {
    if from >= s.len() {
        s.len() as int
    } else if from < s.len() - 1 && is_word_boundary(s[from]) && is_word_boundary(s[from + 1]) {
        run_end(s, from + 1, true)
    } else if is_word_boundary(s[from]) {
        run_end(s, from + 1, false)
    } else {
        run_end(s, from, false)
    }
}

/// The separators that end a word besides white space: `.,;:!?-_/\\|()[]{}<>"'`.
pub open spec fn word_separators() -> Seq<char> {
    seq![
        '.', ',', ';', ':', '!', '?', '-', '_', '/', '\\', '|', '(', ')', '[', ']', '{', '}', '<',
        '>', '"', '\'',
    ]
}

proof fn lemma_alnum_not_boundary(c: char)
    requires
        ('a' <= c && c <= 'z') || ('A' <= c && c <= 'Z') || ('0' <= c && c <= '9'),
    ensures
        !is_word_boundary(c),
{
}

proof fn lemma_run_start_over_word(a: Seq<char>, c: char, w: Seq<char>, n: int)
    requires
        is_word_boundary(c),
        a.len() + 1 <= n <= a.len() + 1 + w.len(),
        forall|i: int| 0 <= i < w.len() ==> !is_word_boundary(#[trigger] w[i]),
    ensures
        run_start(a + seq![c] + w, n, false) == a.len() + 1,
    decreases n,
{
    let s = a + seq![c] + w;
    if n > a.len() + 1 {
        assert(s[n - 1] == w[n - 1 - a.len() - 1]);
        lemma_run_start_over_word(a, c, w, n - 1);
    } else {
        assert(s[n - 1] == c);
    }
}

proof fn lemma_run_end_over_word(w: Seq<char>, c: char, b: Seq<char>, n: int)
    requires
        is_word_boundary(c),
        0 <= n <= w.len(),
        forall|i: int| 0 <= i < w.len() ==> !is_word_boundary(#[trigger] w[i]),
    ensures
        run_end(w + seq![c] + b, n, false) == w.len(),
    decreases w.len() - n,
{
    let s = w + seq![c] + b;
    if n < w.len() {
        assert(s[n] == w[n]);
        lemma_run_end_over_word(w, c, b, n + 1);
    } else {
        assert(s[n] == c);
    }
}

/// Law: white space and each of the separators `.,;:!?-_/\\|()[]{}<>"'` end
/// a word. Moving (or deleting) a word to the left from the end of a word
/// of ASCII letters and digits stops just after the separator before it, and
/// moving a word to the right from the start of such a word stops at the
/// separator after it.
pub proof fn law_separators_end_words(a: Seq<char>, c: char, w: Seq<char>, b: Seq<char>)
    requires
        word_separators().contains(c) || c == ' ' || c == '\t',
        w.len() > 0,
        forall|i: int|
            0 <= i < w.len() ==> ('a' <= #[trigger] w[i] && w[i] <= 'z') || ('A' <= w[i] && w[i]
                <= 'Z') || ('0' <= w[i] && w[i] <= '9'),
    ensures
        is_word_boundary(c),
        left_boundary(a + seq![c] + w, (a.len() + 1 + w.len()) as int) == a.len() + 1,
        right_boundary(w + seq![c] + b, 0) == w.len(),
{
    let seps = word_separators();
    if seps.contains(c) {
        let k = choose|k: int| 0 <= k < seps.len() && seps[k] == c;
        assert(is_word_boundary(seps[k]));
    }
    assert forall|i: int| 0 <= i < w.len() implies !is_word_boundary(#[trigger] w[i]) by {
        lemma_alnum_not_boundary(w[i]);
    }
    let s = a + seq![c] + w;
    let n = (a.len() + 1 + w.len()) as int;
    assert(s[n - 1] == w[w.len() - 1]);
    lemma_run_start_over_word(a, c, w, n);
    let t = w + seq![c] + b;
    assert(t[0] == w[0]);
    lemma_run_end_over_word(w, c, b, 0);
}

/// `s` with the characters at positions `[a, b)` taken out.
pub open spec fn remove_span(s: Seq<char>, a: int, b: int) -> Seq<char> {
    s.take(a) + s.skip(b)
}

/// The text and cursor after typing `c` at cursor `i`.
pub open spec fn enter_char_result(s: Seq<char>, i: usize, c: char) -> (Seq<char>, int) {
    let k = clamp_to(i as int, s.len() as int);
    (s.take(k).push(c) + s.skip(k), clamp_to(inc_sat(i), s.len() + 1int))
}

/// The text and cursor after a backspace at cursor `i`.
pub open spec fn backspace_result(s: Seq<char>, i: usize) -> (Seq<char>, int) {
    if i == 0 || i - 1 >= s.len() {
        (s, i as int)
    } else {
        (remove_span(s, i - 1, i as int), i - 1)
    }
}

/// A backspace right after typing a character gives back the text as it
/// was; when the cursor was within the text, it also returns to where it was.
pub proof fn law_backspace_undoes_enter_char(s: Seq<char>, i: usize, c: char)
    requires
        s.len() <= usize::MAX,
        s.len() < usize::MAX || i < s.len(),
    ensures
        ({
            let (t, j) = enter_char_result(s, i, c);
            &&& backspace_result(t, j as usize).0 == s
            &&& i <= s.len() ==> backspace_result(t, j as usize).1 == i
        }),
{
    let k = clamp_to(i as int, s.len() as int);
    let (t, j) = enter_char_result(s, i, c);
    assert(j == k + 1);
    assert(remove_span(t, j - 1, j) =~= s);
}

/// Law: typing a character or deleting the one before the cursor keeps a
/// cursor that was within the text within the text.
pub proof fn law_cursor_stays_in_text(s: Seq<char>, i: usize, c: char)
    requires
        i <= s.len(),
    ensures
        enter_char_result(s, i, c).1 <= enter_char_result(s, i, c).0.len(),
        backspace_result(s, i).1 <= backspace_result(s, i).0.len(),
        left_boundary(s, i as int) <= i,
        i <= right_boundary(s, i as int) <= s.len(),
{
    lemma_left_boundary_bounds(s, i as int);
    lemma_right_boundary_bounds(s, i as int);
}

/// The UTF-8 byte length of the characters of `s`.
pub open spec fn utf8_len(s: Seq<char>) -> int {
    vstd::utf8::encode_utf8(s).len() as int
}

/// The byte offset in the UTF-8 text of `s` at which its character `i`
/// starts; the byte length of the whole text for an `i` at or past its end.
pub open spec fn byte_offset(s: Seq<char>, i: int) -> int {
    if i < s.len() {
        utf8_len(s.take(i))
    } else {
        utf8_len(s)
    }
}

/// The UTF-8 width of one character.
pub open spec fn char_utf8_width(c: char) -> int {
    vstd::utf8::encode_scalar(c as u32).len() as int
}

proof fn lemma_encode_utf8_append(a: Seq<char>, b: Seq<char>)
    ensures
        vstd::utf8::encode_utf8(a + b) == vstd::utf8::encode_utf8(a) + vstd::utf8::encode_utf8(b),
    decreases a.len(),
{
    if a.len() == 0 {
        assert(a + b =~= b);
        assert(vstd::utf8::encode_utf8(a) =~= Seq::<u8>::empty());
    } else {
        lemma_encode_utf8_append(a.drop_first(), b);
        assert((a + b).drop_first() =~= a.drop_first() + b);
    }
}

proof fn lemma_utf8_len_step(s: Seq<char>, k: int)
    requires
        0 <= k < s.len(),
    ensures
        utf8_len(s.take(k + 1)) == utf8_len(s.take(k)) + char_utf8_width(s[k]),
{
    assert(s.take(k + 1) =~= s.take(k) + seq![s[k]]);
    lemma_encode_utf8_append(s.take(k), seq![s[k]]);
    assert(seq![s[k]].drop_first() =~= Seq::<char>::empty());
    assert(vstd::utf8::encode_utf8(Seq::<char>::empty()) =~= Seq::<u8>::empty());
    assert(vstd::utf8::encode_utf8(seq![s[k]]) =~= vstd::utf8::encode_scalar(s[k] as u32));
}

proof fn lemma_utf8_len_prefix_bound(s: Seq<char>, k: int)
    requires
        0 <= k <= s.len(),
    ensures
        utf8_len(s.take(k)) <= utf8_len(s),
{
    assert(s =~= s.take(k) + s.skip(k));
    lemma_encode_utf8_append(s.take(k), s.skip(k));
}

/// The UTF-8 width of a character.
fn utf8_width(c: char) -> (w: usize)
    ensures
        w == char_utf8_width(c),
{
    let v = c as u32;
    if v <= 0x7f {
        1
    } else if v <= 0x7ff {
        2
    } else if v <= 0xffff {
        3
    } else {
        4
    }
}

/// Character index of the start of the run that `run_start` describes.
fn scan_left(chars: &Vec<char>, n: usize, target: bool) -> (r: usize)
    requires
        n <= chars@.len(),
    ensures
        r == run_start(chars@, n as int, target),
{
    let mut i = n;
    while i > 0 && is_word_boundary_character(chars[i - 1]) == target
        invariant
            i <= n <= chars@.len(),
            run_start(chars@, i as int, target) == run_start(chars@, n as int, target),
        decreases i,
    {
        i = i - 1;
    }
    i
}

fn scan_right(chars: &Vec<char>, n: usize, target: bool) -> (r: usize)
    requires
        n <= chars@.len(),
    ensures
        r == run_end(chars@, n as int, target),
{
    let mut i = n;
    while i < chars.len() && is_word_boundary_character(chars[i]) == target
        invariant
            n <= i <= chars@.len(),
            run_end(chars@, i as int, target) == run_end(chars@, n as int, target),
        decreases chars@.len() - i,
    {
        i = i + 1;
    }
    i
}

proof fn lemma_run_start_bounds(s: Seq<char>, n: int, target: bool)
    requires
        0 <= n <= s.len(),
    ensures
        0 <= run_start(s, n, target) <= n,
        forall|k: int| run_start(s, n, target) <= k < n ==> is_word_boundary(#[trigger] s[k]) == target,
        run_start(s, n, target) == 0 || is_word_boundary(s[run_start(s, n, target) - 1]) != target,
    decreases n,
{
    if n > 0 && is_word_boundary(s[n - 1]) == target {
        lemma_run_start_bounds(s, n - 1, target);
    }
}

proof fn lemma_run_end_bounds(s: Seq<char>, n: int, target: bool)
    requires
        0 <= n <= s.len(),
    ensures
        n <= run_end(s, n, target) <= s.len(),
        forall|k: int| n <= k < run_end(s, n, target) ==> is_word_boundary(#[trigger] s[k]) == target,
        run_end(s, n, target) == s.len() || is_word_boundary(s[run_end(s, n, target)]) != target,
    decreases s.len() - n,
{
    if n < s.len() && is_word_boundary(s[n]) == target {
        lemma_run_end_bounds(s, n + 1, target);
    }
}

/// The left boundary lies at or before the starting position, and strictly
/// before it whenever there is anything to its left.
pub proof fn lemma_left_boundary_bounds(s: Seq<char>, from: int)
    requires
        0 <= from <= s.len(),
    ensures
        0 <= left_boundary(s, from) <= from,
        from > 0 ==> left_boundary(s, from) < from,
{
    if from > 0 {
        if from > 1 && is_word_boundary(s[from - 1]) && is_word_boundary(s[from - 2]) {
            lemma_run_start_bounds(s, from - 1, true);
        } else if is_word_boundary(s[from - 1]) {
            lemma_run_start_bounds(s, from - 1, false);
        } else {
            lemma_run_start_bounds(s, from, false);
            assert(is_word_boundary(s[from - 1]) == false);
        }
    }
}

/// The right boundary lies at or after the starting position and within the
/// text, and strictly after it whenever there is anything to its right.
pub proof fn lemma_right_boundary_bounds(s: Seq<char>, from: int)
    requires
        0 <= from,
    ensures
        from <= s.len() ==> from <= right_boundary(s, from),
        right_boundary(s, from) <= s.len(),
        from < s.len() ==> from < right_boundary(s, from),
{
    if from < s.len() {
        if from < s.len() - 1 && is_word_boundary(s[from]) && is_word_boundary(s[from + 1]) {
            lemma_run_end_bounds(s, from + 1, true);
        } else if is_word_boundary(s[from]) {
            lemma_run_end_bounds(s, from + 1, false);
        } else {
            lemma_run_end_bounds(s, from, false);
        }
    }
}

impl TextInput {
    /// Create a new `TextInput` with default values.
    pub fn new() -> (t: Self)
        ensures
            t.placeholder is None,
            t.mode == InputMode::Normal,
            t.character_index == 0,
            t.input@ == Seq::<char>::empty(),
    {
        TextInput {
            placeholder: None,
            mode: InputMode::Normal,
            character_index: 0,
            input: String::new(),
        }
    }

    /// Create a new `TextInput` with a placeholder string.
    pub fn new_with_placeholder(placeholder: String) -> (t: Self)
        ensures
            t.placeholder == Some(placeholder),
            t.mode == InputMode::Normal,
            t.character_index == 0,
            t.input@ == Seq::<char>::empty(),
    {
        TextInput {
            placeholder: Some(placeholder),
            mode: InputMode::Normal,
            character_index: 0,
            input: String::new(),
        }
    }

    /// Check if the input is currently empty.
    pub fn is_empty(&self) -> (b: bool)
        ensures
            b == (self.input@.len() == 0),
    {
        self.input.as_str().is_empty()
    }

    /// Get the current character count of the input.
    pub fn character_count(&self) -> (n: usize)
        ensures
            n == self.input@.len(),
    {
        self.input.as_str().unicode_len()
    }

    /// Clamp the given position to be within the valid range of the input.
    pub fn clamp_cursor_pos(&self, pos: usize) -> (p: usize)
        ensures
            p == clamp_to(pos as int, self.input@.len() as int),
    {
        let count = self.character_count();
        if pos <= count {
            pos
        } else {
            count
        }
    }

    /// Set the cursor position, clamped to valid range.
    pub fn set_cursor_pos(&mut self, pos: usize)
        ensures
            final(self).character_index == clamp_to(pos as int, old(self).input@.len() as int),
            final(self).input == old(self).input,
            final(self).mode == old(self).mode,
            final(self).placeholder == old(self).placeholder,
    {
        self.character_index = self.clamp_cursor_pos(pos);
    }

    /// Move the cursor position left by one, clamped to valid range.
    pub fn move_cursor_left(&mut self)
        ensures
            final(self).character_index == clamp_to(
                dec_sat(old(self).character_index),
                old(self).input@.len() as int,
            ),
            final(self).input == old(self).input,
            final(self).mode == old(self).mode,
            final(self).placeholder == old(self).placeholder,
    {
        let pos = self.character_index.saturating_sub(1);
        self.set_cursor_pos(pos);
    }

    /// Move the cursor position right by one, clamped to valid range.
    pub fn move_cursor_right(&mut self)
        ensures
            final(self).character_index == clamp_to(
                inc_sat(old(self).character_index),
                old(self).input@.len() as int,
            ),
            final(self).input == old(self).input,
            final(self).mode == old(self).mode,
            final(self).placeholder == old(self).placeholder,
    {
        let pos = self.character_index.saturating_add(1);
        self.set_cursor_pos(pos);
    }

    /// Reset the cursor position back to the start.
    pub fn reset_cursor(&mut self)
        ensures
            final(self).character_index == 0,
            final(self).input == old(self).input,
            final(self).mode == old(self).mode,
            final(self).placeholder == old(self).placeholder,
    {
        self.set_cursor_pos(0);
    }

    /// Enter a character into the text input, moving the cursor right.
    pub fn enter_char(&mut self, c: char)
        ensures
            (final(self).input@, final(self).character_index as int) == enter_char_result(
                old(self).input@,
                old(self).character_index,
                c,
            ),
            final(self).mode == old(self).mode,
            final(self).placeholder == old(self).placeholder,
    {
        let mut chars = chars_of(self.input.as_str());
        let k = if self.character_index < chars.len() {
            self.character_index
        } else {
            chars.len()
        };
        let ghost s = chars@;
        chars.insert(k, c);
        assert(chars@ =~= s.take(k as int).push(c) + s.skip(k as int));
        self.input = string_from_chars(chars.as_slice());
        self.move_cursor_right();
    }

    /// Remove the character before the cursor position, and move the cursor left.
    pub fn backspace(&mut self)
        ensures
            (final(self).input@, final(self).character_index as int) == backspace_result(
                old(self).input@,
                old(self).character_index,
            ),
            final(self).mode == old(self).mode,
            final(self).placeholder == old(self).placeholder,
    {
        if self.character_index == 0 {
            return;
        }
        let mut chars = chars_of(self.input.as_str());
        if self.character_index - 1 < chars.len() {
            let ghost s = chars@;
            let i = self.character_index;
            chars.remove(i - 1);
            assert(chars@ =~= remove_span(s, i - 1, i as int));
            self.input = string_from_chars(chars.as_slice());
            self.move_cursor_left();
        }
    }

    /// Remove the characters in positions `[start, end)` of the input.
    fn remove_chars(&mut self, start: usize, end: usize)
        requires
            start <= end <= old(self).input@.len(),
        ensures
            final(self).input@ == remove_span(old(self).input@, start as int, end as int),
            final(self).character_index == old(self).character_index,
            final(self).mode == old(self).mode,
            final(self).placeholder == old(self).placeholder,
    {
        let chars = chars_of(self.input.as_str());
        let mut out: Vec<char> = Vec::new();
        let mut j: usize = 0;
        while j < start
            invariant
                start <= end <= chars@.len(),
                j <= start,
                out@ =~= chars@.take(j as int),
            decreases start - j,
        {
            out.push(chars[j]);
            j = j + 1;
        }
        let mut j: usize = end;
        while j < chars.len()
            invariant
                start <= end <= j <= chars@.len(),
                out@ =~= chars@.take(start as int) + chars@.subrange(end as int, j as int),
            decreases chars@.len() - j,
        {
            out.push(chars[j]);
            j = j + 1;
        }
        self.input = string_from_chars(out.as_slice());
    }

    /// Remove the word before the cursor position.
    pub fn word_backspace(&mut self)
        requires
            old(self).character_index <= old(self).input@.len(),
        ensures
            old(self).character_index == 0 ==> final(self).input == old(self).input
                && final(self).character_index == 0,
            old(self).character_index > 0 ==> {
                let lb = left_boundary(old(self).input@, old(self).character_index as int);
                &&& final(self).input@ == remove_span(
                    old(self).input@,
                    lb,
                    old(self).character_index as int,
                )
                &&& final(self).character_index == lb
            },
            final(self).mode == old(self).mode,
            final(self).placeholder == old(self).placeholder,
    {
        if self.character_index == 0 {
            return;
        }
        let i = self.character_index;
        let left = self.find_left_boundary(i);
        proof {
            lemma_left_boundary_bounds(self.input@, i as int);
        }
        self.remove_chars(left, i);
        self.set_cursor_pos(left);
    }

    /// Remove the character after the cursor position.
    pub fn del(&mut self)
        ensures
            old(self).character_index < old(self).input@.len() ==> final(self).input@
                == remove_span(
                old(self).input@,
                old(self).character_index as int,
                old(self).character_index + 1,
            ),
            old(self).character_index >= old(self).input@.len() ==> final(self).input
                == old(self).input,
            final(self).character_index == old(self).character_index,
            final(self).mode == old(self).mode,
            final(self).placeholder == old(self).placeholder,
    {
        let count = self.character_count();
        if self.character_index < count {
            let i = self.character_index;
            self.remove_chars(i, i + 1);
        }
    }

    /// Remove the word after the cursor position.
    pub fn word_del(&mut self)
        ensures
            old(self).character_index >= old(self).input@.len() ==> final(self).input
                == old(self).input,
            old(self).character_index < old(self).input@.len() ==> final(self).input@
                == remove_span(
                old(self).input@,
                old(self).character_index as int,
                right_boundary(old(self).input@, old(self).character_index as int),
            ),
            final(self).character_index == old(self).character_index,
            final(self).mode == old(self).mode,
            final(self).placeholder == old(self).placeholder,
    {
        let count = self.character_count();
        if self.character_index >= count {
            return;
        }
        let i = self.character_index;
        let right = self.find_right_boundary(i);
        proof {
            lemma_right_boundary_bounds(self.input@, i as int);
        }
        self.remove_chars(i, right);
    }

    /// Ctrl + Left arrow key behaviour.
    pub fn move_cursor_left_word(&mut self)
        requires
            old(self).character_index <= old(self).input@.len(),
        ensures
            final(self).character_index == left_boundary(
                old(self).input@,
                old(self).character_index as int,
            ),
            final(self).input == old(self).input,
            final(self).mode == old(self).mode,
            final(self).placeholder == old(self).placeholder,
    {
        let left = self.find_left_boundary(self.character_index);
        proof {
            lemma_left_boundary_bounds(self.input@, self.character_index as int);
        }
        self.set_cursor_pos(left);
    }

    /// Ctrl + Right arrow key behaviour.
    pub fn move_cursor_right_word(&mut self)
        ensures
            final(self).character_index == right_boundary(
                old(self).input@,
                old(self).character_index as int,
            ),
            final(self).input == old(self).input,
            final(self).mode == old(self).mode,
            final(self).placeholder == old(self).placeholder,
    {
        let right = self.find_right_boundary(self.character_index);
        proof {
            lemma_right_boundary_bounds(self.input@, self.character_index as int);
        }
        self.set_cursor_pos(right);
    }

    /// Find the next word boundary to the left from a given index.
    pub fn find_left_boundary(&self, from_index: usize) -> (r: usize)
        requires
            from_index <= self.input@.len(),
        ensures
            r == left_boundary(self.input@, from_index as int),
    {
        if from_index == 0 {
            return 0;
        }
        let characters = chars_of(self.input.as_str());
        let n = from_index;
        if n > 1 && is_word_boundary_character(characters[n - 1]) && is_word_boundary_character(
            characters[n - 2],
        ) {
            scan_left(&characters, n - 1, true)
        } else if is_word_boundary_character(characters[n - 1]) {
            scan_left(&characters, n - 1, false)
        } else {
            scan_left(&characters, n, false)
        }
    }

    /// Find the next word boundary to the right from a given index.
    pub fn find_right_boundary(&self, from_index: usize) -> (r: usize)
        ensures
            r == right_boundary(self.input@, from_index as int),
    {
        let count = self.character_count();
        if from_index >= count {
            return count;
        }
        let characters = chars_of(self.input.as_str());
        let n = from_index;
        if n < count - 1 && is_word_boundary_character(characters[n])
            && is_word_boundary_character(characters[n + 1]) {
            scan_right(&characters, n + 1, true)
        } else if is_word_boundary_character(characters[n]) {
            scan_right(&characters, n + 1, false)
        } else {
            scan_right(&characters, n, false)
        }
    }

    /// Convert a character index range to a byte index range: each end is
    /// the byte offset of that character in the text, and an index at or past
    /// the end of the text maps to the byte length of the text.
    pub fn index_range_as_byte_range(&self, range: core::ops::Range<usize>) -> (r:
        core::ops::Range<usize>)
        requires
            utf8_len(self.input@) <= usize::MAX,
        ensures
            r.start == byte_offset(self.input@, range.start as int),
            r.end == byte_offset(self.input@, range.end as int),
    {
        let chars = chars_of(self.input.as_str());
        let total = self.input.as_str().len();
        let start_index = range.start;
        let end_index = range.end;
        let mut start_byte: usize = total;
        let mut end_byte: usize = total;
        let mut offset: usize = 0;
        let mut k: usize = 0;
        assert(chars@.take(0) =~= Seq::<char>::empty());
        assert(vstd::utf8::encode_utf8(Seq::<char>::empty()) =~= Seq::<u8>::empty());
        while k < chars.len()
            invariant
                chars@ == self.input@,
                total == utf8_len(self.input@),
                utf8_len(self.input@) <= usize::MAX,
                k <= chars@.len(),
                offset == utf8_len(chars@.take(k as int)),
                start_byte == (if start_index < k {
                    utf8_len(chars@.take(start_index as int))
                } else {
                    utf8_len(chars@)
                }),
                end_byte == (if end_index < k {
                    utf8_len(chars@.take(end_index as int))
                } else {
                    utf8_len(chars@)
                }),
            decreases chars@.len() - k,
        {
            if k == start_index {
                start_byte = offset;
            }
            if k == end_index {
                end_byte = offset;
            }
            proof {
                lemma_utf8_len_step(chars@, k as int);
                lemma_utf8_len_prefix_bound(chars@, k as int + 1);
            }
            offset = offset + utf8_width(chars[k]);
            k = k + 1;
        }
        start_byte..end_byte
    }

    /// Clear the text input.
    pub fn clear(&mut self)
        ensures
            final(self).input@ == Seq::<char>::empty(),
            final(self).character_index == 0,
            final(self).mode == old(self).mode,
            final(self).placeholder == old(self).placeholder,
    {
        self.input = String::new();
        self.reset_cursor();
    }
}


/// The edit a key press makes to a text being edited.
#[derive(Debug, Clone, Copy, PartialEq, Eq, Structural)]
pub enum TextEdit {
    /// Enter the character at the cursor.
    Insert(char),
    /// Remove the word before the cursor.
    WordBackspace,
    /// Remove all the text.
    Clear,
    /// Remove the character before the cursor.
    Backspace,
    /// Remove the word after the cursor.
    WordDelete,
    /// Remove the character at the cursor.
    Delete,
    /// Stop editing.
    FinishEditing,
    /// Move the cursor to the previous word boundary.
    WordLeft,
    /// Move the cursor left by one.
    Left,
    /// Move the cursor to the next word boundary.
    WordRight,
    /// Move the cursor right by one.
    Right,
    /// Nothing.
    Ignore,
}

/// The edit of a key press: characters are entered (but Control+V, which
/// is ignored); Control makes deletion and movement word-wise, and
/// Control+Shift+Backspace clears the text; Enter and Esc stop editing.
pub open spec fn text_edit_of(key: KeyInput, shift: bool) -> TextEdit {
    match key.code {
        KeyPress::Char(c) => if key.ctrl && (c == 'v' || c == 'V') {
            TextEdit::Ignore
        } else {
            TextEdit::Insert(c)
        },
        KeyPress::Backspace => if key.ctrl && !shift {
            TextEdit::WordBackspace
        } else if key.ctrl && shift {
            TextEdit::Clear
        } else {
            TextEdit::Backspace
        },
        KeyPress::Delete => if key.ctrl {
            TextEdit::WordDelete
        } else {
            TextEdit::Delete
        },
        KeyPress::Enter | KeyPress::Esc => TextEdit::FinishEditing,
        KeyPress::Left => if key.ctrl {
            TextEdit::WordLeft
        } else {
            TextEdit::Left
        },
        KeyPress::Right => if key.ctrl {
            TextEdit::WordRight
        } else {
            TextEdit::Right
        },
        _ => TextEdit::Ignore,
    }
}

/// The edit a key press makes to a text being edited.
pub fn text_edit_for(key: &KeyInput, shift: bool) -> (e: TextEdit)
    ensures
        e == text_edit_of(*key, shift),
{
    match key.code {
        KeyPress::Char(c) => if key.ctrl && (c == 'v' || c == 'V') {
            TextEdit::Ignore
        } else {
            TextEdit::Insert(c)
        },
        KeyPress::Backspace => if key.ctrl && !shift {
            TextEdit::WordBackspace
        } else if key.ctrl && shift {
            TextEdit::Clear
        } else {
            TextEdit::Backspace
        },
        KeyPress::Delete => if key.ctrl {
            TextEdit::WordDelete
        } else {
            TextEdit::Delete
        },
        KeyPress::Enter | KeyPress::Esc => TextEdit::FinishEditing,
        KeyPress::Left => if key.ctrl {
            TextEdit::WordLeft
        } else {
            TextEdit::Left
        },
        KeyPress::Right => if key.ctrl {
            TextEdit::WordRight
        } else {
            TextEdit::Right
        },
        _ => TextEdit::Ignore,
    }
}

/// Whether an edit needs the cursor within the text.
pub open spec fn needs_cursor_in_text(e: TextEdit) -> bool {
    e == TextEdit::WordBackspace || e == TextEdit::WordLeft
}

/// What a key press (with whether Shift was held) makes of a text input:
/// while the text is being edited, the key's edit; otherwise nothing.
pub open spec fn edited_by_key(before: TextInput, after: TextInput, key: KeyInput, shift: bool) -> bool {
    &&& after.placeholder == before.placeholder
    &&& before.mode != InputMode::Editing ==> after == before
    &&& before.mode == InputMode::Editing ==> {
        let s = before.input@;
        let i = before.character_index;
        match text_edit_of(key, shift) {
            TextEdit::Insert(c) => (after.input@, after.character_index as int) == enter_char_result(s, i, c)
                && after.mode == before.mode,
            TextEdit::WordBackspace => after.mode == before.mode && if i == 0 {
                after.input@ == s && after.character_index == 0
            } else {
                after.input@ == remove_span(s, left_boundary(s, i as int), i as int) && after.character_index
                    == left_boundary(s, i as int)
            },
            TextEdit::Clear => after.input@ == Seq::<char>::empty() && after.character_index == 0
                && after.mode == before.mode,
            TextEdit::Backspace => (after.input@, after.character_index as int) == backspace_result(s, i)
                && after.mode == before.mode,
            TextEdit::WordDelete => after.character_index == i && after.mode == before.mode && if i
                >= s.len() {
                after.input@ == s
            } else {
                after.input@ == remove_span(s, i as int, right_boundary(s, i as int))
            },
            TextEdit::Delete => after.character_index == i && after.mode == before.mode && if i
                >= s.len() {
                after.input@ == s
            } else {
                after.input@ == remove_span(s, i as int, i + 1)
            },
            TextEdit::FinishEditing => after.mode == InputMode::Normal && after.input == before.input
                && after.character_index == i,
            TextEdit::WordLeft => after.character_index == left_boundary(s, i as int) && after.input
                == before.input && after.mode == before.mode,
            TextEdit::Left => after.character_index == clamp_to(dec_sat(i), s.len() as int)
                && after.input == before.input && after.mode == before.mode,
            TextEdit::WordRight => after.character_index == right_boundary(s, i as int) && after.input
                == before.input && after.mode == before.mode,
            TextEdit::Right => after.character_index == clamp_to(inc_sat(i), s.len() as int)
                && after.input == before.input && after.mode == before.mode,
            TextEdit::Ignore => after == before,
        }
    }
}

/// Whether a key press may be handled by a text input: word-wise moves to
/// the left need the cursor within the text.
pub open spec fn key_allowed(t: TextInput, key: KeyInput, shift: bool) -> bool {
    t.mode == InputMode::Editing && needs_cursor_in_text(text_edit_of(key, shift)) ==> t.character_index
        <= t.input@.len()
}

impl TextInput {
    /// Handle a key press (with whether Shift was held): while the text is
    /// being edited, make the key's edit; otherwise do nothing.
    pub fn handle_key(&mut self, key: &KeyInput, shift: bool)
        requires
            key_allowed(*old(self), *key, shift),
        ensures
            edited_by_key(*old(self), *final(self), *key, shift),
    {
        if self.mode != InputMode::Editing {
            return;
        }
        match text_edit_for(key, shift) {
            TextEdit::Insert(c) => self.enter_char(c),
            TextEdit::WordBackspace => self.word_backspace(),
            TextEdit::Clear => self.clear(),
            TextEdit::Backspace => self.backspace(),
            TextEdit::WordDelete => self.word_del(),
            TextEdit::Delete => self.del(),
            TextEdit::FinishEditing => self.mode = InputMode::Normal,
            TextEdit::WordLeft => self.move_cursor_left_word(),
            TextEdit::Left => self.move_cursor_left(),
            TextEdit::WordRight => self.move_cursor_right_word(),
            TextEdit::Right => self.move_cursor_right(),
            TextEdit::Ignore => {},
        }
    }
}

} // verus!
