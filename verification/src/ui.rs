//! What the interface logic reads of the terminal: key presses, the
//! selection of a list, and text shortened to fit.

use vstd::prelude::*;

use crate::text::{chars_of, string_from_chars};

verus! {

/// A key, as the interface logic tells keys apart.
#[derive(Debug, Clone, Copy, PartialEq, Eq, Structural)]
pub enum KeyPress {
    Char(char),
    Up,
    Down,
    Left,
    Right,
    Enter,
    Esc,
    PageUp,
    PageDown,
    Home,
    End,
    Backspace,
    Delete,
    Other,
}

/// A key press, and whether Control was held.
#[derive(Debug, Clone, Copy, PartialEq, Eq, Structural)]
pub struct KeyInput {
    /// The key.
    pub code: KeyPress,
    /// Whether the Control modifier was held.
    pub ctrl: bool,
}

/// The ASCII lower-case form of a character (`char::to_ascii_lowercase`).
pub open spec fn ascii_lower(c: char) -> char {
    if 'A' <= c && c <= 'Z' {
        ((c as u32) + 32) as char
    } else {
        c
    }
}

/// A key with a character key's character lower-cased (ASCII only).
pub open spec fn lower_key(k: KeyPress) -> KeyPress {
    match k {
        KeyPress::Char(c) => KeyPress::Char(ascii_lower(c)),
        other => other,
    }
}

/// Convert a key to its lowercase equivalent if it's a character.
pub fn lower_keycode(keycode: KeyPress) -> (k: KeyPress)
    ensures
        k == lower_key(keycode),
{
    match keycode {
        KeyPress::Char(c) => {
            if 'A' <= c && c <= 'Z' {
                let lowered = ((c as u8) + 32) as char;
                KeyPress::Char(lowered)
            } else {
                KeyPress::Char(c)
            }
        },
        other => other,
    }
}

impl KeyInput {
    /// The key of this press, lower-cased if it is a character.
    pub fn keycode_lower(&self) -> (k: KeyPress)
        ensures
            k == lower_key(self.code),
    {
        lower_keycode(self.code)
    }
}

/// The selection of a list: the index of the selected row, if any. It may
/// lie past the last row until the list is drawn, which brings it back.
#[derive(Debug, Clone, Copy, PartialEq, Eq, Structural)]
pub struct ListSelection {
    /// The selected row.
    pub selected: Option<usize>,
}

impl ListSelection {
    /// No row selected.
    pub fn new() -> (s: Self)
        ensures
            s.selected is None,
    {
        ListSelection { selected: None }
    }

    /// Index of the selected row, if any.
    pub fn selected(&self) -> (r: Option<usize>)
        ensures
            r == self.selected,
    {
        self.selected
    }

    /// Sets the selected row.
    pub fn select(&mut self, index: Option<usize>)
        ensures
            final(self).selected == index,
    {
        self.selected = index;
    }

    /// Selects the next row, or the first one if none is selected.
    pub fn select_next(&mut self)
        ensures
            final(self).selected == Some(
                match old(self).selected {
                    Some(i) => if i == usize::MAX {
                        i
                    } else {
                        (i + 1) as usize
                    },
                    None => 0usize,
                },
            ),
    {
        let next = match self.selected {
            Some(i) => i.saturating_add(1),
            None => 0,
        };
        self.selected = Some(next);
    }

    /// Selects the previous row, or the last one if none is selected.
    pub fn select_previous(&mut self)
        ensures
            final(self).selected == Some(
                match old(self).selected {
                    Some(i) => if i == 0 {
                        0usize
                    } else {
                        (i - 1) as usize
                    },
                    None => usize::MAX,
                },
            ),
    {
        let previous = match self.selected {
            Some(i) => i.saturating_sub(1),
            None => usize::MAX,
        };
        self.selected = Some(previous);
    }
}

/// The text shown for `s` in at most `max_len` characters: `s` itself when
/// it fits; otherwise its first `max_len - 3` characters and `...`, or only
/// `max_len` dots when `max_len` leaves no room for more than the dots.
pub open spec fn ellipsis_text(s: Seq<char>, max_len: int) -> Seq<char> {
    if s.len() <= max_len {
        s
    } else if max_len <= 3 {
        Seq::new(max_len as nat, |i: int| '.')
    } else {
        s.take(max_len - 3) + seq!['.', '.', '.']
    }
}

/// Law: the shortened text never has more than `max_len` characters, and
/// a text that fits is left as it is.
pub proof fn law_ellipsis_fits(s: Seq<char>, max_len: int)
    requires
        max_len >= 0,
    ensures
        ellipsis_text(s, max_len).len() <= max_len,
        s.len() <= max_len ==> ellipsis_text(s, max_len) == s,
{
}

/// Truncate a string to a maximum length in characters, appending an
/// ellipsis if truncated.
pub fn truncate_with_ellipsis(s: &str, max_len: usize) -> (r: String)
    ensures
        r@ == ellipsis_text(s@, max_len as int),
{
    let cs = chars_of(s);
    if cs.len() <= max_len {
        return String::from_str(s);
    }
    if max_len <= 3 {
        let mut dots: Vec<char> = Vec::new();
        let mut i: usize = 0;
        while i < max_len
            invariant
                i <= max_len,
                dots@ == Seq::new(i as nat, |k: int| '.'),
            decreases max_len - i,
        {
            dots.push('.');
            assert(dots@ =~= Seq::new((i + 1) as nat, |k: int| '.'));
            i = i + 1;
        }
        return string_from_chars(dots.as_slice());
    }
    let mut out: Vec<char> = Vec::new();
    let mut i: usize = 0;
    while i < max_len - 3
        invariant
            max_len > 3,
            cs@.len() > max_len,
            i <= max_len - 3,
            out@ == cs@.take(i as int),
        decreases max_len - 3 - i,
    {
        out.push(cs[i]);
        assert(out@ =~= cs@.take(i as int + 1));
        i = i + 1;
    }
    out.push('.');
    out.push('.');
    out.push('.');
    assert(out@ =~= cs@.take(max_len - 3) + seq!['.', '.', '.']);
    string_from_chars(out.as_slice())
}


/// The size of a popup along one axis: `percent` of the `total` space, and
/// at least `min`.
pub fn popup_extent(total: u16, percent: u16, min: u16) -> (e: u16)
    requires
        total * percent <= u16::MAX,
    ensures
        e == (if (total * percent) / 100 >= min { (total * percent) / 100 } else { min as int }),
{
    let scaled: u16 = (total * percent) / 100;
    if scaled >= min {
        scaled
    } else {
        min
    }
}

/// How far a list of `item_count` rows in an area `area_height` rows high
/// (three of which are its border and title) can scroll.
pub fn scroll_content_length(item_count: usize, area_height: u16) -> (n: usize)
    ensures
        n == (if area_height >= 3 {
            if item_count >= area_height - 3 { item_count - (area_height - 3) } else { 0 }
        } else {
            item_count as int
        }),
{
    let height: u16 = area_height.saturating_sub(3);
    item_count.saturating_sub(height as usize)
}

} // verus!
