//! Symbols and small text pieces of the interface. Where a richer symbol
//! exists, which one is shown depends on whether the terminal can show it.

use vstd::prelude::*;

use crate::time::{BackupTime, DISPLAY_TIME_FORMAT, time_text, time_to_string};

use crate::text::{chars_of, string_from_chars};
use crate::wow::push_str_chars;

verus! {

/// A pair of symbols, in the form `(better_symbol, normal_symbol)`.
pub struct DualSymbols(pub &'static str, pub &'static str);

impl DualSymbols {
    /// The symbol to show: the better one when the terminal supports better symbols.
    pub fn get(&self, better_symbols: bool) -> (s: &'static str)
        ensures
            s == (if better_symbols { self.0 } else { self.1 }),
    {
        if better_symbols {
            self.0
        } else {
            self.1
        }
    }
}

/// Icon representing the enter key.
pub fn enter_symbol() -> (d: DualSymbols)
    ensures
        d.0@ == "↵"@,
        d.1@ == "Enter"@,
{
    DualSymbols("↵", "Enter")
}
/// Icon representing a collapsed item.
pub const COLLAPSED_ICON: &'static str = "▶";
/// Icon representing an expanded item.
pub const EXPANDED_ICON: &'static str = "▼";
/// Icon used to indicate scrolling up.
pub const SCROLL_UP_ICON: &'static str = "↑";
/// Icon used to indicate scrolling down.
pub const SCROLL_DOWN_ICON: &'static str = "↓";
/// Symbol used to highlight selected items.
pub const HIGHLIGHT_SYMBOL: &'static str = ">";
/// Reverse highlight symbol used to indicate selection.
pub const HIGHLIGHT_SYMBOL_REVERSED: &'static str = "<";
/// Symbol used to indicate selected items.
pub fn selected_symbol() -> (d: DualSymbols)
    ensures
        d.0@ == "✓"@,
        d.1@ == "X"@,
{
    DualSymbols("✓", "X")
}
/// Symbol used to indicate unselected items.
pub const UNSELECTED_SYMBOL: &'static str = " ";
/// Indentation string for nested items; one level of indentation.
pub const INDENTATION_STR: &'static str = " ";
/// Symbol used to indicate pinned items.
pub fn pinned_symbol() -> (d: DualSymbols)
    ensures
        d.0@ == "☆"@,
        d.1@ == "**"@,
{
    DualSymbols("☆", "**")
}
/// Symbol used to indicate unlimited values.
pub fn unlimited_symbol() -> (d: DualSymbols)
    ensures
        d.0@ == "∞"@,
        d.1@ == "inf"@,
{
    DualSymbols("∞", "inf")
}
/// Icon representing an addon file.
pub fn addon_file_icon() -> (d: DualSymbols)
    ensures
        d.0@ == "📦"@,
        d.1@ == "■"@,
{
    DualSymbols("📦", "■")
}
/// Icon representing a config file.
pub fn config_file_icon() -> (d: DualSymbols)
    ensures
        d.0@ == "⚙ "@,
        d.1@ == "≡"@,
{
    DualSymbols("⚙ ", "≡")
}

/// The text marking a pinned item.
pub open spec fn pinned_text(pinned: bool, better_symbols: bool) -> Seq<char> {
    if !pinned {
        ""@
    } else if better_symbols {
        "☆ "@
    } else {
        "** "@
    }
}

/// A string indicating whether an item is pinned: the pinned symbol and a
/// space when pinned, nothing otherwise.
pub fn pinned_string(pinned: bool, better_symbols: bool) -> (s: &'static str)
    ensures
        s@ == (if !pinned {
            ""@
        } else if better_symbols {
            "☆ "@
        } else {
            "** "@
        }),
{
    if pinned {
        if better_symbols {
            "☆ "
        } else {
            "** "
        }
    } else {
        ""
    }
}

/// The text of a checkbox.
pub open spec fn checkbox_text(selected: bool, better_symbols: bool) -> Seq<char> {
    if !selected {
        "[ ]"@
    } else if better_symbols {
        "[✓]"@
    } else {
        "[X]"@
    }
}

/// The hover mark before a hovered item.
pub open spec fn highlight_text(highlighted: bool) -> Seq<char> {
    if highlighted {
        "> "@
    } else {
        ""@
    }
}

/// A checkbox: `[ ]` when unselected, the selected symbol in brackets when selected.
pub fn checkbox(selected: bool, better_symbols: bool) -> (s: &'static str)
    ensures
        s@ == (if !selected {
            "[ ]"@
        } else if better_symbols {
            "[✓]"@
        } else {
            "[X]"@
        }),
{
    if selected {
        if better_symbols {
            "[✓]"
        } else {
            "[X]"
        }
    } else {
        "[ ]"
    }
}

/// The highlight symbol followed by a space if highlighted, otherwise nothing.
pub fn highlight_symbol(highlighted: bool) -> (s: &'static str)
    ensures
        s@ == (if highlighted { "> "@ } else { ""@ }),
{
    if highlighted {
        "> "
    } else {
        ""
    }
}

/// A space followed by the reversed highlight symbol if highlighted, otherwise nothing.
pub fn highlight_symbol_rev(highlighted: bool) -> (s: &'static str)
    ensures
        s@ == (if highlighted { " <"@ } else { ""@ }),
{
    if highlighted {
        " <"
    } else {
        ""
    }
}

/// Text preceded by the highlight symbol if highlighted.
pub fn highlight_str(text: &str, highlighted: bool) -> (s: String)
    ensures
        s@ == (if highlighted { "> "@ } else { ""@ }) + text@,
{
    let mut out = chars_of(highlight_symbol(highlighted));
    push_str_chars(&mut out, text);
    string_from_chars(out.as_slice())
}

/// Text wrapped in the highlight symbols if highlighted.
pub fn dual_highlight_str(text: &str, highlighted: bool) -> (s: String)
    ensures
        s@ == (if highlighted { "> "@ } else { ""@ }) + text@ + (if highlighted {
            " <"@
        } else {
            ""@
        }),
{
    let mut out = chars_of(highlight_symbol(highlighted));
    push_str_chars(&mut out, text);
    push_str_chars(&mut out, highlight_symbol_rev(highlighted));
    string_from_chars(out.as_slice())
}

/// The expandable icon: the collapsed icon when collapsed, the expanded one otherwise.
pub fn expandable_icon(collapsed: bool) -> (s: &'static str)
    ensures
        s == (if collapsed { COLLAPSED_ICON } else { EXPANDED_ICON }),
{
    if collapsed {
        COLLAPSED_ICON
    } else {
        EXPANDED_ICON
    }
}

/// Indentation for `indent_level` levels: that many spaces.
pub fn indentation(indent_level: usize) -> (s: String)
    ensures
        s@ == Seq::new(indent_level as nat, |i: int| ' '),
{
    let mut out: Vec<char> = Vec::new();
    let mut i: usize = 0;
    while i < indent_level
        invariant
            i <= indent_level,
            out@ == Seq::new(i as nat, |k: int| ' '),
        decreases indent_level - i,
    {
        out.push(' ');
        assert(out@ =~= Seq::new((i + 1) as nat, |k: int| ' '));
        i = i + 1;
    }
    string_from_chars(out.as_slice())
}

/// Format an optional text for display: the text, or `None`.
pub fn format_option(opt: Option<&String>) -> (s: String)
    ensures
        match opt {
            Some(t) => s@ == t@,
            None => s@ == "None"@,
        },
{
    match opt {
        Some(t) => t.clone(),
        None => String::from_str("None"),
    }
}


/// Format a backup time for display (day/month/year hour:minute).
pub fn display_backup_time(t: &BackupTime) -> (s: String)
    ensures
        s@ == time_text(*t, DISPLAY_TIME_FORMAT@),
{
    time_to_string(t, DISPLAY_TIME_FORMAT)
}

} // verus!
