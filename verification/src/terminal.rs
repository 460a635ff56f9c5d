use vstd::prelude::*;

use crate::text::chars_of;
use crate::wow::{lowercase_of, str_lowercase};

verus! {

/// The kind of terminal the application is running in.
#[derive(Debug, Clone, Copy, PartialEq, Eq, Structural)]
pub enum TerminalType {
    /// Standard terminal.
    Standard,
    /// Windows Terminal.
    WindowsTerminal,
    /// VS Code Terminal.
    VSCodeTerminal,
}

impl TerminalType {
    /// Whether this terminal can show the richer symbol set.
    pub open spec fn spec_supports_better_symbols(self) -> bool {
        self is WindowsTerminal || self is VSCodeTerminal
    }

    /// Returns `true` if the terminal supports better symbols.
    pub fn supports_better_symbols(&self) -> (b: bool)
        ensures
            b == self.spec_supports_better_symbols(),
    {
        match self {
            TerminalType::WindowsTerminal | TerminalType::VSCodeTerminal => true,
            TerminalType::Standard => false,
        }
    }

    /// A human-readable name for the terminal type.
    pub fn name(&self) -> (s: &'static str)
        ensures
            s@ == (match self {
                TerminalType::Standard => "Standard Terminal"@,
                TerminalType::WindowsTerminal => "Windows Terminal"@,
                TerminalType::VSCodeTerminal => "VS Code Terminal"@,
            }),
    {
        match self {
            TerminalType::Standard => "Standard Terminal",
            TerminalType::WindowsTerminal => "Windows Terminal",
            TerminalType::VSCodeTerminal => "VS Code Terminal",
        }
    }
}

/// Whether `needle` occurs in `hay`.
pub open spec fn contains_text(hay: Seq<char>, needle: Seq<char>) -> bool {
    exists|i: int| 0 <= i && i + needle.len() <= hay.len() && #[trigger] hay.subrange(i, i + needle.len()) == needle
}

/// Whether `needle` occurs in `hay`.
pub fn text_contains(hay: &str, needle: &str) -> (b: bool)
    ensures
        b == contains_text(hay@, needle@),
{
    let h = chars_of(hay);
    let n = chars_of(needle);
    if n.len() > h.len() {
        return false;
    }
    let limit = h.len() - n.len();
    let hl = h.len();
    let mut i: usize = 0;
    loop
        invariant
            h@ == hay@,
            n@ == needle@,
            hl == h@.len(),
            limit == h@.len() - n@.len(),
            i <= limit,
            forall|j: int| 0 <= j < i ==> #[trigger] h@.subrange(j, j + n@.len()) != n@,
        decreases limit - i,
    {
        let mut k: usize = 0;
        let mut same = true;
        assert(h@.subrange(i as int, i as int) =~= n@.take(0));
        while k < n.len()
            invariant
                i + n@.len() <= h@.len(),
                hl == h@.len(),
                k <= n@.len(),
                same == (h@.subrange(i as int, i + k) == n@.take(k as int)),
            decreases n@.len() - k,
        {
            if same && h[i + k] != n[k] {
                same = false;
                assert(h@.subrange(i as int, i + k + 1)[k as int] != n@.take(k as int + 1)[k as int]);
            } else if same {
                assert(h@.subrange(i as int, i + k + 1) =~= h@.subrange(i as int, i + k).push(h@[i + k]));
                assert(n@.take(k as int + 1) =~= n@.take(k as int).push(n@[k as int]));
            } else {
                assert(h@.subrange(i as int, i + k) =~= h@.subrange(i as int, i + k + 1).drop_last());
                assert(n@.take(k as int) =~= n@.take(k as int + 1).drop_last());
            }
            k = k + 1;
        }
        assert(n@.take(n@.len() as int) =~= n@);
        if same {
            return true;
        }
        if i == limit {
            return false;
        }
        i = i + 1;
    }
}

/// The terminal the application runs in, from what the environment says:
/// Windows Terminal sets `WT_SESSION`; VS Code sets a `TERM_PROGRAM` that
/// holds `vscode`, in any case.
pub fn detect_terminal_type(wt_session_set: bool, term_program: Option<&str>) -> (t: TerminalType)
    ensures
        wt_session_set ==> t == TerminalType::WindowsTerminal,
        !wt_session_set ==> (t == (if term_program matches Some(p) && contains_text(
            str_lowercase(p@),
            "vscode"@,
        ) {
            TerminalType::VSCodeTerminal
        } else {
            TerminalType::Standard
        })),
{
    if wt_session_set {
        return TerminalType::WindowsTerminal;
    }
    match term_program {
        Some(p) => {
            let lower = lowercase_of(p);
            if text_contains(lower.as_str(), "vscode") {
                TerminalType::VSCodeTerminal
            } else {
                TerminalType::Standard
            }
        },
        None => TerminalType::Standard,
    }
}

} // verus!
