//! The in-memory log shown by the console panel: newest line first, at
//! most a fixed number of lines.

use vstd::prelude::*;

use crate::text::{chars_of, split_chars, split_on, string_from_chars};

verus! {

/// The level of a log message.
#[derive(Debug, Clone, Copy, PartialEq, Eq, Structural)]
pub enum LogLevel {
    Error,
    Warn,
    Info,
    Debug,
    Trace,
}

impl LogLevel {
    /// The name of the level, as log messages show it.
    pub open spec fn spec_name(self) -> Seq<char> {
        match self {
            LogLevel::Error => "ERROR"@,
            LogLevel::Warn => "WARN"@,
            LogLevel::Info => "INFO"@,
            LogLevel::Debug => "DEBUG"@,
            LogLevel::Trace => "TRACE"@,
        }
    }

    /// The name of the level, as log messages show it.
    pub fn name(&self) -> (s: &'static str)
        ensures
            s@ == self.spec_name(),
    {
        match self {
            LogLevel::Error => "ERROR",
            LogLevel::Warn => "WARN",
            LogLevel::Info => "INFO",
            LogLevel::Debug => "DEBUG",
            LogLevel::Trace => "TRACE",
        }
    }
}

/// One line of the log.
#[derive(Debug, Clone)]
pub struct TuiLogLine {
    /// The log message.
    pub content: String,
    /// The log level message.
    pub level: LogLevel,
}

impl TuiLogLine {
    /// Get the content of the log line.
    pub fn content(&self) -> (s: &str)
        ensures
            s@ == self.content@,
    {
        self.content.as_str()
    }

    /// Get the log level of the log line.
    pub fn level(&self) -> (l: LogLevel)
        ensures
            l == self.level,
    {
        self.level
    }
}

/// `t` without a final `\r`.
pub open spec fn strip_cr(t: Seq<char>) -> Seq<char> {
    if t.len() > 0 && t.last() == '\r' {
        t.drop_last()
    } else {
        t
    }
}

/// The lines of a text as `str::lines` documents them: split at `\n`, a
/// `\r` before a `\n` dropped, and no empty line after a final `\n`.
pub open spec fn text_lines(s: Seq<char>) -> Seq<Seq<char>> {
    let pieces = split_on(s, '\n');
    let body = pieces.drop_last().map_values(|p: Seq<char>| strip_cr(p));
    if pieces.last().len() == 0 {
        body
    } else {
        body.push(pieces.last())
    }
}

/// The lines of a text, as `str::lines` gives them.
pub fn lines_of(text: &Vec<char>) -> (r: Vec<Vec<char>>)
    ensures
        r@.len() == text_lines(text@).len(),
        forall|i: int| 0 <= i < r@.len() ==> #[trigger] r@[i]@ == text_lines(text@)[i],
{
    let pieces = split_chars(text, '\n');
    let ghost ps = split_on(text@, '\n');
    proof {
        crate::text::lemma_split_on_nonempty(text@, '\n');
    }
    let n = pieces.len();
    let count: usize = if pieces[n - 1].len() == 0 {
        n - 1
    } else {
        n
    };
    let ghost lines = text_lines(text@);
    assert(lines.len() == count);
    let mut out: Vec<Vec<char>> = Vec::new();
    let mut i: usize = 0;
    while i < count
        invariant
            i <= count,
            count <= n,
            n == ps.len(),
            count == lines.len(),
            lines == text_lines(text@),
            ps == split_on(text@, '\n'),
            pieces@.len() == n,
            forall|j: int| 0 <= j < n ==> #[trigger] pieces@[j]@ == ps[j],
            out@.len() == i,
            forall|j: int| 0 <= j < i ==> #[trigger] out@[j]@ == lines[j],
        decreases count - i,
    {
        let piece = &pieces[i];
        let mut l: Vec<char> = Vec::new();
        let strip = i + 1 < n && piece.len() > 0 && piece[piece.len() - 1] == '\r';
        let m = if strip {
            piece.len() - 1
        } else {
            piece.len()
        };
        let mut k: usize = 0;
        while k < m
            invariant
                m <= piece@.len(),
                k <= m,
                l@ == piece@.take(k as int),
            decreases m - k,
        {
            l.push(piece[k]);
            assert(l@ =~= piece@.take(k as int + 1));
            k = k + 1;
        }
        proof {
            if strip {
                assert(l@ =~= piece@.drop_last());
            } else {
                assert(l@ =~= piece@);
            }
        }
        assert(l@ == lines[i as int]);
        out.push(l);
        i = i + 1;
    }
    out
}

/// The lines shown for a message at a level: the lines of `[LEVEL] message`.
pub open spec fn message_lines(level: LogLevel, message: Seq<char>) -> Seq<Seq<char>> {
    text_lines(seq!['['] + level.spec_name() + seq![']', ' '] + message)
}

/// The in-memory log: newest line first.
#[derive(Debug)]
pub struct TuiLogger {
    /// The lines, newest first.
    pub logs: Vec<TuiLogLine>,
}

impl TuiLogger {
    /// Maximum number of log lines to keep in memory.
    pub const MAX_LOG_SIZE: usize = 1000usize;

    /// An empty log.
    pub fn new() -> (l: Self)
        ensures
            l.logs@.len() == 0,
    {
        TuiLogger { logs: Vec::new() }
    }

    /// Records a message: each of its lines (with the level name in front
    /// of the first) goes to the front of the log, the last line first, and
    /// the oldest lines are dropped beyond `MAX_LOG_SIZE`.
    pub fn log(&mut self, level: LogLevel, message: &str)
        ensures
            final(self).logs@.len() <= Self::MAX_LOG_SIZE,
            final(self).logs@.len() == (if message_lines(level, message@).len() + old(self).logs@.len()
                > Self::MAX_LOG_SIZE {
                Self::MAX_LOG_SIZE as int
            } else {
                (message_lines(level, message@).len() + old(self).logs@.len()) as int
            }),
            forall|i: int|
                0 <= i < final(self).logs@.len() && i < message_lines(level, message@).len() ==> {
                    &&& (#[trigger] final(self).logs@[i]).content@ == message_lines(level, message@)[message_lines(level, message@).len() - 1 - i]
                    &&& final(self).logs@[i].level == level
                },
            forall|i: int|
                message_lines(level, message@).len() <= i < final(self).logs@.len() ==> {
                    &&& (#[trigger] final(self).logs@[i]).content@ == old(self).logs@[i - message_lines(level, message@).len()].content@
                    &&& final(self).logs@[i].level == old(self).logs@[i - message_lines(level, message@).len()].level
                },
            ({
                let lines = message_lines(level, message@);
                let all = lines.reverse().map_values(|t: Seq<char>| (t, level)) + old(
                    self,
                ).logs@.map_values(|l: TuiLogLine| (l.content@, l.level));
                final(self).logs@.map_values(|l: TuiLogLine| (l.content@, l.level)) == all.take(
                    if all.len() > Self::MAX_LOG_SIZE {
                        Self::MAX_LOG_SIZE as int
                    } else {
                        all.len() as int
                    },
                )
            }),
    {
        let mut text = chars_of("[");
        let mut name = chars_of(level.name());
        text.append(&mut name);
        text.push(']');
        text.push(' ');
        let mut msg = chars_of(message);
        text.append(&mut msg);
        let ghost full = seq!['['] + level.spec_name() + seq![']', ' '] + message@;
        proof {
            reveal_strlit("[");
        }
        assert(text@ =~= full);
        let lines_v = lines_of(&text);
        let count = lines_v.len();
        let ghost lines = message_lines(level, message@);
        let ghost olds = self.logs@.map_values(|l: TuiLogLine| (l.content@, l.level));
        let mut i: usize = 0;
        while i < count
            invariant
                i <= count,
                count == lines.len(),
                lines == message_lines(level, message@),
                lines == text_lines(full),
                lines_v@.len() == count,
                forall|j: int| 0 <= j < count ==> #[trigger] lines_v@[j]@ == lines[j],
                self.logs@.map_values(|l: TuiLogLine| (l.content@, l.level)) == lines.take(
                    i as int,
                ).reverse().map_values(|t: Seq<char>| (t, level)) + olds,
            decreases count - i,
        {
            let ghost before = self.logs@;
            self.logs.insert(0, TuiLogLine { content: string_from_chars(lines_v[i].as_slice()), level });
            assert(lines.take(i as int + 1).reverse() =~= seq![lines[i as int]] + lines.take(i as int).reverse());
            assert(self.logs@.map_values(|l: TuiLogLine| (l.content@, l.level)) =~= seq![(lines[i as int], level)] + before.map_values(|l: TuiLogLine| (l.content@, l.level)));
            i = i + 1;
        }
        assert(lines.take(count as int) =~= lines);
        let ghost all = self.logs@.map_values(|l: TuiLogLine| (l.content@, l.level));
        while self.logs.len() > Self::MAX_LOG_SIZE
            invariant
                all.len() >= self.logs@.len(),
                self.logs@.map_values(|l: TuiLogLine| (l.content@, l.level)) == all.take(self.logs@.len() as int),
                self.logs@.len() >= Self::MAX_LOG_SIZE || self.logs@.len() == all.len(),
            decreases self.logs@.len(),
        {
            self.logs.pop();
            assert(self.logs@.map_values(|l: TuiLogLine| (l.content@, l.level)) =~= all.take(self.logs@.len() as int));
        }
        assert(all.take(all.len() as int) =~= all);
        proof {
            let k = lines.len() as int;
            let fin = self.logs@;
            let fm = fin.map_values(|l: TuiLogLine| (l.content@, l.level));
            assert(all == lines.reverse().map_values(|t: Seq<char>| (t, level)) + olds);
            assert forall|i: int| 0 <= i < fin.len() implies #[trigger] fm[i] == all[i] && fm[i] == (fin[i].content@, fin[i].level) by {
                assert(fm[i] == all.take(fin.len() as int)[i]);
            }
            assert forall|i: int| 0 <= i < fin.len() && i < k implies {
                &&& (#[trigger] fin[i]).content@ == lines[k - 1 - i]
                &&& fin[i].level == level
            } by {
                assert(fm[i] == all[i]);
                assert(all[i] == lines.reverse().map_values(|t: Seq<char>| (t, level))[i]);
            }
            assert forall|i: int| k <= i < fin.len() implies {
                &&& (#[trigger] fin[i]).content@ == old(self).logs@[i - k].content@
                &&& fin[i].level == old(self).logs@[i - k].level
            } by {
                assert(fm[i] == all[i]);
                assert(all[i] == olds[i - k]);
            }
        }
    }
}

} // verus!
