//! The console panel: whether it is shown, how far it is scrolled, and
//! which log lines it shows.

use vstd::prelude::*;

use crate::log::TuiLogger;
use crate::ui::{KeyInput, KeyPress};

verus! {

/// Widget responsible for displaying and controlling the console output panel.
#[derive(Debug)]
pub struct ConsoleWidget {
    /// Whether the console output is visible.
    pub show: bool,
    /// Current scroll offset (newest at bottom; positive values scroll upward).
    pub scroll_offset: usize,
}

/// `a + b`, or the largest `usize` when that does not fit.
pub open spec fn add_sat(a: usize, b: int) -> usize {
    if a + b > usize::MAX {
        usize::MAX
    } else {
        (a + b) as usize
    }
}

/// `a - b`, or zero when that is negative.
pub open spec fn sub_sat(a: usize, b: int) -> usize {
    if a - b < 0 {
        0
    } else {
        (a - b) as usize
    }
}

/// The scroll offset after a key press: up and `w` scroll up one line (three
/// with Control), down and `s` scroll down, page up and down ten lines (thirty
/// with Control), home goes to the newest line, end to the oldest.
pub open spec fn scroll_after(offset: usize, key: KeyInput) -> usize {
    let speed: int = if key.ctrl { 3 } else { 1 };
    match key.code {
        KeyPress::Up | KeyPress::Char('w') => add_sat(offset, speed),
        KeyPress::Down | KeyPress::Char('s') => sub_sat(offset, speed),
        KeyPress::PageUp => add_sat(offset, 10 * speed),
        KeyPress::PageDown => sub_sat(offset, 10 * speed),
        KeyPress::Home => 0,
        KeyPress::End => TuiLogger::MAX_LOG_SIZE,
        _ => offset,
    }
}

impl ConsoleWidget {
    /// Create a new console widget: hidden, not scrolled.
    pub fn new() -> (w: Self)
        ensures
            !w.show,
            w.scroll_offset == 0,
    {
        ConsoleWidget { show: false, scroll_offset: 0 }
    }

    /// Toggle visibility of the console panel.
    pub fn toggle_show(&mut self)
        ensures
            final(self).show == !old(self).show,
            final(self).scroll_offset == old(self).scroll_offset,
    {
        self.show = !self.show;
    }

    /// Set visibility explicitly.
    pub fn set_show(&mut self, show: bool)
        ensures
            final(self).show == show,
            final(self).scroll_offset == old(self).scroll_offset,
    {
        self.show = show;
    }

    /// Check if the console is visible.
    pub fn is_visible(&self) -> (b: bool)
        ensures
            b == self.show,
    {
        self.show
    }

    /// Handle key input when the console panel is active.
    pub fn handle_input(&mut self, key: &KeyInput)
        ensures
            final(self).show == old(self).show,
            final(self).scroll_offset == scroll_after(old(self).scroll_offset, *key),
    {
        let speed_multiplier: usize = if key.ctrl {
            3
        } else {
            1
        };
        match key.code {
            KeyPress::Up | KeyPress::Char('w') => {
                self.scroll_offset = self.scroll_offset.saturating_add(speed_multiplier);
            },
            KeyPress::Down | KeyPress::Char('s') => {
                self.scroll_offset = self.scroll_offset.saturating_sub(speed_multiplier);
            },
            KeyPress::PageUp => {
                self.scroll_offset = self.scroll_offset.saturating_add(10 * speed_multiplier);
            },
            KeyPress::PageDown => {
                self.scroll_offset = self.scroll_offset.saturating_sub(10 * speed_multiplier);
            },
            KeyPress::Home => {
                self.scroll_offset = 0;
            },
            KeyPress::End => {
                self.scroll_offset = TuiLogger::MAX_LOG_SIZE;
            },
            _ => {},
        }
    }

    /// The lines shown in a panel `height` rows high (two of them border)
    /// over `total_logs` lines: the scroll offset is first brought within
    /// the lines that can be scrolled, and the result is the range of line
    /// positions, counted from the oldest, that are shown.
    pub fn visible_range(&mut self, total_logs: usize, height: u16) -> (r: (usize, usize))
        ensures
            final(self).show == old(self).show,
            ({
                let visible = sub_sat(height as usize, 2);
                let max_scroll = sub_sat(total_logs, visible as int);
                let offset = if old(self).scroll_offset < max_scroll {
                    old(self).scroll_offset
                } else {
                    max_scroll
                };
                let start = max_scroll - offset;
                &&& final(self).scroll_offset == offset
                &&& r.0 == start
                &&& r.1 == (if start + visible < total_logs { start + visible } else { total_logs as int })
            }),
    {
        let visible_lines = (height as usize).saturating_sub(2);
        let max_scroll = total_logs.saturating_sub(visible_lines);
        if max_scroll < self.scroll_offset {
            self.scroll_offset = max_scroll;
        }
        let start = max_scroll - self.scroll_offset;
        let end = if visible_lines < total_logs - start {
            start + visible_lines
        } else {
            total_logs
        };
        (start, end)
    }
}

} // verus!
