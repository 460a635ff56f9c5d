//! Command-line arguments, and whether to relaunch in another terminal.

use vstd::prelude::*;

verus! {

/// Terminals the application can relaunch itself in.
#[derive(Debug, Clone, Copy, PartialEq, Eq, Structural)]
pub enum TargetTerminal {
    /// `Windows Terminal`. (terminal app from Microsoft Store `wt.exe`)
    WindowsTerminal,
    /// Third party `MacOS` terminal `iTerm2`.
    ITerm2,
    /// Third party `MacOS` terminal `Kitty`.
    Kitty,
    /// Third party `MacOS` terminal `Ghostty`.
    Ghostty,
    /// Third party terminal `WezTerm`.
    WezTerm,
    /// Third party terminal `Alacritty`.
    Alacritty,
}

/// CLI arguments for `ChronoBind` application.
#[derive(Debug, Clone)]
pub struct ChronoCLIArgs {
    /// Optional file path to open in the import window on startup.
    pub file_to_import: Option<String>,
    /// Disable relaunching in a terminal.
    pub no_relaunch: bool,
    /// Set a preferred terminal, will relaunch in this terminal if available.
    /// This flag is ignored if `--no-relaunch` is also set.
    pub terminal: Option<TargetTerminal>,
    /// Only relaunch if the preferred terminal is available,
    /// do not relaunch in any other terminal.
    pub preferred_only: bool,
    /// Flag to signal if the terminal has been relaunched.
    pub relaunched: bool,
}

impl ChronoCLIArgs {
    /// Check if the application has been relaunched in a new terminal.
    pub fn has_relaunched(&self) -> (b: bool)
        ensures
            b == self.relaunched,
    {
        self.relaunched
    }

    /// Check if the current terminal does not match the preferred terminal
    /// and should relaunch. `current` is the terminal running now, when it
    /// is one of the target terminals.
    pub fn should_relaunch(&self, current: Option<TargetTerminal>) -> (b: bool)
        ensures
            b == (self.terminal matches Some(t) && current != Some(t)),
    {
        match self.terminal {
            Some(t) => match current {
                Some(c) => c != t,
                None => true,
            },
            None => false,
        }
    }
}

} // verus!
