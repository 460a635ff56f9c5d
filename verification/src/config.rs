//! Application configuration options.

use vstd::prelude::*;

use crate::wow::WOW_RETAIL_IDENT;

verus! {

/// Application configuration options.
#[derive(Debug, Clone)]
pub struct ChronoBindAppConfig {
    /// Whether to show friendly names for files instead of raw filenames.
    pub show_friendly_names: bool,
    /// Whether to operate in mock mode (no actual file operations).
    pub mock_mode: bool,
    /// Maximum automatic backups to keep per character; `None` keeps all.
    pub maximum_auto_backups: Option<usize>,
    /// Whether to display character levels in the UI, if available.
    pub display_character_levels: bool,
    /// Preferred branch.
    pub preferred_branch: Option<String>,
}

impl ChronoBindAppConfig {
    /// Default maximum automatic backups to keep per character.
    pub const DEFAULT_MAXIMUM_AUTO_BACKUPS: usize = 10usize;
    /// Default configuration file name.
    pub const CONFIG_FILE_NAME: &'static str = "chronobind.config";

    /// The configuration used when none was saved: friendly names shown,
    /// mock mode on, at most ten automatic backups, character levels shown,
    /// the retail branch preferred.
    pub open spec fn is_default(self) -> bool {
        &&& self.show_friendly_names
        &&& self.mock_mode
        &&& self.maximum_auto_backups == Some(10usize)
        &&& self.display_character_levels
        &&& self.preferred_branch matches Some(b) && b@ == WOW_RETAIL_IDENT@
    }

    /// A copy of this configuration.
    pub fn copy(&self) -> (r: Self)
        ensures
            r == *self,
    {
        ChronoBindAppConfig {
            show_friendly_names: self.show_friendly_names,
            mock_mode: self.mock_mode,
            maximum_auto_backups: self.maximum_auto_backups,
            display_character_levels: self.display_character_levels,
            preferred_branch: match &self.preferred_branch {
                Some(b) => Some(b.clone()),
                None => None,
            },
        }
    }

    /// The configuration loaded from the configuration file, or the default
    /// one when there was none.
    pub fn load_config_or_default(loaded: Option<Self>) -> (r: Self)
        ensures
            match loaded {
                Some(c) => r == c,
                None => r.is_default(),
            },
    {
        match loaded {
            Some(c) => c,
            None => Self::default(),
        }
    }
}

impl Default for ChronoBindAppConfig {
    fn default() -> (r: Self)
        ensures
            r.is_default(),
    {
        ChronoBindAppConfig {
            show_friendly_names: true,
            mock_mode: true,
            preferred_branch: Some(String::from_str(WOW_RETAIL_IDENT)),
            display_character_levels: true,
            maximum_auto_backups: Some(Self::DEFAULT_MAXIMUM_AUTO_BACKUPS),
        }
    }
}

} // verus!
