//! The options popup: the options it lists, and what a key press does to
//! the configuration.

use vstd::prelude::*;

use crate::config::ChronoBindAppConfig;
use crate::palette::{checkbox, checkbox_text, highlight_symbol, highlight_text, unlimited_symbol};
use crate::text::{chars_of, decimal_digits, decimal_text, string_from_chars};
use crate::ui::{KeyInput, KeyPress, ListSelection, lower_key};
use crate::wow::{WoWInstall, WoWInstalls, branch_matches, branch_title, WOW_RETAIL_IDENT, push_str_chars};

verus! {

/// Commands that can be issued from the options popup.
#[derive(Debug, Clone)]
pub enum OptionsPopupCommand {
    /// Command to update the app configuration with new settings.
    UpdateConfiguration(ChronoBindAppConfig),
}

/// The options listed in the options popup.
#[derive(Debug, Clone, Copy, PartialEq, Eq, Structural)]
pub enum OptionKind {
    ShowFriendlyNames,
    MockMode,
    MaximumAutoBackups,
    PreferredBranch,
}

/// The options, in the order listed.
pub open spec fn options_list() -> Seq<OptionKind> {
    seq![
        OptionKind::ShowFriendlyNames,
        OptionKind::MockMode,
        OptionKind::MaximumAutoBackups,
        OptionKind::PreferredBranch,
    ]
}

impl OptionKind {
    /// Get the list of available options.
    pub fn get_options_list() -> (v: Vec<OptionKind>)
        ensures
            v@ == options_list(),
    {
        let mut v: Vec<OptionKind> = Vec::new();
        v.push(OptionKind::ShowFriendlyNames);
        v.push(OptionKind::MockMode);
        v.push(OptionKind::MaximumAutoBackups);
        v.push(OptionKind::PreferredBranch);
        assert(v@ =~= options_list());
        v
    }

    /// The title of an option.
    pub open spec fn spec_title(self) -> Seq<char> {
        match self {
            OptionKind::ShowFriendlyNames => "Show friendly file names"@,
            OptionKind::MockMode => "Mock mode (Don't perform file operations)"@,
            OptionKind::MaximumAutoBackups => "Maximum allowed automatic backups"@,
            OptionKind::PreferredBranch => "Preferred WoW branch"@,
        }
    }

    /// Get the display title for the option.
    pub fn title(&self) -> (s: &'static str)
        ensures
            s@ == self.spec_title(),
    {
        match self {
            OptionKind::ShowFriendlyNames => "Show friendly file names",
            OptionKind::MockMode => "Mock mode (Don't perform file operations)",
            OptionKind::MaximumAutoBackups => "Maximum allowed automatic backups",
            OptionKind::PreferredBranch => "Preferred WoW branch",
        }
    }

    /// Generate the bottom bar segments for the hovered option: toggles
    /// name the keys that toggle them (with `enter_symbol` for the enter
    /// key), the others the keys that adjust them.
    pub fn get_bottom_bar_segments(&self, enter_symbol: &str) -> (v: Vec<String>)
        ensures
            v@.len() == 1,
            (*self == OptionKind::ShowFriendlyNames || *self == OptionKind::MockMode) ==> v@[0]@
                == enter_symbol@ + "/→/Space: Toggle"@,
            (*self == OptionKind::MaximumAutoBackups || *self == OptionKind::PreferredBranch)
                ==> v@[0]@ == "←/→: Adjust"@,
    {
        let mut v: Vec<String> = Vec::new();
        match self {
            OptionKind::ShowFriendlyNames | OptionKind::MockMode => {
                let mut out = chars_of(enter_symbol);
                push_str_chars(&mut out, "/→/Space: Toggle");
                v.push(string_from_chars(out.as_slice()));
            },
            OptionKind::MaximumAutoBackups | OptionKind::PreferredBranch => {
                v.push(String::from_str("←/→: Adjust"));
            },
        }
        v
    }
}

/// The maximum of automatic backups one step down: one less, and from zero
/// to no maximum; whether it changed (it does not without a maximum).
pub open spec fn decremented_max(m: Option<usize>) -> (Option<usize>, bool) {
    match m {
        Some(c) => if c > 0 {
            (Some((c - 1) as usize), true)
        } else {
            (None, true)
        },
        None => (None, false),
    }
}

/// The maximum of automatic backups one step up: one more, and from no
/// maximum to zero.
pub open spec fn incremented_max(m: Option<usize>) -> Option<usize> {
    match m {
        Some(c) => Some((c + 1) as usize),
        None => Some(0usize),
    }
}

/// Law: adjusting the maximum of automatic backups down and then up, or up
/// and then down, gives back the maximum it was (when there is one to
/// adjust down from; adjusting up always changes it).
pub proof fn law_max_backups_adjust_roundtrip(m: Option<usize>)
    ensures
        m is Some ==> incremented_max(decremented_max(m).0) == m,
        m != Some(usize::MAX) ==> decremented_max(incremented_max(m)).0 == m,
{
}

/// The position of the first installation of the branch `b`, ignoring case.
pub open spec fn branch_position(installs: Seq<WoWInstall>, b: Seq<char>) -> Option<int> {
    if exists|k: int| 0 <= k < installs.len() && branch_matches(#[trigger] installs[k], b) {
        Some(
            choose|k: int|
                0 <= k < installs.len() && branch_matches(#[trigger] installs[k], b) && forall|
                    j: int,
                | 0 <= j < k ==> !branch_matches(#[trigger] installs[j], b),
        )
    } else {
        None
    }
}

/// Popup for configuring options of `ChronoBind`.
#[derive(Debug, Clone)]
pub struct OptionsPopup {
    /// The current application configuration.
    pub configuration: ChronoBindAppConfig,
    /// The currently selected `WoW` branch.
    pub selected_branch: Option<String>,
    /// Detected `WoW` branches.
    pub branches: WoWInstalls,
    /// Whether the popup should close.
    pub close: bool,
    /// The hovered option.
    pub state: ListSelection,
    /// Commands issued by the popup.
    pub commands: Vec<OptionsPopupCommand>,
}

impl OptionsPopup {
    /// The hovered option's position, the first one when none is.
    pub open spec fn hovered(self) -> int {
        match self.state.selected {
            Some(i) => i as int,
            None => 0,
        }
    }

    /// The hovered option, if the hovered position holds one.
    pub open spec fn hovered_option(self) -> Option<OptionKind> {
        if 0 <= self.hovered() < 4 {
            Some(options_list()[self.hovered()])
        } else {
            None
        }
    }

    /// The position of the preferred branch among the installations.
    pub open spec fn preferred_position(self) -> Option<int> {
        match self.configuration.preferred_branch {
            Some(b) => branch_position(self.branches.installs@, b@),
            None => None,
        }
    }

    /// `self` is `old` with the configuration `cfg`, one configuration
    /// update issued with it when `pushed`, and the hovered option and the
    /// closing state kept.
    pub open spec fn updated_from(self, old: OptionsPopup, cfg: ChronoBindAppConfig, pushed: bool) -> bool {
        &&& self.configuration == cfg
        &&& self.commands@ == (if pushed {
            old.commands@.push(OptionsPopupCommand::UpdateConfiguration(cfg))
        } else {
            old.commands@
        })
        &&& self.state == old.state
        &&& self.close == old.close
        &&& self.branches == old.branches
        &&& self.selected_branch == old.selected_branch
    }

    /// The popup opened on `config`, hovering the first option.
    pub fn new(config: ChronoBindAppConfig, branches: WoWInstalls, selected_branch: Option<String>) -> (p:
        Self)
        ensures
            p.configuration == config,
            p.branches == branches,
            p.selected_branch == selected_branch,
            !p.close,
            p.state.selected == Some(0usize),
            p.commands@.len() == 0,
    {
        let mut list_state = ListSelection::new();
        list_state.select(Some(0));
        OptionsPopup {
            configuration: config,
            selected_branch,
            branches,
            close: false,
            state: list_state,
            commands: Vec::new(),
        }
    }

    /// Push a command to the popup's command list.
    pub fn push_command(&mut self, command: OptionsPopupCommand)
        ensures
            final(self).commands@ == old(self).commands@.push(command),
            final(self).configuration == old(self).configuration,
            final(self).state == old(self).state,
            final(self).close == old(self).close,
            final(self).branches == old(self).branches,
            final(self).selected_branch == old(self).selected_branch,
    {
        self.commands.push(command);
    }

    /// Push a command to the popup's command list and close the popup.
    pub fn push_command_close(&mut self, command: OptionsPopupCommand)
        ensures
            final(self).commands@ == old(self).commands@.push(command),
            final(self).configuration == old(self).configuration,
            final(self).state == old(self).state,
            final(self).close,
            final(self).branches == old(self).branches,
            final(self).selected_branch == old(self).selected_branch,
    {
        self.push_command(command);
        self.close = true;
    }

    /// Push an update configuration command to the popup's command list.
    pub fn push_update_command(&mut self)
        ensures
            final(self).updated_from(*old(self), old(self).configuration, true),
    {
        let cfg = self.configuration.copy();
        self.push_command(OptionsPopupCommand::UpdateConfiguration(cfg));
    }

    /// Flip a toggle option (friendly names, mock mode) and issue the new
    /// configuration; other options are not toggles and nothing happens.
    pub fn interact_with_option(&mut self, option: &OptionKind)
        ensures
            *option == OptionKind::ShowFriendlyNames ==> final(self).updated_from(
                *old(self),
                ChronoBindAppConfig {
                    show_friendly_names: !old(self).configuration.show_friendly_names,
                    ..old(self).configuration
                },
                true,
            ),
            *option == OptionKind::MockMode ==> final(self).updated_from(
                *old(self),
                ChronoBindAppConfig {
                    mock_mode: !old(self).configuration.mock_mode,
                    ..old(self).configuration
                },
                true,
            ),
            (*option == OptionKind::MaximumAutoBackups || *option == OptionKind::PreferredBranch)
                ==> final(self).updated_from(*old(self), old(self).configuration, false),
    {
        match option {
            OptionKind::ShowFriendlyNames => {
                self.configuration.show_friendly_names = !self.configuration.show_friendly_names;
                self.push_update_command();
            },
            OptionKind::MockMode => {
                self.configuration.mock_mode = !self.configuration.mock_mode;
                self.push_update_command();
            },
            _ => {},
        }
    }

    /// Get the currently selected index in the options menu.
    pub fn selected_index(&self) -> (i: usize)
        ensures
            i == self.hovered(),
    {
        match self.state.selected() {
            Some(i) => i,
            None => 0,
        }
    }

    /// Get the currently selected option in the options menu.
    pub fn selected_option(&self) -> (o: Option<OptionKind>)
        ensures
            o == self.hovered_option(),
    {
        let options = OptionKind::get_options_list();
        let i = self.selected_index();
        if i < options.len() {
            Some(options[i])
        } else {
            None
        }
    }

    /// Decrement the maximum automatic backups setting: one less, and from
    /// zero to no maximum. Returns `true` if the setting was changed.
    pub fn decrement_max_auto_backups(&mut self) -> (changed: bool)
        ensures
            changed == decremented_max(old(self).configuration.maximum_auto_backups).1,
            final(self).updated_from(
                *old(self),
                ChronoBindAppConfig {
                    maximum_auto_backups: decremented_max(
                        old(self).configuration.maximum_auto_backups,
                    ).0,
                    ..old(self).configuration
                },
                false,
            ),
    {
        if let Some(current) = self.configuration.maximum_auto_backups {
            if current > 0 {
                self.configuration.maximum_auto_backups = Some(current - 1);
            } else {
                self.configuration.maximum_auto_backups = None;
            }
            return true;
        }
        false
    }

    /// Increment the maximum automatic backups setting: one more, and from
    /// no maximum to zero. Returns `true` as the setting always changes.
    pub fn increment_max_auto_backups(&mut self) -> (changed: bool)
        requires
            old(self).configuration.maximum_auto_backups != Some(usize::MAX),
        ensures
            changed,
            final(self).updated_from(
                *old(self),
                ChronoBindAppConfig {
                    maximum_auto_backups: incremented_max(
                        old(self).configuration.maximum_auto_backups,
                    ),
                    ..old(self).configuration
                },
                false,
            ),
    {
        if let Some(current) = self.configuration.maximum_auto_backups {
            self.configuration.maximum_auto_backups = Some(current + 1);
        } else {
            self.configuration.maximum_auto_backups = Some(0);
        }
        true
    }

    /// Find the position of the preferred `WoW` branch among the installations.
    pub fn get_selected_branch_index(&self) -> (r: Option<usize>)
        ensures
            match r {
                Some(i) => self.preferred_position() == Some(i as int) && i < self.branches.installs@.len(),
                None => self.preferred_position() is None,
            },
    {
        match &self.configuration.preferred_branch {
            Some(b) => {
                let r = self.branches.find_branch_index(b.as_str());
                proof {
                    let bs = self.branches.installs@;
                    match r {
                        Some(k) => {
                            let c = choose|c: int|
                                0 <= c < bs.len() && branch_matches(#[trigger] bs[c], b@) && forall|
                                    j: int,
                                | 0 <= j < c ==> !branch_matches(#[trigger] bs[j], b@);
                            if c < k {
                                assert(!branch_matches(bs[c], b@));
                            } else if c > k {
                                assert(!branch_matches(bs[k as int], b@));
                            }
                        },
                        None => {},
                    }
                }
                r
            },
            None => None,
        }
    }

    /// Select the next `WoW` branch in the list, from the last to the
    /// first. Returns `false`, changing nothing, when the preferred branch
    /// is not installed.
    pub fn select_next_branch(&mut self) -> (changed: bool)
        ensures
            changed == (old(self).preferred_position() is Some),
            match old(self).preferred_position() {
                Some(i) => final(self).updated_from(
                    *old(self),
                    ChronoBindAppConfig {
                        preferred_branch: Some(
                            old(self).branches.installs@[(i + 1) % old(
                                self,
                            ).branches.installs@.len() as int].branch_ident,
                        ),
                        ..old(self).configuration
                    },
                    false,
                ),
                None => final(self).updated_from(*old(self), old(self).configuration, false),
            },
    {
        if let Some(current_index) = self.get_selected_branch_index() {
            let n = self.branches.len();
            let next_index = (current_index + 1) % n;
            let next_branch_ident = self.branches.installs[next_index].branch_ident.clone();
            self.configuration.preferred_branch = Some(next_branch_ident);
            return true;
        }
        false
    }

    /// Select the previous `WoW` branch in the list, from the first to the
    /// last. Returns `false`, changing nothing, when the preferred branch is
    /// not installed.
    pub fn select_previous_branch(&mut self) -> (changed: bool)
        ensures
            changed == (old(self).preferred_position() is Some),
            match old(self).preferred_position() {
                Some(i) => final(self).updated_from(
                    *old(self),
                    ChronoBindAppConfig {
                        preferred_branch: Some(
                            old(self).branches.installs@[if i == 0 {
                                old(self).branches.installs@.len() - 1
                            } else {
                                i - 1
                            }].branch_ident,
                        ),
                        ..old(self).configuration
                    },
                    false,
                ),
                None => final(self).updated_from(*old(self), old(self).configuration, false),
            },
    {
        if let Some(current_index) = self.get_selected_branch_index() {
            let previous_index = if current_index == 0 {
                self.branches.len() - 1
            } else {
                current_index - 1
            };
            let previous_branch_ident = self.branches.installs[previous_index].branch_ident.clone();
            self.configuration.preferred_branch = Some(previous_branch_ident);
            return true;
        }
        false
    }

    /// The configuration with the branch after the preferred one, from the
    /// last to the first, preferred.
    pub open spec fn next_branch_config(self) -> ChronoBindAppConfig {
        let i = self.preferred_position().unwrap();
        let n = self.branches.installs@.len() as int;
        ChronoBindAppConfig {
            preferred_branch: Some(self.branches.installs@[(i + 1) % n].branch_ident),
            ..self.configuration
        }
    }

    /// The configuration with the branch before the preferred one, from the
    /// first to the last, preferred.
    pub open spec fn previous_branch_config(self) -> ChronoBindAppConfig {
        let i = self.preferred_position().unwrap();
        let n = self.branches.installs@.len() as int;
        ChronoBindAppConfig {
            preferred_branch: Some(
                self.branches.installs@[if i == 0 {
                    n - 1
                } else {
                    i - 1
                }].branch_ident,
            ),
            ..self.configuration
        }
    }

    /// The configuration after activating a toggle option.
    pub open spec fn toggled_config(self, o: OptionKind) -> ChronoBindAppConfig {
        match o {
            OptionKind::ShowFriendlyNames => ChronoBindAppConfig {
                show_friendly_names: !self.configuration.show_friendly_names,
                ..self.configuration
            },
            OptionKind::MockMode => ChronoBindAppConfig {
                mock_mode: !self.configuration.mock_mode,
                ..self.configuration
            },
            _ => self.configuration,
        }
    }

    /// Whether activating `o` changes the configuration.
    pub open spec fn is_toggle(o: OptionKind) -> bool {
        o == OptionKind::ShowFriendlyNames || o == OptionKind::MockMode
    }

    /// The popup `new` is what a press of the key `k` makes of `old`.
    pub open spec fn key_applied(old: OptionsPopup, new: OptionsPopup, k: KeyPress) -> bool {
        let opt = old.hovered_option();
        if k == KeyPress::Up || k == KeyPress::Char('w') {
            &&& new.state.selected == Some(
                match old.state.selected {
                    Some(i) => if i == 0 {
                        0usize
                    } else {
                        (i - 1) as usize
                    },
                    None => usize::MAX,
                },
            )
            &&& new.configuration == old.configuration
            &&& new.commands@ == old.commands@
            &&& new.close == old.close
        } else if k == KeyPress::Down || k == KeyPress::Char('s') {
            &&& new.state.selected == Some(
                match old.state.selected {
                    Some(i) => if i == usize::MAX {
                        i
                    } else {
                        (i + 1) as usize
                    },
                    None => 0usize,
                },
            )
            &&& new.configuration == old.configuration
            &&& new.commands@ == old.commands@
            &&& new.close == old.close
        } else if k == KeyPress::Left || k == KeyPress::Char('a') {
            if opt == Some(OptionKind::PreferredBranch) && old.preferred_position() is Some {
                new.updated_from(old, old.previous_branch_config(), true)
            } else if opt == Some(OptionKind::MaximumAutoBackups) && decremented_max(
                old.configuration.maximum_auto_backups,
            ).1 {
                new.updated_from(
                    old,
                    ChronoBindAppConfig {
                        maximum_auto_backups: decremented_max(
                            old.configuration.maximum_auto_backups,
                        ).0,
                        ..old.configuration
                    },
                    true,
                )
            } else {
                new.updated_from(old, old.configuration, false)
            }
        } else if k == KeyPress::Right || k == KeyPress::Char('d') {
            if opt == Some(OptionKind::PreferredBranch) && old.preferred_position() is Some {
                new.updated_from(old, old.next_branch_config(), true)
            } else if opt == Some(OptionKind::MaximumAutoBackups) {
                new.updated_from(
                    old,
                    ChronoBindAppConfig {
                        maximum_auto_backups: incremented_max(
                            old.configuration.maximum_auto_backups,
                        ),
                        ..old.configuration
                    },
                    true,
                )
            } else if opt matches Some(o) && OptionsPopup::is_toggle(o) {
                new.updated_from(old, old.toggled_config(opt.unwrap()), true)
            } else {
                new.updated_from(old, old.configuration, false)
            }
        } else if k == KeyPress::Enter || k == KeyPress::Char(' ') {
            if opt matches Some(o) && OptionsPopup::is_toggle(o) {
                new.updated_from(old, old.toggled_config(opt.unwrap()), true)
            } else {
                new.updated_from(old, old.configuration, false)
            }
        } else if k == KeyPress::Esc || k == KeyPress::Char('q') || k == KeyPress::Char('o') {
            &&& new.configuration == old.configuration
            &&& new.commands@ == old.commands@.push(
                OptionsPopupCommand::UpdateConfiguration(old.configuration),
            )
            &&& new.state == old.state
            &&& new.close
        } else {
            new.updated_from(old, old.configuration, false)
        }
    }

    /// Close the popup, issuing the configuration as it stands.
    pub fn close(&mut self)
        ensures
            final(self).configuration == old(self).configuration,
            final(self).commands@ == old(self).commands@.push(
                OptionsPopupCommand::UpdateConfiguration(old(self).configuration),
            ),
            final(self).state == old(self).state,
            final(self).close,
            final(self).branches == old(self).branches,
            final(self).selected_branch == old(self).selected_branch,
    {
        let cfg = self.configuration.copy();
        self.push_command_close(OptionsPopupCommand::UpdateConfiguration(cfg));
    }

    /// Whether the popup should close.
    pub fn should_close(&self) -> (b: bool)
        ensures
            b == self.close,
    {
        self.close
    }

    /// Handle a key press: move between options, adjust or toggle the
    /// hovered option (issuing the new configuration), or close.
    pub fn on_key_down(&mut self, key: &KeyInput)
        requires
            (lower_key(key.code) == KeyPress::Right || lower_key(key.code) == KeyPress::Char('d'))
                && old(self).hovered_option() == Some(OptionKind::MaximumAutoBackups)
                ==> old(self).configuration.maximum_auto_backups != Some(usize::MAX),
        ensures
            OptionsPopup::key_applied(*old(self), *final(self), lower_key(key.code)),
            final(self).branches == old(self).branches,
            final(self).selected_branch == old(self).selected_branch,
    {
        let selected_opt = self.selected_option();
        let k = key.keycode_lower();
        if k == KeyPress::Up || k == KeyPress::Char('w') {
            self.state.select_previous();
        } else if k == KeyPress::Down || k == KeyPress::Char('s') {
            self.state.select_next();
        } else if k == KeyPress::Left || k == KeyPress::Char('a') {
            match selected_opt {
                Some(OptionKind::PreferredBranch) => {
                    if !self.branches.is_empty() && self.select_previous_branch() {
                        self.push_update_command();
                    }
                },
                Some(OptionKind::MaximumAutoBackups) => {
                    if self.decrement_max_auto_backups() {
                        self.push_update_command();
                    }
                },
                _ => {},
            }
        } else if k == KeyPress::Right || k == KeyPress::Char('d') {
            match selected_opt {
                Some(OptionKind::PreferredBranch) => {
                    if !self.branches.is_empty() && self.select_next_branch() {
                        self.push_update_command();
                    }
                },
                Some(OptionKind::MaximumAutoBackups) => {
                    if self.increment_max_auto_backups() {
                        self.push_update_command();
                    }
                },
                Some(opt) => self.interact_with_option(&opt),
                None => {},
            }
        } else if k == KeyPress::Enter || k == KeyPress::Char(' ') {
            if let Some(o) = selected_opt {
                self.interact_with_option(&o);
            }
        } else if k == KeyPress::Esc || k == KeyPress::Char('q') || k == KeyPress::Char('o') {
            self.close();
        }
    }

    /// The bottom bar segments: moving, what the hovered option's keys do
    /// (with `enter_symbol` for the enter key), and closing.
    pub fn bottom_bar_options(&self, enter_symbol: &str) -> (v: Vec<String>)
        ensures
            v@.len() == (if self.hovered_option() is Some { 3int } else { 2int }),
            v@[0]@ == "↑/↓"@,
            v@[v@.len() - 1]@ == "Esc: Close"@,
            self.hovered_option() matches Some(o) ==> (
                (OptionsPopup::is_toggle(o) ==> v@[1]@ == enter_symbol@ + "/→/Space: Toggle"@)
                && (!OptionsPopup::is_toggle(o) ==> v@[1]@ == "←/→: Adjust"@)),
    {
        let mut options: Vec<String> = Vec::new();
        options.push(String::from_str("↑/↓"));
        if let Some(option) = self.selected_option() {
            let mut segs = option.get_bottom_bar_segments(enter_symbol);
            options.append(&mut segs);
        }
        options.push(String::from_str("Esc: Close"));
        options
    }
}

} // verus!

verus! {

/// The text shown for the preferred branch `preferred` among `installs`.
pub open spec fn preferred_branch_text(preferred: Option<Seq<char>>, installs: Seq<WoWInstall>) -> Seq<char> {
    match preferred {
        None => "None"@,
        Some(b) => match branch_position(installs, b) {
            Some(i) => if installs[i].branch_ident@ == WOW_RETAIL_IDENT@ {
                "Retail"@
            } else {
                branch_title(installs[i].branch_ident@)
            },
            None => "Unknown("@ + b + ")"@,
        },
    }
}

/// The text shown for the preferred branch: `None` when there is none, the
/// installation's display name when it is installed, `Unknown(branch)`
/// otherwise.
pub fn preferred_branch_display(preferred_branch: Option<&String>, installs: &WoWInstalls) -> (s: String)
    ensures
        preferred_branch is None ==> s@ == "None"@,
        preferred_branch matches Some(b) ==> (
            (branch_position(installs.installs@, b@) matches Some(i) ==> (
                installs.installs@[i].branch_ident@ == WOW_RETAIL_IDENT@ ==> s@ == "Retail"@)
                && (installs.installs@[i].branch_ident@ != WOW_RETAIL_IDENT@ ==> s@ == branch_title(installs.installs@[i].branch_ident@)))
            && (branch_position(installs.installs@, b@) is None ==> s@ == "Unknown("@ + b@ + ")"@)),
        s@ == preferred_branch_text(
            match preferred_branch {
                Some(b) => Some(b@),
                None => None,
            },
            installs.installs@,
        ),
{
    let branch_ident = match preferred_branch {
        Some(b) => b,
        None => return String::from_str("None"),
    };
    match installs.find_branch_index(branch_ident.as_str()) {
        Some(k) => {
            proof {
                let bs = installs.installs@;
                let c = choose|c: int|
                    0 <= c < bs.len() && branch_matches(#[trigger] bs[c], branch_ident@) && forall|j: int|
                        0 <= j < c ==> !branch_matches(#[trigger] bs[j], branch_ident@);
                if c < k {
                    assert(!branch_matches(bs[c], branch_ident@));
                } else if c > k {
                    assert(!branch_matches(bs[k as int], branch_ident@));
                }
            }
            installs.installs[k].display_branch_name()
        },
        None => {
            let mut out = chars_of("Unknown(");
            push_str_chars(&mut out, branch_ident.as_str());
            out.push(')');
            assert(out@ =~= "Unknown("@ + branch_ident@ + ")"@) by {
                reveal_strlit(")");
            }
            string_from_chars(out.as_slice())
        },
    }
}


/// The text of the line an option is listed on: toggles show a checkbox
/// before the hover mark and their title; the others show the hover mark,
/// their title and their value.
pub open spec fn option_line(
    kind: OptionKind,
    config: ChronoBindAppConfig,
    installs: Seq<WoWInstall>,
    hovered: bool,
    better_symbols: bool,
) -> Seq<char> {
    match kind {
        OptionKind::ShowFriendlyNames => checkbox_text(config.show_friendly_names, better_symbols) + " "@
            + highlight_text(hovered) + kind.spec_title(),
        OptionKind::MockMode => checkbox_text(config.mock_mode, better_symbols) + " "@ + highlight_text(
            hovered,
        ) + kind.spec_title(),
        OptionKind::MaximumAutoBackups => highlight_text(hovered) + kind.spec_title() + ": "@ + match config.maximum_auto_backups {
            Some(n) => decimal_digits(n as nat),
            None => if better_symbols {
                "∞"@
            } else {
                "inf"@
            },
        },
        OptionKind::PreferredBranch => highlight_text(hovered) + kind.spec_title() + ": "@
            + preferred_branch_text(
            match config.preferred_branch {
                Some(b) => Some(b@),
                None => None,
            },
            installs,
        ),
    }
}

impl OptionKind {
    /// The text of the line this option is listed on.
    pub fn option_line_text(
        &self,
        config: &ChronoBindAppConfig,
        installs: &WoWInstalls,
        hovered: bool,
        better_symbols: bool,
    ) -> (s: String)
        ensures
            s@ == option_line(*self, *config, installs.installs@, hovered, better_symbols),
    {
        match self {
            OptionKind::ShowFriendlyNames | OptionKind::MockMode => {
                let selected = match self {
                    OptionKind::ShowFriendlyNames => config.show_friendly_names,
                    _ => config.mock_mode,
                };
                let mut out = chars_of(checkbox(selected, better_symbols));
                push_str_chars(&mut out, " ");
                push_str_chars(&mut out, highlight_symbol(hovered));
                push_str_chars(&mut out, self.title());
                string_from_chars(out.as_slice())
            },
            OptionKind::MaximumAutoBackups => {
                let mut out = chars_of(highlight_symbol(hovered));
                push_str_chars(&mut out, self.title());
                push_str_chars(&mut out, ": ");
                match config.maximum_auto_backups {
                    Some(n) => {
                        let t = decimal_text(n);
                        push_str_chars(&mut out, t.as_str());
                    },
                    None => push_str_chars(&mut out, unlimited_symbol().get(better_symbols)),
                }
                string_from_chars(out.as_slice())
            },
            OptionKind::PreferredBranch => {
                let mut out = chars_of(highlight_symbol(hovered));
                push_str_chars(&mut out, self.title());
                push_str_chars(&mut out, ": ");
                let t = preferred_branch_display(config.preferred_branch.as_ref(), installs);
                push_str_chars(&mut out, t.as_str());
                string_from_chars(out.as_slice())
            },
        }
    }
}

} // verus!
