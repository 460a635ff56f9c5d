//! The application's own decisions: where a key press goes, what the
//! global keys do, when copying and pasting files is allowed, what a popup's
//! message leads to, how input returns from a popup, and the text of the
//! title and status bars.

use vstd::prelude::*;

use crate::character::CharacterIndex;
use crate::config::ChronoBindAppConfig;
use crate::options::OptionsPopupCommand;
use crate::popups::{
    AppMessage, BackupManagerPopupCommand, BackupPopupCommand, BranchPopupCommand, ConfirmText,
    ExportManagerMessage, RestorePopupCommand,
};
use crate::text::{chars_of, string_from_chars};
use crate::ui::{KeyInput, KeyPress};
use crate::wow::{WOW_RETAIL_IDENT, push_str_chars};

verus! {

/// Different input modes for the application.
#[derive(Debug, Clone, Copy, PartialEq, Eq, Structural)]
pub enum AppInputMode {
    /// Navigating the character list.
    Navigation,
    /// Selecting files for a character.
    FileSelection,
    /// Interacting with a custom popup.
    Popup,
}

/// The input mode, and the one to return to when popups close.
#[derive(Debug, Clone, Copy, PartialEq, Eq, Structural)]
pub struct InputState {
    /// The current input mode.
    pub input_mode: AppInputMode,
    /// The input mode before a popup was opened.
    pub popup_previous_input: Option<AppInputMode>,
}

impl InputState {
    /// Navigating the character list, no popup open.
    pub fn new() -> (s: Self)
        ensures
            s.input_mode == AppInputMode::Navigation,
            s.popup_previous_input is None,
    {
        InputState { input_mode: AppInputMode::Navigation, popup_previous_input: None }
    }

    /// The state after a popup opens: in popup mode, with the mode to
    /// return to saved unless one already is.
    pub open spec fn popup_entered(self) -> InputState {
        InputState {
            input_mode: AppInputMode::Popup,
            popup_previous_input: match self.popup_previous_input {
                Some(m) => Some(m),
                None => Some(self.input_mode),
            },
        }
    }

    /// The state after popups close: back in the saved mode (navigation
    /// when none was saved), with nothing saved.
    pub open spec fn popup_left(self) -> InputState {
        InputState {
            input_mode: match self.popup_previous_input {
                Some(m) => m,
                None => AppInputMode::Navigation,
            },
            popup_previous_input: None,
        }
    }

    /// Set the input mode to popup, saving the previous mode, if not already saved.
    pub fn set_popup_input(&mut self)
        ensures
            *final(self) == old(self).popup_entered(),
    {
        if self.popup_previous_input.is_none() {
            self.popup_previous_input = Some(self.input_mode);
        }
        self.input_mode = AppInputMode::Popup;
    }

    /// Restore the input mode from before the popup was opened
    /// (navigation when none was saved).
    pub fn restore_input_from_popup(&mut self)
        ensures
            *final(self) == old(self).popup_left(),
    {
        self.input_mode = match self.popup_previous_input {
            Some(m) => m,
            None => AppInputMode::Navigation,
        };
        self.popup_previous_input = None;
    }
}

/// Law: however many popups open one over another, closing them returns
/// to the input mode from before the first one opened.
pub proof fn law_popup_input_roundtrip(s: InputState, opened: nat)
    requires
        s.popup_previous_input is None,
    ensures
        popups_entered(s, opened + 1).popup_left() == s,
{
    lemma_popups_entered(s, opened);
}

/// After one or more popups open, the mode from before the first is saved.
proof fn lemma_popups_entered(s: InputState, opened: nat)
    requires
        s.popup_previous_input is None,
    ensures
        popups_entered(s, opened + 1) == (InputState {
            input_mode: AppInputMode::Popup,
            popup_previous_input: Some(s.input_mode),
        }),
    decreases opened,
{
    assert(popups_entered(s, opened + 1) == popups_entered(s, opened).popup_entered());
    if opened > 0 {
        lemma_popups_entered(s, (opened - 1) as nat);
        assert(((opened - 1) as nat) + 1 == opened);
    } else {
        assert(popups_entered(s, 0) == s);
    }
}

/// The state after `n` popups open one over another.
pub open spec fn popups_entered(s: InputState, n: nat) -> InputState
    decreases n,
{
    if n == 0 {
        s
    } else {
        popups_entered(s, (n - 1) as nat).popup_entered()
    }
}

/// What a key does whatever the input mode.
#[derive(Debug, Clone, Copy, PartialEq, Eq, Structural)]
pub enum GlobalKeyAction {
    /// Reload the characters of the selected branch.
    Refresh,
    /// Show or hide the console panel.
    ToggleConsole,
    /// Open the branch selection popup.
    ShowBranchSelect,
    /// Open the options popup.
    ShowOptions,
    /// Quit the application.
    Quit,
    /// Nothing.
    NoAction,
}

/// The global action of a key.
pub open spec fn global_action_of(k: KeyPress) -> GlobalKeyAction {
    if k == KeyPress::Char('r') || k == KeyPress::Char('R') {
        GlobalKeyAction::Refresh
    } else if k == KeyPress::Char('`') || k == KeyPress::Char('¬') || k == KeyPress::Char('~') {
        GlobalKeyAction::ToggleConsole
    } else if k == KeyPress::Char('t') || k == KeyPress::Char('T') {
        GlobalKeyAction::ShowBranchSelect
    } else if k == KeyPress::Char('o') || k == KeyPress::Char('O') {
        GlobalKeyAction::ShowOptions
    } else if k == KeyPress::Char('q') || k == KeyPress::Char('Q') {
        GlobalKeyAction::Quit
    } else {
        GlobalKeyAction::NoAction
    }
}

/// The global action of a key press.
pub fn global_key_action(key: &KeyInput) -> (a: GlobalKeyAction)
    ensures
        a == global_action_of(key.code),
{
    let k = key.code;
    if k == KeyPress::Char('r') || k == KeyPress::Char('R') {
        GlobalKeyAction::Refresh
    } else if k == KeyPress::Char('`') || k == KeyPress::Char('¬') || k == KeyPress::Char('~') {
        GlobalKeyAction::ToggleConsole
    } else if k == KeyPress::Char('t') || k == KeyPress::Char('T') {
        GlobalKeyAction::ShowBranchSelect
    } else if k == KeyPress::Char('o') || k == KeyPress::Char('O') {
        GlobalKeyAction::ShowOptions
    } else if k == KeyPress::Char('q') || k == KeyPress::Char('Q') {
        GlobalKeyAction::Quit
    } else {
        GlobalKeyAction::NoAction
    }
}

/// Where a key press goes after its global action.
#[derive(Debug, Clone, Copy, PartialEq, Eq, Structural)]
pub enum KeyRoute {
    /// To the console panel, which scrolls.
    Console,
    /// To the character list.
    Navigation,
    /// To the file list.
    FileSelection,
    /// Nowhere (a popup handles its own keys).
    Ignored,
}

/// Where a key press goes: to the console when it is shown, otherwise to
/// the list of the input mode.
pub fn key_route(console_visible: bool, mode: AppInputMode) -> (r: KeyRoute)
    ensures
        r == (if console_visible {
            KeyRoute::Console
        } else {
            match mode {
                AppInputMode::Navigation => KeyRoute::Navigation,
                AppInputMode::FileSelection => KeyRoute::FileSelection,
                AppInputMode::Popup => KeyRoute::Ignored,
            }
        }),
{
    if console_visible {
        KeyRoute::Console
    } else {
        match mode {
            AppInputMode::Navigation => KeyRoute::Navigation,
            AppInputMode::FileSelection => KeyRoute::FileSelection,
            AppInputMode::Popup => KeyRoute::Ignored,
        }
    }
}

/// What asking to paste onto a character leads to.
#[derive(Debug, Clone, Copy, PartialEq, Eq, Structural)]
pub enum PasteDecision {
    /// No files were copied.
    NothingCopied,
    /// The files would be pasted onto the character they were copied from.
    SameCharacter,
    /// There is no character at the target index.
    InvalidTarget,
    /// Ask to confirm pasting from `source` onto `target`.
    Confirm { source: usize, target: usize },
}

/// Whether pasting the files copied from `copied` onto the character at
/// `target`, of `character_count` characters, may be asked for.
pub fn paste_decision(copied: Option<usize>, target: usize, character_count: usize) -> (d:
    PasteDecision)
    ensures
        d == (match copied {
            None => PasteDecision::NothingCopied,
            Some(s) => if s == target {
                PasteDecision::SameCharacter
            } else if target >= character_count {
                PasteDecision::InvalidTarget
            } else {
                PasteDecision::Confirm { source: s, target }
            },
        }),
{
    match copied {
        None => PasteDecision::NothingCopied,
        Some(s) => if s == target {
            PasteDecision::SameCharacter
        } else if target >= character_count {
            PasteDecision::InvalidTarget
        } else {
            PasteDecision::Confirm { source: s, target }
        },
    }
}

/// The character files are copied from after asking to copy from the
/// character at `index`: it, when there is such a character and (when
/// asked from the file list) some of its files are selected; otherwise the
/// one copied before.
pub fn copy_decision(copied: Option<usize>, index: Option<usize>, character_count: usize, files_selected: bool) -> (r: Option<usize>)
    ensures
        r == (match index {
            Some(i) => if i < character_count && files_selected {
                Some(i)
            } else {
                copied
            },
            None => copied,
        }),
{
    match index {
        Some(i) => if i < character_count && files_selected {
            Some(i)
        } else {
            copied
        },
        None => copied,
    }
}

/// The branch whose characters are loaded at start: the preferred one, or
/// the retail branch.
pub fn branch_to_load(config: &ChronoBindAppConfig) -> (b: String)
    ensures
        b@ == (match config.preferred_branch {
            Some(p) => p@,
            None => WOW_RETAIL_IDENT@,
        }),
{
    match &config.preferred_branch {
        Some(p) => p.clone(),
        None => String::from_str(WOW_RETAIL_IDENT),
    }
}

/// The title shown at the top: ` ChronoBind `, with `[Safe] ` after it in
/// mock mode.
pub fn title_text(mock_mode: bool) -> (s: String)
    ensures
        s@ == (if mock_mode { " ChronoBind [Safe] "@ } else { " ChronoBind "@ }),
{
    if mock_mode {
        String::from_str(" ChronoBind [Safe] ")
    } else {
        String::from_str(" ChronoBind ")
    }
}

/// What the application does for a message that a popup issued.
#[derive(Debug)]
pub enum PopupAction {
    /// Open the backup manager of the character, hovering its first backup.
    ShowManageBackups(CharacterIndex),
    /// Back up the character's files: only the selected ones, or all.
    BackupCharacter { index: CharacterIndex, selected_only: bool },
    /// Refresh the backups of `source` (of `dest` when there is none), then
    /// open the restore popup for `dest` listing them.
    OpenRestore { dest: CharacterIndex, source: Option<CharacterIndex> },
    /// Restore the backup at `backup` to the character at `index`.
    RestoreBackup { index: CharacterIndex, backup: usize },
    /// Paste the copied files from `source` onto `target`; when that
    /// succeeds, prune the target's automatic backups.
    Paste { source: CharacterIndex, target: CharacterIndex },
    /// Switch to the branch with this identifier.
    SelectBranch(String),
    /// Replace the configuration with this one and save it.
    UpdateConfiguration(ChronoBindAppConfig),
    /// Delete the backup at `backup` of the character at `index`, then
    /// refresh its backups and the open popup.
    DeleteBackup { index: CharacterIndex, backup: usize },
    /// Toggle the pin of the backup at `backup` of the character at
    /// `index`, then refresh its backups and the open popup.
    ToggleBackupPin { index: CharacterIndex, backup: usize },
    /// Run the export or import operation.
    ExportManager(ExportManagerMessage),
    /// Ask to confirm the action, with the sentence shown for it.
    Confirm(Box<AppMessage>, Option<ConfirmText>),
    /// The message needs a copied character and none was copied.
    NothingCopied,
}

/// The action for `msg`, given the character files were copied from.
pub open spec fn popup_action_of(msg: AppMessage, copied: Option<CharacterIndex>) -> PopupAction {
    match msg {
        AppMessage::Backup(i, c) => match c {
            BackupPopupCommand::ManageBackups => PopupAction::ShowManageBackups(i),
            BackupPopupCommand::BackupSelectedFiles => PopupAction::BackupCharacter {
                index: i,
                selected_only: true,
            },
            BackupPopupCommand::BackupAllFiles => PopupAction::BackupCharacter {
                index: i,
                selected_only: false,
            },
            BackupPopupCommand::RestoreFromBackup => PopupAction::OpenRestore { dest: i, source: None },
            BackupPopupCommand::RestoreFromCopiedBackups => match copied {
                Some(s) => PopupAction::OpenRestore { dest: i, source: Some(s) },
                None => PopupAction::NothingCopied,
            },
        },
        AppMessage::Restore(i, RestorePopupCommand::RestoreBackup(b)) => PopupAction::RestoreBackup {
            index: i,
            backup: b,
        },
        AppMessage::Paste(t) => match copied {
            Some(s) => PopupAction::Paste { source: s, target: t },
            None => PopupAction::NothingCopied,
        },
        AppMessage::Branch(BranchPopupCommand::SelectBranch(b)) => PopupAction::SelectBranch(b),
        AppMessage::Options(OptionsPopupCommand::UpdateConfiguration(c)) => PopupAction::UpdateConfiguration(c),
        AppMessage::BackupManager(i, c) => match c {
            BackupManagerPopupCommand::DeleteBackup(b) => PopupAction::DeleteBackup { index: i, backup: b },
            BackupManagerPopupCommand::ToggleBackupPin(b) => PopupAction::ToggleBackupPin {
                index: i,
                backup: b,
            },
        },
        AppMessage::ExportManager(m) => PopupAction::ExportManager(m),
        AppMessage::ConfirmAction(a, line) => PopupAction::Confirm(a, line),
    }
}

/// Decide what to do for a message that a popup issued.
pub fn popup_action(msg: AppMessage, copied: Option<CharacterIndex>) -> (a: PopupAction)
    ensures
        a == popup_action_of(msg, copied),
{
    match msg {
        AppMessage::Backup(i, c) => match c {
            BackupPopupCommand::ManageBackups => PopupAction::ShowManageBackups(i),
            BackupPopupCommand::BackupSelectedFiles => PopupAction::BackupCharacter {
                index: i,
                selected_only: true,
            },
            BackupPopupCommand::BackupAllFiles => PopupAction::BackupCharacter {
                index: i,
                selected_only: false,
            },
            BackupPopupCommand::RestoreFromBackup => PopupAction::OpenRestore { dest: i, source: None },
            BackupPopupCommand::RestoreFromCopiedBackups => match copied {
                Some(s) => PopupAction::OpenRestore { dest: i, source: Some(s) },
                None => PopupAction::NothingCopied,
            },
        },
        AppMessage::Restore(i, RestorePopupCommand::RestoreBackup(b)) => PopupAction::RestoreBackup {
            index: i,
            backup: b,
        },
        AppMessage::Paste(t) => match copied {
            Some(s) => PopupAction::Paste { source: s, target: t },
            None => PopupAction::NothingCopied,
        },
        AppMessage::Branch(BranchPopupCommand::SelectBranch(b)) => PopupAction::SelectBranch(b),
        AppMessage::Options(OptionsPopupCommand::UpdateConfiguration(c)) => PopupAction::UpdateConfiguration(c),
        AppMessage::BackupManager(i, c) => match c {
            BackupManagerPopupCommand::DeleteBackup(b) => PopupAction::DeleteBackup { index: i, backup: b },
            BackupManagerPopupCommand::ToggleBackupPin(b) => PopupAction::ToggleBackupPin {
                index: i,
                backup: b,
            },
        },
        AppMessage::ExportManager(m) => PopupAction::ExportManager(m),
        AppMessage::ConfirmAction(a, line) => PopupAction::Confirm(a, line),
    }
}

/// The parts joined with `sep` between them.
pub open spec fn joined(parts: Seq<Seq<char>>, sep: Seq<char>) -> Seq<char>
    decreases parts.len(),
{
    if parts.len() == 0 {
        Seq::<char>::empty()
    } else if parts.len() == 1 {
        parts[0]
    } else {
        joined(parts.drop_last(), sep) + sep + parts.last()
    }
}

/// The key hints of the status bar for the mode.
pub open spec fn status_elements(
    console_visible: bool,
    mode: AppInputMode,
    has_copied: bool,
    popup_options: Seq<Seq<char>>,
) -> Seq<Seq<char>> {
    if console_visible {
        seq!["↑/↓"@, "PgUp/PgDn: Fast Scroll"@, "Home/End: Jump"@]
    } else {
        match mode {
            AppInputMode::Navigation => seq!["↑/↓"@, "↵/→/Space: Select"@, "(B)ackup"@, "(C)opy"@]
                + if has_copied {
                seq!["V: Paste"@]
            } else {
                Seq::<Seq<char>>::empty()
            },
            AppInputMode::FileSelection => seq![
                "↑/↓"@,
                "←: Back"@,
                "Space/↵/→: Toggle"@,
                "Ctrl+A: Select All"@,
                "(B)ackup"@,
                "(C)opy"@,
            ],
            AppInputMode::Popup => popup_options,
        }
    }
}

/// The status bar text: a space, then the key hints joined by ` | `,
/// followed by the application's own keys unless a popup or the console is
/// shown.
pub open spec fn status_bar(
    console_visible: bool,
    mode: AppInputMode,
    has_copied: bool,
    popup_options: Seq<Seq<char>>,
) -> Seq<char> {
    let elems = status_elements(console_visible, mode, has_copied, popup_options);
    let all = if mode == AppInputMode::Popup || console_visible {
        elems
    } else {
        elems + seq!["T: WoW Version"@, "(O)ptions"@, "(Q)uit"@]
    };
    seq![' '] + joined(all, " | "@)
}

/// Appends a text to a vector of texts.
fn push_text(v: &mut Vec<String>, s: &str)
    ensures
        final(v)@.map_values(|t: String| t@) == old(v)@.map_values(|t: String| t@).push(s@),
{
    let ghost before = v@;
    v.push(String::from_str(s));
    assert(v@.map_values(|t: String| t@) =~= before.map_values(|t: String| t@).push(s@));
}

/// The texts joined with `sep` between them.
pub fn join_texts(parts: &Vec<String>, sep: &str) -> (s: String)
    ensures
        s@ == joined(parts@.map_values(|t: String| t@), sep@),
{
    let ghost ps = parts@.map_values(|t: String| t@);
    let mut out: Vec<char> = Vec::new();
    let mut i: usize = 0;
    assert(ps.take(0) =~= Seq::<Seq<char>>::empty());
    while i < parts.len()
        invariant
            i <= parts@.len(),
            ps == parts@.map_values(|t: String| t@),
            out@ == joined(ps.take(i as int), sep@),
        decreases parts@.len() - i,
    {
        assert(ps.take(i as int + 1).drop_last() =~= ps.take(i as int));
        assert(ps.take(i as int + 1).last() == parts@[i as int]@);
        if i > 0 {
            push_str_chars(&mut out, sep);
        } else {
            assert(ps.take(1) =~= seq![ps[0]]);
        }
        push_str_chars(&mut out, parts[i].as_str());
        i = i + 1;
    }
    assert(ps.take(i as int) =~= ps);
    string_from_chars(out.as_slice())
}

/// The status bar text shown at the bottom.
pub fn bottom_bar_text(
    console_visible: bool,
    mode: AppInputMode,
    has_copied: bool,
    popup_options: &Vec<String>,
) -> (s: String)
    ensures
        s@ == status_bar(console_visible, mode, has_copied, popup_options@.map_values(|t: String| t@)),
{
    let ghost popup = popup_options@.map_values(|t: String| t@);
    let mut elems: Vec<String> = Vec::new();
    if console_visible {
        push_text(&mut elems, "↑/↓");
        push_text(&mut elems, "PgUp/PgDn: Fast Scroll");
        push_text(&mut elems, "Home/End: Jump");
    } else {
        match mode {
            AppInputMode::Navigation => {
                push_text(&mut elems, "↑/↓");
                push_text(&mut elems, "↵/→/Space: Select");
                push_text(&mut elems, "(B)ackup");
                push_text(&mut elems, "(C)opy");
                if has_copied {
                    push_text(&mut elems, "V: Paste");
                }
            },
            AppInputMode::FileSelection => {
                push_text(&mut elems, "↑/↓");
                push_text(&mut elems, "←: Back");
                push_text(&mut elems, "Space/↵/→: Toggle");
                push_text(&mut elems, "Ctrl+A: Select All");
                push_text(&mut elems, "(B)ackup");
                push_text(&mut elems, "(C)opy");
            },
            AppInputMode::Popup => {
                let mut i: usize = 0;
                while i < popup_options.len()
                    invariant
                        i <= popup_options@.len(),
                        popup == popup_options@.map_values(|t: String| t@),
                        elems@.map_values(|t: String| t@) == popup.take(i as int),
                    decreases popup_options@.len() - i,
                {
                    push_text(&mut elems, popup_options[i].as_str());
                    assert(popup.take(i as int + 1) =~= popup.take(i as int).push(popup[i as int]));
                    i = i + 1;
                }
                assert(popup.take(i as int) =~= popup);
            },
        }
    }
    assert(elems@.map_values(|t: String| t@) =~= status_elements(console_visible, mode, has_copied, popup));
    if !(mode == AppInputMode::Popup || console_visible) {
        push_text(&mut elems, "T: WoW Version");
        push_text(&mut elems, "(O)ptions");
        push_text(&mut elems, "(Q)uit");
    }
    let joined_text = join_texts(&elems, " | ");
    let mut out: Vec<char> = Vec::new();
    out.push(' ');
    push_str_chars(&mut out, joined_text.as_str());
    proof {
        let all = if mode == AppInputMode::Popup || console_visible {
            status_elements(console_visible, mode, has_copied, popup)
        } else {
            status_elements(console_visible, mode, has_copied, popup) + seq![
                "T: WoW Version"@,
                "(O)ptions"@,
                "(Q)uit"@,
            ]
        };
        assert(elems@.map_values(|t: String| t@) =~= all);
    }
    string_from_chars(out.as_slice())
}

} // verus!
