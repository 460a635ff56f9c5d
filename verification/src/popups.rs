//! The popups' own logic: the messages they send to the application, and
//! what a key press does in each of them.

use vstd::prelude::*;

use crate::character::{CharacterIndex, CharacterWithIndex};
use crate::options::OptionsPopupCommand;
use crate::palette::{checkbox, checkbox_text, format_option, highlight_symbol, highlight_text};
use crate::text::{chars_of, decimal_digits, decimal_text, string_from_chars, text_eq};
use crate::path::{parse_path, typed_path};
use crate::text_input::{InputMode, TextInput, edited_by_key, key_allowed};
use crate::time::{DISPLAY_TIME_FORMAT, time_text};
use crate::ui::{KeyInput, KeyPress, ListSelection, lower_key};
use crate::wow::{WOW_RETAIL_IDENT, WoWInstall, branch_title, push_str_chars};

verus! {

/// Different commands that can be issued from a backup popup.
#[derive(Debug, Clone, Copy, PartialEq, Eq, Structural)]
pub enum BackupPopupCommand {
    /// Command to open the manage backups popup.
    ManageBackups,
    /// Command to backup selected files.
    BackupSelectedFiles,
    /// Command to backup all files.
    BackupAllFiles,
    /// Command to restore from backup.
    RestoreFromBackup,
    /// Command to restore from copied character's backups.
    RestoreFromCopiedBackups,
}

/// Different commands that can be issued from a backup manager popup.
#[derive(Debug, Clone, Copy, PartialEq, Eq, Structural)]
pub enum BackupManagerPopupCommand {
    ToggleBackupPin(usize),
    DeleteBackup(usize),
}

/// Different commands that can be issued from a branch popup.
#[derive(Debug, Clone)]
pub enum BranchPopupCommand {
    SelectBranch(String),
}

/// Different commands that can be issued from a paste popup.
#[derive(Debug, Clone, Copy, PartialEq, Eq, Structural)]
pub enum PastePopupCommand {
    /// Command to confirm pasting files.
    ConfirmPaste,
}

/// Different commands that can be issued from a restore popup.
#[derive(Debug, Clone, Copy, PartialEq, Eq, Structural)]
pub enum RestorePopupCommand {
    /// Command to restore a backup at a specified index.
    RestoreBackup(usize),
}

/// What an import brings in from a `ChronoBind` export.
#[derive(Debug, Clone, Copy, PartialEq, Eq, Structural)]
pub struct InstallBackupOptions {
    /// Include the user configuration folder (`WTF`).
    pub include_wtf: bool,
    /// Include the addons folder (`Interface`).
    pub include_interface: bool,
    /// Include the character backups.
    pub include_character_backups: bool,
}

impl InstallBackupOptions {
    /// Everything included.
    pub fn all() -> (o: Self)
        ensures
            o.include_wtf && o.include_interface && o.include_character_backups,
    {
        InstallBackupOptions {
            include_wtf: true,
            include_interface: true,
            include_character_backups: true,
        }
    }
}

/// Commands that can be issued from the export manager and the import dialog.
#[derive(Debug, Clone)]
pub enum ExportManagerMessage {
    /// Export `ChronoBind` backups from the currently selected branch.
    ExportCurrentBranchChronoBind,
    /// Export `ChronoBind` backups from all branches.
    ExportAllBranchesChronoBind,
    /// Export all from the currently selected branch (Addons, WTF, `ChronoBind`).
    ExportFullCurrentBranch,
    /// Export all from all branches (Addons, WTF, `ChronoBind`).
    ExportFullAllBranches,
    /// Open the import dialog.
    OpenImportDialog,
    /// Import a `ChronoBind` backup from the specified path with the given options.
    ImportChronoBindBackup(String, InstallBackupOptions),
}

/// The sentence a confirmation shows for the action it guards.
#[derive(Debug, Clone)]
pub enum ConfirmText {
    /// Delete the backup with this name.
    DeleteBackup { backup_name: String },
    /// Restore the backup with this name to the character at this index.
    RestoreBackup { backup_name: String, dest_char: CharacterIndex },
    /// Paste this many files to the character at this index.
    PasteFiles { file_count: usize, dest_char: CharacterIndex },
}

/// A message from a popup to the main application.
#[derive(Debug)]
pub enum AppMessage {
    /// Commands from the backup popup.
    Backup(CharacterIndex, BackupPopupCommand),
    /// Commands from the restore from backup popup.
    Restore(CharacterIndex, RestorePopupCommand),
    /// Paste from the copied character to the provided target character.
    Paste(CharacterIndex),
    /// Commands from the branch selection popup.
    Branch(BranchPopupCommand),
    /// Commands from the options popup.
    Options(OptionsPopupCommand),
    /// Commands from the backup manager popup.
    BackupManager(CharacterIndex, BackupManagerPopupCommand),
    /// Commands from the export manager and the import dialog.
    ExportManager(ExportManagerMessage),
    /// Opens a confirmation popup for the given action.
    ConfirmAction(Box<AppMessage>, Option<ConfirmText>),
}

impl ConfirmText {
    /// A copy of this sentence.
    pub fn copy(&self) -> (r: Self)
        ensures
            r == *self,
    {
        match self {
            ConfirmText::DeleteBackup { backup_name } => ConfirmText::DeleteBackup {
                backup_name: backup_name.clone(),
            },
            ConfirmText::RestoreBackup { backup_name, dest_char } => ConfirmText::RestoreBackup {
                backup_name: backup_name.clone(),
                dest_char: *dest_char,
            },
            ConfirmText::PasteFiles { file_count, dest_char } => ConfirmText::PasteFiles {
                file_count: *file_count,
                dest_char: *dest_char,
            },
        }
    }
}

impl AppMessage {
    /// A copy of this message.
    pub fn copy(&self) -> (r: Self)
        ensures
            r == *self,
        decreases self,
    {
        match self {
            AppMessage::Backup(i, c) => AppMessage::Backup(*i, *c),
            AppMessage::Restore(i, c) => AppMessage::Restore(*i, *c),
            AppMessage::Paste(i) => AppMessage::Paste(*i),
            AppMessage::Branch(BranchPopupCommand::SelectBranch(b)) => AppMessage::Branch(
                BranchPopupCommand::SelectBranch(b.clone()),
            ),
            AppMessage::Options(OptionsPopupCommand::UpdateConfiguration(c)) => AppMessage::Options(
                OptionsPopupCommand::UpdateConfiguration(c.copy()),
            ),
            AppMessage::BackupManager(i, c) => AppMessage::BackupManager(*i, *c),
            AppMessage::ExportManager(m) => AppMessage::ExportManager(
                match m {
                    ExportManagerMessage::ExportCurrentBranchChronoBind => ExportManagerMessage::ExportCurrentBranchChronoBind,
                    ExportManagerMessage::ExportAllBranchesChronoBind => ExportManagerMessage::ExportAllBranchesChronoBind,
                    ExportManagerMessage::ExportFullCurrentBranch => ExportManagerMessage::ExportFullCurrentBranch,
                    ExportManagerMessage::ExportFullAllBranches => ExportManagerMessage::ExportFullAllBranches,
                    ExportManagerMessage::OpenImportDialog => ExportManagerMessage::OpenImportDialog,
                    ExportManagerMessage::ImportChronoBindBackup(p, o) => ExportManagerMessage::ImportChronoBindBackup(p.clone(), *o),
                },
            ),
            AppMessage::ConfirmAction(b, t) => {
                let inner = b.copy();
                let text = match t {
                    Some(x) => Some(x.copy()),
                    None => None,
                };
                AppMessage::ConfirmAction(Box::new(inner), text)
            },
        }
    }

    /// Wrap the message in a confirmation action, requiring the user to
    /// confirm the action before proceeding.
    pub fn with_confirm(self) -> (m: Self)
        ensures
            m == AppMessage::ConfirmAction(Box::new(self), None),
    {
        AppMessage::ConfirmAction(Box::new(self), None)
    }

    /// Wrap the message in a confirmation action with a sentence to show.
    pub fn with_confirm_and_line(self, action_line: ConfirmText) -> (m: Self)
        ensures
            m == AppMessage::ConfirmAction(Box::new(self), Some(action_line)),
    {
        AppMessage::ConfirmAction(Box::new(self), Some(action_line))
    }
}

/// The row above `sel` (not past the first), if a row is selected.
pub open spec fn row_up(sel: Option<usize>) -> Option<usize> {
    match sel {
        Some(i) => Some(if i == 0 { 0usize } else { (i - 1) as usize }),
        None => None,
    }
}

/// The row below `sel` (not past the largest index), if a row is selected.
pub open spec fn row_down(sel: Option<usize>) -> Option<usize> {
    match sel {
        Some(i) => Some(if i == usize::MAX { i } else { (i + 1) as usize }),
        None => None,
    }
}

/// `ListSelection::select_previous` on `sel`.
pub open spec fn select_previous_of(sel: Option<usize>) -> Option<usize> {
    match sel {
        Some(i) => Some(if i == 0 { 0usize } else { (i - 1) as usize }),
        None => Some(usize::MAX),
    }
}

/// `ListSelection::select_next` on `sel`.
pub open spec fn select_next_of(sel: Option<usize>) -> Option<usize> {
    match sel {
        Some(i) => Some(if i == usize::MAX { i } else { (i + 1) as usize }),
        None => Some(0usize),
    }
}

/// Popup for backup options for a character.
#[derive(Debug)]
pub struct BackupPopup {
    /// The character associated with the backup popup.
    pub character: CharacterWithIndex,
    /// The copied character if applicable, for restoring from their backups.
    pub copied_character: Option<CharacterWithIndex>,
    /// Whether the popup should close.
    pub close: bool,
    /// The hovered row.
    pub state: ListSelection,
    /// Commands issued by the popup.
    pub commands: Vec<AppMessage>,
}

impl BackupPopup {
    /// Row of the manage backups option.
    pub const MANAGE_BACKUPS_IDX: usize = 0usize;
    /// Row of the backup selected files option.
    pub const BACKUP_SELECTED_IDX: usize = 1usize;
    /// Row of the backup all files option.
    pub const BACKUP_ALL_IDX: usize = 2usize;
    /// Row of the restore from backup option.
    pub const RESTORE_FROM_BACKUP_IDX: usize = 3usize;
    /// Row of the restore from the copied character's backups option.
    pub const RESTORE_FROM_COPIED_IDX: usize = 4usize;

    /// The popup for `character`, hovering its first row.
    pub fn new(character: CharacterWithIndex, copied_character: Option<CharacterWithIndex>) -> (p:
        Self)
        ensures
            p.character == character,
            p.copied_character == copied_character,
            !p.close,
            p.state.selected == Some(0usize),
            p.commands@.len() == 0,
    {
        let mut state = ListSelection::new();
        state.select(Some(0));
        BackupPopup { character, copied_character, close: false, state, commands: Vec::new() }
    }

    /// The command the row `row` issues when chosen, and whether choosing it
    /// closes the popup; `None` when it issues nothing.
    pub open spec fn row_command(self, row: usize) -> Option<(BackupPopupCommand, bool)> {
        if row == 0 {
            Some((BackupPopupCommand::ManageBackups, false))
        } else if row == 1 {
            Some((BackupPopupCommand::BackupSelectedFiles, true))
        } else if row == 2 {
            Some((BackupPopupCommand::BackupAllFiles, true))
        } else if row == 3 {
            Some((BackupPopupCommand::RestoreFromBackup, false))
        } else if row == 4 && self.copied_character is Some {
            Some((BackupPopupCommand::RestoreFromCopiedBackups, false))
        } else {
            None
        }
    }

    /// Handle a key press: move the hovered row, choose it, or close.
    pub fn on_key_down(&mut self, key: &KeyInput)
        ensures
            final(self).character.1 == old(self).character.1,
            ({
                let k = key.code;
                if k == KeyPress::Up || k == KeyPress::Char('w') || k == KeyPress::Char('W') {
                    &&& final(self).state.selected == row_up(old(self).state.selected)
                    &&& final(self).close == old(self).close
                    &&& final(self).commands@ == old(self).commands@
                } else if k == KeyPress::Down || k == KeyPress::Char('s') || k == KeyPress::Char('S') {
                    &&& final(self).state.selected == row_down(old(self).state.selected)
                    &&& final(self).close == old(self).close
                    &&& final(self).commands@ == old(self).commands@
                } else if k == KeyPress::Enter || k == KeyPress::Char(' ') {
                    &&& final(self).state == old(self).state
                    &&& match old(self).state.selected {
                        Some(row) => match old(self).row_command(row) {
                            Some((cmd, closes)) => {
                                &&& final(self).commands@ == old(self).commands@.push(
                                    AppMessage::Backup(old(self).character.1, cmd),
                                )
                                &&& final(self).close == (old(self).close || closes)
                            },
                            None => final(self).commands@ == old(self).commands@ && final(self).close == old(self).close,
                        },
                        None => final(self).commands@ == old(self).commands@ && final(self).close == old(self).close,
                    }
                } else if k == KeyPress::Esc || k == KeyPress::Char('q') || k == KeyPress::Char('Q')
                    || k == KeyPress::Char('b') || k == KeyPress::Char('B') {
                    &&& final(self).state == old(self).state
                    &&& final(self).close
                    &&& final(self).commands@ == old(self).commands@
                } else {
                    &&& final(self).state == old(self).state
                    &&& final(self).close == old(self).close
                    &&& final(self).commands@ == old(self).commands@
                }
            }),
    {
        let k = key.code;
        if k == KeyPress::Up || k == KeyPress::Char('w') || k == KeyPress::Char('W') {
            let next = match self.state.selected() {
                Some(i) => Some(i.saturating_sub(1)),
                None => None,
            };
            self.state.select(next);
        } else if k == KeyPress::Down || k == KeyPress::Char('s') || k == KeyPress::Char('S') {
            let next = match self.state.selected() {
                Some(i) => Some(i.saturating_add(1)),
                None => None,
            };
            self.state.select(next);
        } else if k == KeyPress::Enter || k == KeyPress::Char(' ') {
            if let Some(selected) = self.state.selected() {
                let index = self.character.1;
                if selected == Self::MANAGE_BACKUPS_IDX {
                    self.commands.push(AppMessage::Backup(index, BackupPopupCommand::ManageBackups));
                } else if selected == Self::BACKUP_SELECTED_IDX {
                    self.commands.push(
                        AppMessage::Backup(index, BackupPopupCommand::BackupSelectedFiles),
                    );
                    self.close = true;
                } else if selected == Self::BACKUP_ALL_IDX {
                    self.commands.push(AppMessage::Backup(index, BackupPopupCommand::BackupAllFiles));
                    self.close = true;
                } else if selected == Self::RESTORE_FROM_BACKUP_IDX {
                    self.commands.push(
                        AppMessage::Backup(index, BackupPopupCommand::RestoreFromBackup),
                    );
                } else if selected == Self::RESTORE_FROM_COPIED_IDX {
                    if self.copied_character.is_some() {
                        self.commands.push(
                            AppMessage::Backup(index, BackupPopupCommand::RestoreFromCopiedBackups),
                        );
                    }
                }
            }
        } else if k == KeyPress::Esc || k == KeyPress::Char('q') || k == KeyPress::Char('Q') || k
            == KeyPress::Char('b') || k == KeyPress::Char('B') {
            self.close = true;
        }
    }
}

/// The label shown on row `row` of the backup popup `p`.
pub open spec fn backup_row_label(p: BackupPopup, row: int) -> Seq<char> {
    if row == 0 {
        "Manage backups"@
    } else if row == 1 {
        "Backup selected files"@
    } else if row == 2 {
        "Backup all files"@
    } else if row == 3 {
        "Restore from backup"@
    } else if row == 4 {
        match p.copied_character {
            Some(c) => "Restore from "@ + c.0.character.name@ + " - "@ + c.0.character.realm@
                + "'s backups"@,
            None => Seq::<char>::empty(),
        }
    } else {
        Seq::<char>::empty()
    }
}

/// The words that name a backup popup command on the row that issues it.
pub open spec fn backup_command_label(c: BackupPopupCommand) -> Seq<char> {
    match c {
        BackupPopupCommand::ManageBackups => "Manage backups"@,
        BackupPopupCommand::BackupSelectedFiles => "Backup selected files"@,
        BackupPopupCommand::BackupAllFiles => "Backup all files"@,
        BackupPopupCommand::RestoreFromBackup => "Restore from backup"@,
        BackupPopupCommand::RestoreFromCopiedBackups => "Restore from "@,
    }
}

/// Law: choosing a row of the backup popup issues the command that the
/// row's label names (the label begins with the command's words), distinct
/// rows issue distinct commands, the first four rows always issue one, and
/// only the two backing-up commands close the popup.
pub proof fn law_backup_rows_issue_their_commands(p: BackupPopup, r1: usize, r2: usize)
    ensures
        r1 < 4 ==> p.row_command(r1) is Some,
        p.row_command(r1) matches Some((c, closes)) ==> {
            &&& backup_command_label(c).is_prefix_of(backup_row_label(p, r1 as int))
            &&& closes == (c == BackupPopupCommand::BackupSelectedFiles || c
                == BackupPopupCommand::BackupAllFiles)
        },
        r1 != r2 && p.row_command(r1) is Some && p.row_command(r2) is Some ==> p.row_command(
            r1,
        ).unwrap().0 != p.row_command(r2).unwrap().0,
{
    if let Some((c, closes)) = p.row_command(r1) {
        let l = backup_command_label(c);
        let row = backup_row_label(p, r1 as int);
        if r1 == 4 {
            let cc = p.copied_character.unwrap();
            assert(row =~= l + (cc.0.character.name@ + " - "@ + cc.0.character.realm@ + "'s backups"@));
            assert(row.take(l.len() as int) =~= l);
        } else {
            assert(row.take(l.len() as int) =~= l);
        }
    }
}

/// Popup for managing backups for a character.
#[derive(Debug)]
pub struct BackupManagerPopup {
    /// The character associated with the backup manager popup.
    pub character: CharacterWithIndex,
    /// Whether the popup should close.
    pub close: bool,
    /// The hovered backup.
    pub state: ListSelection,
    /// Commands issued by the popup.
    pub commands: Vec<AppMessage>,
}

impl BackupManagerPopup {
    /// The popup for `character`, hovering the backup at `selected_index`.
    pub fn new(character: CharacterWithIndex, selected_index: usize) -> (p: Self)
        ensures
            p.character == character,
            !p.close,
            p.state.selected == Some(selected_index),
            p.commands@.len() == 0,
    {
        let mut state = ListSelection::new();
        state.select(Some(selected_index));
        BackupManagerPopup { character, close: false, state, commands: Vec::new() }
    }

    /// Handle a key press: move the hovered backup, toggle its pin (`e`),
    /// ask to confirm its deletion (`d`), or close.
    pub fn on_key_down(&mut self, key: &KeyInput)
        ensures
            final(self).character.1 == old(self).character.1,
            final(self).character.0.character@ == old(self).character.0.character@,
            ({
                let k = lower_key(key.code);
                let n = old(self).character.0.character.backups@.len();
                if k == KeyPress::Up || k == KeyPress::Char('w') {
                    &&& final(self).state.selected == select_previous_of(old(self).state.selected)
                    &&& final(self).close == old(self).close
                    &&& final(self).commands@ == old(self).commands@
                } else if k == KeyPress::Down || k == KeyPress::Char('s') {
                    &&& final(self).state.selected == select_next_of(old(self).state.selected)
                    &&& final(self).close == old(self).close
                    &&& final(self).commands@ == old(self).commands@
                } else if k == KeyPress::Char('e') {
                    &&& final(self).state == old(self).state
                    &&& final(self).close == old(self).close
                    &&& final(self).commands@ == (match old(self).state.selected {
                        Some(i) => if i < n {
                            old(self).commands@.push(
                                AppMessage::BackupManager(
                                    old(self).character.1,
                                    BackupManagerPopupCommand::ToggleBackupPin(i),
                                ),
                            )
                        } else {
                            old(self).commands@
                        },
                        None => old(self).commands@,
                    })
                } else if k == KeyPress::Char('d') {
                    &&& final(self).state == old(self).state
                    &&& final(self).close == old(self).close
                    &&& match old(self).state.selected {
                        Some(i) => if i < n {
                            &&& final(self).commands@.len() == old(self).commands@.len() + 1
                            &&& final(self).commands@.drop_last() == old(self).commands@
                            &&& final(self).commands@.last() matches AppMessage::ConfirmAction(m, Some(ConfirmText::DeleteBackup { backup_name }))
                            &&& *m == AppMessage::BackupManager(
                                old(self).character.1,
                                BackupManagerPopupCommand::DeleteBackup(i),
                            )
                            &&& backup_name@ == old(self).character.0.character.backups@[i as int].char_name@ + " | "@
                                + time_text(old(self).character.0.character.backups@[i as int].timestamp, DISPLAY_TIME_FORMAT@)
                        } else {
                            final(self).commands@ == old(self).commands@
                        },
                        None => final(self).commands@ == old(self).commands@,
                    }
                } else if k == KeyPress::Esc || k == KeyPress::Char('q') {
                    &&& final(self).state == old(self).state
                    &&& final(self).close
                    &&& final(self).commands@ == old(self).commands@
                } else {
                    &&& final(self).state == old(self).state
                    &&& final(self).close == old(self).close
                    &&& final(self).commands@ == old(self).commands@
                }
            }),
    {
        let k = key.keycode_lower();
        if k == KeyPress::Up || k == KeyPress::Char('w') {
            self.state.select_previous();
        } else if k == KeyPress::Down || k == KeyPress::Char('s') {
            self.state.select_next();
        } else if k == KeyPress::Char('e') {
            if let Some(selected) = self.state.selected() {
                if selected < self.character.0.character.backups.len() {
                    self.commands.push(
                        AppMessage::BackupManager(
                            self.character.1,
                            BackupManagerPopupCommand::ToggleBackupPin(selected),
                        ),
                    );
                }
            }
        } else if k == KeyPress::Char('d') {
            if let Some(selected) = self.state.selected() {
                if selected < self.character.0.character.backups.len() {
                    let backup_name = self.character.0.character.backups[selected].formatted_name();
                    let command = AppMessage::BackupManager(
                        self.character.1,
                        BackupManagerPopupCommand::DeleteBackup(selected),
                    );
                    let ghost before = self.commands@;
                    self.commands.push(
                        command.with_confirm_and_line(ConfirmText::DeleteBackup { backup_name }),
                    );
                    assert(self.commands@.drop_last() =~= before);
                }
            }
        } else if k == KeyPress::Esc || k == KeyPress::Char('q') {
            self.close = true;
        }
    }
}

/// Popup for choosing the `WoW` branch shown.
#[derive(Debug)]
pub struct BranchPopup {
    /// The available branches.
    pub branches: Vec<WoWInstall>,
    /// The currently selected branch.
    pub current_branch: Option<String>,
    /// Whether the popup should close.
    pub close: bool,
    /// The hovered branch.
    pub state: ListSelection,
    /// Commands issued by the popup.
    pub commands: Vec<AppMessage>,
}

impl BranchPopup {
    /// The popup listing `branches`, hovering the first.
    pub fn new(branches: Vec<WoWInstall>, current_branch: Option<String>) -> (p: Self)
        ensures
            p.branches@ == branches@,
            p.current_branch == current_branch,
            !p.close,
            p.state.selected == Some(0usize),
            p.commands@.len() == 0,
    {
        let mut state = ListSelection::new();
        state.select(Some(0));
        BranchPopup { branches, current_branch, close: false, state, commands: Vec::new() }
    }

    /// Handle a key press: move the hovered branch, choose it (which closes
    /// the popup), or close.
    pub fn on_key_down(&mut self, key: &KeyInput)
        ensures
            final(self).branches@ == old(self).branches@,
            ({
                let k = lower_key(key.code);
                if k == KeyPress::Up || k == KeyPress::Char('w') {
                    &&& final(self).state.selected == select_previous_of(old(self).state.selected)
                    &&& final(self).close == old(self).close
                    &&& final(self).commands@ == old(self).commands@
                } else if k == KeyPress::Down || k == KeyPress::Char('s') {
                    &&& final(self).state.selected == select_next_of(old(self).state.selected)
                    &&& final(self).close == old(self).close
                    &&& final(self).commands@ == old(self).commands@
                } else if k == KeyPress::Enter || k == KeyPress::Char(' ') {
                    &&& final(self).state == old(self).state
                    &&& match old(self).state.selected {
                        Some(i) => if i < old(self).branches@.len() {
                            &&& final(self).close
                            &&& final(self).commands@ == old(self).commands@.push(
                                AppMessage::Branch(
                                    BranchPopupCommand::SelectBranch(old(self).branches@[i as int].branch_ident),
                                ),
                            )
                        } else {
                            final(self).close == old(self).close && final(self).commands@ == old(self).commands@
                        },
                        None => final(self).close == old(self).close && final(self).commands@ == old(self).commands@,
                    }
                } else if k == KeyPress::Esc || k == KeyPress::Char('q') {
                    &&& final(self).state == old(self).state
                    &&& final(self).close
                    &&& final(self).commands@ == old(self).commands@
                } else {
                    &&& final(self).state == old(self).state
                    &&& final(self).close == old(self).close
                    &&& final(self).commands@ == old(self).commands@
                }
            }),
    {
        let k = key.keycode_lower();
        if k == KeyPress::Up || k == KeyPress::Char('w') {
            self.state.select_previous();
        } else if k == KeyPress::Down || k == KeyPress::Char('s') {
            self.state.select_next();
        } else if k == KeyPress::Enter || k == KeyPress::Char(' ') {
            if let Some(selected) = self.state.selected() {
                if selected < self.branches.len() {
                    let ident = self.branches[selected].branch_ident.clone();
                    self.commands.push(AppMessage::Branch(BranchPopupCommand::SelectBranch(ident)));
                    self.close = true;
                }
            }
        } else if k == KeyPress::Esc || k == KeyPress::Char('q') {
            self.close = true;
        }
    }
}

/// Popup for restoring a backup for a character.
#[derive(Debug)]
pub struct RestorePopup {
    /// The character the backup is restored to.
    pub dest_char: CharacterWithIndex,
    /// The copied character if applicable, whose backups are listed instead.
    pub source_char: Option<CharacterWithIndex>,
    /// Whether the popup should close.
    pub close: bool,
    /// The hovered backup.
    pub state: ListSelection,
    /// Commands issued by the popup.
    pub commands: Vec<AppMessage>,
}

impl RestorePopup {
    /// The popup restoring to `character`, listing the backups of
    /// `copied_char` when given, hovering the first backup.
    pub fn new(character: CharacterWithIndex, copied_char: Option<CharacterWithIndex>) -> (p: Self)
        ensures
            p.dest_char == character,
            p.source_char == copied_char,
            !p.close,
            p.state.selected == Some(0usize),
            p.commands@.len() == 0,
    {
        let mut state = ListSelection::new();
        state.select(Some(0));
        RestorePopup {
            dest_char: character,
            source_char: copied_char,
            close: false,
            state,
            commands: Vec::new(),
        }
    }

    /// If the source character is set, return `true`.
    pub fn has_source_char(&self) -> (b: bool)
        ensures
            b == self.source_char is Some,
    {
        self.source_char.is_some()
    }

    /// The character whose backups are listed: the source character, or
    /// the destination character when there is none.
    pub open spec fn listed(self) -> CharacterWithIndex {
        match self.source_char {
            Some(c) => c,
            None => self.dest_char,
        }
    }

    /// Get the source character, or the destination character if no source is set.
    pub fn source_char(&self) -> (c: &CharacterWithIndex)
        ensures
            *c == self.listed(),
    {
        match &self.source_char {
            Some(c) => c,
            None => &self.dest_char,
        }
    }

    /// Create a message for the given restore command.
    pub fn get_command(&self, command: RestorePopupCommand) -> (m: AppMessage)
        ensures
            m == AppMessage::Restore(self.dest_char.1, command),
    {
        AppMessage::Restore(self.dest_char.1, command)
    }

    /// Handle a key press: move the hovered backup, ask to confirm restoring
    /// it (which closes the popup), or close.
    pub fn on_key_down(&mut self, key: &KeyInput)
        ensures
            final(self).dest_char.1 == old(self).dest_char.1,
            ({
                let k = lower_key(key.code);
                let backups = old(self).listed().0.character.backups@;
                if k == KeyPress::Up || k == KeyPress::Char('w') {
                    &&& final(self).state.selected == select_previous_of(old(self).state.selected)
                    &&& final(self).close == old(self).close
                    &&& final(self).commands@ == old(self).commands@
                } else if k == KeyPress::Down || k == KeyPress::Char('s') {
                    &&& final(self).state.selected == select_next_of(old(self).state.selected)
                    &&& final(self).close == old(self).close
                    &&& final(self).commands@ == old(self).commands@
                } else if k == KeyPress::Enter || k == KeyPress::Char(' ') {
                    &&& final(self).state == old(self).state
                    &&& match old(self).state.selected {
                        Some(i) => if i < backups.len() {
                            &&& final(self).close
                            &&& final(self).commands@.len() == old(self).commands@.len() + 1
                            &&& final(self).commands@.drop_last() == old(self).commands@
                            &&& final(self).commands@.last() matches AppMessage::ConfirmAction(m, Some(ConfirmText::RestoreBackup { backup_name, dest_char }))
                            &&& *m == AppMessage::Restore(old(self).dest_char.1, RestorePopupCommand::RestoreBackup(i))
                            &&& dest_char == old(self).dest_char.1
                            &&& backup_name@ == backups[i as int].char_name@ + " | "@ + time_text(backups[i as int].timestamp, DISPLAY_TIME_FORMAT@)
                        } else {
                            final(self).close == old(self).close && final(self).commands@ == old(self).commands@
                        },
                        None => final(self).close == old(self).close && final(self).commands@ == old(self).commands@,
                    }
                } else if k == KeyPress::Esc || k == KeyPress::Char('q') {
                    &&& final(self).state == old(self).state
                    &&& final(self).close
                    &&& final(self).commands@ == old(self).commands@
                } else {
                    &&& final(self).state == old(self).state
                    &&& final(self).close == old(self).close
                    &&& final(self).commands@ == old(self).commands@
                }
            }),
    {
        let k = key.keycode_lower();
        if k == KeyPress::Up || k == KeyPress::Char('w') {
            self.state.select_previous();
        } else if k == KeyPress::Down || k == KeyPress::Char('s') {
            self.state.select_next();
        } else if k == KeyPress::Enter || k == KeyPress::Char(' ') {
            if let Some(selected) = self.state.selected() {
                let src = self.source_char();
                if selected < src.0.character.backups.len() {
                    let backup_name = src.0.character.backups[selected].formatted_name();
                    let command = self.get_command(RestorePopupCommand::RestoreBackup(selected));
                    let dest_char = self.dest_char.1;
                    let ghost before = self.commands@;
                    self.commands.push(
                        command.with_confirm_and_line(ConfirmText::RestoreBackup { backup_name, dest_char }),
                    );
                    assert(self.commands@.drop_last() =~= before);
                    self.close = true;
                }
            }
        } else if k == KeyPress::Esc || k == KeyPress::Char('q') {
            self.close = true;
        }
    }
}

/// Popup for paste confirmation.
#[derive(Debug)]
pub struct PasteConfirmPopup {
    /// The character the files are pasted to.
    pub character: crate::character::Character,
    /// The index of the character in the main character list.
    pub character_index: usize,
    /// File count to be pasted.
    pub file_count: usize,
    /// Whether the popup should close.
    pub close: bool,
    /// The hovered row: cancel, then confirm.
    pub state: ListSelection,
    /// Commands issued by the popup.
    pub commands: Vec<(CharacterIndex, PastePopupCommand)>,
}

impl PasteConfirmPopup {
    /// Row of the cancel option.
    pub const CANCEL_IDX: usize = 0usize;
    /// Row of the confirm option.
    pub const CONFIRM_IDX: usize = 1usize;

    /// The popup asking to paste `file_count` files to `character`,
    /// hovering cancel.
    pub fn new(character: crate::character::Character, index: usize, file_count: usize) -> (p: Self)
        ensures
            p.character == character,
            p.character_index == index,
            p.file_count == file_count,
            !p.close,
            p.state.selected == Some(0usize),
            p.commands@.len() == 0,
    {
        let mut state = ListSelection::new();
        state.select(Some(0));
        PasteConfirmPopup {
            character,
            character_index: index,
            file_count,
            close: false,
            state,
            commands: Vec::new(),
        }
    }

    /// Handle a key press: move between cancel and confirm, choose (which
    /// closes the popup, confirming the paste on confirm), or close.
    pub fn on_key_down(&mut self, key: &KeyInput)
        ensures
            final(self).character_index == old(self).character_index,
            ({
                let k = key.code;
                if k == KeyPress::Up || k == KeyPress::Char('w') || k == KeyPress::Char('W') {
                    &&& final(self).state.selected == row_up(old(self).state.selected)
                    &&& final(self).close == old(self).close
                    &&& final(self).commands@ == old(self).commands@
                } else if k == KeyPress::Down || k == KeyPress::Char('s') || k == KeyPress::Char('S') {
                    &&& final(self).state.selected == row_down(old(self).state.selected)
                    &&& final(self).close == old(self).close
                    &&& final(self).commands@ == old(self).commands@
                } else if k == KeyPress::Enter || k == KeyPress::Char(' ') {
                    &&& final(self).state == old(self).state
                    &&& match old(self).state.selected {
                        Some(i) => final(self).close && final(self).commands@ == (if i == 1 {
                            old(self).commands@.push((old(self).character_index, PastePopupCommand::ConfirmPaste))
                        } else {
                            old(self).commands@
                        }),
                        None => final(self).close == old(self).close && final(self).commands@ == old(self).commands@,
                    }
                } else if k == KeyPress::Esc || k == KeyPress::Char('q') || k == KeyPress::Char('Q') {
                    &&& final(self).state == old(self).state
                    &&& final(self).close
                    &&& final(self).commands@ == old(self).commands@
                } else {
                    &&& final(self).state == old(self).state
                    &&& final(self).close == old(self).close
                    &&& final(self).commands@ == old(self).commands@
                }
            }),
    {
        let k = key.code;
        if k == KeyPress::Up || k == KeyPress::Char('w') || k == KeyPress::Char('W') {
            let next = match self.state.selected() {
                Some(i) => Some(i.saturating_sub(1)),
                None => None,
            };
            self.state.select(next);
        } else if k == KeyPress::Down || k == KeyPress::Char('s') || k == KeyPress::Char('S') {
            let next = match self.state.selected() {
                Some(i) => Some(i.saturating_add(1)),
                None => None,
            };
            self.state.select(next);
        } else if k == KeyPress::Enter || k == KeyPress::Char(' ') {
            if let Some(selected) = self.state.selected() {
                if selected == Self::CONFIRM_IDX {
                    self.commands.push((self.character_index, PastePopupCommand::ConfirmPaste));
                }
                self.close = true;
            }
        } else if k == KeyPress::Esc || k == KeyPress::Char('q') || k == KeyPress::Char('Q') {
            self.close = true;
        }
    }
}

/// Popup asking to confirm an action.
#[derive(Debug)]
pub struct ConfirmationPopup {
    /// The command to perform after confirmation.
    pub action: AppMessage,
    /// The sentence shown for the action, if any.
    pub action_line: Option<ConfirmText>,
    /// Whether the popup should close.
    pub close: bool,
    /// The hovered row: cancel, then confirm.
    pub state: ListSelection,
    /// Commands issued by the popup.
    pub commands: Vec<AppMessage>,
}

impl ConfirmationPopup {
    /// Row of the cancel option.
    pub const CANCEL_IDX: usize = 0usize;
    /// Row of the confirm option.
    pub const CONFIRM_IDX: usize = 1usize;

    /// The popup asking to confirm `action`, hovering cancel.
    pub fn new(action: AppMessage, action_line: Option<ConfirmText>) -> (p: Self)
        ensures
            p.action == action,
            p.action_line == action_line,
            !p.close,
            p.state.selected == Some(0usize),
            p.commands@.len() == 0,
    {
        let mut state = ListSelection::new();
        state.select(Some(0));
        ConfirmationPopup { action, action_line, close: false, state, commands: Vec::new() }
    }

    /// Confirm the action: issue it and close.
    pub fn confirmed(&mut self)
        ensures
            final(self).commands@ == old(self).commands@.push(old(self).action),
            final(self).close,
            final(self).action == old(self).action,
            final(self).state == old(self).state,
    {
        let a = self.action.copy();
        self.commands.push(a);
        self.close = true;
    }

    /// Handle a key press: move between cancel and confirm, choose (which
    /// closes the popup, issuing the action on confirm), or close.
    pub fn on_key_down(&mut self, key: &KeyInput)
        ensures
            final(self).action == old(self).action,
            ({
                let k = lower_key(key.code);
                if k == KeyPress::Up || k == KeyPress::Char('w') {
                    &&& final(self).state.selected == select_previous_of(old(self).state.selected)
                    &&& final(self).close == old(self).close
                    &&& final(self).commands@ == old(self).commands@
                } else if k == KeyPress::Down || k == KeyPress::Char('s') {
                    &&& final(self).state.selected == select_next_of(old(self).state.selected)
                    &&& final(self).close == old(self).close
                    &&& final(self).commands@ == old(self).commands@
                } else if k == KeyPress::Enter || k == KeyPress::Char(' ') {
                    &&& final(self).state == old(self).state
                    &&& match old(self).state.selected {
                        Some(i) => final(self).close && final(self).commands@ == (if i == 1 {
                            old(self).commands@.push(old(self).action)
                        } else {
                            old(self).commands@
                        }),
                        None => final(self).close == old(self).close && final(self).commands@ == old(self).commands@,
                    }
                } else if k == KeyPress::Esc || k == KeyPress::Char('q') {
                    &&& final(self).state == old(self).state
                    &&& final(self).close
                    &&& final(self).commands@ == old(self).commands@
                } else {
                    &&& final(self).state == old(self).state
                    &&& final(self).close == old(self).close
                    &&& final(self).commands@ == old(self).commands@
                }
            }),
    {
        let k = key.keycode_lower();
        if k == KeyPress::Up || k == KeyPress::Char('w') {
            self.state.select_previous();
        } else if k == KeyPress::Down || k == KeyPress::Char('s') {
            self.state.select_next();
        } else if k == KeyPress::Enter || k == KeyPress::Char(' ') {
            if let Some(selected) = self.state.selected() {
                if selected == Self::CONFIRM_IDX {
                    self.confirmed();
                } else {
                    self.close = true;
                }
            }
        } else if k == KeyPress::Esc || k == KeyPress::Char('q') {
            self.close = true;
        }
    }
}

/// The export command of each row of the export manager.
pub open spec fn export_row_command(row: usize) -> Option<ExportManagerMessage> {
    if row == 0 {
        Some(ExportManagerMessage::ExportCurrentBranchChronoBind)
    } else if row == 1 {
        Some(ExportManagerMessage::ExportAllBranchesChronoBind)
    } else if row == 2 {
        Some(ExportManagerMessage::ExportFullCurrentBranch)
    } else if row == 3 {
        Some(ExportManagerMessage::ExportFullAllBranches)
    } else if row == 4 {
        Some(ExportManagerMessage::OpenImportDialog)
    } else {
        None
    }
}

/// The label shown on row `row` of the export manager `p`; the
/// current-branch rows end with the selected branch.
pub open spec fn export_row_label(p: ExportManagerPopup, row: int) -> Seq<char> {
    let branch = match p.selected_branch {
        Some(b) => b@,
        None => "None"@,
    };
    if row == 0 {
        "Export ChronoBind backups from currently selected branch: "@ + branch
    } else if row == 1 {
        "Export ChronoBind backups from all branches"@
    } else if row == 2 {
        "Export all from currently selected branch (Addons, WTF, ChronoBind): "@ + branch
    } else if row == 3 {
        "Export all from all branches (Addons, WTF, ChronoBind)"@
    } else if row == 4 {
        "Import ChronoBind backup"@
    } else {
        Seq::<char>::empty()
    }
}

/// The words that name an export manager operation on the row that issues
/// it.
pub open spec fn export_command_label(c: ExportManagerMessage) -> Seq<char> {
    match c {
        ExportManagerMessage::ExportCurrentBranchChronoBind => "Export ChronoBind backups from currently selected branch: "@,
        ExportManagerMessage::ExportAllBranchesChronoBind => "Export ChronoBind backups from all branches"@,
        ExportManagerMessage::ExportFullCurrentBranch => "Export all from currently selected branch (Addons, WTF, ChronoBind): "@,
        ExportManagerMessage::ExportFullAllBranches => "Export all from all branches (Addons, WTF, ChronoBind)"@,
        ExportManagerMessage::OpenImportDialog => "Import ChronoBind backup"@,
        ExportManagerMessage::ImportChronoBindBackup(_, _) => Seq::<char>::empty(),
    }
}

/// Law: each of the five rows of the export manager issues an operation,
/// the one its label names (the label begins with the operation's words),
/// and distinct rows issue distinct operations.
pub proof fn law_export_rows_issue_their_operations(p: ExportManagerPopup, r1: usize, r2: usize)
    ensures
        r1 < 5 <==> export_row_command(r1) is Some,
        export_row_command(r1) matches Some(c) ==> {
            &&& !(c is ImportChronoBindBackup)
            &&& export_command_label(c).is_prefix_of(export_row_label(p, r1 as int))
        },
        r1 != r2 && export_row_command(r1) is Some && export_row_command(r2) is Some
            ==> export_row_command(r1) != export_row_command(r2),
{
    if let Some(c) = export_row_command(r1) {
        let l = export_command_label(c);
        let row = export_row_label(p, r1 as int);
        assert(row.take(l.len() as int) =~= l);
    }
}

/// Popup for managing import/export operations.
#[derive(Debug)]
pub struct ExportManagerPopup {
    /// The currently selected branch in `ChronoBind`.
    pub selected_branch: Option<String>,
    /// Whether the popup should close.
    pub close: bool,
    /// The hovered row.
    pub state: ListSelection,
    /// Commands issued by the popup.
    pub commands: Vec<AppMessage>,
}

impl ExportManagerPopup {
    /// Row of the export `ChronoBind` backups from the current branch option.
    pub const EXPORT_CURRENT_BRANCH_CHRONOBIND_IDX: usize = 0usize;
    /// Row of the export `ChronoBind` backups from all branches option.
    pub const EXPORT_ALL_BRANCHES_CHRONOBIND_IDX: usize = 1usize;
    /// Row of the export all from the current branch option.
    pub const EXPORT_CURRENT_BRANCH_ALL_IDX: usize = 2usize;
    /// Row of the export all from all branches option.
    pub const EXPORT_ALL_BRANCHES_ALL_IDX: usize = 3usize;
    /// Row of the import backup option.
    pub const IMPORT_BACKUP_IDX: usize = 4usize;

    /// The popup for the branch `selected_branch`, hovering the first row.
    pub fn new(selected_branch: Option<String>) -> (p: Self)
        ensures
            p.selected_branch == selected_branch,
            !p.close,
            p.state.selected == Some(0usize),
            p.commands@.len() == 0,
    {
        let mut state = ListSelection::new();
        state.select(Some(0));
        ExportManagerPopup { selected_branch, close: false, state, commands: Vec::new() }
    }

    /// Handle a key press: move the hovered row, choose it, or close.
    pub fn on_key_down(&mut self, key: &KeyInput)
        ensures
            ({
                let k = lower_key(key.code);
                if k == KeyPress::Up || k == KeyPress::Char('w') {
                    &&& final(self).state.selected == select_previous_of(old(self).state.selected)
                    &&& final(self).close == old(self).close
                    &&& final(self).commands@ == old(self).commands@
                } else if k == KeyPress::Down || k == KeyPress::Char('s') {
                    &&& final(self).state.selected == select_next_of(old(self).state.selected)
                    &&& final(self).close == old(self).close
                    &&& final(self).commands@ == old(self).commands@
                } else if k == KeyPress::Enter || k == KeyPress::Char(' ') || k == KeyPress::Char('d') {
                    &&& final(self).state == old(self).state
                    &&& final(self).close == old(self).close
                    &&& final(self).commands@ == match old(self).state.selected {
                        Some(i) => match export_row_command(i) {
                            Some(c) => old(self).commands@.push(AppMessage::ExportManager(c)),
                            None => old(self).commands@,
                        },
                        None => old(self).commands@,
                    }
                } else if k == KeyPress::Esc || k == KeyPress::Char('q') {
                    &&& final(self).state == old(self).state
                    &&& final(self).close
                    &&& final(self).commands@ == old(self).commands@
                } else {
                    &&& final(self).state == old(self).state
                    &&& final(self).close == old(self).close
                    &&& final(self).commands@ == old(self).commands@
                }
            }),
    {
        let k = key.keycode_lower();
        if k == KeyPress::Up || k == KeyPress::Char('w') {
            self.state.select_previous();
        } else if k == KeyPress::Down || k == KeyPress::Char('s') {
            self.state.select_next();
        } else if k == KeyPress::Enter || k == KeyPress::Char(' ') || k == KeyPress::Char('d') {
            if let Some(selected) = self.state.selected() {
                if selected == Self::EXPORT_CURRENT_BRANCH_CHRONOBIND_IDX {
                    self.commands.push(AppMessage::ExportManager(ExportManagerMessage::ExportCurrentBranchChronoBind));
                } else if selected == Self::EXPORT_ALL_BRANCHES_CHRONOBIND_IDX {
                    self.commands.push(AppMessage::ExportManager(ExportManagerMessage::ExportAllBranchesChronoBind));
                } else if selected == Self::EXPORT_CURRENT_BRANCH_ALL_IDX {
                    self.commands.push(AppMessage::ExportManager(ExportManagerMessage::ExportFullCurrentBranch));
                } else if selected == Self::EXPORT_ALL_BRANCHES_ALL_IDX {
                    self.commands.push(AppMessage::ExportManager(ExportManagerMessage::ExportFullAllBranches));
                } else if selected == Self::IMPORT_BACKUP_IDX {
                    self.commands.push(AppMessage::ExportManager(ExportManagerMessage::OpenImportDialog));
                }
            }
        } else if k == KeyPress::Esc || k == KeyPress::Char('q') {
            self.close = true;
        }
    }
}

/// Dialog for importing a `ChronoBind` export.
#[derive(Debug)]
pub struct ImportDialog {
    /// Options for importing backups.
    pub import_options: InstallBackupOptions,
    /// Text import state.
    pub path_input: TextInput,
    /// Whether the popup should close.
    pub close: bool,
    /// The hovered row.
    pub state: ListSelection,
    /// Commands issued by the popup.
    pub commands: Vec<AppMessage>,
}

impl ImportDialog {
    /// Row of the include WTF (User config folder) option.
    pub const INCLUDE_WTF_IDX: usize = 0usize;
    /// Row of the include interface (Addons folder) option.
    pub const INCLUDE_INTERFACE_IDX: usize = 1usize;
    /// Row of the include characters (Character backups) option.
    pub const INCLUDE_CHARACTERS_IDX: usize = 2usize;
    /// Row of the import button.
    pub const IMPORT_IDX: usize = 3usize;

    /// A new dialog: everything included, the path being typed.
    pub fn new() -> (d: Self)
        ensures
            d.import_options.include_wtf && d.import_options.include_interface
                && d.import_options.include_character_backups,
            d.path_input.mode == InputMode::Editing,
            d.path_input.input@.len() == 0,
            d.path_input.placeholder matches Some(p) && p@ == "Enter import path here..."@,
            !d.close,
            d.state.selected == Some(0usize),
            d.commands@.len() == 0,
    {
        let mut state = ListSelection::new();
        state.select(Some(0));
        let mut text_input = TextInput::new_with_placeholder(String::from_str("Enter import path here..."));
        text_input.mode = InputMode::Editing;
        ImportDialog {
            import_options: InstallBackupOptions::all(),
            path_input: text_input,
            close: false,
            state,
            commands: Vec::new(),
        }
    }

    /// Check if the given row is hovered (no row is while the path is typed).
    pub fn is_hovered(&self, index: usize) -> (b: bool)
        ensures
            b == (self.path_input.mode != InputMode::Editing && index == match self.state.selected {
                Some(i) => i,
                None => 0usize,
            }),
    {
        if self.path_input.mode == InputMode::Editing {
            return false;
        }
        let selected_index = match self.state.selected() {
            Some(i) => i,
            None => 0,
        };
        selected_index == index
    }

    /// What a key press makes of the dialog while the path is not being
    /// typed.
    pub open spec fn key_applied(self, after: Self, key: KeyInput) -> bool {
        &&& after.path_input.input == self.path_input.input
        &&& ({
                let k = lower_key(key.code);
                let row = match self.state.selected { Some(i) => i, None => 0usize };
                let o = self.import_options;
                if k == KeyPress::Up || k == KeyPress::Char('w') {
                    &&& after.state.selected == select_previous_of(self.state.selected)
                    &&& after.import_options == o
                    &&& after.close == self.close
                    &&& after.commands@ == self.commands@
                } else if k == KeyPress::Down || k == KeyPress::Char('s') {
                    &&& after.state.selected == select_next_of(self.state.selected)
                    &&& after.import_options == o
                    &&& after.close == self.close
                    &&& after.commands@ == self.commands@
                } else if k == KeyPress::Char('t') {
                    &&& after.path_input.mode == InputMode::Editing
                    &&& after.state == self.state
                    &&& after.import_options == o
                    &&& after.close == self.close
                    &&& after.commands@ == self.commands@
                } else if k == KeyPress::Enter || k == KeyPress::Char(' ') || k == KeyPress::Char('d') || k == KeyPress::Char('e') {
                    &&& after.state == self.state
                    &&& if row == 0 {
                        after.import_options == InstallBackupOptions { include_wtf: !o.include_wtf, ..o }
                            && after.close == self.close && after.commands@ == self.commands@
                    } else if row == 1 {
                        after.import_options == InstallBackupOptions { include_interface: !o.include_interface, ..o }
                            && after.close == self.close && after.commands@ == self.commands@
                    } else if row == 2 {
                        after.import_options == InstallBackupOptions { include_character_backups: !o.include_character_backups, ..o }
                            && after.close == self.close && after.commands@ == self.commands@
                    } else if row == 3 {
                        &&& after.import_options == o
                        &&& after.close
                        &&& after.commands@.len() == self.commands@.len() + 1
                        &&& after.commands@.drop_last() == self.commands@
                        &&& after.commands@.last() matches AppMessage::ExportManager(ExportManagerMessage::ImportChronoBindBackup(p, opts))
                        &&& p@ == typed_path(self.path_input.input@)
                        &&& opts == o
                    } else {
                        after.import_options == o && after.close == self.close && after.commands@ == self.commands@
                    }
                } else if k == KeyPress::Esc || k == KeyPress::Char('q') {
                    &&& after.state == self.state
                    &&& after.import_options == o
                    &&& after.close
                    &&& after.commands@ == self.commands@
                } else {
                    &&& after.state == self.state
                    &&& after.import_options == o
                    &&& after.close == self.close
                    &&& after.commands@ == self.commands@
                }
            })
    }

    /// Handle a key press: move the hovered row, type the path (`t`),
    /// toggle an option or import (which closes the dialog), or close.
    pub fn on_key_down(&mut self, key: &KeyInput)
        ensures
            old(self).key_applied(*final(self), *key),
    {
        let k = key.keycode_lower();
        if k == KeyPress::Up || k == KeyPress::Char('w') {
            self.state.select_previous();
        } else if k == KeyPress::Down || k == KeyPress::Char('s') {
            self.state.select_next();
        } else if k == KeyPress::Char('t') {
            self.path_input.mode = InputMode::Editing;
        } else if k == KeyPress::Enter || k == KeyPress::Char(' ') || k == KeyPress::Char('d') || k
            == KeyPress::Char('e') {
            let row = match self.state.selected() {
                Some(i) => i,
                None => 0,
            };
            if row == Self::INCLUDE_WTF_IDX {
                self.import_options.include_wtf = !self.import_options.include_wtf;
            } else if row == Self::INCLUDE_INTERFACE_IDX {
                self.import_options.include_interface = !self.import_options.include_interface;
            } else if row == Self::INCLUDE_CHARACTERS_IDX {
                self.import_options.include_character_backups = !self.import_options.include_character_backups;
            } else if row == Self::IMPORT_IDX {
                let import_path = parse_path(self.path_input.input.as_str());
                let ghost before = self.commands@;
                self.commands.push(
                    AppMessage::ExportManager(
                        ExportManagerMessage::ImportChronoBindBackup(import_path, self.import_options),
                    ),
                );
                assert(self.commands@.drop_last() =~= before);
                self.close = true;
            }
        } else if k == KeyPress::Esc || k == KeyPress::Char('q') {
            self.close = true;
        }
    }

    /// Handle a key press (with whether Shift was held): while the path is
    /// being typed the key edits it, otherwise it works the dialog.
    pub fn handle_key(&mut self, key: &KeyInput, shift: bool)
        requires
            key_allowed(old(self).path_input, *key, shift),
        ensures
            old(self).path_input.mode == InputMode::Editing ==> {
                &&& edited_by_key(old(self).path_input, final(self).path_input, *key, shift)
                &&& final(self).import_options == old(self).import_options
                &&& final(self).close == old(self).close
                &&& final(self).state == old(self).state
                &&& final(self).commands@ == old(self).commands@
            },
            old(self).path_input.mode != InputMode::Editing ==> old(self).key_applied(*final(self), *key),
    {
        if self.path_input.mode == InputMode::Editing {
            self.path_input.handle_key(key, shift);
        } else {
            self.on_key_down(key);
        }
    }
}


/// The sentence asking to paste `file_count` files, before the name of the
/// character they are pasted to.
pub fn paste_prompt(file_count: usize) -> (s: String)
    ensures
        s@ == "Paste "@ + decimal_digits(file_count as nat) + " file"@ + (if file_count == 1 {
            ""@
        } else {
            "s"@
        }) + " to "@,
{
    let mut out = chars_of("Paste ");
    let n = decimal_text(file_count);
    push_str_chars(&mut out, n.as_str());
    push_str_chars(&mut out, " file");
    if file_count != 1 {
        push_str_chars(&mut out, "s");
    } else {
        proof {
            reveal_strlit("");
            assert(out@ =~= out@ + ""@);
        }
    }
    push_str_chars(&mut out, " to ");
    string_from_chars(out.as_slice())
}

/// The text of an option that is switched on and off: its checkbox, then
/// the hover mark and its title.
pub fn toggle_option_text(title: &str, selected: bool, hovered: bool, better_symbols: bool) -> (s: String)
    ensures
        s@ == checkbox_text(selected, better_symbols) + " "@ + highlight_text(hovered) + title@,
{
    let mut out = chars_of(checkbox(selected, better_symbols));
    push_str_chars(&mut out, " ");
    push_str_chars(&mut out, highlight_symbol(hovered));
    push_str_chars(&mut out, title);
    string_from_chars(out.as_slice())
}

/// The label of the backup popup's row restoring from the copied
/// character's backups.
pub fn restore_from_copied_label(copied: &CharacterWithIndex) -> (s: String)
    ensures
        s@ == "Restore from "@ + copied.0.character.name@ + " - "@ + copied.0.character.realm@
            + "'s backups"@,
{
    let mut out = chars_of("Restore from ");
    let name = copied.0.display_name(true);
    push_str_chars(&mut out, name.as_str());
    push_str_chars(&mut out, "'s backups");
    string_from_chars(out.as_slice())
}

impl ExportManagerPopup {
    /// The labels of the rows, in order; the current-branch rows name the
    /// selected branch.
    pub fn row_labels(&self) -> (v: Vec<String>)
        ensures
            v@.len() == 5,
            v@[0]@ == "Export ChronoBind backups from currently selected branch: "@ + match self.selected_branch {
                Some(b) => b@,
                None => "None"@,
            },
            v@[1]@ == "Export ChronoBind backups from all branches"@,
            v@[2]@ == "Export all from currently selected branch (Addons, WTF, ChronoBind): "@ + match self.selected_branch {
                Some(b) => b@,
                None => "None"@,
            },
            v@[3]@ == "Export all from all branches (Addons, WTF, ChronoBind)"@,
            v@[4]@ == "Import ChronoBind backup"@,
            forall|i: int| 0 <= i < 5 ==> #[trigger] v@[i]@ == export_row_label(*self, i),
    {
        let branch = format_option(self.selected_branch.as_ref());
        let mut v: Vec<String> = Vec::new();
        let mut a = chars_of("Export ChronoBind backups from currently selected branch: ");
        push_str_chars(&mut a, branch.as_str());
        v.push(string_from_chars(a.as_slice()));
        v.push(String::from_str("Export ChronoBind backups from all branches"));
        let mut c = chars_of("Export all from currently selected branch (Addons, WTF, ChronoBind): ");
        push_str_chars(&mut c, branch.as_str());
        v.push(string_from_chars(c.as_slice()));
        v.push(String::from_str("Export all from all branches (Addons, WTF, ChronoBind)"));
        v.push(String::from_str("Import ChronoBind backup"));
        assert(forall|i: int| 0 <= i < 5 ==> #[trigger] v@[i]@ == export_row_label(*self, i));
        v
    }
}


impl BranchPopup {
    /// The text of the row of the branch at `i`: its display name, marked
    /// when it is the current branch.
    pub fn row_text(&self, i: usize) -> (s: String)
        requires
            i < self.branches@.len(),
        ensures
            s@ == (if self.branches@[i as int].branch_ident@ == WOW_RETAIL_IDENT@ {
                "Retail"@
            } else {
                branch_title(self.branches@[i as int].branch_ident@)
            }) + (if self.current_branch matches Some(c) && c@ == self.branches@[i as int].branch_ident@ {
                " (current)"@
            } else {
                ""@
            }),
    {
        let name = self.branches[i].display_branch_name();
        let mut out = chars_of(name.as_str());
        let current = match &self.current_branch {
            Some(c) => text_eq(c.as_str(), self.branches[i].branch_ident.as_str()),
            None => false,
        };
        if current {
            push_str_chars(&mut out, " (current)");
        } else {
            proof {
                reveal_strlit("");
                assert(out@ =~= out@ + ""@);
            }
        }
        string_from_chars(out.as_slice())
    }
}


impl BackupManagerPopup {
    /// The key hints of the bottom bar: the pin key offers to unpin the
    /// hovered backup when it is pinned.
    pub fn bottom_bar_options(&self) -> (v: Vec<String>)
        ensures
            v@.len() == 4,
            v@[0]@ == "↑/↓"@,
            v@[1]@ == "Esc: Close"@,
            v@[2]@ == "D: Delete Backup"@,
            v@[3]@ == ({
                let i = match self.state.selected {
                    Some(i) => i,
                    None => 0usize,
                };
                let backups = self.character.0.character.backups@;
                if i < backups.len() && backups[i as int].is_pinned {
                    "E: Unpin Backup"@
                } else {
                    "E: Pin Backup"@
                }
            }),
    {
        let i = match self.state.selected() {
            Some(i) => i,
            None => 0,
        };
        let pinned = i < self.character.0.character.backups.len() && self.character.0.character.backups[i].is_pinned;
        let mut v: Vec<String> = Vec::new();
        v.push(String::from_str("↑/↓"));
        v.push(String::from_str("Esc: Close"));
        v.push(String::from_str("D: Delete Backup"));
        if pinned {
            v.push(String::from_str("E: Unpin Backup"));
        } else {
            v.push(String::from_str("E: Pin Backup"));
        }
        v
    }
}

impl ImportDialog {
    /// The key hints of the bottom bar (with `enter_symbol` for the enter
    /// key): only how to finish while the path is typed.
    pub fn bottom_bar_options(&self, enter_symbol: &str) -> (v: Vec<String>)
        ensures
            self.path_input.mode == InputMode::Editing ==> v@.len() == 1 && v@[0]@ == enter_symbol@
                + "/Esc: Finish editing"@,
            self.path_input.mode != InputMode::Editing ==> {
                &&& v@.len() == 4
                &&& v@[0]@ == "↑/↓"@
                &&& v@[1]@ == enter_symbol@ + "/Space: Select"@
                &&& v@[2]@ == "T: Edit path"@
                &&& v@[3]@ == "Esc: Close"@
            },
    {
        let mut v: Vec<String> = Vec::new();
        if self.path_input.mode == InputMode::Editing {
            let mut t = chars_of(enter_symbol);
            push_str_chars(&mut t, "/Esc: Finish editing");
            v.push(string_from_chars(t.as_slice()));
        } else {
            v.push(String::from_str("↑/↓"));
            let mut t = chars_of(enter_symbol);
            push_str_chars(&mut t, "/Space: Select");
            v.push(string_from_chars(t.as_slice()));
            v.push(String::from_str("T: Edit path"));
            v.push(String::from_str("Esc: Close"));
        }
        v
    }
}


impl ConfirmText {
    /// The sentence shown to confirm the action, up to the name of the
    /// character it is done to (which follows it for a restore or a paste).
    pub fn lead_text(&self) -> (s: String)
        ensures
            s@ == (match self {
                ConfirmText::DeleteBackup { backup_name } => "Delete `"@ + backup_name@ + "`"@,
                ConfirmText::RestoreBackup { backup_name, .. } => "Restore backup `"@ + backup_name@ + "` to "@,
                ConfirmText::PasteFiles { file_count, .. } => "Paste "@ + decimal_digits(*file_count as nat)
                    + " file"@ + (if *file_count == 1 { ""@ } else { "s"@ }) + " to "@,
            }),
    {
        match self {
            ConfirmText::DeleteBackup { backup_name } => {
                let mut out = chars_of("Delete `");
                push_str_chars(&mut out, backup_name.as_str());
                push_str_chars(&mut out, "`");
                string_from_chars(out.as_slice())
            },
            ConfirmText::RestoreBackup { backup_name, .. } => {
                let mut out = chars_of("Restore backup `");
                push_str_chars(&mut out, backup_name.as_str());
                push_str_chars(&mut out, "` to ");
                string_from_chars(out.as_slice())
            },
            ConfirmText::PasteFiles { file_count, .. } => paste_prompt(*file_count),
        }
    }
}

} // verus!
