//! The list of a character's files: which rows it shows, and what a key
//! press does to the selection of files.

use vstd::prelude::*;

use crate::character::{Character, all_set, all_true, any_true, toggled};
use crate::palette::{
    addon_file_icon, checkbox, checkbox_text, config_file_icon, expandable_icon, highlight_symbol,
    highlight_text, COLLAPSED_ICON, EXPANDED_ICON,
};
use crate::text::{chars_of, decimal_digits, decimal_text, string_from_chars};
use crate::wow::push_str_chars;
use crate::ui::{KeyInput, KeyPress, ListSelection, lower_key};

verus! {

/// Represents a row in the file list.
#[derive(Debug, Clone, Copy, PartialEq, Eq, Structural)]
pub enum FileRowKind {
    File(usize),
    AddonHeader { collapsed: bool, count: usize },
    AddonFile(usize),
}

/// Configuration for file list rendering.
pub struct FileListConfig {
    /// Whether files are shown by their friendly names.
    pub show_friendly_names: bool,
}

/// Action to be taken after handling file selection input.
#[derive(Debug, Clone, Copy, PartialEq, Eq, Structural)]
pub enum FileSelectionAction {
    /// No action needed
    NoAction,
    /// Exit file selection mode
    ExitFileSelection,
    /// Show backup popup
    ShowBackup,
    /// Copy selected files
    Copy,
}

/// The rows shown for a character: one per config file, the addon header,
/// then one per addon file unless the addon files are folded away.
pub open spec fn file_rows(c: Character) -> Seq<FileRowKind> {
    Seq::new(c.character.config_files@.len(), |i: int| FileRowKind::File(i as usize)) + seq![
        FileRowKind::AddonHeader {
            collapsed: c.addon_options_collapsed,
            count: c.character.addon_files@.len() as usize,
        },
    ] + if c.addon_options_collapsed {
        Seq::<FileRowKind>::empty()
    } else {
        Seq::new(c.character.addon_files@.len(), |i: int| FileRowKind::AddonFile(i as usize))
    }
}

/// Whether a key acts on the hovered row.
pub open spec fn is_activate_key(k: KeyPress) -> bool {
    k == KeyPress::Char(' ') || k == KeyPress::Char('d') || k == KeyPress::Enter || k
        == KeyPress::Right
}

/// The action a key press gives in file selection.
pub open spec fn file_action(k: KeyPress, ctrl: bool) -> FileSelectionAction {
    if (k == KeyPress::Char('a') && !ctrl) || k == KeyPress::Esc || k == KeyPress::Left {
        FileSelectionAction::ExitFileSelection
    } else if k == KeyPress::Char('b') {
        FileSelectionAction::ShowBackup
    } else if k == KeyPress::Char('c') {
        FileSelectionAction::Copy
    } else {
        FileSelectionAction::NoAction
    }
}

/// The hovered row after a key press in file selection: up and `w` move
/// up (not past the first row), down and `s` move down; nothing moves
/// when no row is hovered.
pub open spec fn file_selection_after(sel: Option<usize>, k: KeyPress, ctrl: bool) -> Option<usize> {
    if (k == KeyPress::Char('a') && !ctrl) || k == KeyPress::Esc || k == KeyPress::Left {
        sel
    } else if k == KeyPress::Up || k == KeyPress::Char('w') {
        match sel {
            Some(i) => Some(if i == 0 { 0usize } else { (i - 1) as usize }),
            None => None,
        }
    } else if k == KeyPress::Down || k == KeyPress::Char('s') {
        match sel {
            Some(i) => Some((i + 1) as usize),
            None => None,
        }
    } else {
        sel
    }
}

/// The character after activating `row`: a file row flips that file's
/// selection, or with Control selects all config (or addon) files unless
/// all already are, which clears them; the addon header folds or unfolds
/// the addon files, or with Control acts on all addon files.
pub open spec fn row_applied(old: Character, new: Character, row: FileRowKind, ctrl: bool) -> bool {
    match row {
        FileRowKind::File(i) => if ctrl {
            new.is_with(
                old,
                all_set(old.config_selection().len(), !all_true(old.config_selection())),
                old.addon_selection(),
                old.addon_options_collapsed,
            )
        } else {
            new.is_with(
                old,
                toggled(old.config_selection(), i as int),
                old.addon_selection(),
                old.addon_options_collapsed,
            )
        },
        FileRowKind::AddonHeader { .. } => if ctrl {
            new.is_with(
                old,
                old.config_selection(),
                all_set(old.addon_selection().len(), !all_true(old.addon_selection())),
                old.addon_options_collapsed,
            )
        } else {
            new.is_with(
                old,
                old.config_selection(),
                old.addon_selection(),
                !old.addon_options_collapsed,
            )
        },
        FileRowKind::AddonFile(i) => if ctrl {
            new.is_with(
                old,
                old.config_selection(),
                all_set(old.addon_selection().len(), !all_true(old.addon_selection())),
                old.addon_options_collapsed,
            )
        } else {
            new.is_with(
                old,
                old.config_selection(),
                toggled(old.addon_selection(), i as int),
                old.addon_options_collapsed,
            )
        },
    }
}

/// The character after a key press in file selection, with `sel` the
/// hovered row.
pub open spec fn file_input_applied(
    old: Character,
    new: Character,
    sel: Option<usize>,
    k: KeyPress,
    ctrl: bool,
) -> bool {
    if (k == KeyPress::Char('a') && !ctrl) || k == KeyPress::Esc || k == KeyPress::Left || k
        == KeyPress::Up || k == KeyPress::Char('w') || k == KeyPress::Down || k == KeyPress::Char(
        's',
    ) {
        new == old
    } else if is_activate_key(k) {
        match sel {
            Some(i) => if i < file_rows(old).len() {
                row_applied(old, new, file_rows(old)[i as int], ctrl)
            } else {
                new == old
            },
            None => new == old,
        }
    } else if k == KeyPress::Char('a') && ctrl {
        new.is_with(
            old,
            all_set(
                old.config_selection().len(),
                !(all_true(old.config_selection()) && all_true(old.addon_selection())),
            ),
            all_set(
                old.addon_selection().len(),
                !(all_true(old.config_selection()) && all_true(old.addon_selection())),
            ),
            old.addon_options_collapsed,
        )
    } else {
        new == old
    }
}

/// Law: with `n` config files listed first, the addon header next and the
/// addon files after it (unfolded), activating the row of config file `i`
/// (row `i`) without Control flips that file's selection alone, and
/// activating the row of addon file `i` (row `n + 1 + i`) without Control
/// flips that addon file's selection alone; the other selection, the files
/// and the folding stay as they were.
pub proof fn law_activating_a_file_row_flips_that_file(
    old: Character,
    new: Character,
    k: KeyPress,
    row: usize,
)
    requires
        k == KeyPress::Char(' ') || k == KeyPress::Enter,
        file_input_applied(old, new, Some(row), k, false),
    ensures
        row < old.character.config_files@.len() ==> {
            &&& new.character == old.character
            &&& new.addon_options_collapsed == old.addon_options_collapsed
            &&& new.addon_selection() == old.addon_selection()
            &&& new.config_selection().len() == old.config_selection().len()
            &&& forall|j: int|
                0 <= j < old.config_selection().len() ==> (#[trigger] new.config_selection()[j] == (if j
                    == row { !old.config_selection()[j] } else { old.config_selection()[j] }))
        },
        !old.addon_options_collapsed && old.character.config_files@.len() + 1 <= row
            < old.character.config_files@.len() + 1 + old.character.addon_files@.len() ==> {
            let i = row - old.character.config_files@.len() - 1;
            &&& new.character == old.character
            &&& new.addon_options_collapsed == old.addon_options_collapsed
            &&& new.config_selection() == old.config_selection()
            &&& new.addon_selection().len() == old.addon_selection().len()
            &&& forall|j: int|
                0 <= j < old.addon_selection().len() ==> (#[trigger] new.addon_selection()[j] == (if j
                    == i { !old.addon_selection()[j] } else { old.addon_selection()[j] }))
        },
{
    let rows = file_rows(old);
    let n = old.character.config_files@.len();
    if row < n {
        assert(rows[row as int] == FileRowKind::File(row));
    } else if !old.addon_options_collapsed && n + 1 <= row < n + 1
        + old.character.addon_files@.len() {
        assert(rows[row as int] == FileRowKind::AddonFile((row - n - 1) as usize));
    }
}

/// The file list widget displays the files for a selected character.
#[derive(Debug, Clone)]
pub struct FileListWidget {
    /// The hovered row.
    pub state: ListSelection,
}

impl FileListWidget {
    /// Create a new file list widget, with no row hovered.
    pub fn new() -> (w: Self)
        ensures
            w.state.selected is None,
    {
        FileListWidget { state: ListSelection::new() }
    }

    /// Generate the list of file rows for a character.
    pub fn file_rows_for_character(character: &Character) -> (rows: Vec<FileRowKind>)
        ensures
            rows@ == file_rows(*character),
    {
        let mut rows: Vec<FileRowKind> = Vec::new();
        let n = character.character.config_files.len();
        let mut idx: usize = 0;
        while idx < n
            invariant
                idx <= n,
                n == character.character.config_files@.len(),
                rows@ == Seq::new(idx as nat, |i: int| FileRowKind::File(i as usize)),
            decreases n - idx,
        {
            rows.push(FileRowKind::File(idx));
            assert(rows@ =~= Seq::new((idx + 1) as nat, |i: int| FileRowKind::File(i as usize)));
            idx = idx + 1;
        }
        let addon_count = character.character.addon_files.len();
        rows.push(
            FileRowKind::AddonHeader {
                collapsed: character.addon_options_collapsed,
                count: addon_count,
            },
        );
        let ghost head = rows@;
        if !character.addon_options_collapsed {
            let mut idx: usize = 0;
            while idx < addon_count
                invariant
                    idx <= addon_count,
                    rows@ == head + Seq::new(idx as nat, |i: int| FileRowKind::AddonFile(i as usize)),
                decreases addon_count - idx,
            {
                rows.push(FileRowKind::AddonFile(idx));
                assert(rows@ =~= head + Seq::new(
                    (idx + 1) as nat,
                    |i: int| FileRowKind::AddonFile(i as usize),
                ));
                idx = idx + 1;
            }
        }
        assert(rows@ =~= file_rows(*character));
        rows
    }

    /// Handle a key press in file selection mode, and return the action to
    /// be taken.
    pub fn handle_file_selection_input(&mut self, key: &KeyInput, character: &mut Character) -> (r:
        FileSelectionAction)
        requires
            (lower_key(key.code) == KeyPress::Down || lower_key(key.code) == KeyPress::Char('s'))
                ==> old(self).state.selected != Some(usize::MAX),
        ensures
            r == file_action(lower_key(key.code), key.ctrl),
            final(self).state.selected == file_selection_after(
                old(self).state.selected,
                lower_key(key.code),
                key.ctrl,
            ),
            file_input_applied(
                *old(character),
                *final(character),
                old(self).state.selected,
                lower_key(key.code),
                key.ctrl,
            ),
    {
        let rows = Self::file_rows_for_character(character);
        let ctrl = key.ctrl;
        let k = key.keycode_lower();
        if (k == KeyPress::Char('a') && !ctrl) || k == KeyPress::Esc || k == KeyPress::Left {
            return FileSelectionAction::ExitFileSelection;
        }
        if k == KeyPress::Up || k == KeyPress::Char('w') {
            if let Some(sel_index) = self.state.selected() {
                self.state.select(Some(sel_index.saturating_sub(1)));
            }
            return FileSelectionAction::NoAction;
        }
        if k == KeyPress::Down || k == KeyPress::Char('s') {
            if let Some(sel_index) = self.state.selected() {
                self.state.select(Some(sel_index + 1));
            }
            return FileSelectionAction::NoAction;
        }
        if k == KeyPress::Char(' ') || k == KeyPress::Char('d') || k == KeyPress::Enter || k
            == KeyPress::Right {
            let selected_index = match self.state.selected() {
                Some(i) => i,
                None => return FileSelectionAction::NoAction,
            };
            if selected_index < rows.len() {
                match rows[selected_index] {
                    FileRowKind::File(idx) => {
                        if ctrl {
                            let selected = character.all_config_files_selected();
                            character.set_all_config_selected(!selected);
                            assert(character.config_selection() =~= all_set(
                                old(character).config_selection().len(),
                                !selected,
                            ));
                        } else {
                            character.toggle_config_file_selected(idx);
                        }
                    },
                    FileRowKind::AddonHeader { .. } => {
                        if ctrl {
                            let selected = character.all_addon_files_selected();
                            character.set_all_addon_selected(!selected);
                            assert(character.addon_selection() =~= all_set(
                                old(character).addon_selection().len(),
                                !selected,
                            ));
                        } else {
                            character.addon_options_collapsed = !character.addon_options_collapsed;
                        }
                    },
                    FileRowKind::AddonFile(idx) => {
                        if ctrl {
                            let selected = character.all_addon_files_selected();
                            character.set_all_addon_selected(!selected);
                            assert(character.addon_selection() =~= all_set(
                                old(character).addon_selection().len(),
                                !selected,
                            ));
                        } else {
                            character.toggle_addon_file_selected(idx);
                        }
                    },
                }
            }
            return FileSelectionAction::NoAction;
        }
        if k == KeyPress::Char('a') && ctrl {
            let all_selected = character.all_config_files_selected()
                && character.all_addon_files_selected();
            character.set_all_selected(!all_selected);
            assert(character.config_selection() =~= all_set(
                old(character).config_selection().len(),
                !all_selected,
            ));
            assert(character.addon_selection() =~= all_set(
                old(character).addon_selection().len(),
                !all_selected,
            ));
            return FileSelectionAction::NoAction;
        }
        if k == KeyPress::Char('b') {
            return FileSelectionAction::ShowBackup;
        }
        if k == KeyPress::Char('c') {
            return FileSelectionAction::Copy;
        }
        FileSelectionAction::NoAction
    }
}


/// The text shown in the file list when no character is selected.
pub const NO_CHARACTER_TEXT: &'static str = " No character selected";

/// The colour a row of the file list is drawn in.
#[derive(Debug, Clone, Copy, PartialEq, Eq, Structural)]
pub enum RowTone {
    /// The row's files are selected.
    Selected,
    /// The file is shown by its friendly name.
    Special,
    /// Some but not all of the row's files are selected.
    Warning,
    /// Any other row.
    Standard,
}

/// The title of the file list: the character whose files are listed.
pub fn files_title(character: Option<&Character>) -> (s: String)
    ensures
        s@ == (match character {
            Some(c) => " Files - "@ + c.character.name@ + " - "@ + c.character.realm@ + " "@,
            None => " Files "@,
        }),
{
    match character {
        Some(c) => {
            let mut out = chars_of(" Files - ");
            let name = c.display_name(true);
            push_str_chars(&mut out, name.as_str());
            push_str_chars(&mut out, " ");
            string_from_chars(out.as_slice())
        },
        None => String::from_str(" Files "),
    }
}

/// The colour of a file's row: selected files first, then files shown by
/// their friendly names.
pub fn file_row_tone(selected: bool, has_friendly: bool, show_friendly_names: bool) -> (t: RowTone)
    ensures
        t == (if selected {
            RowTone::Selected
        } else if has_friendly && show_friendly_names {
            RowTone::Special
        } else {
            RowTone::Standard
        }),
{
    if selected {
        RowTone::Selected
    } else if has_friendly && show_friendly_names {
        RowTone::Special
    } else {
        RowTone::Standard
    }
}

/// The colour of the addon header row: selected when every addon file is,
/// a warning when only some are.
pub fn addon_header_tone(character: &Character) -> (t: RowTone)
    ensures
        t == (if character.character.addon_files@.len() > 0 && all_true(character.addon_selection()) {
            RowTone::Selected
        } else if character.character.addon_files@.len() > 0 && any_true(character.addon_selection()) {
            RowTone::Warning
        } else {
            RowTone::Standard
        }),
{
    let no_addon_files = character.addon_files().len() == 0;
    if character.all_addon_files_selected() && !no_addon_files {
        RowTone::Selected
    } else if character.any_addon_file_selected() && !no_addon_files {
        RowTone::Warning
    } else {
        RowTone::Standard
    }
}

/// The two texts of a config file's row: its checkbox and icon, then the
/// hover mark and its name.
pub fn file_row_text(
    character: &Character,
    file_idx: usize,
    hovered: bool,
    config: &FileListConfig,
    better_symbols: bool,
) -> (r: (String, String))
    requires
        file_idx < character.character.config_files@.len(),
    ensures
        r.0@ == " "@ + checkbox_text(
            file_idx < character.config_selection().len() && character.config_selection()[file_idx as int],
            better_symbols,
        ) + " "@ + (if better_symbols { "⚙ "@ } else { "≡"@ }) + " "@,
        r.1@ == highlight_text(hovered) + character.character.config_files@[file_idx as int].shown(
            config.show_friendly_names,
            character.character.config_files@[file_idx as int].name@,
        ),
{
    let selected = character.is_config_file_selected(file_idx);
    let mut prefix = chars_of(" ");
    push_str_chars(&mut prefix, checkbox(selected, better_symbols));
    push_str_chars(&mut prefix, " ");
    push_str_chars(&mut prefix, config_file_icon().get(better_symbols));
    push_str_chars(&mut prefix, " ");
    let mut content = chars_of(highlight_symbol(hovered));
    let name = character.config_files()[file_idx].display_name(config.show_friendly_names);
    push_str_chars(&mut content, name.as_str());
    (string_from_chars(prefix.as_slice()), string_from_chars(content.as_slice()))
}

/// The two texts of an addon file's row: its indented checkbox and icon,
/// then the hover mark and its stem.
pub fn addon_row_text(
    character: &Character,
    file_idx: usize,
    hovered: bool,
    config: &FileListConfig,
    better_symbols: bool,
) -> (r: (String, String))
    requires
        file_idx < character.character.addon_files@.len(),
    ensures
        r.0@ == "    "@ + checkbox_text(
            file_idx < character.addon_selection().len() && character.addon_selection()[file_idx as int],
            better_symbols,
        ) + " "@ + (if better_symbols { "📦"@ } else { "■"@ }) + " "@,
        r.1@ == highlight_text(hovered) + character.character.addon_files@[file_idx as int].shown(
            config.show_friendly_names,
            character.character.addon_files@[file_idx as int].stem@,
        ),
{
    let selected = character.is_addon_file_selected(file_idx);
    let mut prefix = chars_of("    ");
    push_str_chars(&mut prefix, checkbox(selected, better_symbols));
    push_str_chars(&mut prefix, " ");
    push_str_chars(&mut prefix, addon_file_icon().get(better_symbols));
    push_str_chars(&mut prefix, " ");
    let mut content = chars_of(highlight_symbol(hovered));
    let name = character.addon_files()[file_idx].display_stem(config.show_friendly_names);
    push_str_chars(&mut content, name.as_str());
    (string_from_chars(prefix.as_slice()), string_from_chars(content.as_slice()))
}

/// The text of the addon header row: its fold icon, the hover mark and the
/// number of addon files.
pub fn addon_header_text(count: usize, collapsed: bool, hovered: bool) -> (s: String)
    ensures
        s@ == " "@ + (if collapsed { COLLAPSED_ICON@ } else { EXPANDED_ICON@ }) + " "@
            + highlight_text(hovered) + "Addon Options ("@ + decimal_digits(count as nat) + ")"@,
{
    let mut out = chars_of(" ");
    push_str_chars(&mut out, expandable_icon(collapsed));
    push_str_chars(&mut out, " ");
    push_str_chars(&mut out, highlight_symbol(hovered));
    push_str_chars(&mut out, "Addon Options (");
    let n = decimal_text(count);
    push_str_chars(&mut out, n.as_str());
    push_str_chars(&mut out, ")");
    string_from_chars(out.as_slice())
}

} // verus!
