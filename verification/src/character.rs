//! A character as the application shows it: the character's data, which
//! of its files are selected, and whether its addon files are folded away.

use vstd::prelude::*;

use crate::path::ChronoPath;
use crate::text::{chars_of, string_from_chars};
use crate::wow::{
    BackupView, CharacterView, FileView, SAVED_VARIABLES_DIR, WoWCharacter, WoWCharacterBackup,
    WoWCharacterFile, WoWInstall, push_str_chars,
};

verus! {

/// Type alias for a character index.
pub type CharacterIndex = usize;

/// How many entries of `s` are `true`.
pub open spec fn count_true(s: Seq<bool>) -> nat
    decreases s.len(),
{
    if s.len() == 0 {
        0
    } else {
        count_true(s.drop_last()) + (if s.last() { 1nat } else { 0nat })
    }
}

/// A count of `true` entries never exceeds the length.
pub proof fn lemma_count_true_bound(s: Seq<bool>)
    ensures
        count_true(s) <= s.len(),
    decreases s.len(),
{
    if s.len() > 0 {
        lemma_count_true_bound(s.drop_last());
    }
}

/// Whether some entry of `s` is `true`.
pub open spec fn any_true(s: Seq<bool>) -> bool {
    exists|i: int| 0 <= i < s.len() && #[trigger] s[i]
}

/// Whether every entry of `s` is `true`.
pub open spec fn all_true(s: Seq<bool>) -> bool {
    forall|i: int| 0 <= i < s.len() ==> #[trigger] s[i]
}

/// The names of the files whose selection flag, among the first `k`, is
/// set, in order; flags past the end of `files` select nothing.
pub open spec fn selected_names(sel: Seq<bool>, files: Seq<FileView>, k: int) -> Seq<Seq<char>>
    decreases k,
{
    if k <= 0 {
        Seq::<Seq<char>>::empty()
    } else {
        selected_names(sel, files, k - 1) + (if sel[k - 1] && k - 1 < files.len() {
            seq![files[k - 1].name]
        } else {
            Seq::<Seq<char>>::empty()
        })
    }
}

/// The flags `s` with the one at `i` flipped, when there is one.
pub open spec fn toggled(s: Seq<bool>, i: int) -> Seq<bool> {
    if 0 <= i < s.len() {
        s.update(i, !s[i])
    } else {
        s
    }
}

/// `n` flags, all equal to `state`.
pub open spec fn all_set(n: nat, state: bool) -> Seq<bool> {
    Seq::new(n, |i: int| state)
}

/// Law: toggling the same file twice leaves the selection as it was.
pub proof fn law_toggle_twice(s: Seq<bool>, i: int)
    ensures
        toggled(toggled(s, i), i) == s,
{
    if 0 <= i < s.len() {
        assert(toggled(toggled(s, i), i) =~= s);
    }
}

/// Law: after selecting all files every file is selected, and after
/// clearing them none is; the count of selected files is then all of them,
/// or none.
pub proof fn law_set_all(n: nat, state: bool)
    ensures
        state ==> all_true(all_set(n, state)),
        !state ==> !any_true(all_set(n, state)),
        count_true(all_set(n, state)) == (if state { n } else { 0 }),
    decreases n,
{
    if n > 0 {
        law_set_all((n - 1) as nat, state);
        assert(all_set(n, state).drop_last() =~= all_set((n - 1) as nat, state));
    }
}

/// Representation of a `WoW` character along with its selected files and
/// options inside the app UI.
#[derive(Debug, Clone)]
pub struct Character {
    /// The underlying `WoW` character data.
    pub character: WoWCharacter,
    /// Whether the addon options section is collapsed.
    pub addon_options_collapsed: bool,
    /// Which config files are selected.
    pub selected_config_files: Vec<bool>,
    /// Which addon files are selected.
    pub selected_addon_files: Vec<bool>,
}

/// Fills a vector of flags with one value.
fn fill_flags(v: &mut Vec<bool>, state: bool)
    ensures
        final(v)@.len() == old(v)@.len(),
        forall|i: int| 0 <= i < final(v)@.len() ==> #[trigger] final(v)@[i] == state,
{
    let mut i: usize = 0;
    while i < v.len()
        invariant
            i <= v@.len(),
            v@.len() == old(v)@.len(),
            forall|j: int| 0 <= j < i ==> #[trigger] v@[j] == state,
        decreases v@.len() - i,
    {
        v.set(i, state);
        i = i + 1;
    }
}

/// A vector of `n` unset flags.
fn unset_flags(n: usize) -> (v: Vec<bool>)
    ensures
        v@.len() == n,
        forall|i: int| 0 <= i < n ==> !#[trigger] v@[i],
{
    let mut v: Vec<bool> = Vec::new();
    let mut i: usize = 0;
    while i < n
        invariant
            i <= n,
            v@.len() == i,
            forall|j: int| 0 <= j < i ==> !#[trigger] v@[j],
        decreases n - i,
    {
        v.push(false);
        i = i + 1;
    }
    v
}

/// Flips the flag at `index`, if there is one, and gives its new value.
fn toggle_flag(v: &mut Vec<bool>, index: usize) -> (r: bool)
    ensures
        index < old(v)@.len() ==> final(v)@ == old(v)@.update(index as int, !old(v)@[index as int])
            && r == !old(v)@[index as int],
        index >= old(v)@.len() ==> final(v)@ == old(v)@ && !r,
{
    if index < v.len() {
        let now = !v[index];
        v.set(index, now);
        now
    } else {
        false
    }
}

/// Whether some flag is set.
fn any_flag(v: &Vec<bool>) -> (r: bool)
    ensures
        r == any_true(v@),
{
    let mut i: usize = 0;
    while i < v.len()
        invariant
            i <= v@.len(),
            forall|j: int| 0 <= j < i ==> !#[trigger] v@[j],
        decreases v@.len() - i,
    {
        if v[i] {
            return true;
        }
        i = i + 1;
    }
    false
}

/// Whether every flag is set.
fn all_flags(v: &Vec<bool>) -> (r: bool)
    ensures
        r == all_true(v@),
{
    let mut i: usize = 0;
    while i < v.len()
        invariant
            i <= v@.len(),
            forall|j: int| 0 <= j < i ==> #[trigger] v@[j],
        decreases v@.len() - i,
    {
        if !v[i] {
            return false;
        }
        i = i + 1;
    }
    true
}

/// How many flags are set.
fn count_flags(v: &Vec<bool>) -> (n: usize)
    ensures
        n == count_true(v@),
{
    let mut n: usize = 0;
    let mut i: usize = 0;
    assert(v@.take(0) =~= Seq::<bool>::empty());
    while i < v.len()
        invariant
            i <= v@.len(),
            n == count_true(v@.take(i as int)),
            n <= i,
        decreases v@.len() - i,
    {
        assert(v@.take(i as int + 1).drop_last() =~= v@.take(i as int));
        if v[i] {
            n = n + 1;
        }
        i = i + 1;
    }
    assert(v@.take(i as int) =~= v@);
    n
}

impl Character {
    /// `self` is `old` with the config and addon selections and the folding
    /// of addon files replaced by the given ones.
    pub open spec fn is_with(self, old: Character, cfg: Seq<bool>, addon: Seq<bool>, collapsed: bool) -> bool {
        &&& self.character == old.character
        &&& self.config_selection() == cfg
        &&& self.addon_selection() == addon
        &&& self.addon_options_collapsed == collapsed
    }

    /// Which config files are selected, by position.
    pub open spec fn config_selection(&self) -> Seq<bool> {
        self.selected_config_files@
    }

    /// Which addon files are selected, by position.
    pub open spec fn addon_selection(&self) -> Seq<bool> {
        self.selected_addon_files@
    }

    /// The character shown with no file selected and its addon files shown.
    pub fn new(character: &WoWCharacter) -> (c: Self)
        ensures
            c.character@ == character@,
            !c.addon_options_collapsed,
            c.config_selection().len() == character.config_files@.len(),
            c.addon_selection().len() == character.addon_files@.len(),
            !any_true(c.config_selection()),
            !any_true(c.addon_selection()),
    {
        let config_file_count = character.config_files.len();
        let addon_file_count = character.addon_files.len();
        Character {
            character: character.copy(),
            selected_config_files: unset_flags(config_file_count),
            selected_addon_files: unset_flags(addon_file_count),
            addon_options_collapsed: false,
        }
    }

    /// The name shown for the character: its name, followed by ` - ` and its
    /// realm when `show_realm`.
    pub fn display_name(&self, show_realm: bool) -> (s: String)
        ensures
            s@ == (if show_realm {
                self.character.name@ + " - "@ + self.character.realm@
            } else {
                self.character.name@
            }),
    {
        if show_realm {
            let mut out: Vec<char> = chars_of(self.character.name.as_str());
            push_str_chars(&mut out, " - ");
            push_str_chars(&mut out, self.character.realm.as_str());
            string_from_chars(out.as_slice())
        } else {
            self.character.name.clone()
        }
    }

    /// Get the realm of the character.
    pub fn realm(&self) -> (s: &str)
        ensures
            s@ == self.character.realm@,
    {
        self.character.realm.as_str()
    }

    /// Get the name of the character.
    pub fn name(&self) -> (s: &str)
        ensures
            s@ == self.character.name@,
    {
        self.character.name.as_str()
    }

    /// Get the branch of the character.
    pub fn branch(&self) -> (s: &str)
        ensures
            s@ == self.character.branch@,
    {
        self.character.branch.as_str()
    }

    /// Get the account of the character.
    pub fn account(&self) -> (s: &str)
        ensures
            s@ == self.character.account@,
    {
        self.character.account.as_str()
    }

    /// Get the config files of the character.
    pub fn config_files(&self) -> (f: &[WoWCharacterFile])
        ensures
            f@ == self.character.config_files@,
    {
        self.character.config_files.as_slice()
    }

    /// Get the addon files of the character.
    pub fn addon_files(&self) -> (f: &[WoWCharacterFile])
        ensures
            f@ == self.character.addon_files@,
    {
        self.character.addon_files.as_slice()
    }

    /// Get the backups of the character.
    pub fn backups(&self) -> (b: &[WoWCharacterBackup])
        ensures
            b@ == self.character.backups@,
    {
        self.character.backups.as_slice()
    }

    /// Returns `true` if the other character represents the same character
    /// (same `name`, `realm`, `account`, and `branch`).
    pub fn is_same_character(&self, other: &Self) -> (b: bool)
        ensures
            b == self.character.same_character(other.character),
    {
        self.character.is_same_character(&other.character)
    }

    /// Check if a config file at the given index is selected.
    pub fn is_config_file_selected(&self, index: usize) -> (b: bool)
        ensures
            b == (index < self.config_selection().len() && self.config_selection()[index as int]),
    {
        index < self.selected_config_files.len() && self.selected_config_files[index]
    }

    /// Toggle the selected status of a config file at the given index, and
    /// return its new status (`false` when there is no such file).
    pub fn toggle_config_file_selected(&mut self, index: usize) -> (r: bool)
        ensures
            final(self).character == old(self).character,
            final(self).addon_options_collapsed == old(self).addon_options_collapsed,
            final(self).addon_selection() == old(self).addon_selection(),
            index < old(self).config_selection().len() ==> final(self).config_selection()
                == old(self).config_selection().update(
                index as int,
                !old(self).config_selection()[index as int],
            ) && r == !old(self).config_selection()[index as int],
            index >= old(self).config_selection().len() ==> final(self).config_selection()
                == old(self).config_selection() && !r,
    {
        toggle_flag(&mut self.selected_config_files, index)
    }

    /// Check if an addon file at the given index is selected.
    pub fn is_addon_file_selected(&self, index: usize) -> (b: bool)
        ensures
            b == (index < self.addon_selection().len() && self.addon_selection()[index as int]),
    {
        index < self.selected_addon_files.len() && self.selected_addon_files[index]
    }

    /// Toggle the selected status of an addon file at the given index, and
    /// return its new status (`false` when there is no such file).
    pub fn toggle_addon_file_selected(&mut self, index: usize) -> (r: bool)
        ensures
            final(self).character == old(self).character,
            final(self).addon_options_collapsed == old(self).addon_options_collapsed,
            final(self).config_selection() == old(self).config_selection(),
            index < old(self).addon_selection().len() ==> final(self).addon_selection()
                == old(self).addon_selection().update(
                index as int,
                !old(self).addon_selection()[index as int],
            ) && r == !old(self).addon_selection()[index as int],
            index >= old(self).addon_selection().len() ==> final(self).addon_selection()
                == old(self).addon_selection() && !r,
    {
        toggle_flag(&mut self.selected_addon_files, index)
    }

    /// Check if any config files are selected.
    pub fn any_config_file_selected(&self) -> (b: bool)
        ensures
            b == any_true(self.config_selection()),
    {
        any_flag(&self.selected_config_files)
    }

    /// Check if any addon file is selected.
    pub fn any_addon_file_selected(&self) -> (b: bool)
        ensures
            b == any_true(self.addon_selection()),
    {
        any_flag(&self.selected_addon_files)
    }

    /// Check if any files (regular or addon) are selected.
    pub fn any_file_selected(&self) -> (b: bool)
        ensures
            b == (any_true(self.config_selection()) || any_true(self.addon_selection())),
    {
        self.any_config_file_selected() || self.any_addon_file_selected()
    }

    /// Check if all config files are selected.
    pub fn all_config_files_selected(&self) -> (b: bool)
        ensures
            b == all_true(self.config_selection()),
    {
        all_flags(&self.selected_config_files)
    }

    /// Check if all addon files are selected.
    pub fn all_addon_files_selected(&self) -> (b: bool)
        ensures
            b == all_true(self.addon_selection()),
    {
        all_flags(&self.selected_addon_files)
    }

    /// Set the selected status of all config files.
    pub fn set_all_config_selected(&mut self, state: bool)
        ensures
            final(self).character == old(self).character,
            final(self).addon_options_collapsed == old(self).addon_options_collapsed,
            final(self).addon_selection() == old(self).addon_selection(),
            final(self).config_selection().len() == old(self).config_selection().len(),
            forall|i: int|
                0 <= i < final(self).config_selection().len() ==> #[trigger] final(self).config_selection()[i] == state,
    {
        fill_flags(&mut self.selected_config_files, state);
    }

    /// Set the selected status of all addon files.
    pub fn set_all_addon_selected(&mut self, state: bool)
        ensures
            final(self).character == old(self).character,
            final(self).addon_options_collapsed == old(self).addon_options_collapsed,
            final(self).config_selection() == old(self).config_selection(),
            final(self).addon_selection().len() == old(self).addon_selection().len(),
            forall|i: int|
                0 <= i < final(self).addon_selection().len() ==> #[trigger] final(self).addon_selection()[i] == state,
    {
        fill_flags(&mut self.selected_addon_files, state);
    }

    /// Set the selected status of all files (config and addon).
    pub fn set_all_selected(&mut self, state: bool)
        ensures
            final(self).character == old(self).character,
            final(self).addon_options_collapsed == old(self).addon_options_collapsed,
            final(self).config_selection().len() == old(self).config_selection().len(),
            final(self).addon_selection().len() == old(self).addon_selection().len(),
            forall|i: int|
                0 <= i < final(self).config_selection().len() ==> #[trigger] final(self).config_selection()[i] == state,
            forall|i: int|
                0 <= i < final(self).addon_selection().len() ==> #[trigger] final(self).addon_selection()[i] == state,
    {
        self.set_all_config_selected(state);
        self.set_all_addon_selected(state);
    }

    /// Get the count of selected config files.
    pub fn selected_config_count(&self) -> (n: usize)
        ensures
            n == count_true(self.config_selection()),
    {
        count_flags(&self.selected_config_files)
    }

    /// Get the count of selected addon files.
    pub fn selected_addon_count(&self) -> (n: usize)
        ensures
            n == count_true(self.addon_selection()),
    {
        count_flags(&self.selected_addon_files)
    }

    /// Get the total count of selected files (config and addon).
    pub fn total_selected_count(&self) -> (n: usize)
        requires
            count_true(self.config_selection()) + count_true(self.addon_selection())
                <= usize::MAX,
        ensures
            n == count_true(self.config_selection()) + count_true(self.addon_selection()),
    {
        self.selected_config_count() + self.selected_addon_count()
    }

    /// The paths, relative to the character folder, of the selected files:
    /// config files by name, then addon files inside `SavedVariables`.
    pub open spec fn selected_paths(&self) -> Seq<Seq<Seq<char>>> {
        selected_names(
            self.config_selection(),
            self.character@.config_files,
            self.config_selection().len() as int,
        ).map_values(|n: Seq<char>| seq![n]) + selected_names(
            self.addon_selection(),
            self.character@.addon_files,
            self.addon_selection().len() as int,
        ).map_values(|n: Seq<char>| seq![SAVED_VARIABLES_DIR@, n])
    }

    /// Get all selected files from both config files and addon files, as
    /// paths relative to the character folder.
    pub fn get_all_selected_files(&self) -> (r: Vec<ChronoPath>)
        ensures
            r@.map_values(|p: ChronoPath| p@) == self.selected_paths(),
    {
        let ghost cfg = selected_names(
            self.config_selection(),
            self.character@.config_files,
            self.config_selection().len() as int,
        ).map_values(|n: Seq<char>| seq![n]);
        let mut out: Vec<ChronoPath> = Vec::new();
        let mut i: usize = 0;
        while i < self.selected_config_files.len()
            invariant
                i <= self.selected_config_files@.len(),
                out@.map_values(|p: ChronoPath| p@) == selected_names(
                    self.selected_config_files@,
                    self.character@.config_files,
                    i as int,
                ).map_values(|n: Seq<char>| seq![n]),
            decreases self.selected_config_files@.len() - i,
        {
            let ghost before = out@;
            if self.selected_config_files[i] && i < self.character.config_files.len() {
                let name = self.character.config_files[i].get_full_filename();
                out.push(ChronoPath::from_segment(name.as_str()));
                assert(out@.map_values(|p: ChronoPath| p@) =~= before.map_values(|p: ChronoPath| p@).push(seq![name@]));
            }
            assert(out@.map_values(|p: ChronoPath| p@) =~= selected_names(
                self.selected_config_files@,
                self.character@.config_files,
                i as int + 1,
            ).map_values(|n: Seq<char>| seq![n]));
            i = i + 1;
        }
        let ghost mid = out@;
        let mut j: usize = 0;
        while j < self.selected_addon_files.len()
            invariant
                j <= self.selected_addon_files@.len(),
                mid.map_values(|p: ChronoPath| p@) == cfg,
                out@.len() >= mid.len(),
                out@.subrange(0, mid.len() as int) == mid,
                out@.subrange(mid.len() as int, out@.len() as int).map_values(|p: ChronoPath| p@) == selected_names(
                    self.selected_addon_files@,
                    self.character@.addon_files,
                    j as int,
                ).map_values(|n: Seq<char>| seq![SAVED_VARIABLES_DIR@, n]),
            decreases self.selected_addon_files@.len() - j,
        {
            let ghost before = out@;
            if self.selected_addon_files[j] && j < self.character.addon_files.len() {
                let name = self.character.addon_files[j].get_full_filename();
                let path = ChronoPath::from_segment(SAVED_VARIABLES_DIR).join(name.as_str());
                assert(path@ =~= seq![SAVED_VARIABLES_DIR@, name@]);
                out.push(path);
                assert(out@.subrange(0, mid.len() as int) =~= before.subrange(0, mid.len() as int));
                assert(out@.subrange(mid.len() as int, out@.len() as int) =~= before.subrange(mid.len() as int, before.len() as int).push(path));
                assert(out@.subrange(mid.len() as int, out@.len() as int).map_values(|p: ChronoPath| p@) =~= before.subrange(mid.len() as int, before.len() as int).map_values(|p: ChronoPath| p@).push(seq![SAVED_VARIABLES_DIR@, name@]));
            }
            assert(out@.subrange(mid.len() as int, out@.len() as int).map_values(|p: ChronoPath| p@) =~= selected_names(
                self.selected_addon_files@,
                self.character@.addon_files,
                j as int + 1,
            ).map_values(|n: Seq<char>| seq![SAVED_VARIABLES_DIR@, n]));
            j = j + 1;
        }
        proof {
            assert(out@ =~= mid + out@.subrange(mid.len() as int, out@.len() as int));
            assert(out@.map_values(|p: ChronoPath| p@) =~= self.selected_paths());
        }
        out
    }
}

/// Representation of a `WoW` character along with its selected files and
/// options inside the app UI, and its associated index.
#[derive(Debug, Clone)]
pub struct CharacterWithIndex(pub Character, pub usize);

/// Type alias for a character with its associated `WoW` installation.
pub type CharacterWithInstall<'a> = (&'a Character, &'a WoWInstall);

} // verus!
