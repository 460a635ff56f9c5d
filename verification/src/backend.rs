//! Backup archives: how their file names are made and read back, which
//! backups a folder lists and in what order, and the decisions taken when
//! pinning, deleting and cleaning up backups.

use vstd::prelude::*;

use crate::path::{ChronoPath, extension_of, file_stem_of, is_folder_entry, lemma_last_index_after, split_file_name};
use crate::task::IOProgress;
use crate::text::{chars_of, split_chars, split_on, string_from_chars, text_eq, lemma_split_on_no_sep, lemma_split_on_prefix};
use crate::time::{
    BACKUP_FILE_TIME_FORMAT, BackupTime, TimeFields, file_stamp_text, is_four_digit_time,
    is_stable_time_order, lemma_file_stamp_roundtrip, parse_time, read_file_stamp,
    stable_time_order, time_from_fields, time_text, time_to_string,
};
use crate::wow::{
    BackupView, WoWCharacter, WoWCharacterBackup, WoWInstall, backup_views, is_unpinned_auto,
    texts_of,
};

verus! {

/// Suffix of backup files created during a paste operation.
pub const PASTE_IDENT: &'static str = "RESTORE";
/// Suffix of backup files that are pinned to not be auto-removed.
pub const PINNED_IDENT: &'static str = "PINNED";
/// File extension of backup files.
pub const BACKUP_FILE_EXTENSION: &'static str = "zip";

/// The flag suffix `_IDENT` when `on`, nothing otherwise.
pub open spec fn flag_suffix(on: bool, ident: Seq<char>) -> Seq<char> {
    if on {
        seq!['_'] + ident
    } else {
        Seq::<char>::empty()
    }
}

/// The stem of a backup file name: the character name, `_`, the timestamp
/// text, then `_RESTORE` for a paste backup and `_PINNED` for a pinned one.
pub open spec fn backup_stem(name: Seq<char>, ts: Seq<char>, paste: bool, pinned: bool) -> Seq<
    char,
> {
    name + seq!['_'] + ts + flag_suffix(paste, PASTE_IDENT@) + flag_suffix(pinned, PINNED_IDENT@)
}

/// A backup file name: its stem followed by `.zip`.
pub open spec fn backup_file_name(name: Seq<char>, ts: Seq<char>, paste: bool, pinned: bool) -> Seq<
    char,
> {
    backup_stem(name, ts, paste, pinned) + seq!['.'] + BACKUP_FILE_EXTENSION@
}

/// Generate a backup file name for the given parameters.
pub fn get_backup_name_from(char_name: &str, timestamp: BackupTime, paste: bool, pinned: bool) -> (r:
    String)
    ensures
        r@ == backup_file_name(
            char_name@,
            time_text(timestamp, BACKUP_FILE_TIME_FORMAT@),
            paste,
            pinned,
        ),
{
    let mut out: Vec<char> = chars_of(char_name);
    out.push('_');
    let ts = time_to_string(&timestamp, BACKUP_FILE_TIME_FORMAT);
    let mut ts_chars = chars_of(ts.as_str());
    out.append(&mut ts_chars);
    if paste {
        out.push('_');
        let mut id = chars_of(PASTE_IDENT);
        out.append(&mut id);
    }
    if pinned {
        out.push('_');
        let mut id = chars_of(PINNED_IDENT);
        out.append(&mut id);
    }
    out.push('.');
    let mut ext = chars_of(BACKUP_FILE_EXTENSION);
    out.append(&mut ext);
    proof {
        let n = char_name@;
        let t = time_text(timestamp, BACKUP_FILE_TIME_FORMAT@);
        assert(out@ =~= backup_file_name(n, t, paste, pinned));
    }
    string_from_chars(out.as_slice())
}

/// Generate a backup file name for the given `WoW` character, stamped with
/// `now` (the current local time, which the caller reads from the clock).
pub fn get_backup_name(character: &WoWCharacter, now: BackupTime, paste: bool, pinned: bool) -> (r:
    String)
    ensures
        r@ == backup_file_name(
            character.name@,
            time_text(now, BACKUP_FILE_TIME_FORMAT@),
            paste,
            pinned,
        ),
{
    get_backup_name_from(character.name.as_str(), now, paste, pinned)
}

/// Whether one of the segments after the first two is `ident`.
pub open spec fn has_flag_segment(segs: Seq<Seq<char>>, ident: Seq<char>) -> bool {
    exists|i: int| 2 <= i < segs.len() && segs[i] == ident
}

/// What a backup file stem says: the character name (first `_`-separated
/// segment), the timestamp (second segment, read by chrono; see
/// `read_file_stamp`), and whether any
/// later segment is the paste or the pinned marker. `None` when there are
/// fewer than two segments or the timestamp does not parse.
pub open spec fn backup_name_parts(stem: Seq<char>) -> Option<(Seq<char>, TimeFields, bool, bool)> {
    let segs = split_on(stem, '_');
    if segs.len() < 2 {
        None
    } else {
        match read_file_stamp(segs[1]) {
            Some(f) => Some(
                (
                    segs[0],
                    f,
                    has_flag_segment(segs, PASTE_IDENT@),
                    has_flag_segment(segs, PINNED_IDENT@),
                ),
            ),
            None => None,
        }
    }
}

/// Extract the character name, timestamp, paste flag and pinned flag from a
/// backup file stem.
pub fn extract_backup_name(backup_filestem: &str) -> (r: Option<(String, BackupTime, bool, bool)>)
    ensures
        match r {
            Some((n, t, paste, pinned)) => backup_name_parts(backup_filestem@) == Some(
                (n@, t.fields(), paste, pinned),
            ),
            None => backup_name_parts(backup_filestem@) is None,
        },
{
    let chars = chars_of(backup_filestem);
    let segments = split_chars(&chars, '_');
    let ghost segs = split_on(backup_filestem@, '_');
    if segments.len() < 2 {
        return None;
    }
    let name = string_from_chars(segments[0].as_slice());
    let date_text = string_from_chars(segments[1].as_slice());
    let date = match parse_time(date_text.as_str(), BACKUP_FILE_TIME_FORMAT) {
        Some(d) => d,
        None => return None,
    };
    let mut paste = false;
    let mut pinned = false;
    let mut i: usize = 2;
    while i < segments.len()
        invariant
            2 <= i <= segments@.len(),
            segments@.len() == segs.len(),
            forall|k: int| 0 <= k < segments@.len() ==> #[trigger] segments@[k]@ == segs[k],
            paste == (exists|k: int| 2 <= k < i && segs[k] == PASTE_IDENT@),
            pinned == (exists|k: int| 2 <= k < i && segs[k] == PINNED_IDENT@),
        decreases segments@.len() - i,
    {
        let seg = string_from_chars(segments[i].as_slice());
        assert(seg@ == segs[i as int]);
        if text_eq(seg.as_str(), PASTE_IDENT) {
            paste = true;
        }
        if text_eq(seg.as_str(), PINNED_IDENT) {
            pinned = true;
        }
        i = i + 1;
    }
    Some((name, date, paste, pinned))
}

/// Law: a backup file name reads back as what it was made from, for a
/// character name with no `_` and a calendar date-time with a year from 0 to
/// 9999 (whose timestamp chrono prints as `YYYYMMDD-HHMMSS`).
pub proof fn law_backup_name_roundtrip(name: Seq<char>, t: BackupTime, paste: bool, pinned: bool)
    requires
        !name.contains('_'),
        is_four_digit_time(t),
    ensures
        backup_name_parts(backup_stem(name, time_text(t, BACKUP_FILE_TIME_FORMAT@), paste, pinned))
            == Some((name, t.fields(), paste, pinned)),
{
    let ts = time_text(t, BACKUP_FILE_TIME_FORMAT@);
    lemma_file_stamp_roundtrip(t);
    assert(ts == file_stamp_text(t));
    let r = PASTE_IDENT@;
    let p = PINNED_IDENT@;
    reveal_strlit("RESTORE");
    reveal_strlit("PINNED");
    assert(!r.contains('_')) by {
        assert(r =~= seq!['R', 'E', 'S', 'T', 'O', 'R', 'E']);
    }
    assert(!p.contains('_')) by {
        assert(p =~= seq!['P', 'I', 'N', 'N', 'E', 'D']);
    }
    assert(r != p) by {
        assert(r[0] != p[0]);
    }
    let rest = ts + flag_suffix(paste, r) + flag_suffix(pinned, p);
    assert(backup_stem(name, ts, paste, pinned) =~= name + seq!['_'] + rest);
    lemma_split_on_prefix(name, rest, '_');
    let segs = split_on(backup_stem(name, ts, paste, pinned), '_');
    let expected: Seq<Seq<char>> = seq![name, ts] + (if paste { seq![r] } else { Seq::<Seq<char>>::empty() }) + (if pinned { seq![p] } else { Seq::<Seq<char>>::empty() });
    if paste && pinned {
        assert(rest =~= ts + seq!['_'] + (r + seq!['_'] + p));
        lemma_split_on_prefix(ts, r + seq!['_'] + p, '_');
        lemma_split_on_prefix(r, p, '_');
        lemma_split_on_no_sep(p, '_');
        assert(segs =~= seq![name, ts, r, p]);
        assert(segs[2] == r);
        assert(segs[3] == p);
    } else if paste {
        assert(rest =~= ts + seq!['_'] + r);
        lemma_split_on_prefix(ts, r, '_');
        lemma_split_on_no_sep(r, '_');
        assert(segs =~= seq![name, ts, r]);
        assert(segs[2] == r);
        assert(!has_flag_segment(segs, p));
    } else if pinned {
        assert(rest =~= ts + seq!['_'] + p);
        lemma_split_on_prefix(ts, p, '_');
        lemma_split_on_no_sep(p, '_');
        assert(segs =~= seq![name, ts, p]);
        assert(segs[2] == p);
        assert(!has_flag_segment(segs, r));
    } else {
        assert(rest =~= ts);
        lemma_split_on_no_sep(ts, '_');
        assert(segs =~= seq![name, ts]);
    }
}

/// Law: the file a backup is written to reads back as that backup: it is a
/// backup archive, and its name gives back the character name, the time and
/// both flags (under the conditions of the name round trip).
pub proof fn law_backup_file_roundtrip(name: Seq<char>, t: BackupTime, paste: bool, pinned: bool)
    requires
        !name.contains('_'),
        is_four_digit_time(t),
    ensures
        is_backup_file(backup_file_name(name, time_text(t, BACKUP_FILE_TIME_FORMAT@), paste, pinned)),
        backup_name_parts(
            file_stem_of(backup_file_name(name, time_text(t, BACKUP_FILE_TIME_FORMAT@), paste, pinned)),
        ) == Some((name, t.fields(), paste, pinned)),
{
    let ts = time_text(t, BACKUP_FILE_TIME_FORMAT@);
    let stem = backup_stem(name, ts, paste, pinned);
    let ext = BACKUP_FILE_EXTENSION@;
    reveal_strlit("zip");
    assert(ext =~= seq!['z', 'i', 'p']);
    assert(!ext.contains('.')) by {
        if ext.contains('.') {
            let i = choose|i: int| 0 <= i < ext.len() && ext[i] == '.';
        }
    }
    lemma_last_index_after(stem, '.', ext);
    let file = backup_file_name(name, ts, paste, pinned);
    assert(file == stem + seq!['.'] + ext);
    assert(stem.len() > 0) by {
        assert(stem[name.len() as int] == '_');
    }
    assert(file.take(stem.len() as int) =~= stem);
    assert(file.skip(stem.len() as int + 1) =~= ext);
    law_backup_name_roundtrip(name, t, paste, pinned);
}

/// Law: the name a backup is renamed to when its pin is toggled reads back
/// as the same backup with the pin flipped (under the conditions of the name
/// round trip).
pub proof fn law_pin_toggle_reads_back(b: BackupView)
    requires
        !b.char_name.contains('_'),
        is_four_digit_time(b.timestamp),
    ensures
        ({
            let renamed = backup_file_name(
                b.char_name,
                time_text(b.timestamp, BACKUP_FILE_TIME_FORMAT@),
                b.is_paste,
                !b.is_pinned,
            );
            &&& is_backup_file(renamed)
            &&& backup_name_parts(file_stem_of(renamed)) == Some(
                (b.char_name, b.timestamp.fields(), b.is_paste, !b.is_pinned),
            )
        }),
{
    law_backup_file_roundtrip(b.char_name, b.timestamp, b.is_paste, !b.is_pinned);
}

/// Whether a file of a backups folder is a backup archive: its extension is
/// `zip` and its stem reads as a backup name.
pub open spec fn is_backup_file(name: Seq<char>) -> bool {
    extension_of(name) == Some(BACKUP_FILE_EXTENSION@) && backup_name_parts(file_stem_of(name)) is Some
}

/// The backup `b` is the one that the file `name` of the folder `dir` holds.
pub open spec fn describes_backup_file(b: BackupView, dir: Seq<Seq<char>>, name: Seq<char>) -> bool {
    &&& b.path == dir.push(name)
    &&& backup_name_parts(file_stem_of(name)) == Some(
        (b.char_name, b.timestamp.fields(), b.is_paste, b.is_pinned),
    )
}

/// The backup held by the file `name` of the backups folder `dir`; `None`
/// when the file is not a backup archive.
pub fn backup_from_file_name(dir: &ChronoPath, name: &str) -> (r: Option<WoWCharacterBackup>)
    ensures
        match r {
            Some(b) => is_backup_file(name@) && describes_backup_file(b@, dir@, name@),
            None => !is_backup_file(name@),
        },
{
    let (stem, ext) = split_file_name(name);
    match ext {
        Some(e) => {
            if !text_eq(e.as_str(), BACKUP_FILE_EXTENSION) {
                return None;
            }
        },
        None => return None,
    }
    match extract_backup_name(stem.as_str()) {
        Some((char_name, timestamp, is_paste, is_pinned)) => Some(
            WoWCharacterBackup { path: dir.join(name), char_name, timestamp, is_paste, is_pinned },
        ),
        None => None,
    }
}

/// The backup files among the names of a folder, in folder order.
pub open spec fn backup_file_names(names: Seq<Seq<char>>) -> Seq<Seq<char>> {
    names.filter(|n: Seq<char>| is_backup_file(n))
}

/// The timestamp that a backup file name holds.
pub open spec fn backup_file_time(name: Seq<char>) -> BackupTime {
    time_from_fields(backup_name_parts(file_stem_of(name)).unwrap().1)
}

/// The timestamps of the backup files among the names of a folder, in folder order.
pub open spec fn backup_file_times(names: Seq<Seq<char>>) -> Seq<BackupTime> {
    backup_file_names(names).map_values(|n: Seq<char>| backup_file_time(n))
}

/// The timestamps of a character's unpinned automatic backups, in list order.
pub open spec fn auto_backup_times(c: WoWCharacter) -> Seq<BackupTime> {
    c.auto_backups().map_values(|b: BackupView| b.timestamp)
}

/// The backups held by the files of a backups folder, newest first; backups
/// made at the same time keep the folder order. Files that are not backup
/// archives are left out.
pub fn backups_from_file_names(dir: &ChronoPath, names: &Vec<String>) -> (r: Vec<WoWCharacterBackup>)
    ensures
        r@.len() == backup_file_names(texts_of(names@)).len(),
        exists|order: Seq<usize>|
            {
                &&& #[trigger] is_stable_time_order(backup_file_times(texts_of(names@)), order, true)
                &&& forall|i: int|
                    0 <= i < r@.len() ==> describes_backup_file(
                        #[trigger] r@[i]@,
                        dir@,
                        backup_file_names(texts_of(names@))[order[i] as int],
                    )
            },
{
    let ghost ns = texts_of(names@);
    let mut found: Vec<WoWCharacterBackup> = Vec::new();
    let mut times: Vec<BackupTime> = Vec::new();
    let mut k: usize = 0;
    proof {
        reveal(Seq::filter);
        assert(ns.take(0) =~= Seq::<Seq<char>>::empty());
    }
    while k < names.len()
        invariant
            k <= names@.len(),
            ns == texts_of(names@),
            found@.len() == backup_file_names(ns.take(k as int)).len(),
            times@.len() == found@.len(),
            forall|i: int|
                0 <= i < found@.len() ==> describes_backup_file(
                    #[trigger] found@[i]@,
                    dir@,
                    backup_file_names(ns.take(k as int))[i],
                ),
            forall|i: int| 0 <= i < found@.len() ==> #[trigger] times@[i] == found@[i].timestamp,
        decreases names@.len() - k,
    {
        proof {
            reveal(Seq::filter);
            assert(ns.take(k as int + 1).drop_last() =~= ns.take(k as int));
            assert(ns.take(k as int + 1).last() == names@[k as int]@);
        }
        let ghost fb = found@;
        let ghost tb = times@;
        if let Some(b) = backup_from_file_name(dir, names[k].as_str()) {
            times.push(b.timestamp);
            found.push(b);
            proof {
                assert forall|i: int| 0 <= i < found@.len() implies describes_backup_file(
                    #[trigger] found@[i]@,
                    dir@,
                    backup_file_names(ns.take(k as int + 1))[i],
                ) by {
                    if i < fb.len() {
                        assert(found@[i] == fb[i]);
                    }
                }
                assert forall|i: int| 0 <= i < found@.len() implies #[trigger] times@[i] == found@[i].timestamp by {
                    if i < fb.len() {
                        assert(found@[i] == fb[i]);
                        assert(times@[i] == tb[i]);
                    }
                }
            }
        }
        k = k + 1;
    }
    let ghost kept = backup_file_names(ns);
    proof {
        assert(ns.take(k as int) =~= ns);
        assert forall|i: int| 0 <= i < times@.len() implies #[trigger] times@[i] == kept.map_values(
            |n: Seq<char>| backup_file_time(n),
        )[i] by {
            assert(describes_backup_file(found@[i]@, dir@, kept[i]));
            assert(time_from_fields(found@[i].timestamp.fields()) == found@[i].timestamp);
        }
        assert(times@ =~= kept.map_values(|n: Seq<char>| backup_file_time(n)));
        assert(times@ == backup_file_times(ns));
    }
    let order = stable_time_order(&times, true);
    let mut out: Vec<WoWCharacterBackup> = Vec::new();
    let mut i: usize = 0;
    while i < order.len()
        invariant
            i <= order@.len(),
            is_stable_time_order(times@, order@, true),
            times@.len() == found@.len(),
            found@.len() == kept.len(),
            out@.len() == i,
            forall|j: int| 0 <= j < found@.len() ==> describes_backup_file(#[trigger] found@[j]@, dir@, kept[j]),
            forall|j: int| 0 <= j < i ==> #[trigger] out@[j]@ == found@[order@[j] as int]@,
        decreases order@.len() - i,
    {
        let b = found[order[i]].copy();
        out.push(b);
        i = i + 1;
    }
    proof {
        assert forall|j: int| 0 <= j < out@.len() implies describes_backup_file(
            #[trigger] out@[j]@,
            dir@,
            kept[order@[j] as int],
        ) by {
            assert(out@[j]@ == found@[order@[j] as int]@);
        }
    }
    out
}

/// A `WoW` character together with its installation, owned so that it can be
/// handed to background work.
#[derive(Debug, Clone)]
pub struct CharWithInstallLocal {
    /// The character.
    pub character: WoWCharacter,
    /// The installation it belongs to.
    pub install: WoWInstall,
}

impl CharWithInstallLocal {
    /// Get the character's data path.
    pub fn get_character_path(&self) -> (p: ChronoPath)
        ensures
            p@ == self.character.character_path(self.install),
    {
        self.character.get_character_path(&self.install)
    }

    /// Get the character's backups directory path.
    pub fn get_backups_dir(&self) -> (p: ChronoPath)
        ensures
            p@ == self.character.backups_path(self.install),
    {
        self.character.get_backups_dir(&self.install)
    }
}

/// The new file name a backup must be renamed to for its pinned state to
/// become `pinned`; `None` when it already is in that state.
pub fn change_backup_pin_state(backup: &WoWCharacterBackup, pinned: bool) -> (r: Option<String>)
    ensures
        backup.is_pinned == pinned ==> r is None,
        backup.is_pinned != pinned ==> (r matches Some(n) && n@ == backup_file_name(
            backup.char_name@,
            time_text(backup.timestamp, BACKUP_FILE_TIME_FORMAT@),
            backup.is_paste,
            pinned,
        )),
{
    if backup.is_pinned == pinned {
        return None;
    }
    Some(get_backup_name_from(backup.char_name.as_str(), backup.timestamp, backup.is_paste, pinned))
}

/// The new file name a backup must be renamed to for its pinned state to flip.
pub fn toggle_backup_pin(backup: &WoWCharacterBackup) -> (r: String)
    ensures
        r@ == backup_file_name(
            backup.char_name@,
            time_text(backup.timestamp, BACKUP_FILE_TIME_FORMAT@),
            backup.is_paste,
            !backup.is_pinned,
        ),
{
    get_backup_name_from(
        backup.char_name.as_str(),
        backup.timestamp,
        backup.is_paste,
        !backup.is_pinned,
    )
}

/// Whether a backup may be removed: automatic clean-up never removes a
/// pinned backup; a removal asked for by the user always goes ahead.
pub fn delete_backup_file(backup: &WoWCharacterBackup, auto_removed: bool) -> (b: bool)
    ensures
        b == !(auto_removed && backup.is_pinned),
{
    !(auto_removed && backup.is_pinned)
}

/// How many automatic backups exceed the allowed maximum.
pub open spec fn excess_backups(auto_count: int, max_auto_backups: int) -> int {
    if auto_count > max_auto_backups {
        auto_count - max_auto_backups
    } else {
        0
    }
}

/// The automatic backups to remove so that at most `max_auto_backups` are
/// left: the oldest unpinned automatic backups, oldest first (equally old
/// ones in list order). `None` when nothing needs removing.
pub fn manage_character_backups(character: &WoWCharacter, max_auto_backups: usize) -> (r: Option<
    Vec<WoWCharacterBackup>,
>)
    ensures
        excess_backups(character.auto_backups().len() as int, max_auto_backups as int) == 0
            ==> r is None,
        excess_backups(character.auto_backups().len() as int, max_auto_backups as int) > 0
            ==> (r matches Some(v) && v@.len() == excess_backups(
            character.auto_backups().len() as int,
            max_auto_backups as int,
        ) && exists|order: Seq<usize>|
            {
                &&& #[trigger] is_stable_time_order(auto_backup_times(*character), order, false)
                &&& forall|i: int|
                    0 <= i < v@.len() ==> #[trigger] v@[i]@ == character.auto_backups()[order[i] as int]
            }),
{
    let auto = character.unpinned_auto_backups();
    let count = auto.len().saturating_sub(max_auto_backups);
    if count == 0 {
        return None;
    }
    let ghost autos = character.auto_backups();
    let mut times: Vec<BackupTime> = Vec::new();
    let mut k: usize = 0;
    while k < auto.len()
        invariant
            k <= auto@.len(),
            times@.len() == k,
            forall|j: int| 0 <= j < k ==> #[trigger] times@[j] == auto@[j].timestamp,
        decreases auto@.len() - k,
    {
        times.push(auto[k].timestamp);
        k = k + 1;
    }
    proof {
        assert forall|j: int| 0 <= j < times@.len() implies #[trigger] times@[j] == autos.map_values(
            |b: BackupView| b.timestamp,
        )[j] by {
            assert(backup_views(auto@)[j] == auto@[j]@);
        }
        assert(times@ =~= autos.map_values(|b: BackupView| b.timestamp));
        assert(times@ == auto_backup_times(*character));
    }
    let order = stable_time_order(&times, false);
    let mut out: Vec<WoWCharacterBackup> = Vec::new();
    let mut i: usize = 0;
    while i < count
        invariant
            count <= order@.len(),
            i <= count,
            is_stable_time_order(times@, order@, false),
            times@.len() == auto@.len(),
            backup_views(auto@) == autos,
            out@.len() == i,
            forall|j: int| 0 <= j < i ==> #[trigger] out@[j]@ == autos[order@[j] as int],
        decreases count - i,
    {
        let b = auto[order[i]].copy();
        assert(backup_views(auto@)[order@[i as int] as int] == auto@[order@[i as int] as int]@);
        out.push(b);
        i = i + 1;
    }
    Some(out)
}


/// Whether two paths have the same segments.
pub fn same_path(a: &ChronoPath, b: &ChronoPath) -> (r: bool)
    ensures
        r == (a@ == b@),
{
    if a.segments.len() != b.segments.len() {
        assert(a@.len() != b@.len());
        return false;
    }
    let mut i: usize = 0;
    while i < a.segments.len()
        invariant
            a.segments@.len() == b.segments@.len(),
            i <= a.segments@.len(),
            forall|k: int| 0 <= k < i ==> a@[k] == b@[k],
        decreases a.segments@.len() - i,
    {
        if !text_eq(a.segments[i].as_str(), b.segments[i].as_str()) {
            assert(a@[i as int] != b@[i as int]);
            return false;
        }
        i = i + 1;
    }
    assert(a@ =~= b@);
    true
}

/// Whether `p` is one of `paths`.
pub open spec fn path_listed(paths: Seq<ChronoPath>, p: Seq<Seq<char>>) -> bool {
    exists|k: int| 0 <= k < paths.len() && #[trigger] paths[k]@ == p
}

/// Whether a backup archives the file at `p`: every file when no selection
/// is given, otherwise only the selected ones.
pub open spec fn is_backed_up(selected: Option<Seq<ChronoPath>>, p: Seq<Seq<char>>) -> bool {
    match selected {
        Some(sel) => path_listed(sel, p),
        None => true,
    }
}

/// The files among `found` that a backup archives, in the order found.
pub open spec fn backup_selection(found: Seq<Seq<Seq<char>>>, selected: Option<Seq<ChronoPath>>) -> Seq<
    Seq<Seq<char>>,
>
    decreases found.len(),
{
    if found.len() == 0 {
        Seq::<Seq<Seq<char>>>::empty()
    } else {
        let rest = backup_selection(found.drop_last(), selected);
        if is_backed_up(selected, found.last()) {
            rest.push(found.last())
        } else {
            rest
        }
    }
}

/// The files that a backup archives, in the order found: all files found
/// in the character's folder, or only those among them that are selected.
/// Paths are relative to the character's folder.
pub fn files_to_back_up(found: &Vec<ChronoPath>, selected: Option<&Vec<ChronoPath>>) -> (r: Vec<ChronoPath>)
    ensures
        r@.map_values(|p: ChronoPath| p@) == backup_selection(
            found@.map_values(|p: ChronoPath| p@),
            match selected {
                Some(sel) => Some(sel@),
                None => None,
            },
        ),
{
    let ghost sv = match selected {
        Some(sel) => Some(sel@),
        None => None,
    };
    let ghost fv = found@.map_values(|p: ChronoPath| p@);
    let mut out: Vec<ChronoPath> = Vec::new();
    let mut k: usize = 0;
    proof {
        assert(fv.take(0) =~= Seq::<Seq<Seq<char>>>::empty());
        assert(out@.map_values(|p: ChronoPath| p@) =~= Seq::<Seq<Seq<char>>>::empty());
    }
    while k < found.len()
        invariant
            k <= found@.len(),
            fv == found@.map_values(|p: ChronoPath| p@),
            sv == (match selected {
                Some(sel) => Some(sel@),
                None => None::<Seq<ChronoPath>>,
            }),
            out@.map_values(|p: ChronoPath| p@) == backup_selection(fv.take(k as int), sv),
        decreases found@.len() - k,
    {
        proof {
            assert(fv.take(k as int + 1).drop_last() =~= fv.take(k as int));
            assert(fv.take(k as int + 1).last() == fv[k as int]);
        }
        let listed = match selected {
            Some(sel) => {
                let mut j: usize = 0;
                let mut hit = false;
                while j < sel.len()
                    invariant
                        j <= sel@.len(),
                        k < found@.len(),
                        hit == (exists|m: int| 0 <= m < j && #[trigger] sel@[m]@ == found@[k as int]@),
                    decreases sel@.len() - j,
                {
                    if same_path(&sel[j], &found[k]) {
                        hit = true;
                    }
                    j = j + 1;
                }
                assert(hit == path_listed(sel@, found@[k as int]@));
                hit
            },
            None => true,
        };
        assert(fv[k as int] == found@[k as int]@);
        assert(listed == is_backed_up(sv, fv[k as int]));
        let ghost before = out@;
        if listed {
            out.push(found[k].copy());
            assert(out@.map_values(|p: ChronoPath| p@) =~= before.map_values(|p: ChronoPath| p@).push(fv[k as int]));
        }
        k = k + 1;
    }
    proof {
        assert(fv.take(found@.len() as int) =~= fv);
    }
    out
}

/// What restoring one archive entry does, as paths.
pub enum RestoreActionView {
    /// Nothing.
    Skip,
    /// Make sure the folder exists.
    EnsureDir(Seq<Seq<char>>),
    /// Make sure the first folder exists, then write the entry to the file.
    WriteFile(Seq<Seq<char>>, Seq<Seq<char>>),
    /// Mock mode: report the folder, touch nothing.
    MockDir(Seq<Seq<char>>),
    /// Mock mode: report the file as restored, touch nothing.
    MockFile(Seq<Seq<char>>),
}

/// What restoring one archive entry does.
#[derive(Debug)]
pub enum RestoreAction {
    /// Nothing: the entry's name does not lead inside the character folder.
    Skip,
    /// Make sure the folder exists, creating it if needed.
    EnsureDir(ChronoPath),
    /// Make sure the folder `parent` exists, then write the entry's contents
    /// to `file`.
    WriteFile { parent: ChronoPath, file: ChronoPath },
    /// Mock mode: the folder entry is only reported; nothing is created.
    MockDir(ChronoPath),
    /// Mock mode: the file entry is only reported; nothing is written.
    MockFile(ChronoPath),
}

impl View for RestoreAction {
    type V = RestoreActionView;

    open spec fn view(&self) -> RestoreActionView {
        match self {
            RestoreAction::Skip => RestoreActionView::Skip,
            RestoreAction::EnsureDir(p) => RestoreActionView::EnsureDir(p@),
            RestoreAction::WriteFile { parent, file } => RestoreActionView::WriteFile(parent@, file@),
            RestoreAction::MockDir(p) => RestoreActionView::MockDir(p@),
            RestoreAction::MockFile(p) => RestoreActionView::MockFile(p@),
        }
    }
}

/// The folder that holds the file `root` joined with `rel`: `root` itself
/// when `rel` has at most one segment.
pub open spec fn restore_parent(root: Seq<Seq<char>>, rel: Seq<Seq<char>>) -> Seq<Seq<char>> {
    if rel.len() == 0 {
        root
    } else {
        root + rel.drop_last()
    }
}

/// What restoring the archive entry `entry_name`, whose safe relative path
/// is `enclosed`, into the folder `root` does: an entry with no safe path is
/// skipped; a folder entry (its name ends in `/`) only makes sure its folder
/// exists; a file entry makes sure its parent folder exists and is written.
/// In mock mode nothing is created or written.
pub open spec fn restore_action_of(
    entry_name: Seq<char>,
    enclosed: Option<Seq<Seq<char>>>,
    root: Seq<Seq<char>>,
    mock_mode: bool,
) -> RestoreActionView {
    match enclosed {
        None => RestoreActionView::Skip,
        Some(rel) => if entry_name.len() > 0 && entry_name.last() == '/' {
            if mock_mode {
                RestoreActionView::MockDir(root + rel)
            } else {
                RestoreActionView::EnsureDir(root + rel)
            }
        } else if mock_mode {
            RestoreActionView::MockFile(root + rel)
        } else {
            RestoreActionView::WriteFile(restore_parent(root, rel), root + rel)
        },
    }
}

/// The segments of an optional path.
pub open spec fn enclosed_view(p: Option<ChronoPath>) -> Option<Seq<Seq<char>>> {
    match p {
        Some(q) => Some(q@),
        None => None,
    }
}

/// Whether the action writes a file.
pub open spec fn writes_file(a: RestoreActionView) -> bool {
    a is WriteFile
}

/// Whether the action creates a folder or writes a file.
pub open spec fn touches_disk(a: RestoreActionView) -> bool {
    a is WriteFile || a is EnsureDir
}

/// Every path that the action names begins with `root`.
pub open spec fn action_inside(a: RestoreActionView, root: Seq<Seq<char>>) -> bool {
    match a {
        RestoreActionView::Skip => true,
        RestoreActionView::EnsureDir(p) => root.is_prefix_of(p),
        RestoreActionView::WriteFile(d, f) => root.is_prefix_of(d) && root.is_prefix_of(f),
        RestoreActionView::MockDir(p) => root.is_prefix_of(p),
        RestoreActionView::MockFile(p) => root.is_prefix_of(p),
    }
}

/// One step of restoring a backup archive: the action for the archive
/// entry `entry_name` with the safe relative path `enclosed` (`None` when
/// its name leads outside the folder), the count of files restored after
/// it, and the progress to report (a file entry reports the count out of
/// `total`; a folder or skipped entry reports nothing).
pub fn restore_entry_step(
    entry_name: &str,
    enclosed: Option<ChronoPath>,
    root: &ChronoPath,
    mock_mode: bool,
    restored: usize,
    total: usize,
) -> (r: (RestoreAction, usize, Option<IOProgress>))
    requires
        restored < usize::MAX,
    ensures
        r.0@ == restore_action_of(entry_name@, enclosed_view(enclosed), root@, mock_mode),
        r.1 == (if writes_file(r.0@) {
            restored + 1
        } else {
            restored as int
        }),
        r.2 == (if r.0@ is WriteFile || r.0@ is MockFile {
            Some(IOProgress::Advanced { completed: r.1, total })
        } else {
            None
        }),
{
    match enclosed {
        None => (RestoreAction::Skip, restored, None),
        Some(rel) => {
            let n = rel.segments.len();
            let out = root.join_prefix(&rel, n);
            proof {
                assert(rel@.take(n as int) =~= rel@);
            }
            if is_folder_entry(entry_name) {
                if mock_mode {
                    (RestoreAction::MockDir(out), restored, None)
                } else {
                    (RestoreAction::EnsureDir(out), restored, None)
                }
            } else if mock_mode {
                (RestoreAction::MockFile(out), restored, Some(IOProgress::Advanced { completed: restored, total }))
            } else {
                let parent = if n == 0 {
                    root.copy()
                } else {
                    let p = root.join_prefix(&rel, n - 1);
                    proof {
                        assert(rel@.take(n - 1) =~= rel@.drop_last());
                    }
                    p
                };
                let count = restored + 1;
                (RestoreAction::WriteFile { parent, file: out }, count, Some(IOProgress::Advanced { completed: count, total }))
            }
        },
    }
}

/// Law: restoring an entry never names a path outside the character
/// folder, and in mock mode it neither creates a folder nor writes a file
/// (and counts no file as restored).
pub proof fn law_restore_step_safe(
    entry_name: Seq<char>,
    enclosed: Option<Seq<Seq<char>>>,
    root: Seq<Seq<char>>,
    mock_mode: bool,
)
    ensures
        action_inside(restore_action_of(entry_name, enclosed, root, mock_mode), root),
        mock_mode ==> !touches_disk(restore_action_of(entry_name, enclosed, root, mock_mode)),
        enclosed is None ==> restore_action_of(entry_name, enclosed, root, mock_mode) is Skip,
{
    match enclosed {
        None => {},
        Some(rel) => {
            assert(root.is_prefix_of(root + rel)) by {
                assert((root + rel).take(root.len() as int) =~= root);
            }
            assert(root.is_prefix_of(restore_parent(root, rel))) by {
                if rel.len() > 0 {
                    assert((root + rel.drop_last()).take(root.len() as int) =~= root);
                } else {
                    assert(root.take(root.len() as int) =~= root);
                }
            }
        },
    }
}

/// A job of a paste, in the order they run.
#[derive(Debug, Clone, Copy, PartialEq, Eq, Structural)]
pub enum PasteJob {
    /// Back up the files about to be replaced, with the given paste and
    /// pinned flags in the backup's name.
    BackupSelected { paste: bool, pinned: bool },
    /// Copy the selected files over.
    CopyFiles,
}

/// The jobs of a paste: in mock mode only the copy (which then touches no
/// file); otherwise first an automatic backup of the files about to be
/// replaced, marked as made by a paste and not pinned, then the copy.
pub fn paste_plan(mock_mode: bool) -> (r: Vec<PasteJob>)
    ensures
        mock_mode ==> r@ == seq![PasteJob::CopyFiles],
        !mock_mode ==> r@ == seq![
            PasteJob::BackupSelected { paste: true, pinned: false },
            PasteJob::CopyFiles,
        ],
{
    let mut jobs: Vec<PasteJob> = Vec::new();
    if !mock_mode {
        jobs.push(PasteJob::BackupSelected { paste: true, pinned: false });
    }
    jobs.push(PasteJob::CopyFiles);
    jobs
}

} // verus!
