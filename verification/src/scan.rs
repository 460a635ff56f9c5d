//! What an installation's folders say: its accounts, realms and characters,
//! and the files, backups and class of each character. The folders are
//! read by the caller; these functions decide what the listings mean.

use vstd::prelude::*;

use crate::backend::{backups_from_file_names, backup_file_names, backup_file_times, describes_backup_file};
use crate::class_config::{class_id_from_config, config_class_id};
use crate::path::ChronoPath;
use crate::text::{chars_of, text_eq};
use crate::time::is_stable_time_order;
use crate::wow::{
    SAVED_VARIABLES_DIR, WoWCharacter, WoWClass, WoWCharacterFile, WoWInstall,
    character_files_from_names, file_views, listed_file_order, lowercase_of, str_lowercase,
    texts_of,
};

verus! {

/// Whether `char::is_numeric` holds of a character (the Unicode numeric
/// categories Nd, Nl and No).
pub uninterp spec fn char_numeric(c: char) -> bool;

/// Tells whether a character is numeric with `char::is_numeric`.
#[verifier::external_body]
fn is_numeric_char(c: char) -> (b: bool)
    ensures
        b == char_numeric(c),
{
    c.is_numeric()
}

/// Whether a folder name is an account folder of `WTF/Account`: not the
/// `SavedVariables` folder, and only numeric characters and `#`.
pub open spec fn is_account_name(name: Seq<char>) -> bool {
    &&& name != SAVED_VARIABLES_DIR@
    &&& forall|i: int| 0 <= i < name.len() ==> char_numeric(#[trigger] name[i]) || name[i] == '#'
}

/// Check if a directory name is a valid `WoW` account directory name within
/// the `WTF/Account` path.
pub fn is_account_dir(dir_name: &str) -> (b: bool)
    ensures
        b == is_account_name(dir_name@),
{
    if text_eq(dir_name, SAVED_VARIABLES_DIR) {
        return false;
    }
    let cs = chars_of(dir_name);
    let mut i: usize = 0;
    while i < cs.len()
        invariant
            i <= cs@.len(),
            cs@ == dir_name@,
            forall|j: int| 0 <= j < i ==> char_numeric(#[trigger] cs@[j]) || cs@[j] == '#',
        decreases cs@.len() - i,
    {
        if !(is_numeric_char(cs[i]) || cs[i] == '#') {
            return false;
        }
        i = i + 1;
    }
    true
}

/// The realms of the accounts, account after account: each folder of an
/// account's folder but `SavedVariables`, with the account's name.
pub open spec fn realm_pairs(accounts: Seq<(Seq<char>, Seq<Seq<char>>)>) -> Seq<(Seq<char>, Seq<char>)>
    decreases accounts.len(),
{
    if accounts.len() == 0 {
        Seq::<(Seq<char>, Seq<char>)>::empty()
    } else {
        let (a, folders) = accounts.last();
        realm_pairs(accounts.drop_last()) + folders.filter(|f: Seq<char>| f != SAVED_VARIABLES_DIR@).map_values(
            |f: Seq<char>| (a, f),
        )
    }
}

/// The characters of the realms, realm after realm: each folder of a
/// realm's folder, with the account's and the realm's names.
pub open spec fn character_triples(realms: Seq<(Seq<char>, Seq<char>, Seq<Seq<char>>)>) -> Seq<
    (Seq<char>, Seq<char>, Seq<char>),
>
    decreases realms.len(),
{
    if realms.len() == 0 {
        Seq::<(Seq<char>, Seq<char>, Seq<char>)>::empty()
    } else {
        let (a, r, folders) = realms.last();
        character_triples(realms.drop_last()) + folders.map_values(|n: Seq<char>| (a, r, n))
    }
}

/// The name of the main configuration file, compared after lower-casing.
pub const CONFIG_WTF: &'static str = "config-cache.wtf";

impl WoWInstall {
    /// The valid account folders among the folders of this installation's
    /// `WTF/Account` folder, in order.
    pub fn find_all_valid_accounts(&self, account_folders: &Vec<String>) -> (r: Vec<String>)
        ensures
            texts_of(r@) == texts_of(account_folders@).filter(|n: Seq<char>| is_account_name(n)),
    {
        let ghost ns = texts_of(account_folders@);
        let mut out: Vec<String> = Vec::new();
        let mut k: usize = 0;
        proof {
            reveal(Seq::filter);
            assert(ns.take(0) =~= Seq::<Seq<char>>::empty());
            assert(texts_of(out@) =~= Seq::<Seq<char>>::empty());
        }
        while k < account_folders.len()
            invariant
                k <= account_folders@.len(),
                ns == texts_of(account_folders@),
                texts_of(out@) == ns.take(k as int).filter(|n: Seq<char>| is_account_name(n)),
            decreases account_folders@.len() - k,
        {
            proof {
                reveal(Seq::filter);
                assert(ns.take(k as int + 1).drop_last() =~= ns.take(k as int));
            }
            let ghost before = out@;
            if is_account_dir(account_folders[k].as_str()) {
                out.push(account_folders[k].clone());
                assert(texts_of(out@) =~= texts_of(before).push(account_folders@[k as int]@));
            }
            k = k + 1;
        }
        assert(ns.take(k as int) =~= ns);
        out
    }

    /// The realms of the valid accounts, from the folders of each account's
    /// folder (in account order): every folder but `SavedVariables`, with
    /// its account's name.
    pub fn find_all_realms(&self, account_realm_folders: &Vec<(String, Vec<String>)>) -> (r: Vec<
        (String, String),
    >)
        ensures
            r@.map_values(|x: (String, String)| (x.0@, x.1@)) == realm_pairs(
                account_realm_folders@.map_values(|a: (String, Vec<String>)| (a.0@, texts_of(a.1@))),
            ),
    {
        let ghost av = account_realm_folders@.map_values(
            |a: (String, Vec<String>)| (a.0@, texts_of(a.1@)),
        );
        let mut out: Vec<(String, String)> = Vec::new();
        let mut i: usize = 0;
        assert(av.take(0) =~= Seq::<(Seq<char>, Seq<Seq<char>>)>::empty());
        assert(out@.map_values(|x: (String, String)| (x.0@, x.1@)) =~= Seq::<(Seq<char>, Seq<char>)>::empty());
        while i < account_realm_folders.len()
            invariant
                i <= account_realm_folders@.len(),
                av == account_realm_folders@.map_values(|a: (String, Vec<String>)| (a.0@, texts_of(a.1@))),
                out@.map_values(|x: (String, String)| (x.0@, x.1@)) == realm_pairs(av.take(i as int)),
            decreases account_realm_folders@.len() - i,
        {
            let account = &account_realm_folders[i].0;
            let folders = &account_realm_folders[i].1;
            let ghost fs = texts_of(folders@);
            let ghost head = out@.map_values(|x: (String, String)| (x.0@, x.1@));
            let mut j: usize = 0;
            proof {
                reveal(Seq::filter);
                assert(fs.take(0) =~= Seq::<Seq<char>>::empty());
                assert(head + fs.take(0).filter(|f: Seq<char>| f != SAVED_VARIABLES_DIR@).map_values(|f: Seq<char>| (account@, f)) =~= head);
            }
            while j < folders.len()
                invariant
                    j <= folders@.len(),
                    fs == texts_of(folders@),
                    out@.map_values(|x: (String, String)| (x.0@, x.1@)) == head + fs.take(j as int).filter(
                        |f: Seq<char>| f != SAVED_VARIABLES_DIR@,
                    ).map_values(|f: Seq<char>| (account@, f)),
                decreases folders@.len() - j,
            {
                proof {
                    reveal(Seq::filter);
                    assert(fs.take(j as int + 1).drop_last() =~= fs.take(j as int));
                }
                let ghost before = out@;
                if !text_eq(folders[j].as_str(), SAVED_VARIABLES_DIR) {
                    out.push((account.clone(), folders[j].clone()));
                    assert(out@.map_values(|x: (String, String)| (x.0@, x.1@)) =~= before.map_values(
                        |x: (String, String)| (x.0@, x.1@),
                    ).push((account@, folders@[j as int]@)));
                }
                assert(fs.take(j as int + 1).filter(|f: Seq<char>| f != SAVED_VARIABLES_DIR@).map_values(|f: Seq<char>| (account@, f))
                    =~= if fs[j as int] != SAVED_VARIABLES_DIR@ {
                        fs.take(j as int).filter(|f: Seq<char>| f != SAVED_VARIABLES_DIR@).map_values(|f: Seq<char>| (account@, f)).push((account@, fs[j as int]))
                    } else {
                        fs.take(j as int).filter(|f: Seq<char>| f != SAVED_VARIABLES_DIR@).map_values(|f: Seq<char>| (account@, f))
                    });
                j = j + 1;
            }
            proof {
                assert(fs.take(j as int) =~= fs);
                assert(av.take(i as int + 1).drop_last() =~= av.take(i as int));
                assert(av.take(i as int + 1).last() == (account@, fs));
            }
            i = i + 1;
        }
        assert(av.take(i as int) =~= av);
        out
    }

    /// The characters of the realms, from the folders of each realm's
    /// folder (in realm order): one per folder, of this installation's
    /// branch, with no class known yet and no files or backups.
    pub fn find_all_characters(&self, realm_character_folders: &Vec<(String, String, Vec<String>)>) -> (r:
        Vec<WoWCharacter>)
        ensures
            r@.map_values(|c: WoWCharacter| (c.account@, c.realm@, c.name@)) == character_triples(
                realm_character_folders@.map_values(
                    |x: (String, String, Vec<String>)| (x.0@, x.1@, texts_of(x.2@)),
                ),
            ),
            forall|i: int|
                0 <= i < r@.len() ==> {
                    &&& (#[trigger] r@[i]).branch@ == self.branch_ident@
                    &&& r@[i].class == WoWClass::Unknown
                    &&& r@[i].config_files@.len() == 0
                    &&& r@[i].addon_files@.len() == 0
                    &&& r@[i].backups@.len() == 0
                },
    {
        let ghost rv = realm_character_folders@.map_values(
            |x: (String, String, Vec<String>)| (x.0@, x.1@, texts_of(x.2@)),
        );
        let mut out: Vec<WoWCharacter> = Vec::new();
        let mut i: usize = 0;
        assert(rv.take(0) =~= Seq::<(Seq<char>, Seq<char>, Seq<Seq<char>>)>::empty());
        assert(out@.map_values(|c: WoWCharacter| (c.account@, c.realm@, c.name@)) =~= Seq::<(Seq<char>, Seq<char>, Seq<char>)>::empty());
        while i < realm_character_folders.len()
            invariant
                i <= realm_character_folders@.len(),
                rv == realm_character_folders@.map_values(|x: (String, String, Vec<String>)| (x.0@, x.1@, texts_of(x.2@))),
                out@.map_values(|c: WoWCharacter| (c.account@, c.realm@, c.name@)) == character_triples(rv.take(i as int)),
                forall|k: int|
                    0 <= k < out@.len() ==> {
                        &&& (#[trigger] out@[k]).branch@ == self.branch_ident@
                        &&& out@[k].class == WoWClass::Unknown
                        &&& out@[k].config_files@.len() == 0
                        &&& out@[k].addon_files@.len() == 0
                        &&& out@[k].backups@.len() == 0
                    },
            decreases realm_character_folders@.len() - i,
        {
            let account = &realm_character_folders[i].0;
            let realm = &realm_character_folders[i].1;
            let folders = &realm_character_folders[i].2;
            let ghost fs = texts_of(folders@);
            let ghost head = out@.map_values(|c: WoWCharacter| (c.account@, c.realm@, c.name@));
            let mut j: usize = 0;
            assert(head + fs.take(0).map_values(|n: Seq<char>| (account@, realm@, n)) =~= head);
            while j < folders.len()
                invariant
                    j <= folders@.len(),
                    fs == texts_of(folders@),
                    out@.map_values(|c: WoWCharacter| (c.account@, c.realm@, c.name@)) == head + fs.take(j as int).map_values(
                        |n: Seq<char>| (account@, realm@, n),
                    ),
                    forall|k: int|
                        0 <= k < out@.len() ==> {
                            &&& (#[trigger] out@[k]).branch@ == self.branch_ident@
                            &&& out@[k].class == WoWClass::Unknown
                            &&& out@[k].config_files@.len() == 0
                            &&& out@[k].addon_files@.len() == 0
                            &&& out@[k].backups@.len() == 0
                        },
                decreases folders@.len() - j,
            {
                let ghost before = out@;
                out.push(
                    WoWCharacter {
                        account: account.clone(),
                        branch: self.branch_ident.clone(),
                        name: folders[j].clone(),
                        realm: realm.clone(),
                        class: WoWClass::Unknown,
                        config_files: Vec::new(),
                        addon_files: Vec::new(),
                        backups: Vec::new(),
                    },
                );
                assert(out@.map_values(|c: WoWCharacter| (c.account@, c.realm@, c.name@)) =~= before.map_values(
                    |c: WoWCharacter| (c.account@, c.realm@, c.name@),
                ).push((account@, realm@, folders@[j as int]@)));
                assert(fs.take(j as int + 1).map_values(|n: Seq<char>| (account@, realm@, n)) =~= fs.take(j as int).map_values(
                    |n: Seq<char>| (account@, realm@, n),
                ).push((account@, realm@, fs[j as int])));
                proof {
                    assert forall|k: int| 0 <= k < out@.len() implies {
                        &&& (#[trigger] out@[k]).branch@ == self.branch_ident@
                        &&& out@[k].class == WoWClass::Unknown
                        &&& out@[k].config_files@.len() == 0
                        &&& out@[k].addon_files@.len() == 0
                        &&& out@[k].backups@.len() == 0
                    } by {
                        if k < before.len() {
                            assert(out@[k] == before[k]);
                        }
                    }
                }
                j = j + 1;
            }
            proof {
                assert(fs.take(j as int) =~= fs);
                assert(rv.take(i as int + 1).drop_last() =~= rv.take(i as int));
                assert(rv.take(i as int + 1).last() == (account@, realm@, fs));
            }
            i = i + 1;
        }
        assert(rv.take(i as int) =~= rv);
        out
    }
}

impl WoWCharacter {
    /// The position of the first config file named `config-cache.wtf`,
    /// ignoring case.
    pub open spec fn config_file_position(self) -> Option<int> {
        if exists|k: int| 0 <= k < self.config_files@.len() && str_lowercase(#[trigger] self.config_files@[k].name@) == CONFIG_WTF@ {
            Some(choose|k: int| 0 <= k < self.config_files@.len() && str_lowercase(#[trigger] self.config_files@[k].name@) == CONFIG_WTF@
                && forall|j: int| 0 <= j < k ==> str_lowercase(#[trigger] self.config_files@[j].name@) != CONFIG_WTF@)
        } else {
            None
        }
    }

    /// The character's main configuration file, whose content holds its class.
    pub fn config_file(&self) -> (r: Option<&WoWCharacterFile>)
        ensures
            match self.config_file_position() {
                Some(k) => r == Some(&self.config_files@[k]),
                None => r is None,
            },
    {
        let mut i: usize = 0;
        while i < self.config_files.len()
            invariant
                i <= self.config_files@.len(),
                forall|j: int| 0 <= j < i ==> str_lowercase(#[trigger] self.config_files@[j].name@) != CONFIG_WTF@,
            decreases self.config_files@.len() - i,
        {
            let lower = lowercase_of(self.config_files[i].get_full_filename().as_str());
            if text_eq(lower.as_str(), CONFIG_WTF) {
                proof {
                    let c = choose|k: int| 0 <= k < self.config_files@.len() && str_lowercase(#[trigger] self.config_files@[k].name@) == CONFIG_WTF@
                        && forall|j: int| 0 <= j < k ==> str_lowercase(#[trigger] self.config_files@[j].name@) != CONFIG_WTF@;
                    if c < i {
                        assert(str_lowercase(self.config_files@[c].name@) != CONFIG_WTF@);
                    } else if c > i {
                        assert(str_lowercase(self.config_files@[i as int].name@) == CONFIG_WTF@);
                    }
                }
                return Some(&self.config_files[i]);
            }
            i = i + 1;
        }
        None
    }

    /// Sets the character's class from the content of its main
    /// configuration file (`None` when there is no such file or it could
    /// not be read). Returns whether the class was found; the class is
    /// left as it was when not.
    pub fn try_to_load_class(&mut self, config_content: Option<&str>) -> (found: bool)
        ensures
            found == (config_content matches Some(c) && config_class_id(c@) is Some),
            found ==> final(self).class == WoWClass::class_from_id(config_class_id(config_content.unwrap()@).unwrap()),
            !found ==> final(self).class == old(self).class,
            final(self).account == old(self).account,
            final(self).branch == old(self).branch,
            final(self).name == old(self).name,
            final(self).realm == old(self).realm,
            final(self).config_files == old(self).config_files,
            final(self).addon_files == old(self).addon_files,
            final(self).backups == old(self).backups,
    {
        match config_content {
            Some(content) => match class_id_from_config(content) {
                Some(id) => {
                    self.class = WoWClass::from_id(id);
                    true
                },
                None => false,
            },
            None => false,
        }
    }

    /// Sets the character's config files from the names of the files in its
    /// folder `char_path` (`None` when the folder could not be read, which
    /// leaves no config files). Returns whether the folder was read.
    pub fn map_config_files(&mut self, char_path: &ChronoPath, file_names: Option<&Vec<String>>) -> (read: bool)
        ensures
            read == file_names is Some,
            match file_names {
                Some(names) => {
                    &&& final(self).config_files@.len() == listed_file_order(texts_of(names@)).len()
                    &&& forall|i: int| 0 <= i < final(self).config_files@.len() ==> #[trigger] final(self).config_files@[i].describes(
                        char_path@,
                        listed_file_order(texts_of(names@))[i],
                    )
                },
                None => final(self).config_files@.len() == 0,
            },
            final(self).addon_files == old(self).addon_files,
            final(self).backups == old(self).backups,
            final(self).class == old(self).class,
    {
        match file_names {
            Some(names) => {
                self.config_files = character_files_from_names(char_path, names);
                true
            },
            None => {
                self.config_files = Vec::new();
                false
            },
        }
    }

    /// Sets the character's addon files from the names of the files in the
    /// `SavedVariables` folder of its folder `char_path` (`None` when that
    /// folder could not be read, which leaves no addon files). Returns
    /// whether the folder was read.
    pub fn map_addon_files(&mut self, char_path: &ChronoPath, file_names: Option<&Vec<String>>) -> (read: bool)
        ensures
            read == file_names is Some,
            match file_names {
                Some(names) => {
                    &&& final(self).addon_files@.len() == listed_file_order(texts_of(names@)).len()
                    &&& forall|i: int| 0 <= i < final(self).addon_files@.len() ==> #[trigger] final(self).addon_files@[i].describes(
                        char_path@.push(SAVED_VARIABLES_DIR@),
                        listed_file_order(texts_of(names@))[i],
                    )
                },
                None => final(self).addon_files@.len() == 0,
            },
            final(self).config_files == old(self).config_files,
            final(self).backups == old(self).backups,
            final(self).class == old(self).class,
    {
        match file_names {
            Some(names) => {
                let dir = char_path.join(SAVED_VARIABLES_DIR);
                self.addon_files = character_files_from_names(&dir, names);
                true
            },
            None => {
                self.addon_files = Vec::new();
                false
            },
        }
    }

    /// Sets the character's backups from the names of the files in its
    /// backups folder (`None` when that folder could not be read, which
    /// leaves no backups): newest first. Returns whether the folder was read.
    pub fn refresh_backups(&mut self, install: &WoWInstall, file_names: Option<&Vec<String>>) -> (read: bool)
        ensures
            read == file_names is Some,
            match file_names {
                Some(names) => {
                    &&& final(self).backups@.len() == backup_file_names(texts_of(names@)).len()
                    &&& exists|order: Seq<usize>|
                        {
                            &&& #[trigger] is_stable_time_order(backup_file_times(texts_of(names@)), order, true)
                            &&& forall|i: int|
                                0 <= i < final(self).backups@.len() ==> describes_backup_file(
                                    #[trigger] final(self).backups@[i]@,
                                    old(self).backups_path(*install),
                                    backup_file_names(texts_of(names@))[order[i] as int],
                                )
                        }
                },
                None => final(self).backups@.len() == 0,
            },
            final(self).config_files == old(self).config_files,
            final(self).addon_files == old(self).addon_files,
            final(self).class == old(self).class,
            final(self).account == old(self).account,
            final(self).realm == old(self).realm,
            final(self).name == old(self).name,
    {
        match file_names {
            Some(names) => {
                let dir = self.get_backups_dir(install);
                self.backups = backups_from_file_names(&dir, names);
                true
            },
            None => {
                self.backups = Vec::new();
                false
            },
        }
    }
}

} // verus!
