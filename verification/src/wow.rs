//! World of Warcraft installations, characters, their files and backups,
//! and the rules that derive paths and names from them.

use vstd::prelude::*;

use crate::palette::{pinned_string, pinned_text};
use crate::path::{ChronoPath, extension_of, file_stem_of, split_file_name};
use crate::text::{chars_of, string_from_chars, text_eq};
use crate::time::{BackupTime, DISPLAY_TIME_FORMAT, is_before, lemma_time_order, time_before, time_text, time_to_string};

verus! {

/// Identifier for the retail branch of World of Warcraft.
pub const WOW_RETAIL_IDENT: &'static str = "retail";
/// Name of the user directory for `WoW` settings.
pub const USER_DIR: &'static str = "WTF";
/// Name of the interface (addons) directory.
pub const INTERFACE_DIR: &'static str = "Interface";
/// Name of the account directory within the `WoW` user settings.
pub const ACCOUNT_DIR: &'static str = "Account";
/// Name of the `SavedVariables` directory within the `WoW` user settings.
pub const SAVED_VARIABLES_DIR: &'static str = "SavedVariables";
/// Name of the `ChronoBind` directory.
pub const CHRONOBIND_DIR: &'static str = "ChronoBind";
/// Name of the character backups directory inside the `ChronoBind` directory.
pub const CHARACTER_BACKUPS_DIR: &'static str = "Characters";
/// Name of the backups directory within a character's folder.
pub const BACKUPS_DIR_NAME: &'static str = "Backups";

/// What `str::to_lowercase` gives for a text (full Unicode lower-case mapping).
pub uninterp spec fn str_lowercase(s: Seq<char>) -> Seq<char>;

/// Lower-cases `s` with `str::to_lowercase`.
#[verifier::external_body]
pub(crate) fn lowercase_of(s: &str) -> (r: String)
    ensures
        r@ == str_lowercase(s@),
{
    s.to_lowercase()
}

/// What `char::to_uppercase` gives for a character (full Unicode upper-case
/// mapping, possibly several characters).
pub uninterp spec fn char_uppercase(c: char) -> Seq<char>;

/// Upper-cases `c` with `char::to_uppercase`, collected into a `String`.
#[verifier::external_body]
pub(crate) fn uppercase_of(c: char) -> (r: String)
    ensures
        r@ == char_uppercase(c),
{
    c.to_uppercase().collect()
}

/// Appends the characters of `s` to `out`.
pub(crate) fn push_str_chars(out: &mut Vec<char>, s: &str)
    ensures
        final(out)@ == old(out)@ + s@,
{
    let mut cs = chars_of(s);
    out.append(&mut cs);
}

/// Represents a World of Warcraft installation.
#[derive(Debug, Clone)]
pub struct WoWInstall {
    /// The Battle.net product code for this installation.
    pub product_code: String,
    /// The branch identifier for this installation (e.g., "retail", "classic", etc.).
    pub branch_ident: String,
    /// The root installation path for this World of Warcraft installation.
    pub install_path: String,
}

/// The display form of a branch identifier: every `_` becomes a space and
/// the first character of each `_`-separated word is upper-cased.
pub open spec fn title_piece(s: Seq<char>, i: int) -> Seq<char> {
    if s[i] == '_' {
        seq![' ']
    } else if i == 0 || s[i - 1] == '_' {
        char_uppercase(s[i])
    } else {
        seq![s[i]]
    }
}

/// The display form of a `_`-separated identifier, piece by piece.
pub open spec fn branch_title(s: Seq<char>) -> Seq<char>
    decreases s.len(),
{
    if s.len() == 0 {
        Seq::<char>::empty()
    } else {
        branch_title(s.drop_last()) + title_piece(s, s.len() - 1)
    }
}

impl WoWInstall {
    /// A copy of this installation.
    pub fn copy(&self) -> (r: WoWInstall)
        ensures
            r == *self,
    {
        WoWInstall {
            product_code: self.product_code.clone(),
            branch_ident: self.branch_ident.clone(),
            install_path: self.install_path.clone(),
        }
    }

    /// Returns true if this installation is the retail version of World of Warcraft.
    pub fn is_retail(&self) -> (b: bool)
        ensures
            b == (self.branch_ident@ == WOW_RETAIL_IDENT@),
    {
        self.branch_ident == String::from_str(WOW_RETAIL_IDENT)
    }

    /// The branch's folder name inside the installation: the identifier between underscores.
    pub open spec fn product_dir(self) -> Seq<char> {
        seq!['_'] + self.branch_ident@ + seq!['_']
    }

    /// Returns the product directory name for this installation, I.e. retail is "_retail_".
    pub fn get_product_dir(&self) -> (s: String)
        ensures
            s@ == self.product_dir(),
    {
        let mut out: Vec<char> = Vec::new();
        out.push('_');
        push_str_chars(&mut out, self.branch_ident.as_str());
        out.push('_');
        assert(out@ =~= self.product_dir());
        string_from_chars(out.as_slice())
    }

    /// The installation's branch folder.
    pub open spec fn branch_path(self) -> Seq<Seq<char>> {
        seq![self.install_path@, self.product_dir()]
    }

    /// Returns the path of the branch folder of this installation.
    pub fn get_branch_path(&self) -> (p: ChronoPath)
        ensures
            p@ == self.branch_path(),
    {
        let root = ChronoPath::from_segment(self.install_path.as_str());
        let dir = self.get_product_dir();
        root.join(dir.as_str())
    }

    /// Returns the path to the `ChronoBind` directory for this installation.
    pub fn get_chronobind_dir(&self) -> (p: ChronoPath)
        ensures
            p@ == self.branch_path().push(CHRONOBIND_DIR@),
    {
        self.get_branch_path().join(CHRONOBIND_DIR)
    }

    /// Returns the path to the `ChronoBind` backups directory for this installation.
    pub fn get_character_backups_dir(&self) -> (p: ChronoPath)
        ensures
            p@ == self.branch_path().push(CHRONOBIND_DIR@).push(CHARACTER_BACKUPS_DIR@),
    {
        self.get_chronobind_dir().join(CHARACTER_BACKUPS_DIR)
    }

    /// Returns a formatted version of the branch name for display purposes:
    /// "Retail" for the retail branch, otherwise the identifier with each
    /// `_`-separated word capitalised and joined by spaces.
    pub fn display_branch_name(&self) -> (s: String)
        ensures
            self.branch_ident@ == WOW_RETAIL_IDENT@ ==> s@ == "Retail"@,
            self.branch_ident@ != WOW_RETAIL_IDENT@ ==> s@ == branch_title(self.branch_ident@),
    {
        if self.is_retail() {
            return String::from_str("Retail");
        }
        let chars = chars_of(self.branch_ident.as_str());
        let mut out: Vec<char> = Vec::new();
        let mut k: usize = 0;
        assert(chars@.take(0) =~= Seq::<char>::empty());
        while k < chars.len()
            invariant
                k <= chars@.len(),
                out@ == branch_title(chars@.take(k as int)),
            decreases chars@.len() - k,
        {
            let c = chars[k];
            let ghost before = out@;
            if c == '_' {
                out.push(' ');
            } else if k == 0 || chars[k - 1] == '_' {
                let up = uppercase_of(c);
                push_str_chars(&mut out, up.as_str());
            } else {
                out.push(c);
            }
            proof {
                let t = chars@.take(k as int + 1);
                assert(t.drop_last() =~= chars@.take(k as int));
                assert(title_piece(t, k as int) == title_piece(chars@, k as int));
                assert(out@ =~= before + title_piece(chars@, k as int));
            }
            k = k + 1;
        }
        assert(chars@.take(chars@.len() as int) =~= chars@);
        string_from_chars(out.as_slice())
    }

    /// Joins a given path segment to the installation path, returning the result.
    pub fn install_path_join(&self, path: &str) -> (p: ChronoPath)
        ensures
            p@ == seq![self.install_path@, path@],
    {
        ChronoPath::from_segment(self.install_path.as_str()).join(path)
    }

    /// Returns the path to the user settings directory for this installation.
    pub fn get_wtf_path(&self) -> (p: ChronoPath)
        ensures
            p@ == self.branch_path().push(USER_DIR@),
    {
        self.get_branch_path().join(USER_DIR)
    }

    /// Returns the path to the interface directory for this installation.
    pub fn get_inteface_path(&self) -> (p: ChronoPath)
        ensures
            p@ == self.branch_path().push(INTERFACE_DIR@),
    {
        self.get_branch_path().join(INTERFACE_DIR)
    }

    /// Returns the path to the user accounts settings directory for this installation.
    pub fn get_account_path(&self) -> (p: ChronoPath)
        ensures
            p@ == self.branch_path().push(USER_DIR@).push(ACCOUNT_DIR@),
    {
        self.get_wtf_path().join(ACCOUNT_DIR)
    }

    /// Returns the path to a specific account and realm directory within this installation.
    pub fn get_realm_path(&self, account: &str, realm: &str) -> (p: ChronoPath)
        ensures
            p@ == self.branch_path().push(USER_DIR@).push(ACCOUNT_DIR@).push(account@).push(
                realm@,
            ),
    {
        self.get_account_path().join(account).join(realm)
    }
}

/// Whether an installation belongs to the branch named `branch`, ignoring case.
pub open spec fn branch_matches(install: WoWInstall, branch: Seq<char>) -> bool {
    str_lowercase(install.branch_ident@) == str_lowercase(branch)
}

/// Collection of located `WoW` installations.
#[derive(Debug, Clone)]
pub struct WoWInstalls {
    /// Root path of `WoW` installations (the folder that contains '_retail_', '_classic_', etc.).
    pub root_path: Option<ChronoPath>,
    /// Located `WoW` installations.
    pub installs: Vec<WoWInstall>,
}

impl WoWInstalls {
    /// Create a new `WoWInstalls` instance from a vector of installs; the
    /// root path is the installation path of the first install.
    pub fn new_from_installs(installs: Vec<WoWInstall>) -> (r: Self)
        ensures
            r.installs@ == installs@,
            installs@.len() == 0 ==> r.root_path is None,
            installs@.len() > 0 ==> (r.root_path matches Some(p) && p@ == seq![
                installs@[0].install_path@,
            ]),
    {
        let root_path = if installs.len() > 0 {
            Some(ChronoPath::from_segment(installs[0].install_path.as_str()))
        } else {
            None
        };
        WoWInstalls { root_path, installs }
    }

    /// Get the number of located `WoW` installations.
    pub fn len(&self) -> (n: usize)
        ensures
            n == self.installs@.len(),
    {
        self.installs.len()
    }

    /// Returns `true` if there are no `WoW` installations located.
    pub fn is_empty(&self) -> (b: bool)
        ensures
            b == (self.installs@.len() == 0),
    {
        self.installs.len() == 0
    }

    /// Get an iterator over all located `WoW` installations, in order.
    pub fn iter(&self) -> (it: std::slice::Iter<'_, WoWInstall>)
        ensures
            vstd::std_specs::iter::IteratorSpec::remaining(&it) == self.installs@.as_ref(),
    {
        self.installs.iter()
    }

    /// Index of the first installation of the branch `branch` (case-insensitive).
    pub fn find_branch_index(&self, branch: &str) -> (r: Option<usize>)
        ensures
            match r {
                Some(k) => k < self.installs@.len() && branch_matches(self.installs@[k as int], branch@)
                    && forall|j: int| 0 <= j < k ==> !branch_matches(#[trigger] self.installs@[j], branch@),
                None => forall|j: int| 0 <= j < self.installs@.len() ==> !branch_matches(#[trigger] self.installs@[j], branch@),
            },
    {
        let wanted = lowercase_of(branch);
        let mut i: usize = 0;
        while i < self.installs.len()
            invariant
                i <= self.installs@.len(),
                wanted@ == str_lowercase(branch@),
                forall|j: int| 0 <= j < i ==> !branch_matches(#[trigger] self.installs@[j], branch@),
            decreases self.installs@.len() - i,
        {
            let l = lowercase_of(self.installs[i].branch_ident.as_str());
            if l == wanted {
                return Some(i);
            }
            i = i + 1;
        }
        None
    }

    /// Find a `WoW` installation by its branch identifier (case-insensitive).
    pub fn find_branch(&self, branch: &str) -> (r: Option<&WoWInstall>)
        ensures
            match r {
                Some(w) => exists|k: int| 0 <= k < self.installs@.len() && self.installs@[k] == *w
                    && branch_matches(self.installs@[k], branch@)
                    && forall|j: int| 0 <= j < k ==> !branch_matches(#[trigger] self.installs@[j], branch@),
                None => forall|j: int| 0 <= j < self.installs@.len() ==> !branch_matches(#[trigger] self.installs@[j], branch@),
            },
    {
        match self.find_branch_index(branch) {
            Some(k) => Some(&self.installs[k]),
            None => None,
        }
    }
}

/// The part of a Battle.net product installation entry that locating
/// installations reads: its product code and, when present, its install path.
#[derive(Debug, Clone)]
pub struct ProductInstall {
    /// The Battle.net product code.
    pub product_code: String,
    /// The install path from the entry's settings, if it has settings.
    pub install_path: Option<String>,
}

/// The branch identifier of a product code: `None` unless it starts with
/// "wow"; "retail" for exactly "wow"; otherwise what follows "wow_", or
/// failing that what follows "wow".
pub open spec fn wow_branch_of(code: Seq<char>) -> Option<Seq<char>> {
    if code.len() < 3 || code.take(3) != seq!['w', 'o', 'w'] {
        None
    } else if code.len() == 3 {
        Some(WOW_RETAIL_IDENT@)
    } else if code[3] == '_' {
        Some(code.skip(4))
    } else {
        Some(code.skip(3))
    }
}

/// The fields of an installation, as text: product code, branch identifier
/// and install path.
pub type InstallEntry = (Seq<char>, Seq<char>, Seq<char>);

impl WoWInstall {
    /// The fields of this installation, as text.
    pub open spec fn entry(self) -> InstallEntry {
        (self.product_code@, self.branch_ident@, self.install_path@)
    }
}

/// The installation that a product entry describes: `None` unless its code
/// names a World of Warcraft branch and it has an install path.
pub open spec fn install_entry(p: ProductInstall) -> Option<InstallEntry> {
    match (wow_branch_of(p.product_code@), p.install_path) {
        (Some(b), Some(path)) => Some((p.product_code@, b, path@)),
        _ => None,
    }
}

/// The installations that a list of product entries describes, in order.
pub open spec fn install_entries(ps: Seq<ProductInstall>) -> Seq<InstallEntry>
    decreases ps.len(),
{
    if ps.len() == 0 {
        Seq::<InstallEntry>::empty()
    } else {
        let rest = install_entries(ps.drop_last());
        match install_entry(ps.last()) {
            Some(e) => rest.push(e),
            None => rest,
        }
    }
}

/// Extract World of Warcraft installation data from a Battle.net product
/// installation entry; entries that are not World of Warcraft or have no
/// install path give `None`.
pub fn extract_wow_install_data(product: &ProductInstall) -> (r: Option<WoWInstall>)
    ensures
        match r {
            Some(w) => install_entry(*product) == Some(w.entry()),
            None => install_entry(*product) is None,
        },
{
    let code = chars_of(product.product_code.as_str());
    if code.len() < 3 || code[0] != 'w' || code[1] != 'o' || code[2] != 'w' {
        proof {
            if code@.len() >= 3 && code@.take(3) == seq!['w', 'o', 'w'] {
                assert(code@[0] == code@.take(3)[0]);
                assert(code@[1] == code@.take(3)[1]);
                assert(code@[2] == code@.take(3)[2]);
            }
        }
        return None;
    }
    assert(code@.take(3) =~= seq!['w', 'o', 'w']);
    let branch_ident = if code.len() == 3 {
        String::from_str(WOW_RETAIL_IDENT)
    } else {
        let start: usize = if code[3] == '_' { 4 } else { 3 };
        let mut rest: Vec<char> = Vec::new();
        let mut k = start;
        while k < code.len()
            invariant
                start <= k <= code@.len(),
                rest@ =~= code@.subrange(start as int, k as int),
            decreases code@.len() - k,
        {
            rest.push(code[k]);
            k = k + 1;
        }
        string_from_chars(rest.as_slice())
    };
    match &product.install_path {
        Some(p) => Some(
            WoWInstall {
                product_code: product.product_code.clone(),
                branch_ident,
                install_path: p.clone(),
            },
        ),
        None => None,
    }
}

/// The installations among Battle.net product entries, in entry order.
pub fn installs_from_products(products: &Vec<ProductInstall>) -> (r: Vec<WoWInstall>)
    ensures
        r@.map_values(|w: WoWInstall| w.entry()) == install_entries(products@),
{
    let mut out: Vec<WoWInstall> = Vec::new();
    let mut i: usize = 0;
    while i < products.len()
        invariant
            i <= products@.len(),
            out@.map_values(|w: WoWInstall| w.entry()) == install_entries(products@.take(i as int)),
        decreases products@.len() - i,
    {
        let ghost before = out@;
        assert(products@.take(i as int + 1).drop_last() =~= products@.take(i as int));
        if let Some(w) = extract_wow_install_data(&products[i]) {
            out.push(w);
            assert(out@.map_values(|w: WoWInstall| w.entry()) =~= before.map_values(
                |w: WoWInstall| w.entry(),
            ).push(w.entry()));
        }
        i = i + 1;
    }
    assert(products@.take(products@.len() as int) =~= products@);
    out
}

} // verus!

verus! {

/// Represents the class of a World of Warcraft character.
#[derive(Debug, Clone, Copy, PartialEq, Eq, Structural)]
pub enum WoWClass {
    Unknown,
    Warrior,
    Paladin,
    Hunter,
    Rogue,
    Priest,
    DeathKnight,
    Shaman,
    Mage,
    Warlock,
    Monk,
    Druid,
    DemonHunter,
    Evoker,
}

/// The class with the given game identifier, for identifiers `1..=13`.
pub open spec fn class_of_id(id: u8) -> WoWClass {
    if id == 1 {
        WoWClass::Warrior
    } else if id == 2 {
        WoWClass::Paladin
    } else if id == 3 {
        WoWClass::Hunter
    } else if id == 4 {
        WoWClass::Rogue
    } else if id == 5 {
        WoWClass::Priest
    } else if id == 6 {
        WoWClass::DeathKnight
    } else if id == 7 {
        WoWClass::Shaman
    } else if id == 8 {
        WoWClass::Mage
    } else if id == 9 {
        WoWClass::Warlock
    } else if id == 10 {
        WoWClass::Monk
    } else if id == 11 {
        WoWClass::Druid
    } else if id == 12 {
        WoWClass::DemonHunter
    } else if id == 13 {
        WoWClass::Evoker
    } else {
        WoWClass::Unknown
    }
}

impl WoWClass {
    /// Minimum valid Class ID.
    pub const MIN: u8 = 1u8;
    /// Maximum valid Class ID.
    pub const MAX: u8 = 13u8;

    /// Checks if the given class ID is valid.
    pub fn is_valid_class_id(id: u8) -> (b: bool)
        ensures
            b == (1 <= id && id <= 13),
    {
        Self::MIN <= id && id <= Self::MAX
    }

    /// The class `from_id` gives: the class with that identifier for
    /// `1..=13`, `Priest` for `0`, `Unknown` otherwise.
    pub open spec fn class_from_id(id: u8) -> WoWClass {
        if 1 <= id <= 13 {
            class_of_id(id)
        } else if id == 0 {
            WoWClass::Priest
        } else {
            WoWClass::Unknown
        }
    }

    /// Creates a class from a given ID: the class with that identifier for
    /// `1..=13`, `Priest` for `0`, `Unknown` otherwise.
    pub fn from_id(id: u8) -> (c: WoWClass)
        ensures
            c == WoWClass::class_from_id(id),
    {
        if Self::is_valid_class_id(id) {
            match id {
                1 => WoWClass::Warrior,
                2 => WoWClass::Paladin,
                3 => WoWClass::Hunter,
                4 => WoWClass::Rogue,
                5 => WoWClass::Priest,
                6 => WoWClass::DeathKnight,
                7 => WoWClass::Shaman,
                8 => WoWClass::Mage,
                9 => WoWClass::Warlock,
                10 => WoWClass::Monk,
                11 => WoWClass::Druid,
                12 => WoWClass::DemonHunter,
                _ => WoWClass::Evoker,
            }
        } else if id == 0 {
            WoWClass::Priest
        } else {
            WoWClass::Unknown
        }
    }

    /// The display name of the class.
    pub open spec fn spec_class_name(self) -> Seq<char> {
        match self {
            WoWClass::Unknown => "Unknown"@,
            WoWClass::Warrior => "Warrior"@,
            WoWClass::Paladin => "Paladin"@,
            WoWClass::Hunter => "Hunter"@,
            WoWClass::Rogue => "Rogue"@,
            WoWClass::Priest => "Priest"@,
            WoWClass::DeathKnight => "Death Knight"@,
            WoWClass::Shaman => "Shaman"@,
            WoWClass::Mage => "Mage"@,
            WoWClass::Warlock => "Warlock"@,
            WoWClass::Monk => "Monk"@,
            WoWClass::Druid => "Druid"@,
            WoWClass::DemonHunter => "Demon Hunter"@,
            WoWClass::Evoker => "Evoker"@,
        }
    }

    /// Returns the name of the class as a static string.
    pub fn class_name(&self) -> (s: &'static str)
        ensures
            s@ == self.spec_class_name(),
    {
        match self {
            WoWClass::Unknown => "Unknown",
            WoWClass::Warrior => "Warrior",
            WoWClass::Paladin => "Paladin",
            WoWClass::Hunter => "Hunter",
            WoWClass::Rogue => "Rogue",
            WoWClass::Priest => "Priest",
            WoWClass::DeathKnight => "Death Knight",
            WoWClass::Shaman => "Shaman",
            WoWClass::Mage => "Mage",
            WoWClass::Warlock => "Warlock",
            WoWClass::Monk => "Monk",
            WoWClass::Druid => "Druid",
            WoWClass::DemonHunter => "Demon Hunter",
            WoWClass::Evoker => "Evoker",
        }
    }

    /// The abbreviated name of the class.
    pub open spec fn spec_class_short_name(self) -> Seq<char> {
        match self {
            WoWClass::Unknown => "Unk"@,
            WoWClass::Warrior => "War"@,
            WoWClass::Paladin => "Pala"@,
            WoWClass::Hunter => "Hunter"@,
            WoWClass::Rogue => "Rogue"@,
            WoWClass::Priest => "Priest"@,
            WoWClass::DeathKnight => "DK"@,
            WoWClass::Shaman => "Sha"@,
            WoWClass::Mage => "Mage"@,
            WoWClass::Warlock => "Lock"@,
            WoWClass::Monk => "Monk"@,
            WoWClass::Druid => "Druid"@,
            WoWClass::DemonHunter => "DH"@,
            WoWClass::Evoker => "Evoker"@,
        }
    }

    /// Returns the short name (abbreviation) of the class as a static string.
    pub fn class_short_name(&self) -> (s: &'static str)
        ensures
            s@ == self.spec_class_short_name(),
    {
        match self {
            WoWClass::Unknown => "Unk",
            WoWClass::Warrior => "War",
            WoWClass::Paladin => "Pala",
            WoWClass::Hunter => "Hunter",
            WoWClass::Rogue => "Rogue",
            WoWClass::Priest => "Priest",
            WoWClass::DeathKnight => "DK",
            WoWClass::Shaman => "Sha",
            WoWClass::Mage => "Mage",
            WoWClass::Warlock => "Lock",
            WoWClass::Monk => "Monk",
            WoWClass::Druid => "Druid",
            WoWClass::DemonHunter => "DH",
            WoWClass::Evoker => "Evoker",
        }
    }
}

/// Represents a file associated with a World of Warcraft character.
#[derive(Debug, Clone)]
pub struct WoWCharacterFile {
    /// The full name of the character file, including its extension.
    pub name: String,
    /// The stem (filename without extension) of the character file.
    pub stem: String,
    /// The full path to the character file.
    pub path: ChronoPath,
    /// An optional friendly name for the character file.
    pub friendly_name: Option<String>,
}

/// What a character file entry holds, as plain values.
pub struct FileView {
    /// The full file name.
    pub name: Seq<char>,
    /// The file name without its extension.
    pub stem: Seq<char>,
    /// The path of the file, segment by segment.
    pub path: Seq<Seq<char>>,
    /// The friendly name, if there is one.
    pub friendly_name: Option<Seq<char>>,
}

impl View for WoWCharacterFile {
    type V = FileView;

    open spec fn view(&self) -> FileView {
        FileView {
            name: self.name@,
            stem: self.stem@,
            path: self.path@,
            friendly_name: match self.friendly_name {
                Some(f) => Some(f@),
                None => None,
            },
        }
    }
}

/// The views of a sequence of file entries.
pub open spec fn file_views(s: Seq<WoWCharacterFile>) -> Seq<FileView> {
    s.map_values(|f: WoWCharacterFile| f@)
}

/// A copy of each file entry, in order.
pub fn copy_files(files: &Vec<WoWCharacterFile>) -> (r: Vec<WoWCharacterFile>)
    ensures
        file_views(r@) == file_views(files@),
{
    let mut out: Vec<WoWCharacterFile> = Vec::new();
    let mut i: usize = 0;
    while i < files.len()
        invariant
            i <= files@.len(),
            out@.len() == i,
            forall|j: int| 0 <= j < i ==> #[trigger] out@[j]@ == files@[j]@,
        decreases files@.len() - i,
    {
        out.push(files[i].copy());
        i = i + 1;
    }
    assert(file_views(out@) =~= file_views(files@));
    out
}

impl WoWCharacterFile {
    /// A copy of this file entry.
    pub fn copy(&self) -> (r: WoWCharacterFile)
        ensures
            r@ == self@,
    {
        WoWCharacterFile {
            name: self.name.clone(),
            stem: self.stem.clone(),
            path: self.path.copy(),
            friendly_name: match &self.friendly_name {
                Some(f) => Some(f.clone()),
                None => None,
            },
        }
    }

    /// Returns the full filename of the character file, including its extension.
    pub fn get_full_filename(&self) -> (s: String)
        ensures
            s@ == self.name@,
    {
        self.name.clone()
    }

    /// The name shown for the file: its friendly name when there is one and
    /// `friendly` asks for it, otherwise `plain`.
    pub open spec fn shown(self, friendly: bool, plain: Seq<char>) -> Seq<char> {
        match self.friendly_name {
            Some(f) if friendly => f@,
            _ => plain,
        }
    }

    /// Returns file display name, using friendly name if available and requested.
    pub fn display_name(&self, friendly: bool) -> (s: String)
        ensures
            s@ == self.shown(friendly, self.name@),
    {
        if friendly {
            if let Some(f) = &self.friendly_name {
                return f.clone();
            }
        }
        self.name.clone()
    }

    /// Returns file display stem, using friendly name if available and requested.
    pub fn display_stem(&self, friendly: bool) -> (s: String)
        ensures
            s@ == self.shown(friendly, self.stem@),
    {
        if friendly {
            if let Some(f) = &self.friendly_name {
                return f.clone();
            }
        }
        self.stem.clone()
    }

    /// Returns true if the file has a friendly name associated with it.
    pub fn has_friendly_name(&self) -> (b: bool)
        ensures
            b == self.friendly_name is Some,
    {
        self.friendly_name.is_some()
    }
}

/// The friendly name shown for a well-known character file.
pub open spec fn friendly_name_of(filename: Seq<char>) -> Option<Seq<char>> {
    if filename == "bindings-cache.wtf"@ {
        Some("Keybindings"@)
    } else if filename == "macros-cache.txt"@ {
        Some("Macros"@)
    } else if filename == "cooldownmanager.txt"@ {
        Some("Cooldown Manager"@)
    } else if filename == "layout-local.txt"@ {
        Some("Legacy UI Layout"@)
    } else if filename == "edit-mode-cache-character.txt"@ {
        Some("UI Layout"@)
    } else if filename == "AddOns.txt"@ {
        Some("Enabled Addons"@)
    } else {
        None
    }
}

/// Get a friendly name for a given filename, if available.
pub fn get_friendly_name(filename: &str) -> (r: Option<String>)
    ensures
        match r {
            Some(s) => friendly_name_of(filename@) == Some(s@),
            None => friendly_name_of(filename@) is None,
        },
{
    if text_eq(filename, "bindings-cache.wtf") {
        Some(String::from_str("Keybindings"))
    } else if text_eq(filename, "macros-cache.txt") {
        Some(String::from_str("Macros"))
    } else if text_eq(filename, "cooldownmanager.txt") {
        Some(String::from_str("Cooldown Manager"))
    } else if text_eq(filename, "layout-local.txt") {
        Some(String::from_str("Legacy UI Layout"))
    } else if text_eq(filename, "edit-mode-cache-character.txt") {
        Some(String::from_str("UI Layout"))
    } else if text_eq(filename, "AddOns.txt") {
        Some(String::from_str("Enabled Addons"))
    } else {
        None
    }
}

} // verus!

verus! {

/// The texts of a sequence of strings.
pub open spec fn texts_of(v: Seq<String>) -> Seq<Seq<char>> {
    v.map_values(|s: String| s@)
}

/// Extensions for old (backup) config files, compared after lower-casing.
pub open spec fn is_backup_extension(ext: Seq<char>) -> bool {
    str_lowercase(ext) == "bak"@ || str_lowercase(ext) == "old"@
}

/// Whether a file of a character's folder is listed: it has an extension,
/// and that extension is not one of old (backup) config files.
pub open spec fn is_listed_file(name: Seq<char>) -> bool {
    match extension_of(name) {
        Some(e) => !is_backup_extension(e),
        None => false,
    }
}

/// The listed files among `names` that have a friendly name, in order.
pub open spec fn friendly_listed(names: Seq<Seq<char>>) -> Seq<Seq<char>> {
    names.filter(|n: Seq<char>| is_listed_file(n) && friendly_name_of(n) is Some)
}

/// The listed files among `names` that have no friendly name, in order.
pub open spec fn plain_listed(names: Seq<Seq<char>>) -> Seq<Seq<char>> {
    names.filter(|n: Seq<char>| is_listed_file(n) && friendly_name_of(n) is None)
}

/// The names of the files of a folder as they are listed: those with a
/// friendly name first, each group in folder order.
pub open spec fn listed_file_order(names: Seq<Seq<char>>) -> Seq<Seq<char>> {
    friendly_listed(names) + plain_listed(names)
}

impl WoWCharacterFile {
    /// The file is the entry for the file `name` of the folder `dir`.
    pub open spec fn describes(self, dir: Seq<Seq<char>>, name: Seq<char>) -> bool {
        &&& self.name@ == name
        &&& self.stem@ == file_stem_of(name)
        &&& self.path@ == dir.push(name)
        &&& match self.friendly_name {
            Some(f) => friendly_name_of(name) == Some(f@),
            None => friendly_name_of(name) is None,
        }
    }
}

/// The entry for the file `name` of the folder `dir`: `None` when the file
/// has no extension or an extension of old (backup) config files.
pub fn character_file(dir: &ChronoPath, name: &str) -> (r: Option<WoWCharacterFile>)
    ensures
        match r {
            Some(f) => is_listed_file(name@) && f.describes(dir@, name@),
            None => !is_listed_file(name@),
        },
{
    let (stem, ext) = split_file_name(name);
    let ext = match ext {
        Some(e) => e,
        None => return None,
    };
    let lower = lowercase_of(ext.as_str());
    if text_eq(lower.as_str(), "bak") || text_eq(lower.as_str(), "old") {
        return None;
    }
    Some(
        WoWCharacterFile {
            name: String::from_str(name),
            stem,
            path: dir.join(name),
            friendly_name: get_friendly_name(name),
        },
    )
}

/// The file entries of a character folder from the names of the files in
/// it: files without an extension and old (backup) config files are left
/// out, and files with a friendly name come first, each group keeping the
/// folder order.
pub fn character_files_from_names(dir: &ChronoPath, names: &Vec<String>) -> (r: Vec<
    WoWCharacterFile,
>)
    ensures
        r@.len() == listed_file_order(texts_of(names@)).len(),
        forall|i: int|
            0 <= i < r@.len() ==> #[trigger] r@[i].describes(
                dir@,
                listed_file_order(texts_of(names@))[i],
            ),
{
    let ghost ns = texts_of(names@);
    let ghost pf = |n: Seq<char>| is_listed_file(n) && friendly_name_of(n) is Some;
    let ghost pp = |n: Seq<char>| is_listed_file(n) && friendly_name_of(n) is None;
    let mut friendly: Vec<WoWCharacterFile> = Vec::new();
    let mut plain: Vec<WoWCharacterFile> = Vec::new();
    let mut k: usize = 0;
    proof {
        reveal(Seq::filter);
        assert(ns.take(0) =~= Seq::<Seq<char>>::empty());
    }
    while k < names.len()
        invariant
            k <= names@.len(),
            ns == texts_of(names@),
            pf == (|n: Seq<char>| is_listed_file(n) && friendly_name_of(n) is Some),
            pp == (|n: Seq<char>| is_listed_file(n) && friendly_name_of(n) is None),
            friendly@.len() == ns.take(k as int).filter(pf).len(),
            plain@.len() == ns.take(k as int).filter(pp).len(),
            forall|i: int|
                0 <= i < friendly@.len() ==> #[trigger] friendly@[i].describes(
                    dir@,
                    ns.take(k as int).filter(pf)[i],
                ),
            forall|i: int|
                0 <= i < plain@.len() ==> #[trigger] plain@[i].describes(
                    dir@,
                    ns.take(k as int).filter(pp)[i],
                ),
        decreases names@.len() - k,
    {
        proof {
            reveal(Seq::filter);
            assert(ns.take(k as int + 1).drop_last() =~= ns.take(k as int));
            assert(ns.take(k as int + 1).last() == names@[k as int]@);
        }
        let ghost fb = friendly@;
        let ghost pb = plain@;
        if let Some(f) = character_file(dir, names[k].as_str()) {
            if f.has_friendly_name() {
                friendly.push(f);
                proof {
                    assert forall|i: int| 0 <= i < friendly@.len() implies #[trigger] friendly@[i].describes(
                        dir@,
                        ns.take(k as int + 1).filter(pf)[i],
                    ) by {
                        if i < fb.len() {
                            assert(friendly@[i] == fb[i]);
                        }
                    }
                }
            } else {
                plain.push(f);
                proof {
                    assert forall|i: int| 0 <= i < plain@.len() implies #[trigger] plain@[i].describes(
                        dir@,
                        ns.take(k as int + 1).filter(pp)[i],
                    ) by {
                        if i < pb.len() {
                            assert(plain@[i] == pb[i]);
                        }
                    }
                }
            }
        }
        k = k + 1;
    }
    proof {
        assert(ns.take(k as int) =~= ns);
        assert(friendly_listed(ns) == ns.filter(pf));
        assert(plain_listed(ns) == ns.filter(pp));
    }
    let ghost fb = friendly@;
    let ghost pb = plain@;
    friendly.append(&mut plain);
    proof {
        assert forall|i: int| 0 <= i < friendly@.len() implies #[trigger] friendly@[i].describes(
            dir@,
            listed_file_order(ns)[i],
        ) by {
            if i < fb.len() {
                assert(friendly@[i] == fb[i]);
            } else {
                assert(friendly@[i] == pb[i - fb.len()]);
            }
        }
    }
    friendly
}

} // verus!

verus! {

/// A backup archive of a character's files.
#[derive(Debug, Clone)]
pub struct WoWCharacterBackup {
    /// The path of the backup archive.
    pub path: ChronoPath,
    /// The name of the character the backup belongs to.
    pub char_name: String,
    /// When the backup was created (local time).
    pub timestamp: BackupTime,
    /// Indicates whether the backup was created during a paste operation.
    pub is_paste: bool,
    /// Indicates whether the backup is pinned to not be auto-removed.
    pub is_pinned: bool,
}

/// What a backup holds, as plain values.
pub struct BackupView {
    /// The path of the backup archive, segment by segment.
    pub path: Seq<Seq<char>>,
    /// The name of the character the backup belongs to.
    pub char_name: Seq<char>,
    /// When the backup was created (local time).
    pub timestamp: BackupTime,
    /// Whether the backup was made during a paste operation.
    pub is_paste: bool,
    /// Whether the backup is pinned.
    pub is_pinned: bool,
}

impl View for WoWCharacterBackup {
    type V = BackupView;

    open spec fn view(&self) -> BackupView {
        BackupView {
            path: self.path@,
            char_name: self.char_name@,
            timestamp: self.timestamp,
            is_paste: self.is_paste,
            is_pinned: self.is_pinned,
        }
    }
}

/// The views of a sequence of backups.
pub open spec fn backup_views(s: Seq<WoWCharacterBackup>) -> Seq<BackupView> {
    s.map_values(|b: WoWCharacterBackup| b@)
}

impl WoWCharacterBackup {
    /// A copy of this backup.
    pub fn copy(&self) -> (r: WoWCharacterBackup)
        ensures
            r@ == self@,
    {
        WoWCharacterBackup {
            path: self.path.copy(),
            char_name: self.char_name.clone(),
            timestamp: self.timestamp,
            is_paste: self.is_paste,
            is_pinned: self.is_pinned,
        }
    }

    /// Returns the backup's name: the character name, then ` | `, then the
    /// timestamp as displayed.
    pub fn formatted_name(&self) -> (s: String)
        ensures
            s@ == self.char_name@ + " | "@ + time_text(self.timestamp, DISPLAY_TIME_FORMAT@),
    {
        let mut out: Vec<char> = Vec::new();
        push_str_chars(&mut out, self.char_name.as_str());
        push_str_chars(&mut out, " | ");
        let ts = self.formatted_timestamp();
        push_str_chars(&mut out, ts.as_str());
        string_from_chars(out.as_slice())
    }

    /// Returns the backup's timestamp as displayed (day/month/year hour:minute).
    pub fn formatted_timestamp(&self) -> (s: String)
        ensures
            s@ == time_text(self.timestamp, DISPLAY_TIME_FORMAT@),
    {
        time_to_string(&self.timestamp, DISPLAY_TIME_FORMAT)
    }

    /// The text of the backup's row in backup lists: its pin mark, the
    /// character name, the timestamp as displayed, and ` (Auto)` for one
    /// made before a paste.
    pub fn list_text(&self, better_symbols: bool) -> (s: String)
        ensures
            s@ == pinned_text(self.is_pinned, better_symbols) + self.char_name@ + " "@ + time_text(
                self.timestamp,
                DISPLAY_TIME_FORMAT@,
            ) + (if self.is_paste { " (Auto)"@ } else { ""@ }),
    {
        let mut out = chars_of(pinned_string(self.is_pinned, better_symbols));
        push_str_chars(&mut out, self.char_name.as_str());
        push_str_chars(&mut out, " ");
        let ts = self.formatted_timestamp();
        push_str_chars(&mut out, ts.as_str());
        if self.is_paste {
            push_str_chars(&mut out, " (Auto)");
        } else {
            proof {
                reveal_strlit("");
                assert(out@ =~= out@ + ""@);
            }
        }
        string_from_chars(out.as_slice())
    }
}

/// Whether a backup was made automatically (before a paste) and is not pinned.
pub open spec fn is_unpinned_auto(b: BackupView) -> bool {
    !b.is_pinned && b.is_paste
}

/// Represents a World of Warcraft character.
#[derive(Debug, Clone)]
pub struct WoWCharacter {
    /// The account name associated with the character.
    pub account: String,
    /// The branch identifier of the `WoW` installation the character belongs to.
    pub branch: String,
    /// The name of the character.
    pub name: String,
    /// The realm the character belongs to.
    pub realm: String,
    /// The class of the character.
    pub class: WoWClass,
    /// Files associated with the character's configuration.
    pub config_files: Vec<WoWCharacterFile>,
    /// Files associated with the character's addons.
    pub addon_files: Vec<WoWCharacterFile>,
    /// Backups associated with the character, newest first.
    pub backups: Vec<WoWCharacterBackup>,
}

/// What a character holds, as plain values.
pub struct CharacterView {
    /// The account name.
    pub account: Seq<char>,
    /// The branch identifier.
    pub branch: Seq<char>,
    /// The character name.
    pub name: Seq<char>,
    /// The realm.
    pub realm: Seq<char>,
    /// The class.
    pub class: WoWClass,
    /// The configuration files.
    pub config_files: Seq<FileView>,
    /// The addon files.
    pub addon_files: Seq<FileView>,
    /// The backups.
    pub backups: Seq<BackupView>,
}

impl View for WoWCharacter {
    type V = CharacterView;

    open spec fn view(&self) -> CharacterView {
        CharacterView {
            account: self.account@,
            branch: self.branch@,
            name: self.name@,
            realm: self.realm@,
            class: self.class,
            config_files: file_views(self.config_files@),
            addon_files: file_views(self.addon_files@),
            backups: backup_views(self.backups@),
        }
    }
}

/// A copy of each backup, in order.
pub fn copy_backups(backups: &Vec<WoWCharacterBackup>) -> (r: Vec<WoWCharacterBackup>)
    ensures
        backup_views(r@) == backup_views(backups@),
{
    let mut out: Vec<WoWCharacterBackup> = Vec::new();
    let mut i: usize = 0;
    while i < backups.len()
        invariant
            i <= backups@.len(),
            out@.len() == i,
            forall|j: int| 0 <= j < i ==> #[trigger] out@[j]@ == backups@[j]@,
        decreases backups@.len() - i,
    {
        out.push(backups[i].copy());
        i = i + 1;
    }
    assert(backup_views(out@) =~= backup_views(backups@));
    out
}

impl WoWCharacter {
    /// A copy of this character.
    pub fn copy(&self) -> (r: WoWCharacter)
        ensures
            r@ == self@,
    {
        WoWCharacter {
            account: self.account.clone(),
            branch: self.branch.clone(),
            name: self.name.clone(),
            realm: self.realm.clone(),
            class: self.class,
            config_files: copy_files(&self.config_files),
            addon_files: copy_files(&self.addon_files),
            backups: copy_backups(&self.backups),
        }
    }

    /// The character's folder inside the installation.
    pub open spec fn character_path(self, install: WoWInstall) -> Seq<Seq<char>> {
        install.branch_path().push(USER_DIR@).push(ACCOUNT_DIR@).push(self.account@).push(
            self.realm@,
        ).push(self.name@)
    }

    /// The character's backups folder inside the installation.
    pub open spec fn backups_path(self, install: WoWInstall) -> Seq<Seq<char>> {
        install.branch_path().push(CHRONOBIND_DIR@).push(CHARACTER_BACKUPS_DIR@).push(
            self.account@,
        ).push(self.realm@).push(self.name@)
    }

    /// Returns the path to the character's directory.
    pub fn get_character_path(&self, install: &WoWInstall) -> (p: ChronoPath)
        ensures
            p@ == self.character_path(*install),
    {
        install.get_realm_path(self.account.as_str(), self.realm.as_str()).join(self.name.as_str())
    }

    /// Returns the path to the character's backups directory.
    pub fn get_backups_dir(&self, install: &WoWInstall) -> (p: ChronoPath)
        ensures
            p@ == self.backups_path(*install),
    {
        install.get_character_backups_dir().join(self.account.as_str()).join(
            self.realm.as_str(),
        ).join(self.name.as_str())
    }

    /// Whether `other` is the same character: same name, realm, account and branch.
    pub open spec fn same_character(self, other: WoWCharacter) -> bool {
        &&& self.name@ == other.name@
        &&& self.realm@ == other.realm@
        &&& self.account@ == other.account@
        &&& self.branch@ == other.branch@
    }

    /// Returns `true` if the other character represents the same character
    /// (same `name`, `realm`, `account`, and `branch`).
    pub fn is_same_character(&self, other: &Self) -> (b: bool)
        ensures
            b == self.same_character(*other),
    {
        self.name == other.name && self.realm == other.realm && self.account == other.account
            && self.branch == other.branch
    }

    /// The character's unpinned automatic backups, in list order.
    pub open spec fn auto_backups(self) -> Seq<BackupView> {
        backup_views(self.backups@).filter(|b: BackupView| is_unpinned_auto(b))
    }

    /// Returns the unpinned, automatically made backups of the character, in list order.
    pub fn unpinned_auto_backups(&self) -> (r: Vec<WoWCharacterBackup>)
        ensures
            backup_views(r@) == self.auto_backups(),
    {
        let ghost vs = backup_views(self.backups@);
        let mut out: Vec<WoWCharacterBackup> = Vec::new();
        let mut i: usize = 0;
        proof {
            reveal(Seq::filter);
            assert(vs.take(0) =~= Seq::<BackupView>::empty());
            assert(backup_views(out@) =~= Seq::<BackupView>::empty());
        }
        while i < self.backups.len()
            invariant
                i <= self.backups@.len(),
                vs == backup_views(self.backups@),
                backup_views(out@) == vs.take(i as int).filter(|b: BackupView| is_unpinned_auto(b)),
            decreases self.backups@.len() - i,
        {
            proof {
                reveal(Seq::filter);
                assert(vs.take(i as int + 1).drop_last() =~= vs.take(i as int));
            }
            let b = &self.backups[i];
            let ghost before = out@;
            if !b.is_pinned && b.is_paste {
                out.push(b.copy());
                assert(backup_views(out@) =~= backup_views(before).push(b@));
            }
            i = i + 1;
        }
        assert(vs.take(i as int) =~= vs);
        out
    }

    /// Returns the count of unpinned automatic backups of the character.
    pub fn unpinned_auto_backups_count(&self) -> (n: usize)
        ensures
            n == self.auto_backups().len(),
    {
        let ghost vs = backup_views(self.backups@);
        let mut n: usize = 0;
        let mut i: usize = 0;
        proof {
            reveal(Seq::filter);
            assert(vs.take(0) =~= Seq::<BackupView>::empty());
        }
        while i < self.backups.len()
            invariant
                i <= self.backups@.len(),
                vs == backup_views(self.backups@),
                n == vs.take(i as int).filter(|b: BackupView| is_unpinned_auto(b)).len(),
                n <= i,
            decreases self.backups@.len() - i,
        {
            proof {
                reveal(Seq::filter);
                assert(vs.take(i as int + 1).drop_last() =~= vs.take(i as int));
            }
            if !self.backups[i].is_pinned && self.backups[i].is_paste {
                n = n + 1;
            }
            i = i + 1;
        }
        assert(vs.take(i as int) =~= vs);
        n
    }

    /// Returns the oldest unpinned automatic backup; of several equally old
    /// ones, the first in the list.
    pub fn oldest_unpinned_auto_backup(&self) -> (r: Option<&WoWCharacterBackup>)
        ensures
            match r {
                None => forall|j: int| 0 <= j < self.backups@.len() ==> !is_unpinned_auto(#[trigger] self.backups@[j]@),
                Some(b) => exists|k: int| {
                    &&& 0 <= k < self.backups@.len()
                    &&& self.backups@[k] == *b
                    &&& is_unpinned_auto(b@)
                    &&& forall|j: int| 0 <= j < self.backups@.len() && is_unpinned_auto(#[trigger] self.backups@[j]@)
                        ==> !time_before(self.backups@[j].timestamp, b.timestamp)
                    &&& forall|j: int| 0 <= j < k && is_unpinned_auto(#[trigger] self.backups@[j]@)
                        ==> time_before(b.timestamp, self.backups@[j].timestamp)
                },
            },
    {
        let mut best: Option<usize> = None;
        let mut i: usize = 0;
        while i < self.backups.len()
            invariant
                i <= self.backups@.len(),
                match best {
                    None => forall|j: int| 0 <= j < i ==> !is_unpinned_auto(#[trigger] self.backups@[j]@),
                    Some(k) => {
                        &&& k < i
                        &&& is_unpinned_auto(self.backups@[k as int]@)
                        &&& forall|j: int| 0 <= j < i && is_unpinned_auto(#[trigger] self.backups@[j]@)
                            ==> !time_before(self.backups@[j].timestamp, self.backups@[k as int].timestamp)
                        &&& forall|j: int| 0 <= j < k && is_unpinned_auto(#[trigger] self.backups@[j]@)
                            ==> time_before(self.backups@[k as int].timestamp, self.backups@[j].timestamp)
                    },
                },
            decreases self.backups@.len() - i,
        {
            let b = &self.backups[i];
            if !b.is_pinned && b.is_paste {
                match best {
                    None => {
                        best = Some(i);
                    },
                    Some(k) => {
                        if is_before(&b.timestamp, &self.backups[k].timestamp) {
                            proof {
                                assert forall|j: int| 0 <= j < i && is_unpinned_auto(#[trigger] self.backups@[j]@)
                                    implies time_before(b.timestamp, self.backups@[j].timestamp) by {
                                    lemma_time_order(b.timestamp, self.backups@[k as int].timestamp, self.backups@[j].timestamp);
                                    lemma_time_order(self.backups@[j].timestamp, self.backups@[k as int].timestamp, b.timestamp);
                                }
                            }
                            best = Some(i);
                        }
                    },
                }
            }
            i = i + 1;
        }
        match best {
            None => None,
            Some(k) => {
                let r = &self.backups[k];
                assert(self.backups@[k as int] == *r);
                Some(r)
            },
        }
    }
}

} // verus!
