//! The list of characters, grouped under realm headers that can be folded,
//! and what a key press does there.

use vstd::prelude::*;

use crate::character::Character;
use crate::palette::{COLLAPSED_ICON, EXPANDED_ICON, expandable_icon, highlight_symbol};
use crate::text::{chars_of, lemma_text_lt_irreflexive, lemma_text_order, string_from_chars, text_eq, text_less, text_lt};
use crate::wow::push_str_chars;
use crate::ui::{KeyInput, KeyPress, ListSelection, lower_key};

verus! {

/// Represents a row in the character list.
#[derive(Debug, Clone)]
pub enum CharacterListItemKind {
    Character(usize),
    RealmHeader { realm_ident: String, collapsed: bool, count: usize },
}

/// A row of the character list, as plain values.
pub enum ListItemView {
    Character(usize),
    RealmHeader { realm_ident: Seq<char>, collapsed: bool, count: usize },
}

impl View for CharacterListItemKind {
    type V = ListItemView;

    open spec fn view(&self) -> ListItemView {
        match self {
            CharacterListItemKind::Character(i) => ListItemView::Character(*i),
            CharacterListItemKind::RealmHeader { realm_ident, collapsed, count } =>
                ListItemView::RealmHeader {
                realm_ident: realm_ident@,
                collapsed: *collapsed,
                count: *count,
            },
        }
    }
}

/// The views of a sequence of rows.
pub open spec fn item_views(s: Seq<CharacterListItemKind>) -> Seq<ListItemView> {
    s.map_values(|x: CharacterListItemKind| x@)
}

/// The realm of a character.
pub open spec fn realm_of(c: Character) -> Seq<char> {
    c.character.realm@
}

/// Whether some character is on realm `r`.
pub open spec fn has_realm(chars: Seq<Character>, r: Seq<char>) -> bool {
    exists|i: int| 0 <= i < chars.len() && realm_of(#[trigger] chars[i]) == r
}

/// `rs` lists the realms of the characters, each once, in lexicographic order.
pub open spec fn is_realm_order(chars: Seq<Character>, rs: Seq<Seq<char>>) -> bool {
    &&& forall|i: int, j: int| 0 <= i < j < rs.len() ==> text_lt(#[trigger] rs[i], #[trigger] rs[j])
    &&& forall|i: int| 0 <= i < rs.len() ==> has_realm(chars, #[trigger] rs[i])
    &&& forall|k: int| 0 <= k < chars.len() ==> rs.contains(realm_of(#[trigger] chars[k]))
}

/// The indices, below `k`, of the characters on realm `r`, in order.
pub open spec fn realm_members(chars: Seq<Character>, r: Seq<char>, k: int) -> Seq<usize>
    decreases k,
{
    if k <= 0 {
        Seq::<usize>::empty()
    } else {
        realm_members(chars, r, k - 1) + (if realm_of(chars[k - 1]) == r {
            seq![(k - 1) as usize]
        } else {
            Seq::<usize>::empty()
        })
    }
}

/// The rows of one realm: its header (folded or not, with the number of its
/// characters), then its characters unless it is folded.
pub open spec fn realm_rows(chars: Seq<Character>, collapsed: Set<Seq<char>>, r: Seq<char>) -> Seq<
    ListItemView,
> {
    let members = realm_members(chars, r, chars.len() as int);
    seq![
        ListItemView::RealmHeader {
            realm_ident: r,
            collapsed: collapsed.contains(r),
            count: members.len() as usize,
        },
    ] + if collapsed.contains(r) {
        Seq::<ListItemView>::empty()
    } else {
        members.map_values(|i: usize| ListItemView::Character(i))
    }
}

/// The rows of the realms `rs`, realm after realm.
pub open spec fn list_rows(chars: Seq<Character>, collapsed: Set<Seq<char>>, rs: Seq<Seq<char>>) -> Seq<
    ListItemView,
>
    decreases rs.len(),
{
    if rs.len() == 0 {
        Seq::<ListItemView>::empty()
    } else {
        list_rows(chars, collapsed, rs.drop_last()) + realm_rows(chars, collapsed, rs.last())
    }
}

/// How many rows show the character at index `i`.
pub open spec fn character_row_count(rows: Seq<ListItemView>, i: usize) -> nat
    decreases rows.len(),
{
    if rows.len() == 0 {
        0
    } else {
        character_row_count(rows.drop_last(), i) + if rows.last() == ListItemView::Character(i) {
            1nat
        } else {
            0nat
        }
    }
}

/// How many of the realms `rs` are `target` and not folded.
pub open spec fn unfolded_hits(rs: Seq<Seq<char>>, collapsed: Set<Seq<char>>, target: Seq<char>) -> nat
    decreases rs.len(),
{
    if rs.len() == 0 {
        0
    } else {
        unfolded_hits(rs.drop_last(), collapsed, target) + if rs.last() == target
            && !collapsed.contains(target) {
            1nat
        } else {
            0nat
        }
    }
}

/// Rows of two lists together show a character as often as each list does.
pub proof fn lemma_character_row_count_concat(a: Seq<ListItemView>, b: Seq<ListItemView>, i: usize)
    ensures
        character_row_count(a + b, i) == character_row_count(a, i) + character_row_count(b, i),
    decreases b.len(),
{
    if b.len() == 0 {
        assert(a + b =~= a);
    } else {
        lemma_character_row_count_concat(a, b.drop_last(), i);
        assert((a + b).drop_last() =~= a + b.drop_last());
    }
}

/// The rows of a realm's members show the character at `i` once when it is
/// among the first `k` characters and on that realm, and not at all otherwise.
pub proof fn lemma_member_rows(chars: Seq<Character>, r: Seq<char>, k: int, i: usize)
    requires
        k <= chars.len() <= usize::MAX + 1,
    ensures
        character_row_count(
            realm_members(chars, r, k).map_values(|j: usize| ListItemView::Character(j)),
            i,
        ) == (if i < k && realm_of(chars[i as int]) == r { 1nat } else { 0nat }),
    decreases k,
{
    let f = |j: usize| ListItemView::Character(j);
    if k <= 0 {
        assert(realm_members(chars, r, k).map_values(f) =~= Seq::<ListItemView>::empty());
    } else {
        lemma_member_rows(chars, r, k - 1, i);
        let m = realm_members(chars, r, k - 1);
        let extra = if realm_of(chars[k - 1]) == r {
            seq![(k - 1) as usize]
        } else {
            Seq::<usize>::empty()
        };
        assert(realm_members(chars, r, k) == m + extra);
        assert((m + extra).map_values(f) =~= m.map_values(f) + extra.map_values(f));
        lemma_character_row_count_concat(m.map_values(f), extra.map_values(f), i);
        assert((k - 1) as usize == k - 1);
        if realm_of(chars[k - 1]) == r {
            let one = seq![ListItemView::Character((k - 1) as usize)];
            assert(extra.map_values(f) =~= one);
            assert(one.drop_last() =~= Seq::<ListItemView>::empty());
            assert(character_row_count(Seq::<ListItemView>::empty(), i) == 0);
            assert(one.last() == ListItemView::Character((k - 1) as usize));
            assert(character_row_count(one, i) == (if i == k - 1 { 1nat } else { 0nat }));
        } else {
            assert(extra.map_values(f) =~= Seq::<ListItemView>::empty());
            assert(character_row_count(extra.map_values(f), i) == 0);
        }
    }
}

/// The rows of the realms `rs` show the character at `i` once for each of
/// them that is its realm and not folded.
pub proof fn lemma_list_rows_count(
    chars: Seq<Character>,
    collapsed: Set<Seq<char>>,
    rs: Seq<Seq<char>>,
    i: usize,
)
    requires
        i < chars.len() <= usize::MAX + 1,
    ensures
        character_row_count(list_rows(chars, collapsed, rs), i) == unfolded_hits(
            rs,
            collapsed,
            realm_of(chars[i as int]),
        ),
    decreases rs.len(),
{
    if rs.len() > 0 {
        lemma_list_rows_count(chars, collapsed, rs.drop_last(), i);
        let r = rs.last();
        let members = realm_members(chars, r, chars.len() as int);
        let header = seq![
            ListItemView::RealmHeader {
                realm_ident: r,
                collapsed: collapsed.contains(r),
                count: members.len() as usize,
            },
        ];
        let body = if collapsed.contains(r) {
            Seq::<ListItemView>::empty()
        } else {
            members.map_values(|j: usize| ListItemView::Character(j))
        };
        assert(realm_rows(chars, collapsed, r) == header + body);
        lemma_character_row_count_concat(list_rows(chars, collapsed, rs.drop_last()), header + body, i);
        lemma_character_row_count_concat(header, body, i);
        assert(header.drop_last() =~= Seq::<ListItemView>::empty());
        assert(character_row_count(Seq::<ListItemView>::empty(), i) == 0);
        assert(character_row_count(header, i) == 0);
        if !collapsed.contains(r) {
            lemma_member_rows(chars, r, chars.len() as int, i);
        } else {
            assert(character_row_count(body, i) == 0);
        }
        assert(list_rows(chars, collapsed, rs) == list_rows(chars, collapsed, rs.drop_last()) + realm_rows(chars, collapsed, r));
    }
}

/// Among realms listed in strictly increasing order, a realm is counted
/// once when it is listed and not folded, and not at all otherwise.
pub proof fn lemma_unfolded_hits_sorted(rs: Seq<Seq<char>>, collapsed: Set<Seq<char>>, target: Seq<char>)
    requires
        forall|a: int, b: int| 0 <= a < b < rs.len() ==> text_lt(#[trigger] rs[a], #[trigger] rs[b]),
    ensures
        unfolded_hits(rs, collapsed, target) == (if rs.contains(target) && !collapsed.contains(target) {
            1nat
        } else {
            0nat
        }),
    decreases rs.len(),
{
    if rs.len() > 0 {
        let front = rs.drop_last();
        assert forall|a: int, b: int| 0 <= a < b < front.len() implies text_lt(
            #[trigger] front[a],
            #[trigger] front[b],
        ) by {
            assert(front[a] == rs[a] && front[b] == rs[b]);
        }
        lemma_unfolded_hits_sorted(front, collapsed, target);
        if rs.last() == target {
            assert(!front.contains(target)) by {
                if front.contains(target) {
                    let a = choose|a: int| 0 <= a < front.len() && front[a] == target;
                    assert(text_lt(rs[a], rs[rs.len() - 1]));
                    lemma_text_lt_irreflexive(target);
                }
            }
            assert(rs.contains(target)) by {
                assert(rs[rs.len() - 1] == target);
            }
        } else {
            assert(rs.contains(target) == front.contains(target)) by {
                if rs.contains(target) {
                    let a = choose|a: int| 0 <= a < rs.len() && rs[a] == target;
                    assert(front[a] == target);
                }
                if front.contains(target) {
                    let a = choose|a: int| 0 <= a < front.len() && front[a] == target;
                    assert(rs[a] == target);
                }
            }
        }
    }
}

/// Law: the character list shows every character exactly once, under its
/// realm, unless that realm is folded, in which case it is not shown.
pub proof fn law_each_character_listed_once(
    chars: Seq<Character>,
    collapsed: Set<Seq<char>>,
    rs: Seq<Seq<char>>,
    i: usize,
)
    requires
        is_realm_order(chars, rs),
        i < chars.len() <= usize::MAX + 1,
    ensures
        character_row_count(list_rows(chars, collapsed, rs), i) == (if collapsed.contains(
            realm_of(chars[i as int]),
        ) {
            0nat
        } else {
            1nat
        }),
{
    lemma_list_rows_count(chars, collapsed, rs, i);
    lemma_unfolded_hits_sorted(rs, collapsed, realm_of(chars[i as int]));
    assert(rs.contains(realm_of(chars[i as int])));
}

/// Action to be taken after handling navigation input.
#[derive(Debug, Clone, Copy, PartialEq, Eq, Structural)]
pub enum NavigationAction {
    /// No action needed
    NoAction,
    /// Enter file selection mode
    EnterFileSelection,
    /// Show backup popup for the given character index
    ShowBackup(usize),
    /// Copy files from the given character index
    Copy(usize),
    /// Paste files to the given character index
    Paste(usize),
}

/// The realms of the characters, each once, in lexicographic order.
fn sorted_realms(chars: &[Character]) -> (rs: Vec<String>)
    ensures
        is_realm_order(chars@, rs@.map_values(|s: String| s@)),
{
    let mut rs: Vec<String> = Vec::new();
    let mut k: usize = 0;
    while k < chars.len()
        invariant
            k <= chars@.len(),
            forall|i: int, j: int|
                0 <= i < j < rs@.len() ==> text_lt(#[trigger] rs@[i]@, #[trigger] rs@[j]@),
            forall|i: int| 0 <= i < rs@.len() ==> has_realm(chars@, #[trigger] rs@[i]@),
            forall|j: int| 0 <= j < k ==> exists|i: int| 0 <= i < rs@.len() && #[trigger] rs@[i]@ == realm_of(#[trigger] chars@[j]),
        decreases chars@.len() - k,
    {
        let r = chars[k].realm();
        let mut p: usize = 0;
        while p < rs.len() && text_less(rs[p].as_str(), r)
            invariant
                p <= rs@.len(),
                r@ == realm_of(chars@[k as int]),
                forall|q: int| 0 <= q < p ==> text_lt(#[trigger] rs@[q]@, r@),
            decreases rs@.len() - p,
        {
            p = p + 1;
        }
        if p < rs.len() && text_eq(rs[p].as_str(), r) {
            assert(rs@[p as int]@ == realm_of(chars@[k as int]));
        } else {
            let ghost old_rs = rs@;
            proof {
                assert forall|q: int| p <= q < old_rs.len() implies text_lt(r@, #[trigger] old_rs[q]@) by {
                    lemma_text_order(old_rs[p as int]@, r@, old_rs[q]@);
                    lemma_text_order(r@, old_rs[p as int]@, old_rs[q]@);
                    if q > p {
                        assert(text_lt(old_rs[p as int]@, old_rs[q]@));
                    }
                }
                assert(has_realm(chars@, r@)) by {
                    assert(realm_of(chars@[k as int]) == r@);
                }
            }
            rs.insert(p, String::from_str(r));
            proof {
                assert forall|i: int, j: int| 0 <= i < j < rs@.len() implies text_lt(#[trigger] rs@[i]@, #[trigger] rs@[j]@) by {
                    if j < p {
                        assert(rs@[i] == old_rs[i]);
                        assert(rs@[j] == old_rs[j]);
                    } else if j == p {
                        assert(rs@[i] == old_rs[i]);
                    } else if i < p {
                        assert(rs@[i] == old_rs[i]);
                        assert(rs@[j] == old_rs[j - 1]);
                        lemma_text_order(old_rs[i]@, r@, old_rs[j - 1]@);
                    } else if i == p {
                        assert(rs@[j] == old_rs[j - 1]);
                    } else {
                        assert(rs@[i] == old_rs[i - 1]);
                        assert(rs@[j] == old_rs[j - 1]);
                    }
                }
                assert forall|i: int| 0 <= i < rs@.len() implies has_realm(chars@, #[trigger] rs@[i]@) by {
                    if i < p {
                        assert(rs@[i] == old_rs[i]);
                    } else if i > p {
                        assert(rs@[i] == old_rs[i - 1]);
                    }
                }
                assert forall|j: int| 0 <= j < k + 1 implies exists|i: int| 0 <= i < rs@.len() && #[trigger] rs@[i]@ == realm_of(#[trigger] chars@[j]) by {
                    if j < k {
                        let i0 = choose|i: int| 0 <= i < old_rs.len() && #[trigger] old_rs[i]@ == realm_of(chars@[j]);
                        if i0 < p {
                            assert(rs@[i0] == old_rs[i0]);
                        } else {
                            assert(rs@[i0 + 1] == old_rs[i0]);
                        }
                    } else {
                        assert(rs@[p as int]@ == realm_of(chars@[j]));
                    }
                }
            }
        }
        k = k + 1;
    }
    proof {
        let v = rs@.map_values(|s: String| s@);
        assert forall|j: int| 0 <= j < chars@.len() implies v.contains(realm_of(#[trigger] chars@[j])) by {
            let i0 = choose|i: int| 0 <= i < rs@.len() && #[trigger] rs@[i]@ == realm_of(chars@[j]);
            assert(v[i0] == realm_of(chars@[j]));
        }
    }
    rs
}

/// The character list widget displays the characters grouped by realm with
/// collapsible headers.
#[derive(Debug, Clone)]
pub struct CharacterListWidget {
    /// The branch display string (e.g., "Retail", "Classic", etc.)
    pub branch_display: Option<String>,
    /// The hovered row.
    pub state: ListSelection,
    /// The names of the folded realms.
    pub collapsed_realms: Vec<String>,
}

impl CharacterListWidget {
    /// The folded realms.
    pub open spec fn collapsed_set(&self) -> Set<Seq<char>> {
        Set::new(|r: Seq<char>| exists|i: int| 0 <= i < self.collapsed_realms@.len() && #[trigger] self.collapsed_realms@[i]@ == r)
    }

    /// The hovered row, the first one when none is.
    pub open spec fn hovered(&self) -> int {
        match self.state.selected {
            Some(i) => i as int,
            None => 0,
        }
    }

    /// Create a new character list widget: no branch shown, no row hovered,
    /// no realm folded.
    pub fn new() -> (w: Self)
        ensures
            w.branch_display is None,
            w.state.selected is None,
            w.collapsed_set() == Set::<Seq<char>>::empty(),
    {
        let w = CharacterListWidget {
            branch_display: None,
            state: ListSelection::new(),
            collapsed_realms: Vec::new(),
        };
        assert(w.collapsed_set() =~= Set::<Seq<char>>::empty());
        w
    }

    /// Get the currently selected index in the list.
    pub fn selected_index(&self) -> (i: usize)
        ensures
            i == self.hovered(),
    {
        match self.state.selected() {
            Some(i) => i,
            None => 0,
        }
    }

    /// Whether the realm `realm` is folded.
    fn is_collapsed(&self, realm: &str) -> (b: bool)
        ensures
            b == self.collapsed_set().contains(realm@),
    {
        let mut i: usize = 0;
        while i < self.collapsed_realms.len()
            invariant
                i <= self.collapsed_realms@.len(),
                forall|j: int| 0 <= j < i ==> #[trigger] self.collapsed_realms@[j]@ != realm@,
            decreases self.collapsed_realms@.len() - i,
        {
            if text_eq(self.collapsed_realms[i].as_str(), realm) {
                return true;
            }
            i = i + 1;
        }
        false
    }

    /// Folds the realm `realm` if it is shown, shows it if it is folded.
    fn toggle_collapsed(&mut self, realm: &str)
        ensures
            final(self).branch_display == old(self).branch_display,
            final(self).state == old(self).state,
            old(self).collapsed_set().contains(realm@) ==> final(self).collapsed_set() == old(self).collapsed_set().remove(realm@),
            !old(self).collapsed_set().contains(realm@) ==> final(self).collapsed_set() == old(self).collapsed_set().insert(realm@),
    {
        if self.is_collapsed(realm) {
            let mut kept: Vec<String> = Vec::new();
            let mut i: usize = 0;
            while i < self.collapsed_realms.len()
                invariant
                    i <= self.collapsed_realms@.len(),
                    forall|j: int| 0 <= j < kept@.len() ==> #[trigger] kept@[j]@ != realm@,
                    forall|j: int| 0 <= j < kept@.len() ==> exists|q: int| 0 <= q < self.collapsed_realms@.len() && #[trigger] self.collapsed_realms@[q]@ == #[trigger] kept@[j]@,
                    forall|q: int| 0 <= q < i && #[trigger] self.collapsed_realms@[q]@ != realm@ ==> exists|j: int| 0 <= j < kept@.len() && #[trigger] kept@[j]@ == self.collapsed_realms@[q]@,
                decreases self.collapsed_realms@.len() - i,
            {
                let ghost kb = kept@;
                if !text_eq(self.collapsed_realms[i].as_str(), realm) {
                    kept.push(self.collapsed_realms[i].clone());
                    assert(kept@[kept@.len() - 1]@ == self.collapsed_realms@[i as int]@);
                }
                proof {
                    assert forall|q: int| 0 <= q < i + 1 && #[trigger] self.collapsed_realms@[q]@ != realm@ implies exists|j: int| 0 <= j < kept@.len() && #[trigger] kept@[j]@ == self.collapsed_realms@[q]@ by {
                        if q < i {
                            let j0 = choose|j: int| 0 <= j < kb.len() && #[trigger] kb[j]@ == self.collapsed_realms@[q]@;
                            assert(kept@[j0] == kb[j0]);
                        } else {
                            assert(kept@[kept@.len() - 1]@ == self.collapsed_realms@[q]@);
                        }
                    }
                }
                i = i + 1;
            }
            let ghost before = self.collapsed_set();
            self.collapsed_realms = kept;
            assert(self.collapsed_set() =~= before.remove(realm@));
        } else {
            let ghost before = self.collapsed_set();
            let ghost old_v = self.collapsed_realms@;
            self.collapsed_realms.push(String::from_str(realm));
            proof {
                assert forall|r: Seq<char>| #[trigger] self.collapsed_set().contains(r) == before.insert(realm@).contains(r) by {
                    if before.contains(r) {
                        let q = choose|q: int| 0 <= q < old_v.len() && #[trigger] old_v[q]@ == r;
                        assert(self.collapsed_realms@[q] == old_v[q]);
                    }
                    if self.collapsed_set().contains(r) {
                        let q = choose|q: int| 0 <= q < self.collapsed_realms@.len() && #[trigger] self.collapsed_realms@[q]@ == r;
                        if q < old_v.len() {
                            assert(self.collapsed_realms@[q] == old_v[q]);
                        }
                    }
                    if r == realm@ {
                        assert(self.collapsed_realms@[old_v.len() as int]@ == realm@);
                    }
                }
                assert(self.collapsed_set() =~= before.insert(realm@));
            }
        }
    }

    /// Generate the rows of the character list: the realms in
    /// lexicographic order, each with its header and, unless folded, its
    /// characters in list order.
    pub fn get_character_list_items(&self, characters: &[Character]) -> (items: Vec<
        CharacterListItemKind,
    >)
        ensures
            exists|rs: Seq<Seq<char>>|
                #[trigger] is_realm_order(characters@, rs) && item_views(items@) == list_rows(
                    characters@,
                    self.collapsed_set(),
                    rs,
                ),
    {
        let realms = sorted_realms(characters);
        let ghost rs = realms@.map_values(|s: String| s@);
        let ghost collapsed = self.collapsed_set();
        let mut items: Vec<CharacterListItemKind> = Vec::new();
        let mut i: usize = 0;
        proof {
            assert(item_views(items@) =~= Seq::<ListItemView>::empty());
            assert(rs.take(0) =~= Seq::<Seq<char>>::empty());
        }
        while i < realms.len()
            invariant
                i <= realms@.len(),
                rs == realms@.map_values(|s: String| s@),
                collapsed == self.collapsed_set(),
                item_views(items@) == list_rows(characters@, collapsed, rs.take(i as int)),
            decreases realms@.len() - i,
        {
            let realm = realms[i].as_str();
            let collapsed_now = self.is_collapsed(realm);
            let mut members: Vec<usize> = Vec::new();
            let mut k: usize = 0;
            while k < characters.len()
                invariant
                    k <= characters@.len(),
                    members@ == realm_members(characters@, realm@, k as int),
                    members@.len() <= k,
                decreases characters@.len() - k,
            {
                if text_eq(characters[k].realm(), realm) {
                    members.push(k);
                }
                k = k + 1;
            }
            let ghost before = item_views(items@);
            items.push(
                CharacterListItemKind::RealmHeader {
                    realm_ident: String::from_str(realm),
                    collapsed: collapsed_now,
                    count: members.len(),
                },
            );
            let ghost head = item_views(items@);
            if !collapsed_now {
                let mut j: usize = 0;
                while j < members.len()
                    invariant
                        j <= members@.len(),
                        item_views(items@) == head + members@.take(j as int).map_values(
                            |m: usize| ListItemView::Character(m),
                        ),
                    decreases members@.len() - j,
                {
                    let ghost prev = items@;
                    items.push(CharacterListItemKind::Character(members[j]));
                    assert(item_views(items@) =~= item_views(prev).push(ListItemView::Character(members@[j as int])));
                    assert(members@.take(j as int + 1).map_values(|m: usize| ListItemView::Character(m))
                        =~= members@.take(j as int).map_values(|m: usize| ListItemView::Character(m)).push(ListItemView::Character(members@[j as int])));
                    j = j + 1;
                }
                assert(members@.take(members@.len() as int) =~= members@);
            }
            proof {
                assert(rs.take(i as int + 1).drop_last() =~= rs.take(i as int));
                assert(rs.take(i as int + 1).last() == realm@);
                assert(item_views(items@) =~= before + realm_rows(characters@, collapsed, realm@));
            }
            i = i + 1;
        }
        assert(rs.take(i as int) =~= rs);
        items
    }

    /// The character of the hovered row, when it is a character row.
    pub open spec fn hovered_character(&self, items: Seq<ListItemView>) -> Option<usize> {
        if 0 <= self.hovered() < items.len() {
            match items[self.hovered()] {
                ListItemView::Character(c) => Some(c),
                _ => None,
            }
        } else {
            None
        }
    }

    /// Get the actual character index from the selected position,
    /// accounting for grouped display.
    pub fn get_selected_character_index(&self, item_list: &[CharacterListItemKind]) -> (r: Option<
        usize,
    >)
        ensures
            r == self.hovered_character(item_views(item_list@)),
    {
        let selected_index = self.selected_index();
        if selected_index < item_list.len() {
            match &item_list[selected_index] {
                CharacterListItemKind::Character(char_idx) => Some(*char_idx),
                _ => None,
            }
        } else {
            None
        }
    }

    /// Get the actual character index from the selected position in the
    /// rows of `chars`.
    pub fn get_selected_character_index_from_chars(&self, chars: &[Character]) -> (r: Option<usize>)
        ensures
            exists|rs: Seq<Seq<char>>|
                #[trigger] is_realm_order(chars@, rs) && r == self.hovered_character(
                    list_rows(chars@, self.collapsed_set(), rs),
                ),
    {
        let item_list = self.get_character_list_items(chars);
        self.get_selected_character_index(item_list.as_slice())
    }
}

/// Whether a key enters the hovered row.
pub open spec fn is_enter_key(k: KeyPress) -> bool {
    k == KeyPress::Enter || k == KeyPress::Char(' ') || k == KeyPress::Char('d') || k
        == KeyPress::Right
}

/// The action a key press gives in the character list, with `item` the
/// hovered row, if any.
pub open spec fn navigation_action(k: KeyPress, item: Option<ListItemView>) -> NavigationAction {
    if k == KeyPress::Up || k == KeyPress::Char('w') || k == KeyPress::Down || k == KeyPress::Char(
        's',
    ) {
        NavigationAction::NoAction
    } else if is_enter_key(k) {
        match item {
            Some(ListItemView::Character(_)) => NavigationAction::EnterFileSelection,
            _ => NavigationAction::NoAction,
        }
    } else if k == KeyPress::Char('b') || k == KeyPress::Char('c') || k == KeyPress::Char('v') {
        match item {
            Some(ListItemView::Character(c)) => if k == KeyPress::Char('b') {
                NavigationAction::ShowBackup(c)
            } else if k == KeyPress::Char('c') {
                NavigationAction::Copy(c)
            } else {
                NavigationAction::Paste(c)
            },
            _ => NavigationAction::NoAction,
        }
    } else {
        NavigationAction::NoAction
    }
}

/// The folded realms after folding `r` if shown, or showing it if folded.
pub open spec fn realm_toggled(collapsed: Set<Seq<char>>, r: Seq<char>) -> Set<Seq<char>> {
    if collapsed.contains(r) {
        collapsed.remove(r)
    } else {
        collapsed.insert(r)
    }
}

/// The row at `i`, if there is one.
pub open spec fn row_at(items: Seq<ListItemView>, i: int) -> Option<ListItemView> {
    if 0 <= i < items.len() {
        Some(items[i])
    } else {
        None
    }
}

impl CharacterListWidget {
    /// Handle a key press in the character list: move the hovered row,
    /// fold or show a realm, or return the action asked for.
    pub fn handle_navigation_input(&mut self, key: &KeyInput, characters: &[Character]) -> (r:
        NavigationAction)
        ensures
            final(self).branch_display == old(self).branch_display,
            exists|rs: Seq<Seq<char>>|
                {
                    let items = list_rows(characters@, old(self).collapsed_set(), rs);
                    let k = lower_key(key.code);
                    let item = row_at(items, old(self).hovered());
                    &&& #[trigger] is_realm_order(characters@, rs)
                    &&& r == navigation_action(k, item)
                    &&& (k == KeyPress::Up || k == KeyPress::Char('w')) ==> final(self).state.selected
                        == Some(
                        match old(self).state.selected {
                            Some(i) => if i == 0 {
                                0usize
                            } else {
                                (i - 1) as usize
                            },
                            None => usize::MAX,
                        },
                    ) && final(self).collapsed_set() == old(self).collapsed_set()
                    &&& (k == KeyPress::Down || k == KeyPress::Char('s')) ==> final(self).state.selected == Some(
                        match old(self).state.selected {
                            Some(i) => if i == usize::MAX {
                                i
                            } else {
                                (i + 1) as usize
                            },
                            None => 0usize,
                        },
                    ) && final(self).collapsed_set() == old(self).collapsed_set()
                    &&& is_enter_key(k) ==> (item matches Some(
                        ListItemView::RealmHeader { realm_ident, .. },
                    ) ==> final(self).state == old(self).state && final(self).collapsed_set()
                        == realm_toggled(old(self).collapsed_set(), realm_ident))
                    &&& !(k == KeyPress::Up || k == KeyPress::Char('w') || k == KeyPress::Down
                        || k == KeyPress::Char('s') || (is_enter_key(k) && item matches Some(
                        ListItemView::RealmHeader { .. },
                    ))) ==> final(self).state == old(self).state && final(self).collapsed_set()
                        == old(self).collapsed_set()
                },
    {
        let item_list = self.get_character_list_items(characters);
        let ghost items = item_views(item_list@);
        let k = key.keycode_lower();
        if k == KeyPress::Up || k == KeyPress::Char('w') {
            self.state.select_previous();
            return NavigationAction::NoAction;
        }
        if k == KeyPress::Down || k == KeyPress::Char('s') {
            self.state.select_next();
            return NavigationAction::NoAction;
        }
        let sel = self.selected_index();
        if k == KeyPress::Enter || k == KeyPress::Char(' ') || k == KeyPress::Char('d') || k
            == KeyPress::Right {
            if sel < item_list.len() {
                match &item_list[sel] {
                    CharacterListItemKind::RealmHeader { realm_ident, .. } => {
                        self.toggle_collapsed(realm_ident.as_str());
                        return NavigationAction::NoAction;
                    },
                    CharacterListItemKind::Character(_) => {
                        return NavigationAction::EnterFileSelection;
                    },
                }
            }
            return NavigationAction::NoAction;
        }
        if k == KeyPress::Char('b') || k == KeyPress::Char('c') || k == KeyPress::Char('v') {
            if sel < item_list.len() {
                match &item_list[sel] {
                    CharacterListItemKind::Character(char_idx) => {
                        if k == KeyPress::Char('b') {
                            return NavigationAction::ShowBackup(*char_idx);
                        } else if k == KeyPress::Char('c') {
                            return NavigationAction::Copy(*char_idx);
                        } else {
                            return NavigationAction::Paste(*char_idx);
                        }
                    },
                    _ => {
                        return NavigationAction::NoAction;
                    },
                }
            }
            return NavigationAction::NoAction;
        }
        NavigationAction::NoAction
    }
}


/// The title of the character list: the branch shown, when there is one.
pub fn list_title(branch_display: &Option<String>) -> (s: String)
    ensures
        s@ == (match branch_display {
            Some(b) => " Characters - "@ + b@ + " "@,
            None => " Characters "@,
        }),
{
    match branch_display {
        Some(b) => {
            let mut out = chars_of(" Characters - ");
            push_str_chars(&mut out, b.as_str());
            push_str_chars(&mut out, " ");
            string_from_chars(out.as_slice())
        },
        None => String::from_str(" Characters "),
    }
}

/// The text of a realm header row: its fold icon, the hover mark and the
/// realm in brackets.
pub fn realm_header_text(realm: &str, collapsed: bool, hovered: bool) -> (s: String)
    ensures
        s@ == " "@ + (if collapsed { COLLAPSED_ICON@ } else { EXPANDED_ICON@ }) + " "@ + (if hovered {
            "> "@
        } else {
            ""@
        }) + "["@ + realm@ + "]"@,
{
    let mut out = chars_of(" ");
    push_str_chars(&mut out, expandable_icon(collapsed));
    push_str_chars(&mut out, " ");
    push_str_chars(&mut out, highlight_symbol(hovered));
    push_str_chars(&mut out, "[");
    push_str_chars(&mut out, realm);
    push_str_chars(&mut out, "]");
    string_from_chars(out.as_slice())
}

/// The text before a character's name in its row: indentation, the hover
/// mark, and a dot when some of its files are selected.
pub fn character_row_prefix(hovered: bool, files_selected: bool) -> (s: String)
    ensures
        s@ == "    "@ + (if hovered { "> "@ } else { ""@ }) + (if files_selected { "• "@ } else { ""@ }),
{
    let mut out = chars_of("    ");
    push_str_chars(&mut out, highlight_symbol(hovered));
    if files_selected {
        push_str_chars(&mut out, "• ");
    } else {
        proof {
            reveal_strlit("");
            assert(out@ =~= out@ + ""@);
        }
    }
    string_from_chars(out.as_slice())
}

} // verus!
