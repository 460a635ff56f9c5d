//! File system paths as sequences of segments.

use vstd::prelude::*;

use crate::text::{char_is_whitespace, chars_of, is_whitespace, string_from_chars, text_eq};

verus! {

/// A path, held as the segments that are joined to form it. The first
/// segment may itself be an absolute path (such as an installation root).
#[derive(Debug, Clone)]
pub struct ChronoPath {
    /// The segments, in joining order.
    pub segments: Vec<String>,
}

impl View for ChronoPath {
    type V = Seq<Seq<char>>;

    open spec fn view(&self) -> Seq<Seq<char>> {
        Seq::new(self.segments@.len(), |i: int| self.segments@[i]@)
    }
}

impl ChronoPath {
    /// A path made of a single segment.
    pub fn from_segment(s: &str) -> (p: ChronoPath)
        ensures
            p@ == seq![s@],
    {
        let mut segments: Vec<String> = Vec::new();
        segments.push(String::from_str(s));
        let p = ChronoPath { segments };
        assert(p@ =~= seq![s@]);
        p
    }

    /// A copy of this path.
    pub fn copy(&self) -> (p: ChronoPath)
        ensures
            p@ == self@,
    {
        let mut segments: Vec<String> = Vec::new();
        let mut i: usize = 0;
        while i < self.segments.len()
            invariant
                i <= self.segments@.len(),
                segments@.len() == i,
                forall|k: int| 0 <= k < i ==> #[trigger] segments@[k] == self.segments@[k],
            decreases self.segments@.len() - i,
        {
            segments.push(self.segments[i].clone());
            i = i + 1;
        }
        let p = ChronoPath { segments };
        assert(p@ =~= self@);
        p
    }

    /// This path with the first `n` segments of `rel` joined at the end.
    pub fn join_prefix(&self, rel: &ChronoPath, n: usize) -> (p: ChronoPath)
        requires
            n <= rel@.len(),
        ensures
            p@ == self@ + rel@.take(n as int),
    {
        let mut p = self.copy();
        let mut i: usize = 0;
        while i < n
            invariant
                n <= rel@.len(),
                i <= n,
                p@ == self@ + rel@.take(i as int),
            decreases n - i,
        {
            let ghost before = p@;
            p.segments.push(rel.segments[i].clone());
            assert(p@ =~= before.push(rel@[i as int]));
            assert(rel@.take(i as int + 1) =~= rel@.take(i as int).push(rel@[i as int]));
            i = i + 1;
        }
        p
    }

    /// A copy of this path with `s` joined at the end.
    pub fn join(&self, s: &str) -> (p: ChronoPath)
        ensures
            p@ == self@.push(s@),
    {
        let mut segments: Vec<String> = Vec::new();
        let mut i: usize = 0;
        while i < self.segments.len()
            invariant
                i <= self.segments@.len(),
                segments@.len() == i,
                forall|k: int| 0 <= k < i ==> #[trigger] segments@[k]@ == self.segments@[k]@,
            decreases self.segments@.len() - i,
        {
            segments.push(self.segments[i].clone());
            i = i + 1;
        }
        segments.push(String::from_str(s));
        let p = ChronoPath { segments };
        assert(p@ =~= self@.push(s@));
        p
    }
}

/// The index of the last occurrence of `c` in `s`, if any.
pub open spec fn last_index_of(s: Seq<char>, c: char) -> Option<int>
    decreases s.len(),
{
    if s.len() == 0 {
        None
    } else if s.last() == c {
        Some(s.len() - 1)
    } else {
        last_index_of(s.drop_last(), c)
    }
}

/// The last `c` of `a`, `c`, `b` is the one between them when `b` holds none.
pub proof fn lemma_last_index_after(a: Seq<char>, c: char, b: Seq<char>)
    requires
        !b.contains(c),
    ensures
        last_index_of(a + seq![c] + b, c) == Some(a.len() as int),
    decreases b.len(),
{
    let s = a + seq![c] + b;
    if b.len() == 0 {
        assert(s =~= a + seq![c]);
    } else {
        assert(b.last() != c) by {
            assert(b[b.len() - 1] == b.last());
        }
        assert(!b.drop_last().contains(c)) by {
            if b.drop_last().contains(c) {
                let i = choose|i: int| 0 <= i < b.drop_last().len() && b.drop_last()[i] == c;
                assert(b[i] == c);
            }
        }
        lemma_last_index_after(a, c, b.drop_last());
        assert(s.drop_last() =~= a + seq![c] + b.drop_last());
    }
}

/// The stem of a file name as `Path::file_stem` documents it: the part
/// before the final `.`, or the whole name when it has no `.` other than a
/// leading one.
pub open spec fn file_stem_of(name: Seq<char>) -> Seq<char> {
    match last_index_of(name, '.') {
        Some(i) if i > 0 => name.take(i),
        _ => name,
    }
}

/// The extension of a file name as `Path::extension` documents it: the part
/// after the final `.`, and none when the name has no `.` other than a
/// leading one.
pub open spec fn extension_of(name: Seq<char>) -> Option<Seq<char>> {
    match last_index_of(name, '.') {
        Some(i) if i > 0 => Some(name.skip(i + 1)),
        _ => None,
    }
}

/// Splits a file name into its stem and its extension, if it has one.
pub fn split_file_name(name: &str) -> (r: (String, Option<String>))
    ensures
        r.0@ == file_stem_of(name@),
        match r.1 {
            Some(e) => extension_of(name@) == Some(e@),
            None => extension_of(name@) is None,
        },
{
    let cs = chars_of(name);
    let mut k: usize = cs.len();
    let mut found = false;
    assert(cs@.take(k as int) =~= cs@);
    while k > 0 && !found
        invariant
            k <= cs@.len(),
            cs@ == name@,
            !found ==> last_index_of(cs@, '.') == last_index_of(cs@.take(k as int), '.'),
            found ==> k < cs@.len() && last_index_of(cs@, '.') == Some(k as int) && cs@[k as int] == '.',
        decreases k,
    {
        assert(cs@.take(k as int).drop_last() =~= cs@.take(k as int - 1));
        if cs[k - 1] == '.' {
            k = k - 1;
            found = true;
        } else {
            k = k - 1;
        }
    }
    if !found || k == 0 {
        proof {
            if !found {
                assert(cs@.take(0) =~= Seq::<char>::empty());
            }
        }
        (String::from_str(name), None)
    } else {
        let mut stem: Vec<char> = Vec::new();
        let mut ext: Vec<char> = Vec::new();
        let mut i: usize = 0;
        while i < cs.len()
            invariant
                0 < k < cs@.len(),
                i <= cs@.len(),
                stem@ == cs@.take(if i <= k { i as int } else { k as int }),
                ext@ == (if i <= k + 1 { Seq::<char>::empty() } else { cs@.subrange(k + 1, i as int) }),
            decreases cs@.len() - i,
        {
            if i < k {
                stem.push(cs[i]);
                assert(stem@ =~= cs@.take(i as int + 1));
            } else if i > k {
                ext.push(cs[i]);
                assert(ext@ =~= cs@.subrange(k + 1, i as int + 1));
            }
            i = i + 1;
        }
        assert(ext@ =~= cs@.skip(k + 1));
        (string_from_chars(stem.as_slice()), Some(string_from_chars(ext.as_slice())))
    }
}

/// The components of a path as `Path::components` reads them, each as its
/// text (`Component::as_os_str`).
pub uninterp spec fn path_components(p: Seq<char>) -> Seq<Seq<char>>;

/// The components of the path `p` (`Path::components`), each as its text.
#[verifier::external_body]
fn components_of(p: &str) -> (r: Vec<String>)
    ensures
        r@.map_values(|c: String| c@) == path_components(p@),
{
    std::path::Path::new(p).components().map(|c| c.as_os_str().to_string_lossy().into_owned()).collect()
}

/// Whether the components of `parent` begin the components of `child`.
pub open spec fn is_path_inside(parent: Seq<char>, child: Seq<char>) -> bool {
    let pc = path_components(parent);
    let cc = path_components(child);
    pc.len() <= cc.len() && cc.take(pc.len() as int) == pc
}

/// Check if a given child path is logically inside a parent path: the
/// parent's components begin the child's.
pub fn logical_is_path_inside(parent: &str, child: &str) -> (b: bool)
    ensures
        b == is_path_inside(parent@, child@),
{
    let pc = components_of(parent);
    let cc = components_of(child);
    let ghost pv = pc@.map_values(|c: String| c@);
    let ghost cv = cc@.map_values(|c: String| c@);
    if pc.len() > cc.len() {
        return false;
    }
    let mut i: usize = 0;
    while i < pc.len()
        invariant
            pc@.len() <= cc@.len(),
            i <= pc@.len(),
            pv == pc@.map_values(|c: String| c@),
            cv == cc@.map_values(|c: String| c@),
            pv == path_components(parent@),
            cv == path_components(child@),
            cv.take(i as int) == pv.take(i as int),
        decreases pc@.len() - i,
    {
        if pc[i] != cc[i] {
            assert(cv.take(pv.len() as int)[i as int] != pv[i as int]);
            assert(cv.take(pv.len() as int) != pv);
            return false;
        }
        assert(cv.take(i as int + 1) =~= cv.take(i as int).push(cv[i as int]));
        assert(pv.take(i as int + 1) =~= pv.take(i as int).push(pv[i as int]));
        i = i + 1;
    }
    assert(pv.take(pv.len() as int) =~= pv);
    true
}

/// The text with white space removed from both ends (`str::trim`).
pub open spec fn trim_ws(s: Seq<char>) -> Seq<char>
    decreases s.len(),
{
    if s.len() > 0 && is_whitespace(s[0]) {
        trim_ws(s.drop_first())
    } else if s.len() > 0 && is_whitespace(s.last()) {
        trim_ws(s.drop_last())
    } else {
        s
    }
}

/// A path typed by the user: white space trimmed, and one pair of
/// surrounding double quotes, or else of single quotes, removed.
pub open spec fn typed_path(input: Seq<char>) -> Seq<char> {
    let s = trim_ws(input);
    if s.len() >= 2 && s[0] == '"' && s.last() == '"' {
        s.subrange(1, s.len() - 1)
    } else if s.len() >= 2 && s[0] == '\'' && s.last() == '\'' {
        s.subrange(1, s.len() - 1)
    } else {
        s
    }
}

/// Parse a path string, removing surrounding quotes if present.
pub fn parse_path(input: &str) -> (p: String)
    ensures
        p@ == typed_path(input@),
{
    let t = chars_of(input);
    let mut start: usize = 0;
    assert(t@.skip(0) =~= t@);
    while start < t.len() && char_is_whitespace(t[start])
        invariant
            start <= t@.len(),
            t@ == input@,
            trim_ws(t@.skip(start as int)) == trim_ws(t@),
        decreases t@.len() - start,
    {
        assert(t@.skip(start as int).drop_first() =~= t@.skip(start as int + 1));
        start = start + 1;
    }
    let mut end = t.len();
    assert(t@.skip(start as int) =~= t@.subrange(start as int, end as int));
    while end > start && char_is_whitespace(t[end - 1])
        invariant
            start <= end <= t@.len(),
            t@ == input@,
            start == t@.len() || !is_whitespace(t@[start as int]),
            trim_ws(t@.subrange(start as int, end as int)) == trim_ws(t@),
        decreases end,
    {
        let ghost u = t@.subrange(start as int, end as int);
        assert(u.drop_last() =~= t@.subrange(start as int, end - 1));
        assert(u[0] == t@[start as int]);
        end = end - 1;
    }
    proof {
        let u = t@.subrange(start as int, end as int);
        if u.len() > 0 {
            assert(u[0] == t@[start as int]);
            assert(u.last() == t@[end - 1]);
        }
        assert(trim_ws(u) == u);
    }
    let (a, b) = if end - start >= 2 && ((t[start] == '"' && t[end - 1] == '"') || (t[start]
        == '\'' && t[end - 1] == '\'')) {
        (start + 1, end - 1)
    } else {
        (start, end)
    };
    let mut out: Vec<char> = Vec::new();
    let mut k = a;
    while k < b
        invariant
            a <= k <= b,
            b <= t@.len(),
            out@ == t@.subrange(a as int, k as int),
        decreases b - k,
    {
        out.push(t[k]);
        assert(out@ =~= t@.subrange(a as int, k as int + 1));
        k = k + 1;
    }
    proof {
        let s = t@.subrange(start as int, end as int);
        if a == start + 1 {
            assert(t@.subrange(a as int, b as int) =~= s.subrange(1, s.len() - 1));
        }
    }
    string_from_chars(out.as_slice())
}

/// The names among `names` of entries that lie inside the directory `dir`,
/// in order.
pub fn files_in_directory(dir: &str, names: &Vec<String>) -> (r: Vec<String>)
    ensures
        r@.map_values(|s: String| s@) == names@.map_values(|s: String| s@).filter(
            |n: Seq<char>| is_path_inside(dir@, n),
        ),
{
    let ghost ns = names@.map_values(|s: String| s@);
    let mut out: Vec<String> = Vec::new();
    let mut k: usize = 0;
    proof {
        reveal(Seq::filter);
        assert(ns.take(0) =~= Seq::<Seq<char>>::empty());
        assert(out@.map_values(|s: String| s@) =~= Seq::<Seq<char>>::empty());
    }
    while k < names.len()
        invariant
            k <= names@.len(),
            ns == names@.map_values(|s: String| s@),
            out@.map_values(|s: String| s@) == ns.take(k as int).filter(|n: Seq<char>| is_path_inside(dir@, n)),
        decreases names@.len() - k,
    {
        proof {
            reveal(Seq::filter);
            assert(ns.take(k as int + 1).drop_last() =~= ns.take(k as int));
        }
        let ghost before = out@;
        if logical_is_path_inside(dir, names[k].as_str()) {
            out.push(names[k].clone());
            assert(out@.map_values(|s: String| s@) =~= before.map_values(|s: String| s@).push(names@[k as int]@));
        }
        k = k + 1;
    }
    assert(ns.take(k as int) =~= ns);
    out
}


/// Whether an archive entry named `name` is a folder: its name ends in `/`.
pub fn is_folder_entry(name: &str) -> (b: bool)
    ensures
        b == (name@.len() > 0 && name@.last() == '/'),
{
    let cs = chars_of(name);
    cs.len() > 0 && cs[cs.len() - 1] == '/'
}


/// Whether some entry of `names` has `d` as its first path component.
pub open spec fn is_root_dir(names: Seq<Seq<char>>, d: Seq<char>) -> bool {
    exists|k: int|
        0 <= k < names.len() && path_components(#[trigger] names[k]).len() > 0 && path_components(
            names[k],
        )[0] == d
}

/// The folders at the root of an archive with the entries `names`: the
/// first path component of each entry, each once (in order of first use).
pub fn directories_in_root(names: &Vec<String>) -> (r: Vec<String>)
    ensures
        forall|d: Seq<char>| #![auto] texts_of_strings(r@).contains(d) <==> is_root_dir(texts_of_strings(names@), d),
        forall|i: int, j: int| 0 <= i < j < r@.len() ==> r@[i]@ != r@[j]@,
{
    let ghost ns = texts_of_strings(names@);
    let mut out: Vec<String> = Vec::new();
    let mut k: usize = 0;
    while k < names.len()
        invariant
            k <= names@.len(),
            ns == texts_of_strings(names@),
            forall|d: Seq<char>| #![auto] texts_of_strings(out@).contains(d) <==> is_root_dir(ns.take(k as int), d),
            forall|i: int, j: int| 0 <= i < j < out@.len() ==> out@[i]@ != out@[j]@,
        decreases names@.len() - k,
    {
        let comps = components_of(names[k].as_str());
        let ghost before = out@;
        proof {
            assert(ns.take(k as int + 1).drop_last() =~= ns.take(k as int));
        }
        if comps.len() > 0 {
            let first = comps[0].clone();
            let mut seen = false;
            let mut j: usize = 0;
            while j < out.len()
                invariant
                    j <= out@.len(),
                    seen == (exists|m: int| 0 <= m < j && out@[m]@ == first@),
                decreases out@.len() - j,
            {
                if text_eq(out[j].as_str(), first.as_str()) {
                    seen = true;
                }
                j = j + 1;
            }
            if !seen {
                out.push(first);
                proof {
                    assert forall|i: int, j2: int| 0 <= i < j2 < out@.len() implies out@[i]@ != out@[j2]@ by {
                        if j2 == out@.len() - 1 {
                            assert(out@[i] == before[i]);
                        } else {
                            assert(out@[i] == before[i] && out@[j2] == before[j2]);
                        }
                    }
                }
            }
            proof {
                let f = comps@[0]@;
                assert(path_components(ns[k as int]) == comps@.map_values(|c: String| c@));
                assert(f == path_components(ns[k as int])[0]);
                assert forall|d: Seq<char>| #![auto] texts_of_strings(out@).contains(d) <==> is_root_dir(ns.take(k as int + 1), d) by {
                    let t = ns.take(k as int + 1);
                    if texts_of_strings(out@).contains(d) {
                        if d == f {
                            assert(t[k as int] == ns[k as int]);
                        } else {
                            let i = choose|i: int| 0 <= i < texts_of_strings(out@).len() && texts_of_strings(out@)[i] == d;
                            if seen {
                                assert(texts_of_strings(before).contains(d)) by {
                                    assert(texts_of_strings(before)[i] == d);
                                }
                            } else {
                                assert(i < before.len());
                                assert(texts_of_strings(before)[i] == d);
                                assert(texts_of_strings(before).contains(d));
                            }
                            let kk = choose|kk: int| 0 <= kk < k && path_components(#[trigger] ns.take(k as int)[kk]).len() > 0 && path_components(ns.take(k as int)[kk])[0] == d;
                            assert(t[kk] == ns.take(k as int)[kk]);
                        }
                    }
                    if is_root_dir(t, d) {
                        let kk = choose|kk: int| 0 <= kk < t.len() && path_components(#[trigger] t[kk]).len() > 0 && path_components(t[kk])[0] == d;
                        if kk < k {
                            assert(ns.take(k as int)[kk] == t[kk]);
                            assert(is_root_dir(ns.take(k as int), d));
                            assert(texts_of_strings(before).contains(d));
                            let i = choose|i: int| 0 <= i < texts_of_strings(before).len() && texts_of_strings(before)[i] == d;
                            assert(texts_of_strings(out@)[i] == d);
                        } else {
                            assert(t[kk] == ns[k as int]);
                            if seen {
                                let m = choose|m: int| 0 <= m < out@.len() && out@[m]@ == first@;
                                assert(texts_of_strings(out@)[m] == d);
                            } else {
                                assert(texts_of_strings(out@)[out@.len() - 1] == d);
                            }
                        }
                    }
                }
            }
        } else {
            proof {
                assert(path_components(ns[k as int]) == comps@.map_values(|c: String| c@));
                assert forall|d: Seq<char>| #![auto] is_root_dir(ns.take(k as int + 1), d) <==> is_root_dir(ns.take(k as int), d) by {
                    let t = ns.take(k as int + 1);
                    if is_root_dir(t, d) {
                        let kk = choose|kk: int| 0 <= kk < t.len() && path_components(#[trigger] t[kk]).len() > 0 && path_components(t[kk])[0] == d;
                        assert(kk != k);
                        assert(ns.take(k as int)[kk] == t[kk]);
                    }
                    if is_root_dir(ns.take(k as int), d) {
                        let kk = choose|kk: int| 0 <= kk < k && path_components(#[trigger] ns.take(k as int)[kk]).len() > 0 && path_components(ns.take(k as int)[kk])[0] == d;
                        assert(t[kk] == ns.take(k as int)[kk]);
                    }
                }
            }
        }
        k = k + 1;
    }
    proof {
        assert(ns.take(names@.len() as int) =~= ns);
    }
    out
}

/// The texts of a sequence of strings.
pub open spec fn texts_of_strings(v: Seq<String>) -> Seq<Seq<char>> {
    v.map_values(|s: String| s@)
}

} // verus!
