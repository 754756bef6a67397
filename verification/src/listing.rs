//! Directory listings, and the templates found in them.
//!
//! A listing is what reading a directory gave: for each entry its name, its
//! path, and whether it is a directory.  A template is a file, not a
//! directory, whose name ends in `.toml` after at least one other character;
//! its name as a template is the file name without that ending.

use crate::config::{join_path, path_in};
use crate::text::{chars_of, ends_with, str_eq, substring, texts_view};
use vstd::prelude::*;
use vstd::seq_lib::{to_multiset_build, to_multiset_insert};

verus! {

/// An entry of a directory.
#[derive(Debug, Clone)]
pub struct DirEntry {
    pub name: String,
    pub path: String,
    pub is_dir: bool,
}

/// A directory entry as plain values.
pub struct DirEntryView {
    pub name: Seq<char>,
    pub path: Seq<char>,
    pub is_dir: bool,
}

impl View for DirEntry {
    type V = DirEntryView;

    open spec fn view(&self) -> DirEntryView {
        DirEntryView { name: self.name@, path: self.path@, is_dir: self.is_dir }
    }
}

/// A listing as plain values.
pub open spec fn listing_view(entries: Seq<DirEntry>) -> Seq<DirEntryView> {
    entries.map_values(|e: DirEntry| e@)
}

/// The file name has the extension `toml`: it ends in `.toml`, and that
/// ending is not the whole name.
pub open spec fn is_template_file_name(name: Seq<char>) -> bool {
    name.len() > 5 && ends_with(name, ".toml"@)
}

/// The entry is a template file that lies directly in the directory `dir`.
pub open spec fn is_template_entry(e: DirEntryView, dir: Seq<char>) -> bool {
    !e.is_dir && is_template_file_name(e.name) && e.path == path_in(dir, e.name)
}

/// The listing holds a template file that lies directly in `dir`.
pub open spec fn has_templates(entries: Seq<DirEntryView>, dir: Seq<char>) -> bool {
    exists|i: int| 0 <= i < entries.len() && is_template_entry(#[trigger] entries[i], dir)
}

/// The name of the template in a template file.
pub open spec fn template_name(file_name: Seq<char>) -> Seq<char> {
    file_name.take(file_name.len() - 5)
}

/// The names of the templates that lie directly in `dir`, in the listing's
/// order.
pub open spec fn template_names(entries: Seq<DirEntryView>, dir: Seq<char>) -> Seq<Seq<char>>
    decreases entries.len(),
{
    if entries.len() == 0 {
        Seq::empty()
    } else {
        let before = template_names(entries.drop_last(), dir);
        if is_template_entry(entries.last(), dir) {
            before.push(template_name(entries.last().name))
        } else {
            before
        }
    }
}

/// The order of strings: `a` comes no later than `b` when it is a prefix of
/// `b`, or has the smaller character at the first place where they differ.
pub open spec fn lex_le(a: Seq<char>, b: Seq<char>) -> bool
    decreases a.len(),
{
    if a.len() == 0 {
        true
    } else if b.len() == 0 {
        false
    } else if a[0] != b[0] {
        (a[0] as int) < (b[0] as int)
    } else {
        lex_le(a.drop_first(), b.drop_first())
    }
}

/// The strings are in order.
pub open spec fn is_sorted(names: Seq<Seq<char>>) -> bool {
    forall|i: int, j: int| 0 <= i < j < names.len() ==> lex_le(#[trigger] names[i], #[trigger] names[j])
}

/// Of two strings one comes no later than the other.
pub proof fn lemma_lex_le_total(a: Seq<char>, b: Seq<char>)
    ensures
        lex_le(a, b) || lex_le(b, a),
    decreases a.len(),
{
    if a.len() > 0 && b.len() > 0 {
        if a[0] == b[0] {
            lemma_lex_le_total(a.drop_first(), b.drop_first());
        }
    }
}

/// The order of strings is transitive.
pub proof fn lemma_lex_le_transitive(a: Seq<char>, b: Seq<char>, c: Seq<char>)
    requires
        lex_le(a, b),
        lex_le(b, c),
    ensures
        lex_le(a, c),
    decreases a.len(),
{
    if a.len() > 0 && b.len() > 0 && c.len() > 0 && a[0] == b[0] && b[0] == c[0] {
        lemma_lex_le_transitive(a.drop_first(), b.drop_first(), c.drop_first());
    }
}

/// Whether `a` comes no later than `b`.
pub fn str_le(a: &str, b: &str) -> (r: bool)
    ensures
        r == lex_le(a@, b@),
{
    let x = chars_of(a);
    let y = chars_of(b);
    let mut i: usize = 0;
    proof {
        assert(x@.skip(0) =~= x@);
        assert(y@.skip(0) =~= y@);
    }
    while i < x.len() && i < y.len() && x[i] == y[i]
        invariant
            i <= x.len(),
            i <= y.len(),
            lex_le(x@, y@) == lex_le(x@.skip(i as int), y@.skip(i as int)),
        decreases x.len() - i,
    {
        proof {
            assert(x@.skip(i as int).drop_first() =~= x@.skip(i + 1));
            assert(y@.skip(i as int).drop_first() =~= y@.skip(i + 1));
        }
        i += 1;
    }
    if i == x.len() {
        true
    } else if i == y.len() {
        false
    } else {
        let cx: char = x[i];
        let cy: char = y[i];
        cx < cy
    }
}

/// Whether the file name has the extension `toml`.
pub fn has_toml_extension(name: &str) -> (r: bool)
    ensures
        r == is_template_file_name(name@),
{
    proof {
        reveal_strlit(".toml");
    }
    let chars = chars_of(name);
    let n = chars.len();
    if n <= 5 {
        return false;
    }
    let r = chars[n - 5] == '.' && chars[n - 4] == 't' && chars[n - 3] == 'o' && chars[n - 2] == 'm'
        && chars[n - 1] == 'l';
    proof {
        let tail = name@.subrange(n - 5, n as int);
        if r {
            assert(tail =~= ".toml"@);
        } else {
            assert(tail[0] == name@[n - 5]);
            assert(tail[1] == name@[n - 4]);
            assert(tail[2] == name@[n - 3]);
            assert(tail[3] == name@[n - 2]);
            assert(tail[4] == name@[n - 1]);
        }
    }
    r
}

/// Whether the entry is a template file that lies directly in `dir`.
pub fn is_template_in(entry: &DirEntry, dir: &str) -> (r: bool)
    ensures
        r == is_template_entry(entry@, dir@),
{
    if entry.is_dir || !has_toml_extension(entry.name.as_str()) {
        return false;
    }
    let expected = join_path(dir, entry.name.as_str());
    str_eq(entry.path.as_str(), expected.as_str())
}

/// Whether the directory `dir` holds a template file; directories in it do
/// not count.
pub fn has_user_templates(entries: &Vec<DirEntry>, dir: &str) -> (r: bool)
    ensures
        r == has_templates(listing_view(entries@), dir@),
{
    let mut i: usize = 0;
    while i < entries.len()
        invariant
            i <= entries.len(),
            forall|j: int|
                0 <= j < i ==> !is_template_entry(#[trigger] listing_view(entries@)[j], dir@),
        decreases entries.len() - i,
    {
        if is_template_in(&entries[i], dir) {
            assert(is_template_entry(listing_view(entries@)[i as int], dir@));
            return true;
        }
        i += 1;
    }
    false
}

/// Puts `name` into a sorted list, after the names that come no later.
pub fn insert_sorted(names: &mut Vec<String>, name: String)
    requires
        is_sorted(texts_view(old(names)@)),
    ensures
        is_sorted(texts_view(final(names)@)),
        texts_view(final(names)@).to_multiset() == texts_view(old(names)@).to_multiset().insert(
            name@,
        ),
{
    let ghost before = texts_view(names@);
    let mut pos: usize = 0;
    while pos < names.len() && str_le(names[pos].as_str(), name.as_str())
        invariant
            pos <= names.len(),
            before == texts_view(names@),
            forall|k: int| 0 <= k < pos ==> lex_le(#[trigger] before[k], name@),
        decreases names.len() - pos,
    {
        pos += 1;
    }
    names.insert(pos, name);
    proof {
        let after = texts_view(names@);
        assert(after =~= before.insert(pos as int, name@));
        to_multiset_insert(before, pos as int, name@);
        assert forall|i: int, j: int| 0 <= i < j < after.len() implies lex_le(
            #[trigger] after[i],
            #[trigger] after[j],
        ) by {
            if j == pos {
            } else if i == pos {
                lemma_lex_le_total(before[pos as int], name@);
                if j - 1 > pos {
                    lemma_lex_le_transitive(name@, before[pos as int], before[j - 1]);
                }
            } else if i < pos && pos < j {
                assert(after[i] == before[i]);
                assert(after[j] == before[j - 1]);
            } else if j < pos {
                assert(after[i] == before[i]);
                assert(after[j] == before[j]);
            } else {
                assert(after[i] == before[i - 1]);
                assert(after[j] == before[j - 1]);
            }
        }
    }
}

/// The names of the templates that lie directly in `dir`, sorted.
pub fn list_templates(entries: &Vec<DirEntry>, dir: &str) -> (names: Vec<String>)
    ensures
        is_sorted(texts_view(names@)),
        texts_view(names@).to_multiset() == template_names(listing_view(entries@), dir@).to_multiset(),
{
    let ghost all = listing_view(entries@);
    let mut names: Vec<String> = Vec::new();
    let mut i: usize = 0;
    proof {
        assert(texts_view(names@) =~= template_names(all.take(0), dir@));
    }
    while i < entries.len()
        invariant
            i <= entries.len(),
            all == listing_view(entries@),
            is_sorted(texts_view(names@)),
            texts_view(names@).to_multiset() == template_names(all.take(i as int), dir@).to_multiset(),
        decreases entries.len() - i,
    {
        let entry = &entries[i];
        proof {
            let next = all.take(i + 1);
            assert(next.drop_last() =~= all.take(i as int));
            assert(next.last() == entry@);
        }
        if is_template_in(entry, dir) {
            let n = entry.name.as_str().unicode_len();
            let stem = substring(entry.name.as_str(), 0, n - 5);
            proof {
                assert(stem@ =~= template_name(entry@.name));
                to_multiset_build(template_names(all.take(i as int), dir@), stem@);
            }
            insert_sorted(&mut names, stem);
        }
        i += 1;
    }
    proof {
        assert(all.take(entries.len() as int) =~= all);
    }
    names
}

/// A string comes no later than itself.
pub proof fn lemma_lex_le_reflexive(a: Seq<char>)
    ensures
        lex_le(a, a),
    decreases a.len(),
{
    if a.len() > 0 {
        lemma_lex_le_reflexive(a.drop_first());
    }
}

/// Two strings each of which comes no later than the other are the same.
pub proof fn lemma_lex_le_antisymmetric(a: Seq<char>, b: Seq<char>)
    requires
        lex_le(a, b),
        lex_le(b, a),
    ensures
        a == b,
    decreases a.len(),
{
    if a.len() > 0 && b.len() > 0 {
        lemma_lex_le_antisymmetric(a.drop_first(), b.drop_first());
        assert(a =~= seq![a[0]] + a.drop_first());
        assert(b =~= seq![b[0]] + b.drop_first());
    } else {
        assert(a =~= b);
    }
}

/// The strings are in order, and no two of them are the same.
pub open spec fn is_strictly_sorted(names: Seq<Seq<char>>) -> bool {
    forall|i: int, j: int|
        0 <= i < j < names.len() ==> lex_le(#[trigger] names[i], #[trigger] names[j]) && names[i]
            != names[j]
}

/// Puts `name` into a sorted list without repetitions, unless the list
/// holds it.
pub fn insert_unique(names: &mut Vec<String>, name: String)
    requires
        is_strictly_sorted(texts_view(old(names)@)),
    ensures
        is_strictly_sorted(texts_view(final(names)@)),
        forall|x: Seq<char>|
            texts_view(final(names)@).contains(x) <==> (texts_view(old(names)@).contains(x) || x
                == name@),
{
    let ghost before = texts_view(names@);
    let ghost n = name@;
    let mut pos: usize = 0;
    while pos < names.len() && str_le(names[pos].as_str(), name.as_str())
        invariant
            pos <= names.len(),
            before == texts_view(names@),
            n == name@,
            forall|k: int| 0 <= k < pos ==> lex_le(#[trigger] before[k], n),
        decreases names.len() - pos,
    {
        pos += 1;
    }
    if pos > 0 && crate::text::str_eq(names[pos - 1].as_str(), name.as_str()) {
        proof {
            assert(before[pos - 1] == n);
            assert(before.contains(n));
        }
        return ;
    }
    names.insert(pos, name);
    proof {
        let after = texts_view(names@);
        assert(after =~= before.insert(pos as int, n));
        lemma_lex_le_reflexive(n);
        assert forall|i: int| 0 <= i < before.len() implies before[i] != n by {
            if i < pos {
                if before[i] == n {
                    if i < pos - 1 {
                        assert(lex_le(before[i], before[pos - 1]));
                        lemma_lex_le_antisymmetric(before[pos - 1], n);
                    }
                }
            } else {
                if before[i] == n {
                    if i > pos {
                        assert(lex_le(before[pos as int], before[i]));
                    }
                }
            }
        }
        assert forall|i: int, j: int| 0 <= i < j < after.len() implies lex_le(
            #[trigger] after[i],
            #[trigger] after[j],
        ) && after[i] != after[j] by {
            if j == pos {
                assert(after[i] == before[i]);
            } else if i == pos {
                assert(after[j] == before[j - 1]);
                lemma_lex_le_total(before[pos as int], n);
                if j - 1 > pos {
                    lemma_lex_le_transitive(n, before[pos as int], before[j - 1]);
                }
            } else if i < pos && pos < j {
                assert(after[i] == before[i]);
                assert(after[j] == before[j - 1]);
            } else if j < pos {
                assert(after[i] == before[i]);
                assert(after[j] == before[j]);
            } else {
                assert(after[i] == before[i - 1]);
                assert(after[j] == before[j - 1]);
            }
        }
        assert forall|x: Seq<char>| after.contains(x) <==> (before.contains(x) || x == n) by {
            if after.contains(x) {
                let k = choose|k: int| 0 <= k < after.len() && after[k] == x;
                if k < pos {
                    assert(before[k] == x);
                } else if k > pos {
                    assert(before[k - 1] == x);
                }
            }
            if before.contains(x) {
                let k = choose|k: int| 0 <= k < before.len() && before[k] == x;
                if k < pos {
                    assert(after[k] == x);
                } else {
                    assert(after[k + 1] == x);
                }
            }
            if x == n {
                assert(after[pos as int] == x);
            }
        }
    }
}

/// The names of two lists in one: sorted, each name once.
pub fn merge_names(first: &Vec<String>, second: &Vec<String>) -> (all: Vec<String>)
    ensures
        is_strictly_sorted(texts_view(all@)),
        forall|x: Seq<char>|
            texts_view(all@).contains(x) <==> (texts_view(first@).contains(x) || texts_view(
                second@,
            ).contains(x)),
{
    let mut all: Vec<String> = Vec::new();
    let ghost a = texts_view(first@);
    let ghost b = texts_view(second@);
    let mut i: usize = 0;
    while i < first.len()
        invariant
            i <= first.len(),
            a == texts_view(first@),
            is_strictly_sorted(texts_view(all@)),
            forall|x: Seq<char>| texts_view(all@).contains(x) <==> a.take(i as int).contains(x),
        decreases first.len() - i,
    {
        let ghost before = texts_view(all@);
        insert_unique(&mut all, first[i].clone());
        proof {
            let now = texts_view(all@);
            let next = a.take(i + 1);
            assert(next =~= a.take(i as int).push(a[i as int]));
            assert forall|x: Seq<char>| now.contains(x) <==> next.contains(x) by {
                if next.contains(x) {
                    let k = choose|k: int| 0 <= k < next.len() && next[k] == x;
                    if k < i {
                        assert(a.take(i as int)[k] == x);
                    }
                }
                if a.take(i as int).contains(x) {
                    let k = choose|k: int| 0 <= k < i && a.take(i as int)[k] == x;
                    assert(next[k] == x);
                }
                if x == a[i as int] {
                    assert(next[i as int] == x);
                }
            }
        }
        i += 1;
    }
    proof {
        assert(a.take(first.len() as int) =~= a);
    }
    let mut j: usize = 0;
    while j < second.len()
        invariant
            j <= second.len(),
            a == texts_view(first@),
            b == texts_view(second@),
            is_strictly_sorted(texts_view(all@)),
            forall|x: Seq<char>|
                texts_view(all@).contains(x) <==> (a.contains(x) || b.take(j as int).contains(x)),
        decreases second.len() - j,
    {
        let ghost before = texts_view(all@);
        insert_unique(&mut all, second[j].clone());
        proof {
            let now = texts_view(all@);
            let next = b.take(j + 1);
            assert(next =~= b.take(j as int).push(b[j as int]));
            assert forall|x: Seq<char>| now.contains(x) <==> (a.contains(x) || next.contains(
                x,
            )) by {
                assert(before.contains(x) <==> (a.contains(x) || b.take(j as int).contains(x)));
                assert(now.contains(x) <==> (before.contains(x) || x == b[j as int]));
                if next.contains(x) {
                    let k = choose|k: int| 0 <= k < next.len() && next[k] == x;
                    if k < j {
                        assert(b.take(j as int)[k] == x);
                    }
                }
                if b.take(j as int).contains(x) {
                    let k = choose|k: int| 0 <= k < j && b.take(j as int)[k] == x;
                    assert(next[k] == x);
                }
                if x == b[j as int] {
                    assert(next[j as int] == x);
                }
            }
        }
        j += 1;
    }
    proof {
        assert(b.take(second.len() as int) =~= b);
        assert forall|x: Seq<char>| texts_view(all@).contains(x) <==> (a.contains(x) || b.contains(
            x,
        )) by {
            assert(texts_view(all@).contains(x) <==> (a.contains(x) || b.take(
                second.len() as int,
            ).contains(x)));
        }
    }
    all
}

} // verus!
