//! The manifest: for each bundled template, the hash it had when the user's
//! templates were last brought in step with a release.
//!
//! On disk a manifest is a line-oriented text: a line `version=<value>` and
//! one line `<kind>:<name>:<hash>` per entry.  Blank lines and lines that
//! begin with `#` are ignored, and so is any line that is neither of the
//! two, so that a manifest written by a later release can still be read.

use crate::catalog::{
    catalog_view, catalog_wf, shipped_catalog, shipped_templates, AssetView, TemplateAsset, VERSION,
};
use crate::config::{kind_from_name, kind_name, TemplateKind};
use crate::hash::{content_hash, hash_content};
use crate::text::{
    chars_of, find_char, index_of, lines, next_line, range_starts_with, starts_with, substring,
    trim, trim_range,
};
use vstd::prelude::*;

verus! {

/// The hash that one bundled template had.
#[derive(Debug, Clone)]
pub struct ManifestEntry {
    pub kind: TemplateKind,
    pub name: String,
    pub hash: String,
}

/// A manifest entry as plain values.
pub struct EntryView {
    pub kind: TemplateKind,
    pub name: Seq<char>,
    pub hash: Seq<char>,
}

impl View for ManifestEntry {
    type V = EntryView;

    open spec fn view(&self) -> EntryView {
        EntryView { kind: self.kind, name: self.name@, hash: self.hash@ }
    }
}

/// The hashes of the bundled templates of one release.
#[derive(Debug, Clone)]
pub struct TemplateManifest {
    pub version: String,
    pub entries: Vec<ManifestEntry>,
}

/// A manifest as plain values.
pub struct ManifestView {
    pub version: Seq<char>,
    pub entries: Seq<EntryView>,
}

/// Entries as plain values.
pub open spec fn entries_view(entries: Seq<ManifestEntry>) -> Seq<EntryView> {
    entries.map_values(|e: ManifestEntry| e@)
}

impl View for TemplateManifest {
    type V = ManifestView;

    open spec fn view(&self) -> ManifestView {
        ManifestView { version: self.version@, entries: entries_view(self.entries@) }
    }
}

/// Some entry is about the template `name` of the given kind.
pub open spec fn has_entry(entries: Seq<EntryView>, kind: TemplateKind, name: Seq<char>) -> bool {
    exists|i: int| 0 <= i < entries.len() && (#[trigger] entries[i]).kind == kind && entries[i].name == name
}

/// No two entries are about the same template.
pub open spec fn entries_unique(entries: Seq<EntryView>) -> bool {
    forall|i: int, j: int|
        0 <= i < j < entries.len() ==> !((#[trigger] entries[i]).kind == (#[trigger] entries[j]).kind
            && entries[i].name == entries[j].name)
}

/// The hash in the first entry about the template `name` of the given kind.
pub open spec fn find_hash(entries: Seq<EntryView>, kind: TemplateKind, name: Seq<char>) -> Option<
    Seq<char>,
>
    decreases entries.len(),
{
    if entries.len() == 0 {
        None
    } else if entries[0].kind == kind && entries[0].name == name {
        Some(entries[0].hash)
    } else {
        find_hash(entries.drop_first(), kind, name)
    }
}

impl ManifestView {
    /// A manifest holds at most one entry per template.
    pub open spec fn wf(self) -> bool {
        entries_unique(self.entries)
    }

    /// The hash recorded for a template, if one is.
    pub open spec fn find(self, kind: TemplateKind, name: Seq<char>) -> Option<Seq<char>> {
        find_hash(self.entries, kind, name)
    }
}

/// A hash is found exactly for the templates that have an entry.
pub proof fn lemma_find_hash_some(entries: Seq<EntryView>, kind: TemplateKind, name: Seq<char>)
    ensures
        find_hash(entries, kind, name) is Some <==> has_entry(entries, kind, name),
    decreases entries.len(),
{
    if entries.len() > 0 {
        if entries[0].kind == kind && entries[0].name == name {
        } else {
            let rest = entries.drop_first();
            lemma_find_hash_some(rest, kind, name);
            if has_entry(rest, kind, name) {
                let i = choose|i: int|
                    0 <= i < rest.len() && (#[trigger] rest[i]).kind == kind && rest[i].name == name;
                assert(entries[i + 1] == rest[i]);
            }
            if has_entry(entries, kind, name) {
                let i = choose|i: int|
                    0 <= i < entries.len() && (#[trigger] entries[i]).kind == kind && entries[i].name
                        == name;
                assert(rest[i - 1] == entries[i]);
            }
        }
    }
}

/// In a manifest without repeated templates, each entry is the one found for
/// its template.
pub proof fn lemma_find_hash_unique(entries: Seq<EntryView>, i: int)
    requires
        entries_unique(entries),
        0 <= i < entries.len(),
    ensures
        find_hash(entries, entries[i].kind, entries[i].name) == Some(entries[i].hash),
    decreases entries.len(),
{
    if i > 0 {
        let rest = entries.drop_first();
        assert(forall|k: int| 0 <= k < rest.len() ==> rest[k] == entries[k + 1]);
        assert(!(entries[0].kind == entries[i].kind && entries[0].name == entries[i].name));
        lemma_find_hash_unique(rest, i - 1);
    }
}

/// The line of one entry, with its line ending.
pub open spec fn entry_line(e: EntryView) -> Seq<char> {
    kind_name(e.kind) + ":"@ + e.name + ":"@ + e.hash + "\n"@
}

/// The lines of the entries, in order.
pub open spec fn render_entries(entries: Seq<EntryView>) -> Seq<char>
    decreases entries.len(),
{
    if entries.len() == 0 {
        Seq::empty()
    } else {
        render_entries(entries.drop_last()) + entry_line(entries.last())
    }
}

/// The text of a manifest: the version line, then the entries in order.
pub open spec fn render_manifest(m: ManifestView) -> Seq<char> {
    "version="@ + m.version + "\n"@ + render_entries(m.entries)
}

/// The entry that a line of the form `<kind>:<name>:<hash>` describes; the
/// hash is all that follows the second colon.
pub open spec fn parse_entry(line: Seq<char>) -> Option<EntryView> {
    let i = index_of(line, ':');
    if i < 0 {
        None
    } else {
        let rest = line.skip(i + 1);
        let j = index_of(rest, ':');
        if j < 0 {
            None
        } else {
            match kind_from_name(line.take(i)) {
                None => None,
                Some(kind) => Some(EntryView { kind, name: rest.take(j), hash: rest.skip(j + 1) }),
            }
        }
    }
}

/// What one line of a manifest file adds to what was read before it.  A
/// version line replaces the version; an entry line adds its entry unless an
/// earlier one is about the same template; any other line adds nothing.
pub open spec fn manifest_step(acc: ManifestView, raw: Seq<char>) -> ManifestView {
    let line = trim(raw);
    if line.len() == 0 || line[0] == '#' {
        acc
    } else if starts_with(line, "version="@) {
        ManifestView { version: line.skip("version="@.len() as int), ..acc }
    } else {
        match parse_entry(line) {
            Some(e) => if has_entry(acc.entries, e.kind, e.name) {
                acc
            } else {
                ManifestView { entries: acc.entries.push(e), ..acc }
            },
            None => acc,
        }
    }
}

/// What the given lines, read in order, add to `init`.
pub open spec fn manifest_fold(ls: Seq<Seq<char>>, init: ManifestView) -> ManifestView
    decreases ls.len(),
{
    if ls.len() == 0 {
        init
    } else {
        manifest_step(manifest_fold(ls.drop_last(), init), ls.last())
    }
}

/// The manifest that a file's content describes; none if it names no
/// version.
pub open spec fn parse_manifest(content: Seq<char>) -> Option<ManifestView> {
    let acc = manifest_fold(
        lines(content),
        ManifestView { version: Seq::empty(), entries: Seq::empty() },
    );
    if acc.version.len() == 0 {
        None
    } else {
        Some(acc)
    }
}

/// Reading lines keeps a manifest free of repeated templates.
pub proof fn lemma_manifest_fold_wf(ls: Seq<Seq<char>>, init: ManifestView)
    requires
        init.wf(),
    ensures
        manifest_fold(ls, init).wf(),
    decreases ls.len(),
{
    if ls.len() > 0 {
        lemma_manifest_fold_wf(ls.drop_last(), init);
    }
}

/// The entry that records the current hash of a bundled template.
pub open spec fn entry_of(asset: AssetView) -> EntryView {
    EntryView { kind: asset.kind, name: asset.name, hash: content_hash(asset.content) }
}

/// The manifest of a catalog: one entry per asset, in the catalog's order,
/// each with the hash of the asset's content.
pub open spec fn manifest_of(catalog: Seq<AssetView>, version: Seq<char>) -> ManifestView {
    ManifestView { version, entries: catalog.map_values(|a: AssetView| entry_of(a)) }
}

/// The manifest of a catalog that names no asset twice holds no template
/// twice.
pub proof fn lemma_manifest_of_wf(catalog: Seq<AssetView>, version: Seq<char>)
    requires
        catalog_wf(catalog),
    ensures
        manifest_of(catalog, version).wf(),
{
    let m = manifest_of(catalog, version);
    assert forall|i: int, j: int| 0 <= i < j < m.entries.len() implies !((#[trigger] m.entries[i]).kind
        == (#[trigger] m.entries[j]).kind && m.entries[i].name == m.entries[j].name) by {
        assert(m.entries[i].kind == catalog[i].kind);
        assert(m.entries[j].kind == catalog[j].kind);
    }
}

/// The hash that the manifest of a catalog records for one of its assets is
/// the hash of that asset's content.
pub proof fn lemma_manifest_of_find(catalog: Seq<AssetView>, version: Seq<char>, i: int)
    requires
        catalog_wf(catalog),
        0 <= i < catalog.len(),
    ensures
        manifest_of(catalog, version).find(catalog[i].kind, catalog[i].name) == Some(
            content_hash(catalog[i].content),
        ),
{
    lemma_manifest_of_wf(catalog, version);
    lemma_find_hash_unique(manifest_of(catalog, version).entries, i);
}

impl TemplateManifest {
    /// The hash recorded for the template `name` of the given kind.
    pub fn find_hash(&self, kind: TemplateKind, name: &str) -> (r: Option<&str>)
        ensures
            (match r {
                Some(h) => Some(h@),
                None => None,
            }) == self@.find(kind, name@),
    {
        let wanted = name.to_owned();
        let mut i: usize = 0;
        assert(self@.entries.skip(0) =~= self@.entries);
        while i < self.entries.len()
            invariant
                i <= self.entries.len(),
                wanted@ == name@,
                self@.find(kind, name@) == find_hash(self@.entries.skip(i as int), kind, name@),
            decreases self.entries.len() - i,
        {
            let ghost rest = self@.entries.skip(i as int);
            assert(rest[0] == self.entries[i as int]@);
            assert(rest.drop_first() =~= self@.entries.skip(i + 1));
            if self.entries[i].kind == kind && self.entries[i].name == wanted {
                return Some(self.entries[i].hash.as_str());
            }
            i += 1;
        }
        None
    }

    /// Whether an entry is about the template `name` of the given kind.
    pub fn contains(&self, kind: TemplateKind, name: &str) -> (r: bool)
        ensures
            r == has_entry(self@.entries, kind, name@),
    {
        proof {
            lemma_find_hash_some(self@.entries, kind, name@);
        }
        self.find_hash(kind, name).is_some()
    }

    /// The text of this manifest, as it is written to disk.
    pub fn render(&self) -> (text: String)
        ensures
            text@ == render_manifest(self@),
    {
        let mut text = "version=".to_owned();
        text.append(self.version.as_str());
        text.append("\n");
        let ghost head = text@;
        let mut i: usize = 0;
        while i < self.entries.len()
            invariant
                i <= self.entries.len(),
                text@ == head + render_entries(self@.entries.take(i as int)),
            decreases self.entries.len() - i,
        {
            let e = &self.entries[i];
            text.append(e.kind.as_str());
            text.append(":");
            text.append(e.name.as_str());
            text.append(":");
            text.append(e.hash.as_str());
            text.append("\n");
            proof {
                let next = self@.entries.take(i + 1);
                assert(next.drop_last() =~= self@.entries.take(i as int));
                assert(next.last() == e@);
                assert(text@ =~= head + render_entries(next));
            }
            i += 1;
        }
        assert(self@.entries.take(self.entries.len() as int) =~= self@.entries);
        text
    }

    /// Applies the line `lo..hi` of a manifest file.
    fn apply_line(&mut self, src: &str, chars: &Vec<char>, lo: usize, hi: usize)
        requires
            chars@ == src@,
            lo <= hi <= chars.len(),
        ensures
            final(self)@ == manifest_step(old(self)@, chars@.subrange(lo as int, hi as int)),
    {
        proof {
            reveal_strlit("version=");
        }
        let (a, b) = trim_range(chars, lo, hi);
        let ghost line = chars@.subrange(a as int, b as int);
        if a == b {
            return ;
        }
        assert(line[0] == chars@[a as int]);
        if chars[a] == '#' {
            return ;
        }
        if range_starts_with(chars, a, b, "version=") {
            assert(line.skip(8) =~= chars@.subrange(a + 8, b as int));
            self.version = substring(src, a + 8, b);
            return ;
        }
        let first = match find_char(chars, a, b, ':') {
            Some(i) => i,
            None => {
                return ;
            },
        };
        let ghost rest = line.skip(first - a + 1);
        assert(rest =~= chars@.subrange(first + 1, b as int));
        let second = match find_char(chars, first + 1, b, ':') {
            Some(j) => j,
            None => {
                return ;
            },
        };
        proof {
            assert(line.take(first - a) =~= chars@.subrange(a as int, first as int));
            assert(rest.take(second - first - 1) =~= chars@.subrange(first + 1, second as int));
            assert(rest.skip(second - first) =~= chars@.subrange(second + 1, b as int));
        }
        let kind_text = substring(src, a, first);
        let kind = match TemplateKind::from_str(kind_text.as_str()) {
            Some(kind) => kind,
            None => {
                return ;
            },
        };
        let name = substring(src, first + 1, second);
        if self.contains(kind, name.as_str()) {
            return ;
        }
        let hash = substring(src, second + 1, b);
        let ghost before = self@.entries;
        self.entries.push(ManifestEntry { kind, name, hash });
        assert(self@.entries =~= before.push(parse_entry(line)->0));
    }

    /// Reads a manifest file's content.  The result is `None` exactly when no
    /// line names a version; otherwise it holds the last version named and,
    /// in order, the first entry of each template.
    pub fn parse(content: &str) -> (r: Option<TemplateManifest>)
        ensures
            (match r {
                Some(m) => Some(m@),
                None => None,
            }) == parse_manifest(content@),
            r matches Some(m) ==> m@.wf(),
    {
        let chars = chars_of(content);
        let n = chars.len();
        let mut manifest = TemplateManifest { version: String::new(), entries: Vec::new() };
        let ghost init = ManifestView { version: Seq::empty(), entries: Seq::empty() };
        let mut pos: usize = 0;
        let ghost mut done: Seq<Seq<char>> = Seq::empty();
        proof {
            assert(content@.skip(0) =~= content@);
            assert(done + lines(content@) =~= lines(content@));
            assert(manifest@.entries =~= init.entries);
        }
        while pos < n
            invariant
                chars@ == content@,
                n == chars.len(),
                pos <= n,
                init == (ManifestView { version: Seq::empty(), entries: Seq::empty() }),
                lines(content@) == done + lines(content@.skip(pos as int)),
                manifest@ == manifest_fold(done, init),
            decreases n - pos,
        {
            let (lo, hi, next) = next_line(&chars, pos);
            proof {
                let line = chars@.subrange(lo as int, hi as int);
                let before = done;
                done = done.push(line);
                assert(done.drop_last() =~= before);
                assert(lines(content@) =~= done + lines(content@.skip(next as int)));
            }
            manifest.apply_line(content, &chars, lo, hi);
            pos = next;
        }
        proof {
            assert(content@.skip(n as int) =~= Seq::<char>::empty());
            assert(lines(content@) =~= done);
            lemma_manifest_fold_wf(done, init);
        }
        if manifest.version.as_str().is_empty() {
            None
        } else {
            Some(manifest)
        }
    }

    /// The manifest of a catalog under the given version.
    pub fn for_catalog(catalog: &Vec<TemplateAsset>, version: &str) -> (m: TemplateManifest)
        ensures
            m@ == manifest_of(catalog_view(catalog@), version@),
            catalog_wf(catalog_view(catalog@)) ==> m@.wf(),
    {
        let mut entries: Vec<ManifestEntry> = Vec::new();
        let mut i: usize = 0;
        while i < catalog.len()
            invariant
                i <= catalog.len(),
                entries_view(entries@) == manifest_of(
                    catalog_view(catalog@).take(i as int),
                    version@,
                ).entries,
            decreases catalog.len() - i,
        {
            let asset = &catalog[i];
            let ghost before = entries_view(entries@);
            entries.push(
                ManifestEntry {
                    kind: asset.kind,
                    name: asset.name.clone(),
                    hash: hash_content(asset.content.as_str()),
                },
            );
            proof {
                assert(entries_view(entries@) =~= before.push(entry_of(asset@)));
                assert(catalog_view(catalog@).take(i + 1) =~= catalog_view(catalog@).take(
                    i as int,
                ).push(asset@));
                assert(entries_view(entries@) =~= manifest_of(
                    catalog_view(catalog@).take(i + 1),
                    version@,
                ).entries);
            }
            i += 1;
        }
        proof {
            assert(catalog_view(catalog@).take(catalog.len() as int) =~= catalog_view(catalog@));
            if catalog_wf(catalog_view(catalog@)) {
                lemma_manifest_of_wf(catalog_view(catalog@), version@);
            }
        }
        TemplateManifest { version: version.to_owned(), entries }
    }
}

/// The manifest of the templates bundled with this release.
pub fn shipped_manifest() -> (m: TemplateManifest)
    ensures
        m@ == manifest_of(shipped_catalog(), VERSION@),
        m@.wf(),
{
    let catalog = shipped_templates();
    TemplateManifest::for_catalog(&catalog, VERSION)
}

} // verus!
