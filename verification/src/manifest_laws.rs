//! Reading back a manifest that was written.

use crate::catalog::{catalog_wf, AssetView};
use crate::config::{kind_name, lemma_kind_name_roundtrip};
use crate::hash::{content_hash, is_hex_digit, lemma_hex_lower, sha256};
use crate::manifest::{
    entry_line, has_entry, lemma_manifest_of_wf, manifest_fold, manifest_of, manifest_step,
    parse_entry, parse_manifest, render_entries, render_manifest, EntryView, ManifestView,
};
use crate::text::{
    ends_lines, is_whitespace, lemma_index_of_first, lemma_lines_push, lemma_trim_identity, lines,
    no_char, starts_with,
};
use vstd::prelude::*;
use vstd::utf8::encode_utf8;

verus! {

/// A version that a manifest file can hold: not empty, on one line, and
/// without whitespace at its end.
pub open spec fn version_storable(version: Seq<char>) -> bool {
    version.len() > 0 && no_char(version, '\n') && !is_whitespace(version.last())
}

/// A template name that a manifest file can hold: on one line, and without
/// a colon.
pub open spec fn name_storable(name: Seq<char>) -> bool {
    no_char(name, ':') && no_char(name, '\n')
}

/// A hash that a manifest file can hold: on one line, and without
/// whitespace at its end.
pub open spec fn hash_storable(hash: Seq<char>) -> bool {
    no_char(hash, '\n') && (hash.len() > 0 ==> !is_whitespace(hash.last()))
}

/// A manifest that a manifest file can hold.
pub open spec fn storable(m: ManifestView) -> bool {
    &&& m.wf()
    &&& version_storable(m.version)
    &&& forall|i: int|
        0 <= i < m.entries.len() ==> name_storable((#[trigger] m.entries[i]).name) && hash_storable(
            m.entries[i].hash,
        )
}

/// A hexadecimal digit is no whitespace, line feed or colon.
pub proof fn lemma_hex_digit_is_plain(c: char)
    requires
        is_hex_digit(c),
    ensures
        !is_whitespace(c),
        c != '\n',
        c != ':',
{
}

/// Every content hash can be held by a manifest file.
pub proof fn lemma_content_hash_storable(content: Seq<char>)
    ensures
        hash_storable(content_hash(content)),
{
    let h = content_hash(content);
    lemma_hex_lower(sha256(encode_utf8(content)));
    assert forall|i: int| 0 <= i < h.len() implies h[i] != '\n' by {
        lemma_hex_digit_is_plain(h[i]);
    }
    if h.len() > 0 {
        lemma_hex_digit_is_plain(h[h.len() - 1]);
    }
}

/// Reading the line that holds a version sets the version.
pub proof fn lemma_read_version_line(acc: ManifestView, version: Seq<char>)
    requires
        version_storable(version),
    ensures
        manifest_step(acc, "version="@ + version) == (ManifestView { version, ..acc }),
{
    reveal_strlit("version=");
    let line = "version="@ + version;
    assert(line[0] == 'v');
    assert(line.last() == version.last());
    lemma_trim_identity(line);
    assert(line.subrange(0, 8) =~= "version="@);
    assert(line.skip(8) =~= version);
}

/// Reading the line of an entry adds the entry, unless one for its template
/// was read before.
pub proof fn lemma_read_entry_line(acc: ManifestView, e: EntryView)
    requires
        name_storable(e.name),
        hash_storable(e.hash),
        !has_entry(acc.entries, e.kind, e.name),
    ensures
        manifest_step(acc, kind_name(e.kind) + ":"@ + e.name + ":"@ + e.hash) == (ManifestView {
            entries: acc.entries.push(e),
            ..acc
        }),
{
    reveal_strlit("version=");
    reveal_strlit("baselines");
    reveal_strlit("outcomes");
    reveal_strlit(":");
    let tag = kind_name(e.kind);
    let line = tag + ":"@ + e.name + ":"@ + e.hash;
    let t = tag.len() as int;
    assert(line[0] == tag[0]);
    assert(line[0] == 'b' || line[0] == 'o');
    if e.hash.len() > 0 {
        assert(line.last() == e.hash.last());
    } else {
        assert(line.last() == ':');
    }
    lemma_trim_identity(line);
    assert(!starts_with(line, "version="@)) by {
        if starts_with(line, "version="@) {
            assert(line.subrange(0, 8)[0] == 'v');
        }
    }
    assert forall|j: int| 0 <= j < t implies line[j] != ':' by {
        assert(line[j] == tag[j]);
    }
    assert(line[t] == ':');
    lemma_index_of_first(line, ':', t);
    let rest = line.skip(t + 1);
    assert(rest =~= e.name + ":"@ + e.hash);
    let n = e.name.len() as int;
    assert forall|j: int| 0 <= j < n implies rest[j] != ':' by {
        assert(rest[j] == e.name[j]);
    }
    assert(rest[n] == ':');
    lemma_index_of_first(rest, ':', n);
    assert(line.take(t) =~= tag);
    assert(rest.take(n) =~= e.name);
    assert(rest.skip(n + 1) =~= e.hash);
    lemma_kind_name_roundtrip(e.kind);
    assert(parse_entry(line) == Some(e));
}

/// The text of a manifest with its first `k` entries is read back as that
/// manifest.
proof fn lemma_round_trip_prefix(m: ManifestView, k: int)
    requires
        storable(m),
        0 <= k <= m.entries.len(),
    ensures
        ends_lines(render_manifest(ManifestView { entries: m.entries.take(k), ..m })),
        manifest_fold(
            lines(render_manifest(ManifestView { entries: m.entries.take(k), ..m })),
            ManifestView { version: Seq::empty(), entries: Seq::empty() },
        ) == (ManifestView { entries: m.entries.take(k), ..m }),
    decreases k,
{
    reveal_strlit("\n");
    reveal_strlit("version=");
    reveal_strlit("baselines");
    reveal_strlit("outcomes");
    reveal_strlit(":");
    let init = ManifestView { version: Seq::empty(), entries: Seq::empty() };
    let part = ManifestView { entries: m.entries.take(k), ..m };
    let text = render_manifest(part);
    if k == 0 {
        let line = "version="@ + m.version;
        assert(render_entries(part.entries) =~= Seq::<char>::empty());
        assert(text =~= Seq::<char>::empty() + line + seq!['\n']);
        assert(no_char(line, '\n'));
        assert(line.last() == m.version.last());
        lemma_lines_push(Seq::empty(), line);
        assert(lines(Seq::<char>::empty()) =~= Seq::<Seq<char>>::empty());
        let ls = lines(text);
        assert(ls =~= seq![line]);
        assert(ls.drop_last() =~= Seq::<Seq<char>>::empty());
        assert(ls.last() == line);
        lemma_read_version_line(init, m.version);
        assert(part.entries =~= init.entries);
        assert(manifest_fold(ls.drop_last(), init) == init);
        assert(manifest_fold(ls, init) == manifest_step(init, line));
        assert(manifest_fold(ls, init) == part);
    } else {
        let before = ManifestView { entries: m.entries.take(k - 1), ..m };
        lemma_round_trip_prefix(m, k - 1);
        let e = m.entries[k - 1];
        let line = kind_name(e.kind) + ":"@ + e.name + ":"@ + e.hash;
        assert(part.entries.drop_last() =~= before.entries);
        assert(part.entries.last() == e);
        assert(entry_line(e) =~= line + seq!['\n']);
        assert(text =~= render_manifest(before) + line + seq!['\n']);
        assert(no_char(line, '\n'));
        assert(line.len() > 0 ==> line.last() != '\r') by {
            if e.hash.len() > 0 {
                assert(line.last() == e.hash.last());
            } else {
                assert(line.last() == ':');
            }
        }
        lemma_lines_push(render_manifest(before), line);
        let ls = lines(text);
        assert(ls.drop_last() =~= lines(render_manifest(before)));
        assert(ls.last() == line);
        assert(!has_entry(before.entries, e.kind, e.name)) by {
            if has_entry(before.entries, e.kind, e.name) {
                let i = choose|i: int|
                    0 <= i < before.entries.len() && (#[trigger] before.entries[i]).kind == e.kind
                        && before.entries[i].name == e.name;
                assert(before.entries[i] == m.entries[i]);
            }
        }
        lemma_read_entry_line(before, e);
        assert(before.entries.push(e) =~= part.entries);
        assert(manifest_fold(ls.drop_last(), init) == before);
        assert(manifest_fold(ls, init) == manifest_step(before, line));
        assert(manifest_fold(ls, init) == part);
    }
}

/// A manifest that a file can hold is read back from its text as it was
/// written.
pub proof fn law_manifest_round_trip(m: ManifestView)
    requires
        storable(m),
    ensures
        parse_manifest(render_manifest(m)) == Some(m),
{
    lemma_round_trip_prefix(m, m.entries.len() as int);
    assert(m.entries.take(m.entries.len() as int) =~= m.entries);
}

/// The manifest of a catalog can be held by a file if the version and the
/// names of the catalog's templates can.
pub proof fn lemma_manifest_of_storable(catalog: Seq<AssetView>, version: Seq<char>)
    requires
        catalog_wf(catalog),
        version_storable(version),
        forall|i: int| 0 <= i < catalog.len() ==> name_storable((#[trigger] catalog[i]).name),
    ensures
        storable(manifest_of(catalog, version)),
{
    let m = manifest_of(catalog, version);
    lemma_manifest_of_wf(catalog, version);
    assert forall|i: int| 0 <= i < m.entries.len() implies name_storable(
        (#[trigger] m.entries[i]).name,
    ) && hash_storable(m.entries[i].hash) by {
        assert(m.entries[i].name == catalog[i].name);
        lemma_content_hash_storable(catalog[i].content);
    }
}

} // verus!
