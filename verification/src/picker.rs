//! The state of a directory picker: the entries of a directory, the
//! selected one, the window of rows that is shown, and what each key does.

use crate::listing::{
    lemma_lex_le_total, lemma_lex_le_transitive, lex_le, listing_view, str_le, DirEntry,
    DirEntryView,
};
use crate::sync::opt_str_view;
use crate::text::{alphanumeric, chars_of, find, find_range, lowercase, to_lowercase};
use vstd::prelude::*;

verus! {

/// How a directory picker ended.
#[derive(Debug, Clone)]
pub enum PickerResult {
    Selected(String),
    Cancelled,
}

/// A directory picker.
#[derive(Debug, Clone)]
pub struct DirectoryPicker {
    pub prompt: String,
    pub current_dir: String,
    pub entries: Vec<DirEntry>,
    pub selected: usize,
    pub scroll_offset: usize,
    pub visible_rows: usize,
    pub filter: String,
}

/// The position of a picker as plain values.
pub struct PickerView {
    pub len: nat,
    pub selected: nat,
    pub scroll_offset: nat,
    pub visible_rows: nat,
}

impl View for DirectoryPicker {
    type V = PickerView;

    open spec fn view(&self) -> PickerView {
        PickerView {
            len: self.entries@.len(),
            selected: self.selected as nat,
            scroll_offset: self.scroll_offset as nat,
            visible_rows: self.visible_rows as nat,
        }
    }
}

impl PickerView {
    /// The selection is an entry (or the first row of an empty list), and
    /// lies in the window of rows that is shown.
    pub open spec fn wf(self) -> bool {
        &&& self.visible_rows > 0
        &&& self.selected < self.len || self.selected == 0
        &&& self.scroll_offset <= self.selected < self.scroll_offset + self.visible_rows
    }

    /// The window moved as little as brings the selection into it.
    pub open spec fn scrolled(self) -> PickerView {
        if self.selected < self.scroll_offset {
            PickerView { scroll_offset: self.selected, ..self }
        } else if self.selected >= self.scroll_offset + self.visible_rows {
            PickerView { scroll_offset: (self.selected - self.visible_rows + 1) as nat, ..self }
        } else {
            self
        }
    }

    /// The selection one row up, unless it is the first.
    pub open spec fn up(self) -> PickerView {
        if self.selected > 0 {
            (PickerView { selected: (self.selected - 1) as nat, ..self }).scrolled()
        } else {
            self
        }
    }

    /// The selection one row down, unless it is the last.
    pub open spec fn down(self) -> PickerView {
        if self.selected + 1 < self.len {
            (PickerView { selected: self.selected + 1, ..self }).scrolled()
        } else {
            self
        }
    }

    /// The selection `n` rows up, or at the first row.
    pub open spec fn up_by(self, n: nat) -> PickerView
        decreases n,
    {
        if n == 0 {
            self
        } else {
            self.up().up_by((n - 1) as nat)
        }
    }

    /// The selection `n` rows down, or at the last row.
    pub open spec fn down_by(self, n: nat) -> PickerView
        decreases n,
    {
        if n == 0 {
            self
        } else {
            self.down().down_by((n - 1) as nat)
        }
    }

    /// The first row selected, the window at the top.
    pub open spec fn at_first(self) -> PickerView {
        PickerView { selected: 0, scroll_offset: 0, ..self }
    }

    /// The last row selected.
    pub open spec fn at_last(self) -> PickerView {
        if self.len > 0 {
            (PickerView { selected: (self.len - 1) as nat, ..self }).scrolled()
        } else {
            self
        }
    }
}

/// Moving the selection keeps it on an entry and in the window.
pub proof fn law_moves_keep_wf(p: PickerView)
    requires
        p.wf(),
    ensures
        p.up().wf(),
        p.down().wf(),
        p.at_last().wf(),
        p.at_first().wf(),
{
}

/// An entry is shown under a filter: a name that begins with a dot only
/// under a filter that does, and under any filter but the empty one only a
/// name that holds the filter, case set aside.
pub open spec fn is_shown(e: DirEntryView, filter: Seq<char>) -> bool {
    &&& !(e.name.len() > 0 && e.name[0] == '.') || (filter.len() > 0 && filter[0] == '.')
    &&& filter.len() == 0 || find(lowercase(e.name), lowercase(filter)) >= 0
}

/// `a` is listed no later than `b`: by name, case set aside.
pub open spec fn name_le(a: DirEntryView, b: DirEntryView) -> bool {
    lex_le(lowercase(a.name), lowercase(b.name))
}

/// A sorted list with one more entry, put after the entries that are
/// listed no later.
pub open spec fn insert_by_name(sorted: Seq<DirEntryView>, e: DirEntryView) -> Seq<DirEntryView>
    decreases sorted.len(),
{
    if sorted.len() > 0 && name_le(sorted[0], e) {
        seq![sorted[0]] + insert_by_name(sorted.drop_first(), e)
    } else {
        seq![e] + sorted
    }
}

/// The entries of a listing that are shown and are directories, or are
/// files, sorted by name; entries of equal name keep their order.
pub open spec fn shown_sorted(listing: Seq<DirEntryView>, filter: Seq<char>, dirs: bool) -> Seq<
    DirEntryView,
>
    decreases listing.len(),
{
    if listing.len() == 0 {
        Seq::empty()
    } else {
        let before = shown_sorted(listing.drop_last(), filter, dirs);
        let e = listing.last();
        if e.is_dir == dirs && is_shown(e, filter) {
            insert_by_name(before, e)
        } else {
            before
        }
    }
}

/// The entry that leads to the parent directory.
pub open spec fn parent_entry(parent: Seq<char>) -> DirEntryView {
    DirEntryView { name: ".."@, path: parent, is_dir: true }
}

/// The entries that a picker lists: the way up if there is one, then the
/// directories, then the files.
pub open spec fn picker_entries(
    parent: Option<Seq<char>>,
    listing: Seq<DirEntryView>,
    filter: Seq<char>,
) -> Seq<DirEntryView> {
    (match parent {
        Some(p) => seq![parent_entry(p)],
        None => Seq::empty(),
    }) + shown_sorted(listing, filter, true) + shown_sorted(listing, filter, false)
}

/// The entries are in the order of their names.
pub open spec fn sorted_by_name(es: Seq<DirEntryView>) -> bool {
    forall|i: int, j: int| 0 <= i < j < es.len() ==> name_le(#[trigger] es[i], #[trigger] es[j])
}

/// Putting an entry into a sorted list leaves it sorted, with the entry
/// added and nothing else changed.
pub proof fn lemma_insert_by_name(sorted: Seq<DirEntryView>, e: DirEntryView)
    requires
        sorted_by_name(sorted),
    ensures
        sorted_by_name(insert_by_name(sorted, e)),
        insert_by_name(sorted, e).to_multiset() == sorted.to_multiset().insert(e),
        insert_by_name(sorted, e).len() == sorted.len() + 1,
    decreases sorted.len(),
{
    broadcast use vstd::seq_lib::group_to_multiset_ensures;

    let r = insert_by_name(sorted, e);
    if sorted.len() > 0 && name_le(sorted[0], e) {
        let rest = sorted.drop_first();
        assert(sorted_by_name(rest)) by {
            assert forall|i: int, j: int| 0 <= i < j < rest.len() implies name_le(
                #[trigger] rest[i],
                #[trigger] rest[j],
            ) by {
                assert(rest[i] == sorted[i + 1]);
                assert(rest[j] == sorted[j + 1]);
            }
        }
        lemma_insert_by_name(rest, e);
        let inner = insert_by_name(rest, e);
        assert(r =~= inner.insert(0, sorted[0]));
        vstd::seq_lib::to_multiset_insert(inner, 0, sorted[0]);
        assert(sorted =~= rest.insert(0, sorted[0]));
        vstd::seq_lib::to_multiset_insert(rest, 0, sorted[0]);
        assert(r.to_multiset() =~= sorted.to_multiset().insert(e));
        assert forall|i: int, j: int| 0 <= i < j < r.len() implies name_le(
            #[trigger] r[i],
            #[trigger] r[j],
        ) by {
            if i == 0 {
                // every entry of `inner` is `e` or an entry of `rest`
                assert(inner.to_multiset().count(r[j]) > 0) by {
                    assert(inner[j - 1] == r[j]);
                    assert(inner.contains(r[j]));
                }
                if r[j] != e {
                    assert(rest.to_multiset().count(r[j]) > 0);
                    assert(rest.contains(r[j]));
                    let k = choose|k: int| 0 <= k < rest.len() && rest[k] == r[j];
                    assert(sorted[k + 1] == r[j]);
                }
            } else {
                assert(r[i] == inner[i - 1]);
                assert(r[j] == inner[j - 1]);
            }
        }
    } else {
        assert(r =~= sorted.insert(0, e));
        vstd::seq_lib::to_multiset_insert(sorted, 0, e);
        assert forall|i: int, j: int| 0 <= i < j < r.len() implies name_le(
            #[trigger] r[i],
            #[trigger] r[j],
        ) by {
            if i == 0 {
                if sorted.len() > 0 {
                    lemma_lex_le_total(lowercase(sorted[0].name), lowercase(e.name));
                    assert(name_le(e, sorted[0]));
                    if j > 1 {
                        assert(name_le(sorted[0], sorted[j - 1]));
                        lemma_lex_le_transitive(
                            lowercase(e.name),
                            lowercase(sorted[0].name),
                            lowercase(sorted[j - 1].name),
                        );
                    }
                }
            } else {
                assert(r[i] == sorted[i - 1]);
                assert(r[j] == sorted[j - 1]);
            }
        }
    }
}

/// The directories and the files that a picker lists are each in the order
/// of their names.
pub proof fn law_shown_entries_are_sorted(listing: Seq<DirEntryView>, filter: Seq<char>, dirs: bool)
    ensures
        sorted_by_name(shown_sorted(listing, filter, dirs)),
        shown_sorted(listing, filter, dirs).len() <= listing.len(),
    decreases listing.len(),
{
    if listing.len() > 0 {
        law_shown_entries_are_sorted(listing.drop_last(), filter, dirs);
        lemma_insert_by_name(shown_sorted(listing.drop_last(), filter, dirs), listing.last());
    }
}

/// A key, as far as a directory picker tells keys apart.
#[derive(Debug, Clone, Copy, PartialEq, Eq, Structural)]
pub enum PickerKey {
    Esc,
    /// The letter `c` with the control key.
    Interrupt,
    Up,
    Down,
    PageUp,
    PageDown,
    Home,
    End,
    Enter,
    Backspace,
    Tab,
    Delete,
    /// A character typed without a modifier.
    Char(char),
    /// A character typed with the shift key.
    Shifted(char),
    Other,
}

/// What is to be done after a key.
#[derive(Debug, Clone)]
pub enum PickerAction {
    /// Nothing but to show the picker again.
    Continue,
    /// List the current directory again: the filter changed.
    Reload,
    /// List the directory, which was entered.
    Enter(String),
    /// Go to the parent of the current directory, if it has one.
    GoUp,
    /// End with the result.
    Done(PickerResult),
}

/// Whether the sorted entries hold `e` at the place where it is put.
fn entry_le(a: &DirEntry, b: &DirEntry) -> (r: bool)
    ensures
        r == name_le(a@, b@),
{
    let x = to_lowercase(a.name.as_str());
    let y = to_lowercase(b.name.as_str());
    str_le(x.as_str(), y.as_str())
}

/// Puts an entry into a sorted list, after the entries listed no later.
fn insert_entry(list: &mut Vec<DirEntry>, e: DirEntry)
    ensures
        listing_view(final(list)@) == insert_by_name(listing_view(old(list)@), e@),
{
    let ghost before = listing_view(list@);
    let mut pos: usize = 0;
    proof {
        assert(before.skip(0) =~= before);
        assert(before.take(0) + insert_by_name(before, e@) =~= insert_by_name(before, e@));
    }
    while pos < list.len() && entry_le(&list[pos], &e)
        invariant
            pos <= list.len(),
            before == listing_view(list@),
            insert_by_name(before, e@) == before.take(pos as int) + insert_by_name(
                before.skip(pos as int),
                e@,
            ),
        decreases list.len() - pos,
    {
        proof {
            let rest = before.skip(pos as int);
            assert(rest[0] == before[pos as int]);
            assert(rest.drop_first() =~= before.skip(pos + 1));
            assert(before.take(pos + 1) =~= before.take(pos as int) + seq![rest[0]]);
            assert(before.take(pos as int) + (seq![rest[0]] + insert_by_name(
                before.skip(pos + 1),
                e@,
            )) =~= before.take(pos + 1) + insert_by_name(before.skip(pos + 1), e@));
        }
        pos += 1;
    }
    let ghost ev = e@;
    proof {
        let rest = before.skip(pos as int);
        if pos < list.len() {
            assert(rest[0] == before[pos as int]);
        }
        assert(insert_by_name(rest, ev) == seq![ev] + rest);
        assert(before.take(pos as int) + (seq![ev] + rest) =~= before.insert(pos as int, ev));
    }
    list.insert(pos, e);
    assert(listing_view(list@) =~= before.insert(pos as int, ev));
}

/// Whether an entry is shown under a filter.
pub fn entry_is_shown(e: &DirEntry, filter: &str) -> (r: bool)
    ensures
        r == is_shown(e@, filter@),
{
    let name = chars_of(e.name.as_str());
    let f = chars_of(filter);
    let hidden = name.len() > 0 && name[0] == '.';
    let dotted = f.len() > 0 && f[0] == '.';
    if hidden && !dotted {
        return false;
    }
    if f.len() == 0 {
        return true;
    }
    let lower_name = to_lowercase(e.name.as_str());
    let lower_filter = to_lowercase(filter);
    let hay = chars_of(lower_name.as_str());
    let needle = chars_of(lower_filter.as_str());
    proof {
        assert(hay@.subrange(0, hay.len() as int) =~= lowercase(e@.name));
    }
    find_range(&hay, 0, hay.len(), &needle).is_some()
}

/// The entries of a listing that are shown and are directories, or are
/// files, sorted by name.
fn sort_shown(listing: &Vec<DirEntry>, filter: &str, dirs: bool) -> (r: Vec<DirEntry>)
    ensures
        listing_view(r@) == shown_sorted(listing_view(listing@), filter@, dirs),
{
    let ghost all = listing_view(listing@);
    let mut r: Vec<DirEntry> = Vec::new();
    let mut i: usize = 0;
    proof {
        assert(listing_view(r@) =~= shown_sorted(all.take(0), filter@, dirs));
    }
    while i < listing.len()
        invariant
            i <= listing.len(),
            all == listing_view(listing@),
            listing_view(r@) == shown_sorted(all.take(i as int), filter@, dirs),
        decreases listing.len() - i,
    {
        let e = &listing[i];
        proof {
            let next = all.take(i + 1);
            assert(next.drop_last() =~= all.take(i as int));
            assert(next.last() == e@);
        }
        if e.is_dir == dirs && entry_is_shown(e, filter) {
            insert_entry(
                &mut r,
                DirEntry { name: e.name.clone(), path: e.path.clone(), is_dir: e.is_dir },
            );
        }
        i += 1;
    }
    proof {
        assert(all.take(listing.len() as int) =~= all);
    }
    r
}

/// The picker `after` and the action are what the key leads to from the
/// picker `before`.
pub open spec fn key_leads(
    before: DirectoryPicker,
    key: PickerKey,
    after: DirectoryPicker,
    action: PickerAction,
) -> bool {
    let same_place = after.current_dir == before.current_dir;
    let same_filter = after.filter == before.filter;
    let on_dir = before.selected < before.entries@.len() && before.entries@[before.selected as int].is_dir;
    &&& after.prompt == before.prompt
    &&& after.entries == before.entries
    &&& after.visible_rows == before.visible_rows
    &&& match key {
        PickerKey::Esc | PickerKey::Interrupt | PickerKey::Char('q') => {
            &&& action matches PickerAction::Done(PickerResult::Cancelled)
            &&& after@ == before@
            &&& same_place
            &&& same_filter
        },
        PickerKey::Tab | PickerKey::Char(' ') => {
            &&& action matches PickerAction::Done(PickerResult::Selected(dir)) && dir@
                == before.current_dir@
            &&& after@ == before@
            &&& same_place
            &&& same_filter
        },
        PickerKey::Up | PickerKey::Char('k') => {
            &&& action is Continue
            &&& after@ == before@.up()
            &&& same_place
            &&& same_filter
        },
        PickerKey::Down | PickerKey::Char('j') => {
            &&& action is Continue
            &&& after@ == before@.down()
            &&& same_place
            &&& same_filter
        },
        PickerKey::PageUp => {
            &&& action is Continue
            &&& after@ == before@.up_by(before@.visible_rows)
            &&& same_place
            &&& same_filter
        },
        PickerKey::PageDown => {
            &&& action is Continue
            &&& after@ == before@.down_by(before@.visible_rows)
            &&& same_place
            &&& same_filter
        },
        PickerKey::Home | PickerKey::Char('g') => {
            &&& action is Continue
            &&& after@ == before@.at_first()
            &&& same_place
            &&& same_filter
        },
        PickerKey::End | PickerKey::Shifted('G') => {
            &&& action is Continue
            &&& after@ == before@.at_last()
            &&& same_place
            &&& same_filter
        },
        PickerKey::Enter | PickerKey::Char('l') => if on_dir {
            &&& action matches PickerAction::Enter(dir) && dir@
                == before.entries@[before.selected as int].path@
            &&& after.current_dir@ == before.entries@[before.selected as int].path@
            &&& after@ == before@.at_first()
            &&& after.filter@.len() == 0
        } else {
            &&& action is Continue
            &&& after@ == before@
            &&& same_place
            &&& same_filter
        },
        PickerKey::Backspace | PickerKey::Char('h') => {
            &&& action is GoUp
            &&& after@ == before@
            &&& same_place
            &&& same_filter
        },
        PickerKey::Char('/') => {
            &&& action is Continue
            &&& after@ == before@
            &&& same_place
            &&& after.filter@.len() == 0
        },
        PickerKey::Delete => {
            &&& action is Reload
            &&& after@ == before@
            &&& same_place
            &&& after.filter@.len() == 0
        },
        PickerKey::Char(c) | PickerKey::Shifted(c) => if alphanumeric(c) || c == '_' || c == '-'
            || c == '.' {
            &&& action is Reload
            &&& after@ == before@.at_first()
            &&& same_place
            &&& after.filter@ == before.filter@.push(c)
        } else {
            &&& action is Continue
            &&& after@ == before@
            &&& same_place
            &&& same_filter
        },
        PickerKey::Other => {
            &&& action is Continue
            &&& after@ == before@
            &&& same_place
            &&& same_filter
        },
    }
}

impl DirectoryPicker {
    /// A picker on the directory `start`, with no entries yet, the first
    /// row selected and fifteen rows shown.
    pub fn new(prompt: &str, start: &str) -> (picker: DirectoryPicker)
        ensures
            picker@.wf(),
            picker@.selected == 0,
            picker@.scroll_offset == 0,
            picker@.visible_rows == 15,
            picker@.len == 0,
            picker.prompt@ == prompt@,
            picker.current_dir@ == start@,
            picker.filter@.len() == 0,
    {
        DirectoryPicker {
            prompt: prompt.to_owned(),
            current_dir: start.to_owned(),
            entries: Vec::new(),
            selected: 0,
            scroll_offset: 0,
            visible_rows: 15,
            filter: String::new(),
        }
    }

    /// Whether the selection is an entry and lies in the window shown.
    pub fn is_well_formed(&self) -> (r: bool)
        ensures
            r == self@.wf(),
    {
        self.visible_rows > 0 && (self.selected < self.entries.len() || self.selected == 0)
            && self.scroll_offset <= self.selected && self.selected - self.scroll_offset
            < self.visible_rows
    }

    /// Lists the current directory, given its parent and what it holds: the
    /// way up first, then the directories, then the files, as far as the
    /// filter shows them.  A selection beyond the new entries falls back to
    /// the first row.
    pub fn refresh_entries(&mut self, parent: Option<&str>, listing: &Vec<DirEntry>)
        requires
            old(self).visible_rows > 0,
        ensures
            listing_view(final(self).entries@) == picker_entries(
                opt_str_view(parent),
                listing_view(listing@),
                old(self).filter@,
            ),
            final(self).selected == (if old(self).selected < final(self).entries@.len() {
                old(self).selected
            } else {
                0
            }),
            final(self).scroll_offset == (if old(self).selected < final(self).entries@.len() {
                old(self).scroll_offset
            } else {
                0
            }),
            old(self)@.scroll_offset <= old(self)@.selected < old(self)@.scroll_offset + old(
                self,
            )@.visible_rows ==> final(self)@.wf(),
            final(self).visible_rows == old(self).visible_rows,
            final(self).prompt == old(self).prompt,
            final(self).current_dir == old(self).current_dir,
            final(self).filter == old(self).filter,
    {
        let mut entries: Vec<DirEntry> = Vec::new();
        match parent {
            Some(p) => {
                entries.push(DirEntry { name: "..".to_owned(), path: p.to_owned(), is_dir: true });
            },
            None => {},
        }
        let ghost head = listing_view(entries@);
        let mut dirs = sort_shown(listing, self.filter.as_str(), true);
        let mut files = sort_shown(listing, self.filter.as_str(), false);
        let ghost d = listing_view(dirs@);
        let ghost f = listing_view(files@);
        entries.append(&mut dirs);
        entries.append(&mut files);
        proof {
            assert(listing_view(entries@) =~= head + d + f);
            assert(head =~= (match opt_str_view(parent) {
                Some(p) => seq![parent_entry(p)],
                None => Seq::empty(),
            }));
        }
        self.entries = entries;
        if self.selected >= self.entries.len() {
            self.selected = 0;
            self.scroll_offset = 0;
        }
    }

    /// Moves the window so that it shows the selection.
    pub fn adjust_scroll(&mut self)
        requires
            old(self).visible_rows > 0,
        ensures
            final(self)@ == old(self)@.scrolled(),
            final(self)@.scroll_offset <= final(self)@.selected < final(self)@.scroll_offset
                + final(self)@.visible_rows,
            final(self).entries == old(self).entries,
            final(self).prompt == old(self).prompt,
            final(self).current_dir == old(self).current_dir,
            final(self).filter == old(self).filter,
            final(self).visible_rows == old(self).visible_rows,
    {
        if self.selected < self.scroll_offset {
            self.scroll_offset = self.selected;
        } else if self.selected - self.scroll_offset >= self.visible_rows {
            self.scroll_offset = self.selected - (self.visible_rows - 1);
        }
    }

    /// Selects the entry above, if there is one.
    pub fn move_up(&mut self)
        requires
            old(self)@.wf(),
        ensures
            final(self)@ == old(self)@.up(),
            final(self)@.wf(),
            final(self).entries == old(self).entries,
            final(self).prompt == old(self).prompt,
            final(self).current_dir == old(self).current_dir,
            final(self).filter == old(self).filter,
            final(self).visible_rows == old(self).visible_rows,
    {
        if self.selected > 0 {
            self.selected -= 1;
            self.adjust_scroll();
        }
    }

    /// Selects the entry below, if there is one.
    pub fn move_down(&mut self)
        requires
            old(self)@.wf(),
        ensures
            final(self)@ == old(self)@.down(),
            final(self)@.wf(),
            final(self).entries == old(self).entries,
            final(self).prompt == old(self).prompt,
            final(self).current_dir == old(self).current_dir,
            final(self).filter == old(self).filter,
            final(self).visible_rows == old(self).visible_rows,
    {
        if self.entries.len() > 0 && self.selected < self.entries.len() - 1 {
            self.selected += 1;
            self.adjust_scroll();
        }
    }

    /// Selects the entry a page above, or the first.
    pub fn page_up(&mut self)
        requires
            old(self)@.wf(),
        ensures
            final(self)@ == old(self)@.up_by(old(self)@.visible_rows),
            final(self)@.wf(),
            final(self).entries == old(self).entries,
            final(self).prompt == old(self).prompt,
            final(self).current_dir == old(self).current_dir,
            final(self).filter == old(self).filter,
            final(self).visible_rows == old(self).visible_rows,
    {
        let rows = self.visible_rows;
        let ghost start = self@;
        let mut i: usize = 0;
        while i < rows
            invariant
                i <= rows,
                self@.wf(),
                rows == start.visible_rows,
                start.up_by(rows as nat) == self@.up_by((rows - i) as nat),
                self.entries == old(self).entries,
                self.prompt == old(self).prompt,
                self.current_dir == old(self).current_dir,
                self.filter == old(self).filter,
                self.visible_rows == rows,
            decreases rows - i,
        {
            self.move_up();
            i += 1;
        }
    }

    /// Selects the entry a page below, or the last.
    pub fn page_down(&mut self)
        requires
            old(self)@.wf(),
        ensures
            final(self)@ == old(self)@.down_by(old(self)@.visible_rows),
            final(self)@.wf(),
            final(self).entries == old(self).entries,
            final(self).prompt == old(self).prompt,
            final(self).current_dir == old(self).current_dir,
            final(self).filter == old(self).filter,
            final(self).visible_rows == old(self).visible_rows,
    {
        let rows = self.visible_rows;
        let ghost start = self@;
        let mut i: usize = 0;
        while i < rows
            invariant
                i <= rows,
                self@.wf(),
                rows == start.visible_rows,
                start.down_by(rows as nat) == self@.down_by((rows - i) as nat),
                self.entries == old(self).entries,
                self.prompt == old(self).prompt,
                self.current_dir == old(self).current_dir,
                self.filter == old(self).filter,
                self.visible_rows == rows,
            decreases rows - i,
        {
            self.move_down();
            i += 1;
        }
    }

    /// Enters a directory: it becomes the current one, the first row is
    /// selected and the filter is emptied.  Its entries are to be listed
    /// next.
    pub fn enter(&mut self, dir: &str)
        requires
            old(self).visible_rows > 0,
        ensures
            final(self).current_dir@ == dir@,
            final(self).selected == 0,
            final(self).scroll_offset == 0,
            final(self).filter@.len() == 0,
            final(self).visible_rows == old(self).visible_rows,
            final(self).entries == old(self).entries,
            final(self).prompt == old(self).prompt,
            final(self)@.wf(),
    {
        self.current_dir = dir.to_owned();
        self.selected = 0;
        self.scroll_offset = 0;
        self.filter = String::new();
    }

    /// Takes a key.
    ///
    /// Escape, `q` and the interrupt cancel; the arrows, `k` and `j`, the
    /// page keys, Home and `g`, End and `G` move the selection; Enter and
    /// `l` enter the selected directory; Backspace and `h` go up; Tab and
    /// the space bar select the current directory; `/` and Delete empty the
    /// filter; any other letter, digit, underscore, hyphen or dot is added
    /// to the filter.
    pub fn handle_key(&mut self, key: PickerKey) -> (action: PickerAction)
        requires
            old(self)@.wf(),
        ensures
            final(self)@.wf(),
            key_leads(*old(self), key, *final(self), action),
    {
        match key {
            PickerKey::Esc | PickerKey::Interrupt | PickerKey::Char('q') => PickerAction::Done(
                PickerResult::Cancelled,
            ),
            PickerKey::Tab | PickerKey::Char(' ') => PickerAction::Done(
                PickerResult::Selected(self.current_dir.clone()),
            ),
            PickerKey::Up | PickerKey::Char('k') => {
                self.move_up();
                PickerAction::Continue
            },
            PickerKey::Down | PickerKey::Char('j') => {
                self.move_down();
                PickerAction::Continue
            },
            PickerKey::PageUp => {
                self.page_up();
                PickerAction::Continue
            },
            PickerKey::PageDown => {
                self.page_down();
                PickerAction::Continue
            },
            PickerKey::Home | PickerKey::Char('g') => {
                self.selected = 0;
                self.scroll_offset = 0;
                PickerAction::Continue
            },
            PickerKey::End | PickerKey::Shifted('G') => {
                if self.entries.len() > 0 {
                    self.selected = self.entries.len() - 1;
                    self.adjust_scroll();
                }
                PickerAction::Continue
            },
            PickerKey::Enter | PickerKey::Char('l') => {
                if self.selected < self.entries.len() && self.entries[self.selected].is_dir {
                    let dir = self.entries[self.selected].path.clone();
                    self.enter(dir.as_str());
                    PickerAction::Enter(dir)
                } else {
                    PickerAction::Continue
                }
            },
            PickerKey::Backspace | PickerKey::Char('h') => PickerAction::GoUp,
            PickerKey::Char('/') => {
                self.filter = String::new();
                PickerAction::Continue
            },
            PickerKey::Delete => {
                self.filter = String::new();
                PickerAction::Reload
            },
            PickerKey::Char(c) | PickerKey::Shifted(c) => {
                if c.is_alphanumeric() || c == '_' || c == '-' || c == '.' {
                    self.filter.push(c);
                    self.selected = 0;
                    self.scroll_offset = 0;
                    PickerAction::Reload
                } else {
                    PickerAction::Continue
                }
            },
            PickerKey::Other => PickerAction::Continue,
        }
    }
}

} // verus!
