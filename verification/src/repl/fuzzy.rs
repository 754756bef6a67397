//! Fuzzy search over names.

use crate::listing::{
    insert_sorted, is_sorted, lemma_lex_le_total, lemma_lex_le_transitive, lex_le, str_le,
};
use crate::text::{copy_texts, texts_view};
use vstd::prelude::*;
use vstd::seq_lib::{to_multiset_build, to_multiset_insert};

verus! {

/// How well `candidate` matches the search pattern `pattern`, if it matches
/// at all: the pattern is split into words, case is ignored, and each word
/// may mark itself as exact, prefix, postfix, substring or negated.
pub uninterp spec fn fuzzy_rank(pattern: Seq<char>, candidate: Seq<char>) -> Option<u32>;

/// The longest pattern that is searched for.
pub const MAX_PATTERN: usize = 1024;

/// The longest name that is searched in.
pub const MAX_CANDIDATE: usize = 65535;

/// How well `candidate` matches `pattern`; text beyond the lengths that can
/// be searched matches nothing.
pub open spec fn rank(pattern: Seq<char>, candidate: Seq<char>) -> Option<u32> {
    if pattern.len() <= MAX_PATTERN && candidate.len() <= MAX_CANDIDATE {
        fuzzy_rank(pattern, candidate)
    } else {
        None
    }
}

/// Calls `nucleo_matcher::pattern::Pattern::parse` with case ignored and
/// smart normalization, and `Pattern::score` with a matcher in its default
/// configuration: the result is the score of `candidate` under `pattern`,
/// or `None` if it does not match.  The lengths asked for keep the call
/// within what the matcher scores without overflow: it scores words of up to
/// 2048 characters, and refuses a candidate of 2^32 characters or more.
#[verifier::external_body]
fn fuzzy_score(pattern: &str, candidate: &str) -> (r: Option<u32>)
    requires
        pattern@.len() <= MAX_PATTERN,
        candidate@.len() <= MAX_CANDIDATE,
    ensures
        r == fuzzy_rank(pattern@, candidate@),
{
    let mut matcher = nucleo_matcher::Matcher::new(nucleo_matcher::Config::DEFAULT);
    let parsed = nucleo_matcher::pattern::Pattern::parse(
        pattern,
        nucleo_matcher::pattern::CaseMatching::Ignore,
        nucleo_matcher::pattern::Normalization::Smart,
    );
    let mut buf = Vec::new();
    parsed.score(nucleo_matcher::Utf32Str::new(candidate, &mut buf), &mut matcher)
}

/// How well `candidate` matches `pattern`.
pub fn score(pattern: &str, candidate: &str) -> (r: Option<u32>)
    ensures
        r == rank(pattern@, candidate@),
{
    if pattern.unicode_len() <= MAX_PATTERN && candidate.unicode_len() <= MAX_CANDIDATE {
        fuzzy_score(pattern, candidate)
    } else {
        None
    }
}

/// A name and how well it matches.
#[derive(Debug, Clone)]
pub struct Scored {
    pub score: u32,
    pub name: String,
}

/// A scored name as plain values.
pub struct ScoredView {
    pub score: u32,
    pub name: Seq<char>,
}

impl View for Scored {
    type V = ScoredView;

    open spec fn view(&self) -> ScoredView {
        ScoredView { score: self.score, name: self.name@ }
    }
}

/// Scored names as plain values.
pub open spec fn scored_view(v: Seq<Scored>) -> Seq<ScoredView> {
    v.map_values(|s: Scored| s@)
}

/// `a` is listed no later than `b`: it has the higher score, or the same
/// score and a name that comes no later.
pub open spec fn ranks_before(a: ScoredView, b: ScoredView) -> bool {
    a.score > b.score || (a.score == b.score && lex_le(a.name, b.name))
}

/// The scored names are listed best first.
pub open spec fn is_ranked(v: Seq<ScoredView>) -> bool {
    forall|i: int, j: int| 0 <= i < j < v.len() ==> ranks_before(#[trigger] v[i], #[trigger] v[j])
}

/// The names of `names` that match `pattern`, each with its score, in the
/// order of `names`.
pub open spec fn matches_of(pattern: Seq<char>, names: Seq<Seq<char>>) -> Seq<ScoredView>
    decreases names.len(),
{
    if names.len() == 0 {
        Seq::empty()
    } else {
        let before = matches_of(pattern, names.drop_last());
        match rank(pattern, names.last()) {
            Some(score) => before.push(ScoredView { score, name: names.last() }),
            None => before,
        }
    }
}

/// The names of scored names.
pub open spec fn names_of(v: Seq<ScoredView>) -> Seq<Seq<char>> {
    v.map_values(|s: ScoredView| s.name)
}

/// Puts a scored name into a ranked list, after those listed no later.
fn insert_ranked(list: &mut Vec<Scored>, item: Scored)
    requires
        is_ranked(scored_view(old(list)@)),
    ensures
        is_ranked(scored_view(final(list)@)),
        scored_view(final(list)@).to_multiset() == scored_view(old(list)@).to_multiset().insert(
            item@,
        ),
{
    let ghost before = scored_view(list@);
    let mut pos: usize = 0;
    while pos < list.len() && (list[pos].score > item.score || (list[pos].score == item.score
        && str_le(list[pos].name.as_str(), item.name.as_str())))
        invariant
            pos <= list.len(),
            before == scored_view(list@),
            forall|k: int| 0 <= k < pos ==> ranks_before(#[trigger] before[k], item@),
        decreases list.len() - pos,
    {
        pos += 1;
    }
    let ghost it = item@;
    list.insert(pos, item);
    proof {
        let after = scored_view(list@);
        assert(after =~= before.insert(pos as int, it));
        to_multiset_insert(before, pos as int, it);
        assert forall|i: int, j: int| 0 <= i < j < after.len() implies ranks_before(
            #[trigger] after[i],
            #[trigger] after[j],
        ) by {
            if j == pos {
            } else if i == pos {
                let nxt = before[pos as int];
                lemma_lex_le_total(nxt.name, it.name);
                assert(ranks_before(it, nxt));
                let other = before[j - 1];
                if j - 1 > pos {
                    assert(ranks_before(nxt, other));
                    if it.score == nxt.score && nxt.score == other.score {
                        lemma_lex_le_transitive(it.name, nxt.name, other.name);
                    }
                }
            } else if i < pos && pos < j {
                assert(after[i] == before[i]);
                assert(after[j] == before[j - 1]);
            } else if j < pos {
                assert(after[i] == before[i]);
                assert(after[j] == before[j]);
            } else {
                assert(after[i] == before[i - 1]);
                assert(after[j] == before[j - 1]);
            }
        }
    }
}

/// The names that match `pattern`, best first.
pub fn rank_matches(pattern: &str, names: &Vec<String>) -> (found: Vec<Scored>)
    ensures
        is_ranked(scored_view(found@)),
        scored_view(found@).to_multiset() == matches_of(pattern@, texts_view(names@)).to_multiset(),
{
    let ghost all = texts_view(names@);
    let mut found: Vec<Scored> = Vec::new();
    let mut i: usize = 0;
    proof {
        assert(scored_view(found@) =~= matches_of(pattern@, all.take(0)));
    }
    while i < names.len()
        invariant
            i <= names.len(),
            all == texts_view(names@),
            is_ranked(scored_view(found@)),
            scored_view(found@).to_multiset() == matches_of(pattern@, all.take(i as int)).to_multiset(),
        decreases names.len() - i,
    {
        proof {
            let next = all.take(i + 1);
            assert(next.drop_last() =~= all.take(i as int));
            assert(next.last() == names@[i as int]@);
        }
        match score(pattern, names[i].as_str()) {
            Some(s) => {
                let item = Scored { score: s, name: names[i].clone() };
                proof {
                    to_multiset_build(matches_of(pattern@, all.take(i as int)), item@);
                }
                insert_ranked(&mut found, item);
            },
            None => {},
        }
        i += 1;
    }
    proof {
        assert(all.take(names.len() as int) =~= all);
    }
    found
}

/// The names of a list of scored names, in its order.
pub fn into_names(found: Vec<Scored>) -> (names: Vec<String>)
    ensures
        texts_view(names@) == names_of(scored_view(found@)),
{
    let mut names: Vec<String> = Vec::new();
    let mut i: usize = 0;
    while i < found.len()
        invariant
            i <= found.len(),
            texts_view(names@) == names_of(scored_view(found@)).take(i as int),
        decreases found.len() - i,
    {
        let ghost before = texts_view(names@);
        names.push(found[i].name.clone());
        proof {
            assert(texts_view(names@) =~= before.push(found@[i as int]@.name));
            assert(texts_view(names@) =~= names_of(scored_view(found@)).take(i + 1));
        }
        i += 1;
    }
    proof {
        let all = names_of(scored_view(found@));
        assert(all.take(found.len() as int) =~= all);
    }
    names
}

/// What a search for templates gives: every template in the given order if
/// the pattern is empty, else the names of the matching templates, best
/// first.
pub open spec fn is_template_search(pattern: Seq<char>, templates: Seq<Seq<char>>, found: Seq<
    Seq<char>,
>) -> bool {
    if pattern.len() == 0 {
        found == templates
    } else {
        exists|ranked: Seq<ScoredView>|
            #![trigger names_of(ranked)]
            is_ranked(ranked) && ranked.to_multiset() == matches_of(pattern, templates).to_multiset()
                && found == names_of(ranked)
    }
}

/// What a search for variables gives: every variable in sorted order if the
/// pattern is empty, else the names of the matching variables, best first.
pub open spec fn is_variable_search(pattern: Seq<char>, variables: Seq<Seq<char>>, found: Seq<
    Seq<char>,
>) -> bool {
    if pattern.len() == 0 {
        is_sorted(found) && found.to_multiset() == variables.to_multiset()
    } else {
        exists|ranked: Seq<ScoredView>|
            #![trigger names_of(ranked)]
            is_ranked(ranked) && ranked.to_multiset() == matches_of(pattern, variables).to_multiset()
                && found == names_of(ranked)
    }
}

/// Searches the templates for `pattern`.
pub fn search_templates(pattern: &str, templates: &Vec<String>) -> (found: Vec<String>)
    ensures
        is_template_search(pattern@, texts_view(templates@), texts_view(found@)),
{
    if pattern.is_empty() {
        return copy_texts(templates);
    }
    let ranked = rank_matches(pattern, templates);
    let ghost witness = scored_view(ranked@);
    let found = into_names(ranked);
    assert(texts_view(found@) == names_of(witness));
    found
}

/// Searches the variables for `pattern`.
pub fn search_variables(pattern: &str, variables: &Vec<String>) -> (found: Vec<String>)
    ensures
        is_variable_search(pattern@, texts_view(variables@), texts_view(found@)),
{
    if pattern.is_empty() {
        let mut sorted: Vec<String> = Vec::new();
        let mut i: usize = 0;
        proof {
            assert(texts_view(sorted@) =~= texts_view(variables@).take(0));
        }
        while i < variables.len()
            invariant
                i <= variables.len(),
                is_sorted(texts_view(sorted@)),
                texts_view(sorted@).to_multiset() == texts_view(variables@).take(
                    i as int,
                ).to_multiset(),
            decreases variables.len() - i,
        {
            proof {
                let all = texts_view(variables@);
                to_multiset_build(all.take(i as int), variables@[i as int]@);
                assert(all.take(i + 1) =~= all.take(i as int).push(variables@[i as int]@));
            }
            insert_sorted(&mut sorted, variables[i].clone());
            i += 1;
        }
        proof {
            let all = texts_view(variables@);
            assert(all.take(variables.len() as int) =~= all);
        }
        return sorted;
    }
    let ranked = rank_matches(pattern, variables);
    let ghost witness = scored_view(ranked@);
    let found = into_names(ranked);
    assert(texts_view(found@) == names_of(witness));
    found
}

} // verus!
