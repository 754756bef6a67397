//! Hints: what is shown, dimmed, after the text typed so far.

use crate::text::str_eq;
use vstd::prelude::*;

verus! {

/// The table of hints.
pub struct MargoHinter {
    /// Pairs of a text typed so far and the hint shown after it.
    pub hints: Vec<(&'static str, &'static str)>,
}

/// Pairs of strings as plain values.
pub open spec fn pairs_view(pairs: Seq<(&'static str, &'static str)>) -> Seq<(Seq<char>, Seq<char>)> {
    pairs.map_values(|p: (&'static str, &'static str)| (p.0@, p.1@))
}

/// The hints of the session.
pub open spec fn hint_table() -> Seq<(Seq<char>, Seq<char>)> {
    seq![
        ("init"@, " — guided project setup"@),
        ("init "@, "grf | grf-event"@),
        ("init g"@, "rf"@),
        ("init grf"@, " — causal forest"@),
        ("init grf-"@, "event"@),
        ("init grf-e"@, "vent"@),
        ("init grf-ev"@, "ent"@),
        ("init grf-eve"@, "nt"@),
        ("init grf-even"@, "t"@),
        ("init grf-event"@, " — event study"@),
        ("/h"@, "elp"@),
        ("/he"@, "lp"@),
        ("/hel"@, "p"@),
        ("/c"@, "onfig"@),
        ("/co"@, "nfig"@),
        ("/con"@, "fig"@),
        ("/conf"@, "ig"@),
        ("/confi"@, "g"@),
        ("/config "@, "edit | init"@),
        ("/t "@, "outcomes | baselines | edit <name>"@),
        ("/te"@, "mplates"@),
        ("/tem"@, "plates"@),
        ("/temp"@, "lates"@),
        ("/templ"@, "ates"@),
        ("/templa"@, "tes"@),
        ("/templat"@, "es"@),
        ("/template"@, "s"@),
        ("/templates "@, "edit <name>"@),
        ("/th"@, "eme"@),
        ("/the"@, "me"@),
        ("/them"@, "e"@),
        ("/v"@, "ars"@),
        ("/va"@, "rs"@),
        ("/var"@, "s"@),
        ("/vars "@, "<pattern>"@),
        ("/q"@, "uit"@),
        ("/qu"@, "it"@),
        ("/qui"@, "t"@),
        ("q"@, "uit"@),
        ("qu"@, "it"@),
        ("qui"@, "t"@),
    ]
}

/// The hint of the first pair whose text is `line`.
pub open spec fn find_hint(table: Seq<(Seq<char>, Seq<char>)>, line: Seq<char>) -> Option<Seq<char>>
    decreases table.len(),
{
    if table.len() == 0 {
        None
    } else if table[0].0 == line {
        Some(table[0].1)
    } else {
        find_hint(table.drop_first(), line)
    }
}

impl MargoHinter {
    /// The hinter of the session, with its table.
    pub fn new() -> (hinter: MargoHinter)
        ensures
            pairs_view(hinter.hints@) == hint_table(),
    {
        let mut hints: Vec<(&'static str, &'static str)> = Vec::new();
        hints.push(("init", " — guided project setup"));
        hints.push(("init ", "grf | grf-event"));
        hints.push(("init g", "rf"));
        hints.push(("init grf", " — causal forest"));
        hints.push(("init grf-", "event"));
        hints.push(("init grf-e", "vent"));
        hints.push(("init grf-ev", "ent"));
        hints.push(("init grf-eve", "nt"));
        hints.push(("init grf-even", "t"));
        hints.push(("init grf-event", " — event study"));
        hints.push(("/h", "elp"));
        hints.push(("/he", "lp"));
        hints.push(("/hel", "p"));
        hints.push(("/c", "onfig"));
        hints.push(("/co", "nfig"));
        hints.push(("/con", "fig"));
        hints.push(("/conf", "ig"));
        hints.push(("/confi", "g"));
        hints.push(("/config ", "edit | init"));
        hints.push(("/t ", "outcomes | baselines | edit <name>"));
        hints.push(("/te", "mplates"));
        hints.push(("/tem", "plates"));
        hints.push(("/temp", "lates"));
        hints.push(("/templ", "ates"));
        hints.push(("/templa", "tes"));
        hints.push(("/templat", "es"));
        hints.push(("/template", "s"));
        hints.push(("/templates ", "edit <name>"));
        hints.push(("/th", "eme"));
        hints.push(("/the", "me"));
        hints.push(("/them", "e"));
        hints.push(("/v", "ars"));
        hints.push(("/va", "rs"));
        hints.push(("/var", "s"));
        hints.push(("/vars ", "<pattern>"));
        hints.push(("/q", "uit"));
        hints.push(("/qu", "it"));
        hints.push(("/qui", "t"));
        hints.push(("q", "uit"));
        hints.push(("qu", "it"));
        hints.push(("qui", "t"));
        assert(pairs_view(hints@) =~= hint_table());
        MargoHinter { hints }
    }

    /// The hint for the text typed so far, if the table holds one.
    pub fn hint(&self, line: &str) -> (r: Option<&'static str>)
        ensures
            (match r {
                Some(h) => Some(h@),
                None => None,
            }) == find_hint(pairs_view(self.hints@), line@),
    {
        let ghost table = pairs_view(self.hints@);
        let mut i: usize = 0;
        assert(table.skip(0) =~= table);
        while i < self.hints.len()
            invariant
                i <= self.hints.len(),
                table == pairs_view(self.hints@),
                find_hint(table, line@) == find_hint(table.skip(i as int), line@),
            decreases self.hints.len() - i,
        {
            let ghost rest = table.skip(i as int);
            assert(rest[0] == table[i as int]);
            assert(rest.drop_first() =~= table.skip(i + 1));
            let pair = self.hints[i];
            if str_eq(pair.0, line) {
                return Some(pair.1);
            }
            i += 1;
        }
        None
    }

    /// The hint for the text typed so far; empty if the table holds none.
    pub fn handle(&self, line: &str) -> (r: &'static str)
        ensures
            r@ == (match find_hint(pairs_view(self.hints@), line@) {
                Some(h) => h,
                None => Seq::empty(),
            }),
    {
        match self.hint(line) {
            Some(h) => h,
            None => {
                proof {
                    reveal_strlit("");
                }
                let r = "";
                assert(r@ =~= Seq::<char>::empty());
                r
            },
        }
    }

    /// What accepting the whole hint would insert: nothing.
    pub fn complete_hint(&self) -> (r: String)
        ensures
            r@.len() == 0,
    {
        String::new()
    }

    /// What accepting the next word of the hint would insert: nothing.
    pub fn next_hint_token(&self) -> (r: String)
        ensures
            r@.len() == 0,
    {
        String::new()
    }
}

impl Default for MargoHinter {
    fn default() -> (hinter: MargoHinter)
        ensures
            pairs_view(hinter.hints@) == hint_table(),
    {
        MargoHinter::new()
    }
}

} // verus!
