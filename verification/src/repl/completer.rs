//! Completion of a line of input.

use crate::config::TemplateKind;
use crate::text::texts_view;
use crate::repl::fuzzy::{
    is_template_search, is_variable_search, search_templates, search_variables,
};
use crate::text::{
    chars_of, find_char, index_of, next_word, range_starts_with, rfind, rfind_range,
    skip_whitespace, starts_with, str_starts_with, strip_start, substring, whitespace, words,
};
use vstd::prelude::*;
use vstd::utf8::encode_utf8;

verus! {

/// The commands that can be completed.
pub struct MargoCompleter {
    pub commands: Vec<&'static str>,
    pub slash_commands: Vec<&'static str>,
}

/// String slices as plain values.
pub open spec fn strs_view(v: Seq<&'static str>) -> Seq<Seq<char>> {
    v.map_values(|s: &'static str| s@)
}

/// The commands of the session that begin with no slash.
pub open spec fn plain_commands() -> Seq<Seq<char>> {
    seq!["init grf"@, "init grf-event"@, "init lmtp"@, "quit"@, "exit"@]
}

/// The commands of the session that begin with a slash.
pub open spec fn slash_commands() -> Seq<Seq<char>> {
    seq![
        "/help"@,
        "/h"@,
        "/config"@,
        "/config edit"@,
        "/config init"@,
        "/config path"@,
        "/templates"@,
        "/templates outcomes"@,
        "/templates baselines"@,
        "/templates edit"@,
        "/templates new outcomes"@,
        "/templates new baselines"@,
        "/vars"@,
        "/view"@,
        "/save"@,
        "/save outcomes"@,
        "/save baselines"@,
        "/theme"@,
        "/theme light"@,
        "/theme dark"@,
        "/theme toggle"@,
        "/clear"@,
        "/quit"@,
        "/q"@,
    ]
}

/// A completion that is offered.
#[derive(Debug, Clone)]
pub struct Suggestion {
    /// The text that replaces the span.
    pub value: String,
    /// What the text stands for.
    pub description: Option<String>,
    /// Where in the line, in bytes, the replaced span begins.
    pub span_start: usize,
    /// Where in the line, in bytes, the replaced span ends.
    pub span_end: usize,
    /// Whether a space follows the completion.
    pub append_whitespace: bool,
}

/// A suggestion as plain values.
pub struct SuggestionView {
    pub value: Seq<char>,
    pub description: Option<Seq<char>>,
    pub span_start: nat,
    pub span_end: nat,
    pub append_whitespace: bool,
}

impl View for Suggestion {
    type V = SuggestionView;

    open spec fn view(&self) -> SuggestionView {
        SuggestionView {
            value: self.value@,
            description: match self.description {
                Some(d) => Some(d@),
                None => None,
            },
            span_start: self.span_start as nat,
            span_end: self.span_end as nat,
            append_whitespace: self.append_whitespace,
        }
    }
}

/// Suggestions as plain values.
pub open spec fn suggestions_view(v: Seq<Suggestion>) -> Seq<SuggestionView> {
    v.map_values(|s: Suggestion| s@)
}

/// The suggestion of a name for the span from `start` to `end`.
pub open spec fn suggestion_of(name: Seq<char>, start: nat, end: nat) -> SuggestionView {
    SuggestionView {
        value: name,
        description: None,
        span_start: start,
        span_end: end,
        append_whitespace: true,
    }
}

/// The suggestions of the names, in order, for the span from `start` to
/// `end`.
pub open spec fn suggest(names: Seq<Seq<char>>, start: nat, end: nat) -> Seq<SuggestionView> {
    names.map_values(|n: Seq<char>| suggestion_of(n, start, end))
}

/// At most the first twenty of the names.
pub open spec fn first_twenty(found: Seq<Seq<char>>) -> Seq<Seq<char>> {
    if found.len() < 20 {
        found
    } else {
        found.take(20)
    }
}

/// The length of a text in bytes.
pub open spec fn byte_len(s: Seq<char>) -> nat {
    encode_utf8(s).len()
}

/// The value typed after the last occurrence of a flag: the flag is followed
/// by a space, and what follows the whitespace after the flag holds no
/// space, so that the value is still being typed.
pub open spec fn flag_value(line: Seq<char>, flag: Seq<char>) -> Option<Seq<char>> {
    let p = rfind(line, flag);
    if p < 0 {
        None
    } else {
        let after = line.skip(p + flag.len());
        if after.len() > 0 && after[0] == ' ' {
            let value = strip_start(after, whitespace());
            if index_of(value, ' ') < 0 {
                Some(value)
            } else {
                None
            }
        } else {
            None
        }
    }
}

/// The value typed after the first of the flags that has one.
pub open spec fn after_flags(line: Seq<char>, flags: Seq<Seq<char>>) -> Option<Seq<char>>
    decreases flags.len(),
{
    if flags.len() == 0 {
        None
    } else {
        match flag_value(line, flags[0]) {
            Some(v) => Some(v),
            None => after_flags(line, flags.drop_first()),
        }
    }
}

/// What is to be completed.
#[derive(Debug, Clone)]
pub enum CompletionRequest {
    /// A command that begins with a slash.
    Slash(String),
    /// The name of a template of the given kind.
    Templates(TemplateKind, String),
    /// The kind of project after `init`.
    InitTemplate(String),
    /// The name of a variable.
    Variables(String),
    /// A command.
    Commands(String),
}

/// A request as plain values.
pub enum RequestView {
    Slash(Seq<char>),
    Templates(TemplateKind, Seq<char>),
    InitTemplate(Seq<char>),
    Variables(Seq<char>),
    Commands(Seq<char>),
}

impl View for CompletionRequest {
    type V = RequestView;

    open spec fn view(&self) -> RequestView {
        match self {
            CompletionRequest::Slash(s) => RequestView::Slash(s@),
            CompletionRequest::Templates(k, s) => RequestView::Templates(*k, s@),
            CompletionRequest::InitTemplate(s) => RequestView::InitTemplate(s@),
            CompletionRequest::Variables(s) => RequestView::Variables(s@),
            CompletionRequest::Commands(s) => RequestView::Commands(s@),
        }
    }
}

/// What is to be completed after the words of an `init` command: a variable,
/// if the command names a kind of project and its last word is no flag.
pub open spec fn init_request(line: Seq<char>, after: Seq<char>) -> RequestView {
    if index_of(after, ' ') < 0 {
        RequestView::InitTemplate(after)
    } else if (starts_with(after, "grf "@) || starts_with(after, "grf-event "@)) && words(
        after,
    ).len() > 0 && !(words(after).last().len() > 0 && words(after).last()[0] == '-') {
        RequestView::Variables(words(after).last())
    } else {
        RequestView::Commands(line)
    }
}

/// What is to be completed in a line, given up to the cursor.
pub open spec fn request_spec(line: Seq<char>) -> RequestView {
    if line.len() > 0 && line[0] == '/' {
        RequestView::Slash(line)
    } else {
        match after_flags(line, seq!["-t"@, "--templates"@]) {
            Some(p) => RequestView::Templates(TemplateKind::Outcomes, p),
            None => match after_flags(line, seq!["-b"@, "--baselines"@]) {
                Some(p) => RequestView::Templates(TemplateKind::Baselines, p),
                None => if starts_with(line, "init "@) {
                    init_request(line, line.skip(5))
                } else {
                    RequestView::Commands(line)
                },
            },
        }
    }
}

/// The kinds of project that `init` knows, each with what it stands for.
pub open spec fn init_templates() -> Seq<(Seq<char>, Seq<char>)> {
    seq![
        ("grf"@, "generalised random forests"@),
        ("grf-event"@, "grf event study"@),
        ("lmtp"@, "longitudinal modified treatment policies"@),
    ]
}

/// The end of a span of `len` bytes that begins at the byte 5.
pub open spec fn span_end_after_init(len: nat) -> nat {
    if len + 5 <= usize::MAX {
        len + 5
    } else {
        usize::MAX as nat
    }
}

/// The suggestions for the kinds of project that begin with `prefix`.
pub open spec fn init_suggestions(table: Seq<(Seq<char>, Seq<char>)>, prefix: Seq<char>) -> Seq<
    SuggestionView,
>
    decreases table.len(),
{
    if table.len() == 0 {
        Seq::empty()
    } else {
        let before = init_suggestions(table.drop_last(), prefix);
        if starts_with(table.last().0, prefix) {
            before.push(
                SuggestionView {
                    value: table.last().0,
                    description: Some(table.last().1),
                    span_start: 5,
                    span_end: span_end_after_init(byte_len(prefix)),
                    append_whitespace: true,
                },
            )
        } else {
            before
        }
    }
}

/// The commands that begin with `prefix`, in order.
pub open spec fn with_prefix(commands: Seq<Seq<char>>, prefix: Seq<char>) -> Seq<Seq<char>>
    decreases commands.len(),
{
    if commands.len() == 0 {
        Seq::empty()
    } else {
        let before = with_prefix(commands.drop_last(), prefix);
        if starts_with(commands.last(), prefix) {
            before.push(commands.last())
        } else {
            before
        }
    }
}

/// The suggestions are what a search for `pattern` among the names gives,
/// each replacing the whole pattern.
pub open spec fn is_search_answer(pattern: Seq<char>, names: Seq<Seq<char>>, r: Seq<SuggestionView>) -> bool {
    exists|found: Seq<Seq<char>>|
        is_template_search(pattern, names, found) && r == #[trigger] suggest(
            found,
            0,
            byte_len(pattern),
        )
}

/// The suggestions are the first twenty of what a search for `pattern`
/// among the variables gives, each with an empty span.
pub open spec fn is_variable_answer(pattern: Seq<char>, variables: Seq<Seq<char>>, r: Seq<
    SuggestionView,
>) -> bool {
    exists|found: Seq<Seq<char>>|
        is_variable_search(pattern, variables, found) && r == #[trigger] suggest(
            first_twenty(found),
            0,
            0,
        )
}

/// The suggestions answer the request: commands and the names of templates
/// and variables are searched, kinds of project and plain commands are
/// matched by their beginning.
pub open spec fn answers(
    request: RequestView,
    commands: Seq<Seq<char>>,
    slash: Seq<Seq<char>>,
    outcomes: Seq<Seq<char>>,
    baselines: Seq<Seq<char>>,
    variables: Seq<Seq<char>>,
    r: Seq<SuggestionView>,
) -> bool {
    match request {
        RequestView::Slash(p) => is_search_answer(p, slash, r),
        RequestView::Templates(kind, p) => is_search_answer(
            p,
            if kind == TemplateKind::Outcomes {
                outcomes
            } else {
                baselines
            },
            r,
        ),
        RequestView::InitTemplate(p) => r == init_suggestions(init_templates(), p),
        RequestView::Variables(p) => is_variable_answer(p, variables, r),
        RequestView::Commands(p) => r == suggest(with_prefix(commands, p), 0, byte_len(p)),
    }
}

/// The value typed after the last occurrence of `flag`.
pub fn value_after_flag(line: &str, chars: &Vec<char>, flag: &str) -> (r: Option<String>)
    requires
        chars@ == line@,
    ensures
        (match r {
            Some(v) => Some(v@),
            None => None,
        }) == flag_value(line@, flag@),
{
    let n = chars.len();
    let pat = chars_of(flag);
    proof {
        assert(chars@.subrange(0, n as int) =~= line@);
    }
    match rfind_range(chars, 0, n, &pat) {
        None => None,
        Some(p) => {
            let start = p + pat.len();
            let ghost after = line@.skip(p + pat.len());
            assert(after =~= chars@.subrange(start as int, n as int));
            if start < n && chars[start] == ' ' {
                assert(after[0] == chars@[start as int]);
                let v = skip_whitespace(chars, start, n);
                match find_char(chars, v, n, ' ') {
                    None => Some(substring(line, v, n)),
                    Some(_) => None,
                }
            } else {
                None
            }
        },
    }
}

/// The value typed after the first of the flags that has one.
pub fn extract_after_flag(line: &str, flags: &[&str]) -> (r: Option<String>)
    ensures
        (match r {
            Some(v) => Some(v@),
            None => None,
        }) == after_flags(line@, flags@.map_values(|f: &str| f@)),
{
    let chars = chars_of(line);
    let ghost all = flags@.map_values(|f: &str| f@);
    let mut i: usize = 0;
    assert(all.skip(0) =~= all);
    while i < flags.len()
        invariant
            i <= flags.len(),
            chars@ == line@,
            all == flags@.map_values(|f: &str| f@),
            after_flags(line@, all) == after_flags(line@, all.skip(i as int)),
        decreases flags.len() - i,
    {
        let ghost rest = all.skip(i as int);
        assert(rest[0] == flags@[i as int]@);
        assert(rest.drop_first() =~= all.skip(i + 1));
        match value_after_flag(line, &chars, flags[i]) {
            Some(v) => {
                return Some(v);
            },
            None => {},
        }
        i += 1;
    }
    None
}

/// The last word in `lo..hi`, if there is one.
fn last_word(chars: &Vec<char>, lo: usize, hi: usize) -> (r: Option<(usize, usize)>)
    requires
        lo <= hi <= chars.len(),
    ensures
        match r {
            Some((a, b)) => lo <= a < b <= hi && words(chars@.subrange(lo as int, hi as int)).len()
                > 0 && words(chars@.subrange(lo as int, hi as int)).last() == chars@.subrange(
                a as int,
                b as int,
            ),
            None => words(chars@.subrange(lo as int, hi as int)).len() == 0,
        },
{
    let ghost all = words(chars@.subrange(lo as int, hi as int));
    let ghost mut done: Seq<Seq<char>> = Seq::empty();
    let mut last: Option<(usize, usize)> = None;
    let mut pos: usize = lo;
    let mut more = true;
    proof {
        assert(done + all =~= all);
    }
    while more
        invariant
            lo <= pos <= hi <= chars.len(),
            all == words(chars@.subrange(lo as int, hi as int)),
            more ==> all == done + words(chars@.subrange(pos as int, hi as int)),
            !more ==> all == done,
            match last {
                Some((a, b)) => lo <= a < b <= hi && done.len() > 0 && done.last() == chars@.subrange(
                    a as int,
                    b as int,
                ),
                None => done.len() == 0,
            },
        decreases hi - pos + (if more { 1int } else { 0int }),
    {
        match next_word(chars, pos, hi) {
            None => {
                proof {
                    assert(all =~= done);
                }
                more = false;
            },
            Some((a, b)) => {
                proof {
                    done = done.push(chars@.subrange(a as int, b as int));
                    assert(all =~= done + words(chars@.subrange(b as int, hi as int)));
                }
                last = Some((a, b));
                pos = b;
            },
        }
    }
    last
}

/// Decides what is to be completed in a line, given up to the cursor.
pub fn completion_request(line: &str) -> (r: CompletionRequest)
    ensures
        r@ == request_spec(line@),
{
    let chars = chars_of(line);
    let n = chars.len();
    proof {
        assert(chars@.subrange(0, n as int) =~= line@);
    }
    if n > 0 && chars[0] == '/' {
        return CompletionRequest::Slash(line.to_owned());
    }
    let outcome_flags: [&str; 2] = ["-t", "--templates"];
    assert(outcome_flags@.map_values(|f: &str| f@) =~= seq!["-t"@, "--templates"@]);
    match extract_after_flag(line, &outcome_flags) {
        Some(p) => {
            return CompletionRequest::Templates(TemplateKind::Outcomes, p);
        },
        None => {},
    }
    let baseline_flags: [&str; 2] = ["-b", "--baselines"];
    assert(baseline_flags@.map_values(|f: &str| f@) =~= seq!["-b"@, "--baselines"@]);
    match extract_after_flag(line, &baseline_flags) {
        Some(p) => {
            return CompletionRequest::Templates(TemplateKind::Baselines, p);
        },
        None => {},
    }
    if range_starts_with(&chars, 0, n, "init ") {
        proof {
            reveal_strlit("init ");
        }
        let ghost after = line@.skip(5);
        assert(after =~= chars@.subrange(5, n as int));
        match find_char(&chars, 5, n, ' ') {
            None => {
                return CompletionRequest::InitTemplate(substring(line, 5, n));
            },
            Some(_) => {},
        }
        if range_starts_with(&chars, 5, n, "grf ") || range_starts_with(&chars, 5, n, "grf-event ") {
            match last_word(&chars, 5, n) {
                Some((a, b)) => {
                    assert(chars@.subrange(a as int, b as int)[0] == chars@[a as int]);
                    if chars[a] != '-' {
                        return CompletionRequest::Variables(substring(line, a, b));
                    }
                },
                None => {},
            }
        }
    }
    CompletionRequest::Commands(line.to_owned())
}

/// Suggestions for the names, in order, for the span from `start` to `end`.
fn suggest_names(names: &Vec<String>, count: usize, start: usize, end: usize) -> (r: Vec<Suggestion>)
    requires
        count <= names.len(),
    ensures
        suggestions_view(r@) == suggest(texts_view(names@).take(count as int), start as nat, end as nat),
{
    let mut r: Vec<Suggestion> = Vec::new();
    let mut i: usize = 0;
    let ghost all = suggest(texts_view(names@), start as nat, end as nat);
    while i < count
        invariant
            i <= count <= names.len(),
            all == suggest(texts_view(names@), start as nat, end as nat),
            suggestions_view(r@) == all.take(i as int),
        decreases count - i,
    {
        let ghost before = suggestions_view(r@);
        r.push(
            Suggestion {
                value: names[i].clone(),
                description: None,
                span_start: start,
                span_end: end,
                append_whitespace: true,
            },
        );
        proof {
            assert(suggestions_view(r@) =~= before.push(all[i as int]));
            assert(suggestions_view(r@) =~= all.take(i + 1));
        }
        i += 1;
    }
    proof {
        assert(all.take(count as int) =~= suggest(
            texts_view(names@).take(count as int),
            start as nat,
            end as nat,
        ));
    }
    r
}

/// Owned copies of string slices.
fn to_strings(v: &Vec<&'static str>) -> (r: Vec<String>)
    ensures
        texts_view(r@) == strs_view(v@),
{
    let mut r: Vec<String> = Vec::new();
    let mut i: usize = 0;
    while i < v.len()
        invariant
            i <= v.len(),
            texts_view(r@) == strs_view(v@).take(i as int),
        decreases v.len() - i,
    {
        let ghost before = texts_view(r@);
        r.push(v[i].to_owned());
        proof {
            assert(texts_view(r@) =~= before.push(v@[i as int]@));
            assert(texts_view(r@) =~= strs_view(v@).take(i + 1));
        }
        i += 1;
    }
    proof {
        assert(strs_view(v@).take(v.len() as int) =~= strs_view(v@));
    }
    r
}

/// Suggestions for the slash commands that match `prefix`, best first; each
/// replaces the whole prefix.
pub fn complete_slash(prefix: &str, commands: &Vec<&'static str>) -> (r: Vec<Suggestion>)
    ensures
        is_search_answer(prefix@, strs_view(commands@), suggestions_view(r@)),
{
    let names = to_strings(commands);
    let found = search_templates(prefix, &names);
    let r = suggest_names(&found, found.len(), 0, prefix.as_bytes().len());
    proof {
        let f = texts_view(found@);
        assert(f.take(found.len() as int) =~= f);
        assert(suggestions_view(r@) == suggest(f, 0, byte_len(prefix@)));
    }
    r
}

/// Suggestions for the templates that match `prefix`, best first; each
/// replaces the whole prefix.
pub fn complete_templates(prefix: &str, templates: &Vec<String>) -> (r: Vec<Suggestion>)
    ensures
        is_search_answer(prefix@, texts_view(templates@), suggestions_view(r@)),
{
    let found = search_templates(prefix, templates);
    let r = suggest_names(&found, found.len(), 0, prefix.as_bytes().len());
    proof {
        let f = texts_view(found@);
        assert(f.take(found.len() as int) =~= f);
        assert(suggestions_view(r@) == suggest(f, 0, byte_len(prefix@)));
    }
    r
}

/// Suggestions for the variables that match `prefix`: the first twenty of
/// the search, each with an empty span.
pub fn complete_variables(prefix: &str, variables: &Vec<String>) -> (r: Vec<Suggestion>)
    ensures
        is_variable_answer(prefix@, texts_view(variables@), suggestions_view(r@)),
{
    let found = search_variables(prefix, variables);
    let count: usize = if found.len() < 20 {
        found.len()
    } else {
        20
    };
    let r = suggest_names(&found, count, 0, 0);
    proof {
        let f = texts_view(found@);
        assert(f.take(count as int) =~= first_twenty(f));
        assert(suggestions_view(r@) == suggest(first_twenty(f), 0, 0));
    }
    r
}

/// Suggestions for the commands that begin with `prefix`, in their order;
/// each replaces the whole prefix.
pub fn complete_commands(prefix: &str, commands: &Vec<&'static str>) -> (r: Vec<Suggestion>)
    ensures
        suggestions_view(r@) == suggest(
            with_prefix(strs_view(commands@), prefix@),
            0,
            byte_len(prefix@),
        ),
{
    let mut r: Vec<Suggestion> = Vec::new();
    let end = prefix.as_bytes().len();
    let ghost all = strs_view(commands@);
    let mut i: usize = 0;
    proof {
        assert(suggestions_view(r@) =~= suggest(
            with_prefix(all.take(0), prefix@),
            0,
            byte_len(prefix@),
        ));
    }
    while i < commands.len()
        invariant
            i <= commands.len(),
            end == byte_len(prefix@),
            all == strs_view(commands@),
            suggestions_view(r@) == suggest(
                with_prefix(all.take(i as int), prefix@),
                0,
                byte_len(prefix@),
            ),
        decreases commands.len() - i,
    {
        let ghost before = suggestions_view(r@);
        proof {
            let next = all.take(i + 1);
            assert(next.drop_last() =~= all.take(i as int));
            assert(next.last() == commands@[i as int]@);
        }
        if str_starts_with(commands[i], prefix) {
            r.push(
                Suggestion {
                    value: commands[i].to_owned(),
                    description: None,
                    span_start: 0,
                    span_end: end,
                    append_whitespace: true,
                },
            );
            proof {
                assert(suggestions_view(r@) =~= before.push(
                    suggestion_of(commands@[i as int]@, 0, byte_len(prefix@)),
                ));
                assert(suggestions_view(r@) =~= suggest(
                    with_prefix(all.take(i + 1), prefix@),
                    0,
                    byte_len(prefix@),
                ));
            }
        }
        i += 1;
    }
    proof {
        assert(all.take(commands.len() as int) =~= all);
    }
    r
}

/// Suggestions for the kinds of project that begin with `prefix`; each
/// replaces what follows `init `.
pub fn complete_init_template(prefix: &str) -> (r: Vec<Suggestion>)
    ensures
        suggestions_view(r@) == init_suggestions(init_templates(), prefix@),
{
    let len = prefix.as_bytes().len();
    let end: usize = if len <= usize::MAX - 5 {
        len + 5
    } else {
        usize::MAX
    };
    let names: [&str; 3] = ["grf", "grf-event", "lmtp"];
    let descriptions: [&str; 3] = [
        "generalised random forests",
        "grf event study",
        "longitudinal modified treatment policies",
    ];
    let ghost table = init_templates();
    let mut r: Vec<Suggestion> = Vec::new();
    let mut i: usize = 0;
    proof {
        assert(suggestions_view(r@) =~= init_suggestions(table.take(0), prefix@));
    }
    while i < 3
        invariant
            i <= 3,
            end == span_end_after_init(byte_len(prefix@)),
            table == init_templates(),
            forall|k: int| 0 <= k < 3 ==> table[k] == (#[trigger] names@[k]@, descriptions@[k]@),
            suggestions_view(r@) == init_suggestions(table.take(i as int), prefix@),
        decreases 3 - i,
    {
        let ghost before = suggestions_view(r@);
        proof {
            let next = table.take(i + 1);
            assert(next.drop_last() =~= table.take(i as int));
            assert(next.last() == table[i as int]);
        }
        if str_starts_with(names[i], prefix) {
            r.push(
                Suggestion {
                    value: names[i].to_owned(),
                    description: Some(descriptions[i].to_owned()),
                    span_start: 5,
                    span_end: end,
                    append_whitespace: true,
                },
            );
            proof {
                assert(suggestions_view(r@) =~= init_suggestions(table.take(i + 1), prefix@));
            }
        }
        i += 1;
    }
    proof {
        assert(table.take(3) =~= table);
    }
    r
}

impl MargoCompleter {
    /// The completer of the session, with its commands.
    pub fn new() -> (c: MargoCompleter)
        ensures
            strs_view(c.commands@) == plain_commands(),
            strs_view(c.slash_commands@) == slash_commands(),
    {
        let mut commands: Vec<&'static str> = Vec::new();
        commands.push("init grf");
        commands.push("init grf-event");
        commands.push("init lmtp");
        commands.push("quit");
        commands.push("exit");
        let mut slash: Vec<&'static str> = Vec::new();
        slash.push("/help");
        slash.push("/h");
        slash.push("/config");
        slash.push("/config edit");
        slash.push("/config init");
        slash.push("/config path");
        slash.push("/templates");
        slash.push("/templates outcomes");
        slash.push("/templates baselines");
        slash.push("/templates edit");
        slash.push("/templates new outcomes");
        slash.push("/templates new baselines");
        slash.push("/vars");
        slash.push("/view");
        slash.push("/save");
        slash.push("/save outcomes");
        slash.push("/save baselines");
        slash.push("/theme");
        slash.push("/theme light");
        slash.push("/theme dark");
        slash.push("/theme toggle");
        slash.push("/clear");
        slash.push("/quit");
        slash.push("/q");
        assert(strs_view(commands@) =~= plain_commands());
        assert(strs_view(slash@) =~= slash_commands());
        MargoCompleter { commands, slash_commands: slash }
    }

    /// The suggestions for a line, given up to the cursor, among the
    /// user's templates and the known variables.
    pub fn complete(
        &self,
        line: &str,
        outcomes: &Vec<String>,
        baselines: &Vec<String>,
        variables: &Vec<String>,
    ) -> (r: Vec<Suggestion>)
        ensures
            answers(
                request_spec(line@),
                strs_view(self.commands@),
                strs_view(self.slash_commands@),
                texts_view(outcomes@),
                texts_view(baselines@),
                texts_view(variables@),
                suggestions_view(r@),
            ),
    {
        match completion_request(line) {
            CompletionRequest::Slash(p) => complete_slash(p.as_str(), &self.slash_commands),
            CompletionRequest::Templates(kind, p) => {
                if kind == TemplateKind::Outcomes {
                    complete_templates(p.as_str(), outcomes)
                } else {
                    complete_templates(p.as_str(), baselines)
                }
            },
            CompletionRequest::InitTemplate(p) => complete_init_template(p.as_str()),
            CompletionRequest::Variables(p) => complete_variables(p.as_str(), variables),
            CompletionRequest::Commands(p) => complete_commands(p.as_str(), &self.commands),
        }
    }
}

impl Default for MargoCompleter {
    fn default() -> (c: MargoCompleter)
        ensures
            strs_view(c.commands@) == plain_commands(),
            strs_view(c.slash_commands@) == slash_commands(),
    {
        MargoCompleter::new()
    }
}

} // verus!
