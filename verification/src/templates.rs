//! Variable templates: reading the list of variables out of a template
//! file, and writing such lists.
//!
//! A template file holds one list, `vars = [ ... ]`, of quoted variable
//! names.  The list may stand on one line or run over several; in the
//! second form each line holds one name, and a line that begins with `#` is
//! a comment.

use crate::config::{
    join_path, kind_dir, kind_dir_in, path_in, template_path, template_path_in, Config,
    TemplateKind,
};
use crate::listing::{is_sorted, list_templates, listing_view, template_names, DirEntry};
use crate::sync::{files_map, files_view, lookup, opt_str_view, TemplateFile};
use crate::text::{
    chars_of, decimal, find_char, index_of, is_char, join, lines, next_line, next_piece,
    range_starts_with, split, starts_with, strip_end, strip_end_range, substring, texts_view, trim,
    trim_matches, trim_matches_range, trim_range,
};
use vstd::prelude::*;

verus! {

/// A named list of variables.
#[derive(Debug, Clone)]
pub struct Template {
    pub name: String,
    pub vars: Vec<String>,
}

/// A template as plain values.
pub struct TemplateView {
    pub name: Seq<char>,
    pub vars: Seq<Seq<char>>,
}

impl View for Template {
    type V = TemplateView;

    open spec fn view(&self) -> TemplateView {
        TemplateView { name: self.name@, vars: texts_view(self.vars@) }
    }
}

impl Default for Template {
    fn default() -> (t: Template)
        ensures
            t@.name.len() == 0,
            t@.vars.len() == 0,
    {
        Template { name: String::new(), vars: Vec::new() }
    }
}

/// An item of a list without the whitespace around it and the quotes
/// around that: double quotes first, then single ones.
pub open spec fn unquote(item: Seq<char>) -> Seq<char> {
    trim_matches(trim_matches(trim(item), '"'), '\'')
}

/// The names among the items of a one-line list: each item unquoted, the
/// empty ones left out.
pub open spec fn collect_items(pieces: Seq<Seq<char>>) -> Seq<Seq<char>>
    decreases pieces.len(),
{
    if pieces.len() == 0 {
        Seq::empty()
    } else {
        let before = collect_items(pieces.drop_last());
        let name = unquote(pieces.last());
        if name.len() > 0 {
            before.push(name)
        } else {
            before
        }
    }
}

/// How far a template file has been read: the names found, and whether a
/// list is open.
pub struct VarsState {
    pub vars: Seq<Seq<char>>,
    pub in_vars: bool,
}

/// What one line of a template file adds.
///
/// A line that begins with `vars` and holds `[` opens the list.  If it also
/// holds `]`, the list is the text between the first `[` and the first `]`,
/// split at commas, and is closed again; a `]` that stands before the `[`
/// closes an empty list.  While a list is open, each line gives the name
/// left after removing trailing commas, then trailing `]`, then quotes,
/// unless nothing is left or it begins with `#`; a line that holds `]`
/// closes the list.  Any other line adds nothing.
pub open spec fn vars_step(st: VarsState, raw: Seq<char>) -> VarsState {
    let line = trim(raw);
    let open = index_of(line, '[');
    let close = index_of(line, ']');
    if starts_with(line, "vars"@) && open >= 0 {
        if close < 0 {
            VarsState { vars: st.vars, in_vars: true }
        } else {
            let items = if open < close {
                line.subrange(open + 1, close)
            } else {
                Seq::empty()
            };
            VarsState { vars: st.vars + collect_items(split(items, ',')), in_vars: false }
        }
    } else if st.in_vars {
        let name = unquote(strip_end(strip_end(line, is_char(',')), is_char(']')));
        VarsState {
            vars: if name.len() > 0 && name[0] != '#' {
                st.vars.push(name)
            } else {
                st.vars
            },
            in_vars: close < 0,
        }
    } else {
        st
    }
}

/// The state after the given lines, read in order.
pub open spec fn vars_fold(ls: Seq<Seq<char>>, init: VarsState) -> VarsState
    decreases ls.len(),
{
    if ls.len() == 0 {
        init
    } else {
        vars_step(vars_fold(ls.drop_last(), init), ls.last())
    }
}

/// The variables that a template file's content lists.
pub open spec fn parse_vars_spec(content: Seq<char>) -> Seq<Seq<char>> {
    vars_fold(lines(content), VarsState { vars: Seq::empty(), in_vars: false }).vars
}

/// The template that a file gives: none if there is no file or it lists no
/// variable.
pub open spec fn load_template_spec(content: Option<Seq<char>>, name: Seq<char>) -> Option<
    TemplateView,
> {
    match content {
        None => None,
        Some(c) => if parse_vars_spec(c).len() == 0 {
            None
        } else {
            Some(TemplateView { name, vars: parse_vars_spec(c) })
        },
    }
}

/// The content of the file at `path`, if there is one.
pub open spec fn read_file(fs: Map<Seq<char>, Seq<char>>, path: Seq<char>) -> Option<Seq<char>> {
    if fs.contains_key(path) {
        Some(fs[path])
    } else {
        None
    }
}

/// The view of an optional template.
pub open spec fn opt_template_view(t: Option<Template>) -> Option<TemplateView> {
    match t {
        Some(t) => Some(t@),
        None => None,
    }
}

/// Narrows `lo..hi` to the item in it, unquoted.
fn unquote_range(chars: &Vec<char>, lo: usize, hi: usize) -> (r: (usize, usize))
    requires
        lo <= hi <= chars.len(),
    ensures
        lo <= r.0 <= r.1 <= hi,
        chars@.subrange(r.0 as int, r.1 as int) == unquote(chars@.subrange(lo as int, hi as int)),
{
    let (a, b) = trim_range(chars, lo, hi);
    let (c, d) = trim_matches_range(chars, a, b, '"');
    trim_matches_range(chars, c, d, '\'')
}

/// Adds the names among the items of the one-line list in `lo..hi`.
fn push_items(src: &str, chars: &Vec<char>, lo: usize, hi: usize, vars: &mut Vec<String>)
    requires
        chars@ == src@,
        lo <= hi <= chars.len(),
    ensures
        texts_view(final(vars)@) == texts_view(old(vars)@) + collect_items(
            split(chars@.subrange(lo as int, hi as int), ','),
        ),
{
    let ghost base = texts_view(vars@);
    let ghost all = split(chars@.subrange(lo as int, hi as int), ',');
    let ghost mut done: Seq<Seq<char>> = Seq::empty();
    let mut pos: usize = lo;
    let mut more = true;
    proof {
        assert(done + all =~= all);
        assert(base + collect_items(done) =~= base);
    }
    while more
        invariant
            chars@ == src@,
            lo <= pos <= hi <= chars.len(),
            all == split(chars@.subrange(lo as int, hi as int), ','),
            more ==> all == done + split(chars@.subrange(pos as int, hi as int), ','),
            !more ==> all == done,
            texts_view(vars@) == base + collect_items(done),
        decreases hi - pos + (if more { 1int } else { 0int }),
    {
        let (end, next) = next_piece(chars, pos, hi, ',');
        let (a, b) = unquote_range(chars, pos, end);
        let ghost piece = chars@.subrange(pos as int, end as int);
        let ghost before = done;
        let ghost old_vars = texts_view(vars@);
        if a < b {
            vars.push(substring(src, a, b));
            assert(texts_view(vars@) =~= old_vars.push(unquote(piece)));
        }
        proof {
            done = done.push(piece);
            assert(done.drop_last() =~= before);
            assert(texts_view(vars@) =~= base + collect_items(done));
        }
        match next {
            Some(n) => {
                proof {
                    assert(all =~= done + split(chars@.subrange(n as int, hi as int), ','));
                }
                pos = n;
            },
            None => {
                proof {
                    assert(all =~= done);
                }
                more = false;
            },
        }
    }
}

/// Applies the line `lo..hi` of a template file.
fn vars_line(
    src: &str,
    chars: &Vec<char>,
    lo: usize,
    hi: usize,
    vars: &mut Vec<String>,
    in_vars: &mut bool,
)
    requires
        chars@ == src@,
        lo <= hi <= chars.len(),
    ensures
        (VarsState { vars: texts_view(final(vars)@), in_vars: *final(in_vars) }) == vars_step(
            VarsState { vars: texts_view(old(vars)@), in_vars: *old(in_vars) },
            chars@.subrange(lo as int, hi as int),
        ),
{
    let (a, b) = trim_range(chars, lo, hi);
    let ghost line = chars@.subrange(a as int, b as int);
    let ghost before = texts_view(vars@);
    let open = find_char(chars, a, b, '[');
    let close = find_char(chars, a, b, ']');
    if range_starts_with(chars, a, b, "vars") && open.is_some() {
        let open_at = open.unwrap();
        match close {
            None => {
                *in_vars = true;
            },
            Some(close_at) => {
                if open_at < close_at {
                    proof {
                        assert(line.subrange(open_at - a + 1, close_at - a) =~= chars@.subrange(
                            open_at + 1,
                            close_at as int,
                        ));
                    }
                    push_items(src, chars, open_at + 1, close_at, vars);
                } else {
                    proof {
                        assert(chars@.subrange(a as int, a as int) =~= Seq::<char>::empty());
                    }
                    push_items(src, chars, a, a, vars);
                }
                *in_vars = false;
            },
        }
    } else if *in_vars {
        let e1 = strip_end_range(chars, a, b, ',');
        let e2 = strip_end_range(chars, a, e1, ']');
        let (x, y) = unquote_range(chars, a, e2);
        if x < y {
            assert(chars@.subrange(x as int, y as int)[0] == chars@[x as int]);
            if chars[x] != '#' {
                vars.push(substring(src, x, y));
                assert(texts_view(vars@) =~= before.push(chars@.subrange(x as int, y as int)));
            }
        }
        *in_vars = close.is_none();
    }
}

impl Config {
    /// Reads the variables that a template file's content lists.
    pub fn parse_vars(content: &str) -> (vars: Vec<String>)
        ensures
            texts_view(vars@) == parse_vars_spec(content@),
    {
        let chars = chars_of(content);
        let n = chars.len();
        let mut vars: Vec<String> = Vec::new();
        let mut in_vars = false;
        let mut pos: usize = 0;
        let ghost init = VarsState { vars: Seq::empty(), in_vars: false };
        let ghost mut done: Seq<Seq<char>> = Seq::empty();
        proof {
            assert(content@.skip(0) =~= content@);
            assert(done + lines(content@) =~= lines(content@));
            assert(texts_view(vars@) =~= init.vars);
        }
        while pos < n
            invariant
                chars@ == content@,
                n == chars.len(),
                pos <= n,
                init == (VarsState { vars: Seq::empty(), in_vars: false }),
                lines(content@) == done + lines(content@.skip(pos as int)),
                (VarsState { vars: texts_view(vars@), in_vars }) == vars_fold(done, init),
            decreases n - pos,
        {
            let (lo, hi, next) = next_line(&chars, pos);
            proof {
                let line = chars@.subrange(lo as int, hi as int);
                let before = done;
                done = done.push(line);
                assert(done.drop_last() =~= before);
                assert(lines(content@) =~= done + lines(content@.skip(next as int)));
            }
            vars_line(content, &chars, lo, hi, &mut vars, &mut in_vars);
            pos = next;
        }
        proof {
            assert(content@.skip(n as int) =~= Seq::<char>::empty());
            assert(lines(content@) =~= done);
        }
        vars
    }

    /// The template `name` as a file's content gives it.
    pub fn load_template(content: Option<&str>, name: &str) -> (t: Option<Template>)
        ensures
            opt_template_view(t) == load_template_spec(opt_str_view(content), name@),
    {
        match content {
            None => None,
            Some(c) => {
                let vars = Config::parse_vars(c);
                if vars.len() == 0 {
                    None
                } else {
                    Some(Template { name: name.to_owned(), vars })
                }
            },
        }
    }

    /// The user's baseline template `name`, read from the files under
    /// `config_dir`.
    pub fn load_baselines(config_dir: &str, files: &Vec<TemplateFile>, name: &str) -> (t: Option<
        Template,
    >)
        ensures
            opt_template_view(t) == load_template_spec(
                read_file(
                    files_map(files_view(files@)),
                    template_path(config_dir@, TemplateKind::Baselines, name@),
                ),
                name@,
            ),
    {
        let path = template_path_in(config_dir, TemplateKind::Baselines, name);
        Config::load_template(lookup(files, path.as_str()), name)
    }

    /// The user's outcome template `name`, read from the files under
    /// `config_dir`.
    pub fn load_outcomes(config_dir: &str, files: &Vec<TemplateFile>, name: &str) -> (t: Option<
        Template,
    >)
        ensures
            opt_template_view(t) == load_template_spec(
                read_file(
                    files_map(files_view(files@)),
                    template_path(config_dir@, TemplateKind::Outcomes, name@),
                ),
                name@,
            ),
    {
        let path = template_path_in(config_dir, TemplateKind::Outcomes, name);
        Config::load_template(lookup(files, path.as_str()), name)
    }

    /// The names of the user's baseline templates, sorted.
    pub fn list_baselines(config_dir: &str, entries: &Vec<DirEntry>) -> (names: Vec<String>)
        ensures
            is_sorted(texts_view(names@)),
            texts_view(names@).to_multiset() == template_names(
                listing_view(entries@),
                kind_dir(config_dir@, TemplateKind::Baselines),
            ).to_multiset(),
    {
        let dir = kind_dir_in(config_dir, TemplateKind::Baselines);
        list_templates(entries, dir.as_str())
    }

    /// The names of the user's outcome templates, sorted.
    pub fn list_outcomes(config_dir: &str, entries: &Vec<DirEntry>) -> (names: Vec<String>)
        ensures
            is_sorted(texts_view(names@)),
            texts_view(names@).to_multiset() == template_names(
                listing_view(entries@),
                kind_dir(config_dir@, TemplateKind::Outcomes),
            ).to_multiset(),
    {
        let dir = kind_dir_in(config_dir, TemplateKind::Outcomes);
        list_templates(entries, dir.as_str())
    }

    /// The names of the example baseline templates, sorted.
    pub fn list_baselines_examples(config_dir: &str, entries: &Vec<DirEntry>) -> (names: Vec<String>)
        ensures
            is_sorted(texts_view(names@)),
            texts_view(names@).to_multiset() == template_names(
                listing_view(entries@),
                path_in(kind_dir(config_dir@, TemplateKind::Baselines), "examples"@),
            ).to_multiset(),
    {
        let dir = kind_dir_in(config_dir, TemplateKind::Baselines);
        let examples = join_path(dir.as_str(), "examples");
        list_templates(entries, examples.as_str())
    }

    /// The names of the example outcome templates, sorted.
    pub fn list_outcomes_examples(config_dir: &str, entries: &Vec<DirEntry>) -> (names: Vec<String>)
        ensures
            is_sorted(texts_view(names@)),
            texts_view(names@).to_multiset() == template_names(
                listing_view(entries@),
                path_in(kind_dir(config_dir@, TemplateKind::Outcomes), "examples"@),
            ).to_multiset(),
    {
        let dir = kind_dir_in(config_dir, TemplateKind::Outcomes);
        let examples = join_path(dir.as_str(), "examples");
        list_templates(entries, examples.as_str())
    }
}

/// A name between double quotes.
pub open spec fn quoted(name: Seq<char>) -> Seq<char> {
    "\""@ + name + "\""@
}

/// The names, each between double quotes.
pub open spec fn quoted_all(names: Seq<Seq<char>>) -> Seq<Seq<char>> {
    names.map_values(|n: Seq<char>| quoted(n))
}

/// The names as an array with one name per line.
pub open spec fn var_array(names: Seq<Seq<char>>) -> Seq<char> {
    if names.len() == 0 {
        "[]"@
    } else {
        "[\n  "@ + join(quoted_all(names), ",\n  "@) + "\n]"@
    }
}

/// The names as an array on one line.
pub open spec fn string_array(names: Seq<Seq<char>>) -> Seq<char> {
    if names.len() == 0 {
        "[]"@
    } else {
        "["@ + join(quoted_all(names), ", "@) + "]"@
    }
}

/// One line per name: the indent, the name between double quotes, a comma.
pub open spec fn var_lines(names: Seq<Seq<char>>, indent: Seq<char>) -> Seq<char>
    decreases names.len(),
{
    if names.len() == 0 {
        Seq::empty()
    } else {
        var_lines(names.drop_last(), indent) + indent + quoted(names.last()) + ",\n"@
    }
}

/// A template file for the names: a comment, then the list with one name
/// per line.
pub open spec fn template_file_text(header: Seq<char>, names: Seq<Seq<char>>, indent: Seq<char>) -> Seq<
    char,
> {
    header + "\n\nvars = [\n"@ + var_lines(names, indent) + "]\n"@
}

/// At most three names, and how many there are if there are more.
pub open spec fn outcomes_summary(names: Seq<Seq<char>>) -> Seq<char> {
    if names.len() <= 3 {
        join(names, ", "@)
    } else {
        join(names.take(3), ", "@) + ", ... ("@ + decimal(names.len()) + " total)"@
    }
}

/// Writes the names, each quoted, with `sep` between them.
fn join_quoted(names: &[String], sep: &str) -> (r: String)
    ensures
        r@ == join(quoted_all(texts_view(names@)), sep@),
{
    let ghost all = quoted_all(texts_view(names@));
    let mut r = String::new();
    let mut i: usize = 0;
    proof {
        assert(r@ =~= join(all.take(0), sep@));
    }
    while i < names.len()
        invariant
            i <= names.len(),
            all == quoted_all(texts_view(names@)),
            r@ == join(all.take(i as int), sep@),
        decreases names.len() - i,
    {
        if i > 0 {
            r.append(sep);
        }
        r.append("\"");
        r.append(names[i].as_str());
        r.append("\"");
        proof {
            let next = all.take(i + 1);
            assert(next.drop_last() =~= all.take(i as int));
            assert(next.last() == quoted(names@[i as int]@));
            assert(r@ =~= join(next, sep@));
        }
        i += 1;
    }
    proof {
        assert(all.take(names.len() as int) =~= all);
    }
    r
}

/// Writes the names with `sep` between them.
fn join_names(names: &[String], count: usize, sep: &str) -> (r: String)
    requires
        count <= names.len(),
    ensures
        r@ == join(texts_view(names@).take(count as int), sep@),
{
    let ghost all = texts_view(names@);
    let mut r = String::new();
    let mut i: usize = 0;
    proof {
        assert(r@ =~= join(all.take(0), sep@));
    }
    while i < count
        invariant
            i <= count <= names.len(),
            all == texts_view(names@),
            r@ == join(all.take(i as int), sep@),
        decreases count - i,
    {
        if i > 0 {
            r.append(sep);
        }
        r.append(names[i].as_str());
        proof {
            let next = all.take(i + 1);
            assert(next.drop_last() =~= all.take(i as int));
            assert(next.last() == names@[i as int]@);
            assert(r@ =~= join(next, sep@));
        }
        i += 1;
    }
    r
}

/// Formats names as a TOML array with one name per line.
pub fn format_var_array(vars: &[String]) -> (r: String)
    ensures
        r@ == var_array(texts_view(vars@)),
{
    if vars.len() == 0 {
        return "[]".to_owned();
    }
    let mut r = "[\n  ".to_owned();
    let body = join_quoted(vars, ",\n  ");
    r.append(body.as_str());
    r.append("\n]");
    r
}

/// Formats names as a TOML array on one line.
pub fn format_string_array(vars: &[String]) -> (r: String)
    ensures
        r@ == string_array(texts_view(vars@)),
{
    if vars.len() == 0 {
        return "[]".to_owned();
    }
    let mut r = "[".to_owned();
    let body = join_quoted(vars, ", ");
    r.append(body.as_str());
    r.append("]");
    r
}

/// Writes a template file for the names under the given comment line.
fn write_template(header: &str, vars: &[String], indent: &str) -> (r: String)
    ensures
        r@ == template_file_text(header@, texts_view(vars@), indent@),
{
    let ghost all = texts_view(vars@);
    let mut r = header.to_owned();
    r.append("\n\nvars = [\n");
    let ghost head = r@;
    let mut i: usize = 0;
    proof {
        assert(r@ =~= head + var_lines(all.take(0), indent@));
    }
    while i < vars.len()
        invariant
            i <= vars.len(),
            all == texts_view(vars@),
            r@ == head + var_lines(all.take(i as int), indent@),
        decreases vars.len() - i,
    {
        r.append(indent);
        r.append("\"");
        r.append(vars[i].as_str());
        r.append("\"");
        r.append(",\n");
        proof {
            let next = all.take(i + 1);
            assert(next.drop_last() =~= all.take(i as int));
            assert(next.last() == vars@[i as int]@);
            assert(r@ =~= head + var_lines(next, indent@));
        }
        i += 1;
    }
    proof {
        assert(all.take(vars.len() as int) =~= all);
    }
    r.append("]\n");
    r
}

/// The content of a template file made from picked variables.
pub fn format_template_toml(vars: &[String]) -> (r: String)
    ensures
        r@ == template_file_text("# template created with /save"@, texts_view(vars@), "  "@),
{
    write_template("# template created with /save", vars, "  ")
}

/// The content of a template file after its variables were edited.
pub fn edited_template_toml(vars: &[String]) -> (r: String)
    ensures
        r@ == template_file_text("# template variables"@, texts_view(vars@), "    "@),
{
    write_template("# template variables", vars, "    ")
}

/// A short account of some outcome variables: all of them if there are at
/// most three, else the first three and the total.
pub fn format_outcomes_list(outcomes: &[String]) -> (r: String)
    ensures
        r@ == outcomes_summary(texts_view(outcomes@)),
{
    if outcomes.len() <= 3 {
        let r = join_names(outcomes, outcomes.len(), ", ");
        proof {
            let all = texts_view(outcomes@);
            assert(all.take(outcomes.len() as int) =~= all);
        }
        r
    } else {
        let mut r = join_names(outcomes, 3, ", ");
        r.append(", ... (");
        let count = crate::text::decimal_string(outcomes.len());
        r.append(count.as_str());
        r.append(" total)");
        r
    }
}

/// The starting content of a new outcome template.
pub const NEW_OUTCOMES_TEMPLATE: &'static str = r#"# outcome variables template
# add variable names from your dataset

vars = [
    # "wellbeing_index",
    # "life_satisfaction",
]
"#;

/// The starting content of a new baseline template.
pub const NEW_BASELINES_TEMPLATE: &'static str = r#"# baseline covariate template
# add variable names to include as covariates

vars = [
    # "age",
    # "male",
    # "education_level_coarsen",
]
"#;

/// The starting content of a new outcome template.
pub fn template_outcomes_content() -> (r: String)
    ensures
        r@ == NEW_OUTCOMES_TEMPLATE@,
{
    NEW_OUTCOMES_TEMPLATE.to_owned()
}

/// The starting content of a new baseline template.
pub fn template_baselines_content() -> (r: String)
    ensures
        r@ == NEW_BASELINES_TEMPLATE@,
{
    NEW_BASELINES_TEMPLATE.to_owned()
}

/// Some template of the catalog lists the variable.
pub open spec fn is_listed(catalog: Seq<crate::catalog::AssetView>, var: Seq<char>) -> bool {
    exists|i: int| 0 <= i < catalog.len() && parse_vars_spec((#[trigger] catalog[i]).content).contains(var)
}

/// The variables that the templates of a catalog list: sorted, each once.
pub fn catalog_variables(catalog: &Vec<crate::catalog::TemplateAsset>) -> (vars: Vec<String>)
    ensures
        crate::listing::is_strictly_sorted(texts_view(vars@)),
        forall|x: Seq<char>|
            texts_view(vars@).contains(x) <==> is_listed(crate::catalog::catalog_view(catalog@), x),
{
    let ghost cat = crate::catalog::catalog_view(catalog@);
    let mut vars: Vec<String> = Vec::new();
    let mut i: usize = 0;
    while i < catalog.len()
        invariant
            i <= catalog.len(),
            cat == crate::catalog::catalog_view(catalog@),
            crate::listing::is_strictly_sorted(texts_view(vars@)),
            forall|x: Seq<char>| texts_view(vars@).contains(x) <==> is_listed(cat.take(i as int), x),
        decreases catalog.len() - i,
    {
        let listed = Config::parse_vars(catalog[i].content.as_str());
        let ghost before = texts_view(vars@);
        let ghost added = texts_view(listed@);
        assert(added == texts_view(listed@));
        let merged = crate::listing::merge_names(&vars, &listed);
        proof {
            let now = texts_view(merged@);
            let prev = cat.take(i as int);
            let next = cat.take(i + 1);
            assert(next[i as int] == cat[i as int]);
            assert(added == parse_vars_spec(cat[i as int].content));
            assert forall|x: Seq<char>| now.contains(x) <==> is_listed(next, x) by {
                assert(before.contains(x) <==> is_listed(prev, x));
                assert(now.contains(x) <==> (before.contains(x) || added.contains(x)));
                if is_listed(prev, x) {
                    let k = choose|k: int|
                        0 <= k < prev.len() && parse_vars_spec((#[trigger] prev[k]).content).contains(
                            x,
                        );
                    assert(next[k] == prev[k]);
                }
                if added.contains(x) {
                    assert(parse_vars_spec(next[i as int].content).contains(x));
                }
                if is_listed(next, x) {
                    let k = choose|k: int|
                        0 <= k < next.len() && parse_vars_spec((#[trigger] next[k]).content).contains(
                            x,
                        );
                    if k < i {
                        assert(prev[k] == next[k]);
                    }
                }
            }
        }
        vars = merged;
        i += 1;
    }
    proof {
        assert(cat.take(catalog.len() as int) =~= cat);
    }
    vars
}

/// The variables that the bundled templates list: sorted, each once.
pub fn known_variables() -> (vars: Vec<String>)
    ensures
        crate::listing::is_strictly_sorted(texts_view(vars@)),
        forall|x: Seq<char>|
            texts_view(vars@).contains(x) <==> is_listed(crate::catalog::shipped_catalog(), x),
{
    let catalog = crate::catalog::shipped_templates();
    catalog_variables(&catalog)
}

} // verus!
