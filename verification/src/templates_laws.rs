//! Reading back a template file that was written.

use crate::templates::{
    parse_vars_spec, quoted, template_file_text, unquote, var_lines, vars_fold, vars_step,
    VarsState,
};
use crate::text::{
    ends_lines, index_of, is_char, is_whitespace, lemma_index_of_none, lemma_lines_push,
    lemma_strip_end_suffix, lemma_strip_start_prefix, lemma_trim_identity, lines, no_char,
    starts_with, strip_end, strip_start, trim, trim_matches, whitespace,
};
use vstd::prelude::*;

verus! {

/// A name that a template file can hold: not empty, on one line, without a
/// closing bracket, neither beginning nor ending with a quote or with
/// whitespace, and not beginning like a comment.
pub open spec fn is_plain_name(name: Seq<char>) -> bool {
    &&& name.len() > 0
    &&& no_char(name, '\n')
    &&& no_char(name, ']')
    &&& name[0] != '"' && name[0] != '\'' && name[0] != '#' && !is_whitespace(name[0])
    &&& name.last() != '"' && name.last() != '\'' && !is_whitespace(name.last())
}

/// A comment line: it begins with `#`, stays on one line, and does not end
/// with whitespace.
pub open spec fn is_comment_line(line: Seq<char>) -> bool {
    line.len() > 0 && line[0] == '#' && no_char(line, '\n') && !is_whitespace(line.last())
}

/// Spaces and tabs.
pub open spec fn is_indent(indent: Seq<char>) -> bool {
    forall|i: int| 0 <= i < indent.len() ==> (#[trigger] indent[i]) == ' ' || indent[i] == '\t'
}

/// A quoted name is read back as the name.
pub proof fn lemma_unquote_quoted(name: Seq<char>)
    requires
        is_plain_name(name),
    ensures
        unquote(quoted(name)) == name,
{
    reveal_strlit("\"");
    let q = quoted(name);
    let quote = "\""@;
    assert(q[0] == '"');
    assert(q.last() == '"');
    lemma_trim_identity(q);
    assert(q =~= quote + (name + quote));
    lemma_strip_start_prefix(quote, name + quote, is_char('"'));
    assert((name + quote)[0] == name[0]);
    lemma_strip_end_suffix(name, quote, is_char('"'));
    assert(trim_matches(q, '"') == name);
    let p = is_char('\'');
    assert(!p(name[0]));
    assert(!p(name.last()));
    assert(strip_start(name, p) == name);
    assert(strip_end(name, p) == name);
}

/// While a list is open, the line written for a name adds the name.
pub proof fn lemma_read_name_line(st: VarsState, name: Seq<char>, indent: Seq<char>)
    requires
        st.in_vars,
        is_plain_name(name),
        is_indent(indent),
    ensures
        vars_step(st, indent + quoted(name) + ","@) == (VarsState {
            vars: st.vars.push(name),
            in_vars: true,
        }),
{
    reveal_strlit("\"");
    reveal_strlit(",");
    reveal_strlit("vars");
    let q = quoted(name);
    let body = q + ","@;
    let raw = indent + q + ","@;
    assert(raw =~= indent + body);
    assert(body[0] == '"');
    assert(body.last() == ',');
    assert forall|i: int| 0 <= i < indent.len() implies whitespace()(#[trigger] indent[i]) by {}
    assert(!whitespace()(body[0]));
    lemma_strip_start_prefix(indent, body, whitespace());
    assert(!whitespace()(body.last()));
    assert(strip_end(body, whitespace()) == body);
    assert(trim(raw) == body);
    assert(!starts_with(body, "vars"@)) by {
        if starts_with(body, "vars"@) {
            assert(body.subrange(0, 4)[0] == 'v');
        }
    }
    assert forall|j: int| 0 <= j < body.len() implies body[j] != ']' by {
        if 1 <= j <= name.len() {
            assert(body[j] == name[j - 1]);
        }
    }
    lemma_index_of_none(body, ']');
    assert(q.last() == '"');
    lemma_strip_end_suffix(q, ","@, is_char(','));
    let closing = is_char(']');
    assert(!closing(q.last()));
    assert(strip_end(q, closing) == q);
    lemma_unquote_quoted(name);
}

/// The beginning of a template file and the lines of the first `k` names
/// are read as those names, with the list still open.
proof fn lemma_read_back_prefix(header: Seq<char>, names: Seq<Seq<char>>, indent: Seq<char>, k: int)
    requires
        is_comment_line(header),
        is_indent(indent),
        forall|i: int| 0 <= i < names.len() ==> is_plain_name(#[trigger] names[i]),
        0 <= k <= names.len(),
    ensures
        ends_lines(header + "\n\nvars = [\n"@ + var_lines(names.take(k), indent)),
        vars_fold(
            lines(header + "\n\nvars = [\n"@ + var_lines(names.take(k), indent)),
            VarsState { vars: Seq::empty(), in_vars: false },
        ) == (VarsState { vars: names.take(k), in_vars: true }),
    decreases k,
{
    reveal_strlit("\n\nvars = [\n");
    reveal_strlit("vars");
    reveal_strlit("\"");
    reveal_strlit(",");
    reveal_strlit(",\n");
    let nl = seq!['\n'];
    let init = VarsState { vars: Seq::empty(), in_vars: false };
    let text = header + "\n\nvars = [\n"@ + var_lines(names.take(k), indent);
    if k == 0 {
        let opening = seq!['v', 'a', 'r', 's', ' ', '=', ' ', '['];
        let blank = Seq::<char>::empty();
        let none = Seq::<char>::empty();
        assert(var_lines(names.take(0), indent) =~= Seq::<char>::empty());
        let t1 = none + header + nl;
        let t2 = t1 + blank + nl;
        let t3 = t2 + opening + nl;
        assert(text =~= t3);
        lemma_lines_push(none, header);
        assert(lines(none) =~= Seq::<Seq<char>>::empty());
        lemma_lines_push(t1, blank);
        lemma_lines_push(t2, opening);
        let ls = lines(t3);
        assert(ls =~= seq![header, blank, opening]);
        // the comment changes nothing
        lemma_trim_identity(header);
        assert(!starts_with(header, "vars"@)) by {
            if starts_with(header, "vars"@) {
                assert(header.subrange(0, 4)[0] == 'v');
            }
        }
        assert(vars_step(init, header) == init);
        // nor does the blank line
        assert(trim(blank) =~= blank);
        assert(index_of(blank, '[') == -1);
        assert(!starts_with(blank, "vars"@));
        assert(vars_step(init, blank) == init);
        // the opening line opens the list
        lemma_trim_identity(opening);
        assert(opening.subrange(0, 4) =~= "vars"@);
        crate::text::lemma_index_of_first(opening, '[', 7);
        lemma_index_of_none(opening, ']');
        assert(vars_step(init, opening) == (VarsState { vars: init.vars, in_vars: true }));
        let l1 = ls.drop_last();
        let l0 = l1.drop_last();
        assert(l1 =~= seq![header, blank]);
        assert(l0 =~= seq![header]);
        assert(l0.drop_last() =~= Seq::<Seq<char>>::empty());
        assert(vars_fold(l0.drop_last(), init) == init);
        assert(vars_fold(l0, init) == init);
        assert(vars_fold(l1, init) == init);
        assert(names.take(0) =~= init.vars);
    } else {
        lemma_read_back_prefix(header, names, indent, k - 1);
        let before = header + "\n\nvars = [\n"@ + var_lines(names.take(k - 1), indent);
        let name = names[k - 1];
        let line = indent + quoted(name) + ","@;
        assert(names.take(k).drop_last() =~= names.take(k - 1));
        assert(names.take(k).last() == name);
        assert(text =~= before + line + nl);
        assert(no_char(line, '\n')) by {
            assert forall|j: int| 0 <= j < line.len() implies line[j] != '\n' by {
                if j < indent.len() {
                    assert(line[j] == indent[j]);
                } else if indent.len() < j <= indent.len() + name.len() {
                    assert(line[j] == name[j - indent.len() - 1]);
                }
            }
        }
        assert(line.last() == ',');
        lemma_lines_push(before, line);
        let ls = lines(text);
        assert(ls.drop_last() =~= lines(before));
        assert(ls.last() == line);
        let st = VarsState { vars: names.take(k - 1), in_vars: true };
        lemma_read_name_line(st, name, indent);
        assert(names.take(k - 1).push(name) =~= names.take(k));
    }
}

/// A template file written for plain names, under a comment line and with
/// an indent of spaces or tabs, is read back as those names.
pub proof fn law_written_template_is_read_back(
    header: Seq<char>,
    names: Seq<Seq<char>>,
    indent: Seq<char>,
)
    requires
        is_comment_line(header),
        is_indent(indent),
        forall|i: int| 0 <= i < names.len() ==> is_plain_name(#[trigger] names[i]),
    ensures
        parse_vars_spec(template_file_text(header, names, indent)) == names,
{
    reveal_strlit("]\n");
    reveal_strlit("vars");
    let n = names.len() as int;
    lemma_read_back_prefix(header, names, indent, n);
    assert(names.take(n) =~= names);
    let before = header + "\n\nvars = [\n"@ + var_lines(names, indent);
    let closing = seq![']'];
    let text = template_file_text(header, names, indent);
    assert(text =~= before + closing + seq!['\n']);
    lemma_lines_push(before, closing);
    let ls = lines(text);
    assert(ls.drop_last() =~= lines(before));
    assert(ls.last() == closing);
    let st = VarsState { vars: names, in_vars: true };
    lemma_trim_identity(closing);
    assert(!starts_with(closing, "vars"@));
    assert(index_of(closing, ']') == 0);
    let comma = is_char(',');
    let bracket = is_char(']');
    assert(!comma(closing.last()));
    assert(strip_end(closing, comma) == closing);
    assert(bracket(closing.last()));
    let empty = Seq::<char>::empty();
    assert(closing.drop_last() =~= empty);
    assert(strip_end(empty, bracket) =~= empty);
    assert(strip_end(closing, bracket) =~= empty);
    assert(trim(empty) =~= empty);
    assert(strip_start(empty, is_char('"')) =~= empty);
    assert(strip_end(empty, is_char('"')) =~= empty);
    assert(strip_start(empty, is_char('\'')) =~= empty);
    assert(strip_end(empty, is_char('\'')) =~= empty);
    assert(unquote(empty) =~= empty);
    assert(vars_step(st, closing) == (VarsState { vars: names, in_vars: false }));
}

/// The template files that this crate writes are read back as the names
/// they were written for, if the names are plain.
pub proof fn law_saved_templates_are_read_back(names: Seq<Seq<char>>)
    requires
        forall|i: int| 0 <= i < names.len() ==> is_plain_name(#[trigger] names[i]),
    ensures
        parse_vars_spec(template_file_text("# template created with /save"@, names, "  "@))
            == names,
        parse_vars_spec(template_file_text("# template variables"@, names, "    "@)) == names,
{
    reveal_strlit("# template created with /save");
    reveal_strlit("# template variables");
    reveal_strlit("  ");
    reveal_strlit("    ");
    let saved = "# template created with /save"@;
    let edited = "# template variables"@;
    assert(saved.last() == 'e');
    assert(edited.last() == 's');
    law_written_template_is_read_back(saved, names, "  "@);
    law_written_template_is_read_back(edited, names, "    "@);
}

} // verus!
