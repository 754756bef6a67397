//! The interactive session: how a line of input is read, completed,
//! hinted at and coloured.

pub mod completer;
pub mod fuzzy;
pub mod highlighter;
pub mod hinter;
pub mod prompt;

use crate::config::{join_path, path_in};
use crate::text::{
    chars_of, range_equals, range_starts_with, starts_with, substring, trim, trim_range,
};
use vstd::prelude::*;

verus! {

/// What a line of input asks for.
#[derive(Debug, Clone)]
pub enum Input {
    /// To leave the session.
    Quit,
    /// A command that began with a slash; the slash is left out.
    Slash(String),
    /// To set up a project; the whole line is kept.
    Init(String),
    /// Nothing that is known.
    Unknown(String),
}

/// A line of input as plain values.
pub enum InputView {
    Quit,
    Slash(Seq<char>),
    Init(Seq<char>),
    Unknown(Seq<char>),
}

impl View for Input {
    type V = InputView;

    open spec fn view(&self) -> InputView {
        match self {
            Input::Quit => InputView::Quit,
            Input::Slash(s) => InputView::Slash(s@),
            Input::Init(s) => InputView::Init(s@),
            Input::Unknown(s) => InputView::Unknown(s@),
        }
    }
}

/// One of the words that end the session.
pub open spec fn is_quit_word(s: Seq<char>) -> bool {
    s == "q"@ || s == "quit"@ || s == "exit"@
}

/// What a line of input asks for: the line is trimmed; a slash begins a
/// command, of which `q`, `quit` and `exit` end the session; `init` alone or
/// followed by a space sets up a project; the quit words and their
/// editor-style forms `:q`, `:q!` and `:wq` end the session.
pub open spec fn parse_input_spec(raw: Seq<char>) -> InputView {
    let line = trim(raw);
    if line.len() > 0 && line[0] == '/' {
        if is_quit_word(line.skip(1)) {
            InputView::Quit
        } else {
            InputView::Slash(line.skip(1))
        }
    } else if starts_with(line, "init "@) || line == "init"@ {
        InputView::Init(line)
    } else if is_quit_word(line) || line == ":q"@ || line == ":q!"@ || line == ":wq"@ {
        InputView::Quit
    } else {
        InputView::Unknown(line)
    }
}

/// Whether `lo..hi` is one of the words that end the session.
fn range_is_quit_word(chars: &Vec<char>, lo: usize, hi: usize) -> (r: bool)
    requires
        lo <= hi <= chars.len(),
    ensures
        r == is_quit_word(chars@.subrange(lo as int, hi as int)),
{
    range_equals(chars, lo, hi, "q") || range_equals(chars, lo, hi, "quit") || range_equals(
        chars,
        lo,
        hi,
        "exit",
    )
}

/// Reads a line of input.
pub fn parse_input(line: &str) -> (input: Input)
    ensures
        input@ == parse_input_spec(line@),
{
    let chars = chars_of(line);
    proof {
        assert(chars@.subrange(0, chars.len() as int) =~= line@);
    }
    let (a, b) = trim_range(&chars, 0, chars.len());
    let ghost trimmed = chars@.subrange(a as int, b as int);
    if a < b && chars[a] == '/' {
        assert(trimmed[0] == chars@[a as int]);
        assert(trimmed.skip(1) =~= chars@.subrange(a + 1, b as int));
        if range_is_quit_word(&chars, a + 1, b) {
            return Input::Quit;
        }
        return Input::Slash(substring(line, a + 1, b));
    }
    if a < b {
        assert(trimmed[0] == chars@[a as int]);
    }
    if range_starts_with(&chars, a, b, "init ") || range_equals(&chars, a, b, "init") {
        return Input::Init(substring(line, a, b));
    }
    if range_is_quit_word(&chars, a, b) || range_equals(&chars, a, b, ":q") || range_equals(
        &chars,
        a,
        b,
        ":q!",
    ) || range_equals(&chars, a, b, ":wq") {
        return Input::Quit;
    }
    Input::Unknown(substring(line, a, b))
}

/// The file that holds the history of the session.
pub fn history_path(config_dir: &str) -> (r: String)
    ensures
        r@ == path_in(config_dir@, "history"@),
{
    join_path(config_dir, "history")
}

} // verus!
