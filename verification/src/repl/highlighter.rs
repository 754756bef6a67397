//! Colouring a line of input as it is typed.

use crate::text::{
    chars_of, find_char, index_of, next_word, range_equals, range_starts_with, starts_with,
    substring, words,
};
use crate::theme::Swatch;
use vstd::prelude::*;

verus! {

/// A piece of a line and the role that gives it its colour.
#[derive(Debug, Clone)]
pub struct StyledSpan {
    pub swatch: Swatch,
    pub text: String,
}

/// A coloured piece as plain values.
pub struct SpanView {
    pub swatch: Swatch,
    pub text: Seq<char>,
}

impl View for StyledSpan {
    type V = SpanView;

    open spec fn view(&self) -> SpanView {
        SpanView { swatch: self.swatch, text: self.text@ }
    }
}

/// Coloured pieces as plain values.
pub open spec fn spans_view(spans: Seq<StyledSpan>) -> Seq<SpanView> {
    spans.map_values(|s: StyledSpan| s@)
}

/// Colours lines of input.
#[derive(Debug, Clone, Copy)]
pub struct MargoHighlighter;

/// The pieces of a slash command: the command up to the first space, and
/// after a space all that follows, unless nothing does.
pub open spec fn slash_spans(line: Seq<char>) -> Seq<SpanView> {
    let i = index_of(line, ' ');
    if i < 0 {
        seq![SpanView { swatch: Swatch::Sapphire, text: line }]
    } else if line.skip(i + 1).len() == 0 {
        seq![SpanView { swatch: Swatch::Sapphire, text: line.take(i) }]
    } else {
        seq![
            SpanView { swatch: Swatch::Sapphire, text: line.take(i) },
            SpanView { swatch: Swatch::Text, text: " "@ },
            SpanView { swatch: Swatch::Teal, text: line.skip(i + 1) },
        ]
    }
}

/// How far the words after `init` have been coloured.
pub struct InitState {
    pub spans: Seq<SpanView>,
    /// A flag was seen, and no plain word since its value.
    pub in_flag: bool,
    /// The value of the last flag was seen.
    pub after_flag: bool,
}

/// The role of a word after `init`: a flag if it begins with `-`; the value
/// of a flag if it follows one directly; else the kind of project if it is
/// the first word, and a variable if it is not.
pub open spec fn init_word(st: InitState, word: Seq<char>, first: bool) -> InitState {
    let spans = if first {
        st.spans
    } else {
        st.spans.push(SpanView { swatch: Swatch::Text, text: " "@ })
    };
    if word.len() > 0 && word[0] == '-' {
        InitState {
            spans: spans.push(SpanView { swatch: Swatch::Peach, text: word }),
            in_flag: true,
            after_flag: false,
        }
    } else if st.in_flag && !st.after_flag {
        InitState {
            spans: spans.push(SpanView { swatch: Swatch::Yellow, text: word }),
            in_flag: st.in_flag,
            after_flag: true,
        }
    } else {
        InitState {
            spans: spans.push(
                SpanView {
                    swatch: if first {
                        Swatch::Mauve
                    } else {
                        Swatch::Teal
                    },
                    text: word,
                },
            ),
            in_flag: false,
            after_flag: false,
        }
    }
}

/// The state after the given words.
pub open spec fn init_words(ws: Seq<Seq<char>>, init: InitState) -> InitState
    decreases ws.len(),
{
    if ws.len() == 0 {
        init
    } else {
        init_word(init_words(ws.drop_last(), init), ws.last(), ws.len() == 1)
    }
}

/// The pieces of an `init` command: the keyword, the space after it, and
/// the words that follow with single spaces between them.
pub open spec fn init_spans(line: Seq<char>) -> Seq<SpanView> {
    let head = seq![SpanView { swatch: Swatch::Mauve, text: "init"@ }];
    let spaced = line.len() > 4 && line[4] == ' ';
    let start = if spaced {
        head.push(SpanView { swatch: Swatch::Text, text: " "@ })
    } else {
        head
    };
    let rest = if spaced {
        line.skip(5)
    } else if line.len() >= 4 {
        line.skip(4)
    } else {
        Seq::empty()
    };
    init_words(words(rest), InitState { spans: start, in_flag: false, after_flag: false }).spans
}

/// The coloured pieces of a line of input.
pub open spec fn highlight_spec(line: Seq<char>) -> Seq<SpanView> {
    if line.len() == 0 {
        Seq::empty()
    } else if line[0] == '/' {
        slash_spans(line)
    } else if starts_with(line, "init "@) {
        init_spans(line)
    } else if line == "quit"@ || line == "exit"@ || line == "q"@ {
        seq![SpanView { swatch: Swatch::Sapphire, text: line }]
    } else {
        seq![SpanView { swatch: Swatch::Text, text: line }]
    }
}

/// Colours a slash command.
pub fn highlight_slash_command(line: &str, styled: &mut Vec<StyledSpan>)
    ensures
        spans_view(final(styled)@) == spans_view(old(styled)@) + slash_spans(line@),
{
    let chars = chars_of(line);
    let n = chars.len();
    let ghost before = spans_view(styled@);
    proof {
        assert(chars@.subrange(0, n as int) =~= line@);
    }
    match find_char(&chars, 0, n, ' ') {
        None => {
            styled.push(StyledSpan { swatch: Swatch::Sapphire, text: line.to_owned() });
            assert(spans_view(styled@) =~= before + slash_spans(line@));
        },
        Some(i) => {
            proof {
                assert(line@.take(i as int) =~= line@.subrange(0, i as int));
                assert(line@.skip(i + 1) =~= line@.subrange(i + 1, n as int));
            }
            styled.push(StyledSpan { swatch: Swatch::Sapphire, text: substring(line, 0, i) });
            if i + 1 < n {
                styled.push(StyledSpan { swatch: Swatch::Text, text: " ".to_owned() });
                styled.push(StyledSpan { swatch: Swatch::Teal, text: substring(line, i + 1, n) });
            }
            assert(spans_view(styled@) =~= before + slash_spans(line@));
        },
    }
}

/// Colours an `init` command.
pub fn highlight_init_command(line: &str, styled: &mut Vec<StyledSpan>)
    ensures
        spans_view(final(styled)@) == spans_view(old(styled)@) + init_spans(line@),
{
    let chars = chars_of(line);
    let n = chars.len();
    let ghost before = spans_view(styled@);
    styled.push(StyledSpan { swatch: Swatch::Mauve, text: "init".to_owned() });
    let spaced = n > 4 && chars[4] == ' ';
    if spaced {
        styled.push(StyledSpan { swatch: Swatch::Text, text: " ".to_owned() });
    }
    let start: usize = if spaced {
        5
    } else if n >= 4 {
        4
    } else {
        n
    };
    let ghost rest = chars@.subrange(start as int, n as int);
    let ghost head = seq![SpanView { swatch: Swatch::Mauve, text: "init"@ }];
    let ghost init = InitState {
        spans: if spaced {
            head.push(SpanView { swatch: Swatch::Text, text: " "@ })
        } else {
            head
        },
        in_flag: false,
        after_flag: false,
    };
    proof {
        assert(rest =~= if spaced {
            line@.skip(5)
        } else if n >= 4 {
            line@.skip(4)
        } else {
            Seq::empty()
        });
        assert(spans_view(styled@) =~= before + init.spans);
        assert(spans_view(styled@).skip(before.len() as int) =~= init.spans);
        assert(spans_view(styled@).take(before.len() as int) =~= before);
    }
    let mut in_flag = false;
    let mut after_flag = false;
    let mut first = true;
    let mut pos: usize = start;
    let mut more = true;
    let ghost mut done: Seq<Seq<char>> = Seq::empty();
    proof {
        assert(done + words(rest) =~= words(rest));
    }
    while more
        invariant
            chars@ == line@,
            n == chars.len(),
            start <= pos <= n,
            rest == chars@.subrange(start as int, n as int),
            more ==> words(rest) == done + words(chars@.subrange(pos as int, n as int)),
            !more ==> words(rest) == done,
            first == (done.len() == 0),
            (InitState { spans: spans_view(styled@).skip(before.len() as int), in_flag, after_flag })
                == init_words(done, init),
            spans_view(styled@).len() >= before.len(),
            spans_view(styled@).take(before.len() as int) == before,
            init.spans == (if line@.len() > 4 && line@[4] == ' ' {
                seq![SpanView { swatch: Swatch::Mauve, text: "init"@ }].push(
                    SpanView { swatch: Swatch::Text, text: " "@ },
                )
            } else {
                seq![SpanView { swatch: Swatch::Mauve, text: "init"@ }]
            }),
            !init.in_flag,
            !init.after_flag,
            rest == (if line@.len() > 4 && line@[4] == ' ' {
                line@.skip(5)
            } else if line@.len() >= 4 {
                line@.skip(4)
            } else {
                Seq::empty()
            }),
        decreases n - pos + (if more { 1int } else { 0int }),
    {
        match next_word(&chars, pos, n) {
            None => {
                proof {
                    assert(words(rest) =~= done);
                }
                more = false;
            },
            Some((a, b)) => {
                let ghost word = chars@.subrange(a as int, b as int);
                let ghost prev = done;
                let ghost old_spans = spans_view(styled@);
                let ghost st = InitState {
                    spans: old_spans.skip(before.len() as int),
                    in_flag,
                    after_flag,
                };
                if !first {
                    styled.push(StyledSpan { swatch: Swatch::Text, text: " ".to_owned() });
                }
                assert(word[0] == chars@[a as int]);
                if chars[a] == '-' {
                    styled.push(StyledSpan { swatch: Swatch::Peach, text: substring(line, a, b) });
                    in_flag = true;
                    after_flag = false;
                } else if in_flag && !after_flag {
                    styled.push(StyledSpan { swatch: Swatch::Yellow, text: substring(line, a, b) });
                    after_flag = true;
                } else {
                    let swatch = if first {
                        Swatch::Mauve
                    } else {
                        Swatch::Teal
                    };
                    styled.push(StyledSpan { swatch, text: substring(line, a, b) });
                    in_flag = false;
                    after_flag = false;
                }
                proof {
                    done = done.push(word);
                    assert(done.drop_last() =~= prev);
                    assert(done.last() == word);
                    assert(words(rest) =~= done + words(chars@.subrange(b as int, n as int)));
                    let next = init_word(st, word, first);
                    assert(spans_view(styled@).skip(before.len() as int) =~= next.spans);
                    assert(spans_view(styled@).take(before.len() as int) =~= before);
                }
                first = false;
                pos = b;
            },
        }
    }
    proof {
        let tail = spans_view(styled@).skip(before.len() as int);
        assert(spans_view(styled@) =~= before + tail);
    }
}

impl MargoHighlighter {
    /// The highlighter of the session.
    pub fn new() -> (h: MargoHighlighter) {
        MargoHighlighter
    }

    /// Colours a line of input.
    pub fn highlight(&self, line: &str) -> (styled: Vec<StyledSpan>)
        ensures
            spans_view(styled@) == highlight_spec(line@),
    {
        let mut styled: Vec<StyledSpan> = Vec::new();
        let chars = chars_of(line);
        let n = chars.len();
        if n == 0 {
            assert(spans_view(styled@) =~= highlight_spec(line@));
            return styled;
        }
        proof {
            assert(chars@.subrange(0, n as int) =~= line@);
        }
        if chars[0] == '/' {
            highlight_slash_command(line, &mut styled);
            assert(spans_view(styled@) =~= highlight_spec(line@));
            return styled;
        }
        if range_starts_with(&chars, 0, n, "init ") {
            highlight_init_command(line, &mut styled);
            assert(spans_view(styled@) =~= highlight_spec(line@));
            return styled;
        }
        let swatch = if range_equals(&chars, 0, n, "quit") || range_equals(&chars, 0, n, "exit")
            || range_equals(&chars, 0, n, "q") {
            Swatch::Sapphire
        } else {
            Swatch::Text
        };
        styled.push(StyledSpan { swatch, text: line.to_owned() });
        assert(spans_view(styled@) =~= highlight_spec(line@));
        styled
    }
}

impl Default for MargoHighlighter {
    fn default() -> (h: MargoHighlighter) {
        MargoHighlighter::new()
    }
}

} // verus!
