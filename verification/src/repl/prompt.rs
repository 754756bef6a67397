//! The prompt of the session, with an indicator of the editing mode.

use crate::repl::highlighter::{spans_view, SpanView, StyledSpan};
use crate::theme::Swatch;
use vstd::prelude::*;

verus! {

/// The editing mode of the line editor.
#[derive(Debug, Clone, Copy, PartialEq, Eq, Structural)]
pub enum EditMode {
    Default,
    Emacs,
    ViInsert,
    ViNormal,
    Custom,
}

/// The prompt; it remembers whether the editor was last seen in the normal
/// mode of vi.
#[derive(Debug, Clone, Copy, PartialEq, Eq, Structural)]
pub struct MargoPrompt {
    pub vi_normal: bool,
}

/// The mark that stands for an editing mode, and its role.
pub open spec fn indicator_spec(mode: EditMode) -> SpanView {
    match mode {
        EditMode::Default | EditMode::Emacs | EditMode::ViInsert => SpanView {
            swatch: Swatch::Teal,
            text: "❯"@,
        },
        EditMode::ViNormal => SpanView { swatch: Swatch::Pink, text: "●"@ },
        EditMode::Custom => SpanView { swatch: Swatch::Peach, text: "▸"@ },
    }
}

/// The pieces of the right prompt, which are shown with `sep` between them:
/// in the normal mode of vi how to leave it, else the commands worth
/// knowing.
pub open spec fn right_prompt_spec(vi_normal: bool) -> Seq<SpanView> {
    if vi_normal {
        seq![
            SpanView { swatch: Swatch::Overlay0, text: "NORMAL"@ },
            SpanView { swatch: Swatch::Overlay0, text: "•"@ },
            SpanView { swatch: Swatch::Subtext0, text: "i"@ },
            SpanView { swatch: Swatch::Overlay0, text: "insert"@ },
        ]
    } else {
        seq![
            SpanView { swatch: Swatch::Overlay0, text: "/help"@ },
            SpanView { swatch: Swatch::Overlay0, text: "/home"@ },
            SpanView { swatch: Swatch::Overlay0, text: "/q"@ },
        ]
    }
}

impl MargoPrompt {
    /// The prompt of a session that has not seen the normal mode of vi.
    pub fn new() -> (prompt: MargoPrompt)
        ensures
            !prompt.vi_normal,
    {
        MargoPrompt { vi_normal: false }
    }

    /// The left prompt.
    pub fn render_prompt_left(&self) -> (span: StyledSpan)
        ensures
            span@ == (SpanView { swatch: Swatch::Pink, text: "margo"@ }),
    {
        StyledSpan { swatch: Swatch::Pink, text: "margo".to_owned() }
    }

    /// The pieces of the right prompt.
    pub fn render_prompt_right(&self) -> (spans: Vec<StyledSpan>)
        ensures
            spans_view(spans@) == right_prompt_spec(self.vi_normal),
    {
        let mut spans: Vec<StyledSpan> = Vec::new();
        if self.vi_normal {
            spans.push(StyledSpan { swatch: Swatch::Overlay0, text: "NORMAL".to_owned() });
            spans.push(StyledSpan { swatch: Swatch::Overlay0, text: "•".to_owned() });
            spans.push(StyledSpan { swatch: Swatch::Subtext0, text: "i".to_owned() });
            spans.push(StyledSpan { swatch: Swatch::Overlay0, text: "insert".to_owned() });
        } else {
            spans.push(StyledSpan { swatch: Swatch::Overlay0, text: "/help".to_owned() });
            spans.push(StyledSpan { swatch: Swatch::Overlay0, text: "/home".to_owned() });
            spans.push(StyledSpan { swatch: Swatch::Overlay0, text: "/q".to_owned() });
        }
        assert(spans_view(spans@) =~= right_prompt_spec(self.vi_normal));
        spans
    }

    /// The separator of the pieces of the right prompt.
    pub fn right_prompt_separator(&self) -> (sep: &'static str)
        ensures
            sep@ == (if self.vi_normal {
                " "@
            } else {
                "  "@
            }),
    {
        if self.vi_normal {
            " "
        } else {
            "  "
        }
    }

    /// The mark for the editing mode, which is shown between two spaces;
    /// the prompt remembers whether the mode is the normal mode of vi.
    pub fn render_prompt_indicator(&mut self, mode: EditMode) -> (span: StyledSpan)
        ensures
            span@ == indicator_spec(mode),
            final(self).vi_normal == (mode == EditMode::ViNormal),
    {
        match mode {
            EditMode::Default | EditMode::Emacs | EditMode::ViInsert => {
                self.vi_normal = false;
                StyledSpan { swatch: Swatch::Teal, text: "❯".to_owned() }
            },
            EditMode::ViNormal => {
                self.vi_normal = true;
                StyledSpan { swatch: Swatch::Pink, text: "●".to_owned() }
            },
            EditMode::Custom => {
                self.vi_normal = false;
                StyledSpan { swatch: Swatch::Peach, text: "▸".to_owned() }
            },
        }
    }

    /// The mark before the further lines of an input of several lines,
    /// which is followed by a space.
    pub fn render_prompt_multiline_indicator(&self) -> (span: StyledSpan)
        ensures
            span@ == (SpanView { swatch: Swatch::Overlay0, text: "..."@ }),
    {
        StyledSpan { swatch: Swatch::Overlay0, text: "...".to_owned() }
    }

    /// The two coloured pieces of the prompt of a search in the history: the
    /// word before `reverse-search: `, which says whether the search fails,
    /// and the text searched for.
    pub fn render_prompt_history_search_indicator(&self, failing: bool, term: &str) -> (spans: (
        StyledSpan,
        StyledSpan,
    ))
        ensures
            spans.0@ == (SpanView {
                swatch: Swatch::Overlay0,
                text: if failing {
                    "failing "@
                } else {
                    ""@
                },
            }),
            spans.1@ == (SpanView { swatch: Swatch::Sapphire, text: term@ }),
    {
        let prefix = if failing {
            "failing "
        } else {
            ""
        };
        (
            StyledSpan { swatch: Swatch::Overlay0, text: prefix.to_owned() },
            StyledSpan { swatch: Swatch::Sapphire, text: term.to_owned() },
        )
    }
}

impl Default for MargoPrompt {
    fn default() -> (prompt: MargoPrompt)
        ensures
            !prompt.vi_normal,
    {
        MargoPrompt::new()
    }
}

} // verus!
