//! The guided setup of a project in the session: which question is asked
//! next, and what each answer leads to.
//!
//! The setup asks for the baseline variables, the exposure and the
//! outcomes, and before it makes the project for leave to do so.  An answer
//! that is withheld cancels the setup, except where a default stands in.

use crate::text::{starts_with, str_starts_with, texts_view};
use vstd::prelude::*;

verus! {

/// The kind of project that is set up.
#[derive(Debug, Clone, Copy, PartialEq, Eq, Structural)]
pub enum ProjectKind {
    Grf,
    GrfEvent,
}

/// The question that the guided setup asks next, or how it ended.
#[derive(Debug, Clone, Copy, PartialEq, Eq, Structural)]
pub enum WizardStep {
    /// From what the baseline variables are taken: a template, a template
    /// that is modified, or variables picked one by one.
    BaselineMethod,
    /// Which baseline template is used.
    PickBaseline,
    /// Which baseline template is modified.
    PickBaselineToModify,
    /// Which variables the modified template holds.
    EditBaseline,
    /// Which variables are the baseline.
    CustomBaseline,
    /// Which variable is the exposure.
    PickExposure,
    /// From what the outcomes are taken: templates or variables.
    OutcomeMethod,
    /// Which outcome template is used.
    PickOutcomeTemplate,
    /// Which variables are the outcomes.
    PickOutcomes,
    /// Whether an event study names its outcome variable.
    AskOutcomeVariable,
    /// Which variable is the outcome of the event study.
    PickOutcomeVariable,
    /// Whether the project that exists in the directory is overwritten.
    ConfirmOverwrite,
    /// Whether the setup goes on although some project files exist.
    ConfirmContinue,
    /// Whether the project is made.
    ConfirmCreate,
    /// The project is to be made.
    Create,
    /// The setup was cancelled.
    Cancelled,
}

/// What stands in the directory in which the project is made.
#[derive(Debug, Clone, Copy, PartialEq, Eq, Structural)]
pub enum Existing {
    /// None of a project's files.
    Clean,
    /// A whole project.
    Complete,
    /// Some of a project's files.
    Partial,
}

/// What the guided setup finds around it.
#[derive(Debug, Clone, Copy, PartialEq, Eq, Structural)]
pub struct Surroundings {
    /// The user has baseline templates.
    pub has_baselines: bool,
    /// The user has outcome templates.
    pub has_outcome_templates: bool,
    pub existing: Existing,
}

/// An answer to a question of the guided setup; `None` inside it means that
/// the user gave none.
#[derive(Debug, Clone)]
pub enum Answer {
    /// One item of a list.
    Chosen(Option<String>),
    /// Some items of a list.
    Picked(Option<Vec<String>>),
    /// Yes or no.
    Confirmed(Option<bool>),
}

/// An answer as plain values.
pub enum AnswerView {
    Chosen(Option<Seq<char>>),
    Picked(Option<Seq<Seq<char>>>),
    Confirmed(Option<bool>),
}

impl View for Answer {
    type V = AnswerView;

    open spec fn view(&self) -> AnswerView {
        match self {
            Answer::Chosen(c) => AnswerView::Chosen(
                match c {
                    Some(s) => Some(s@),
                    None => None,
                },
            ),
            Answer::Picked(p) => AnswerView::Picked(
                match p {
                    Some(v) => Some(texts_view(v@)),
                    None => None,
                },
            ),
            Answer::Confirmed(b) => AnswerView::Confirmed(*b),
        }
    }
}

/// The guided setup: the question it is at, and what was answered so far.
#[derive(Debug, Clone)]
pub struct Wizard {
    pub kind: ProjectKind,
    pub step: WizardStep,
    /// The name of the baseline template.
    pub baseline: String,
    /// The baseline variables, where they are not the template's own.
    pub baseline_vars: Option<Vec<String>>,
    pub exposure: String,
    /// The outcome variables picked one by one.
    pub outcomes: Vec<String>,
    /// The outcome templates.
    pub templates: Option<Vec<String>>,
    /// The outcome variable of an event study.
    pub outcome: Option<String>,
}

/// The guided setup as plain values.
pub struct WizardView {
    pub kind: ProjectKind,
    pub step: WizardStep,
    pub baseline: Seq<char>,
    pub baseline_vars: Option<Seq<Seq<char>>>,
    pub exposure: Seq<char>,
    pub outcomes: Seq<Seq<char>>,
    pub templates: Option<Seq<Seq<char>>>,
    pub outcome: Option<Seq<char>>,
}

impl View for Wizard {
    type V = WizardView;

    open spec fn view(&self) -> WizardView {
        WizardView {
            kind: self.kind,
            step: self.step,
            baseline: self.baseline@,
            baseline_vars: match self.baseline_vars {
                Some(v) => Some(texts_view(v@)),
                None => None,
            },
            exposure: self.exposure@,
            outcomes: texts_view(self.outcomes@),
            templates: match self.templates {
                Some(v) => Some(texts_view(v@)),
                None => None,
            },
            outcome: match self.outcome {
                Some(s) => Some(s@),
                None => None,
            },
        }
    }
}

impl WizardView {
    /// The setup at its beginning: without baseline templates the default
    /// baseline is taken and the exposure is asked for at once.
    pub open spec fn start(kind: ProjectKind, around: Surroundings) -> WizardView {
        WizardView {
            kind,
            step: if !around.has_baselines {
                WizardStep::PickExposure
            } else if kind == ProjectKind::Grf {
                WizardStep::BaselineMethod
            } else {
                WizardStep::PickBaseline
            },
            baseline: "default"@,
            baseline_vars: None,
            exposure: Seq::empty(),
            outcomes: Seq::empty(),
            templates: None,
            outcome: None,
        }
    }

    /// The setup at another question.
    pub open spec fn at(self, step: WizardStep) -> WizardView {
        WizardView { step, ..self }
    }

    /// The first question about leave to make the project: it depends on
    /// what stands in the directory.
    pub open spec fn ask_leave(self, around: Surroundings) -> WizardView {
        self.at(
            match around.existing {
                Existing::Complete => WizardStep::ConfirmOverwrite,
                Existing::Partial => WizardStep::ConfirmContinue,
                Existing::Clean => WizardStep::ConfirmCreate,
            },
        )
    }

    /// The baseline template that an answer names: the default if it names
    /// none.
    pub open spec fn baseline_named(choice: Option<Seq<char>>) -> Seq<char> {
        match choice {
            Some(c) => c,
            None => "default"@,
        }
    }

    /// What an answer leads to.
    pub open spec fn step(self, answer: AnswerView, around: Surroundings) -> WizardView {
        match self.step {
            WizardStep::BaselineMethod => match answer {
                AnswerView::Chosen(Some(m)) => if starts_with(m, "template"@) {
                    self.at(WizardStep::PickBaseline)
                } else if starts_with(m, "modify"@) {
                    self.at(WizardStep::PickBaselineToModify)
                } else if starts_with(m, "custom"@) {
                    self.at(WizardStep::CustomBaseline)
                } else {
                    self.at(WizardStep::Cancelled)
                },
                _ => self.at(WizardStep::Cancelled),
            },
            WizardStep::PickBaseline => match answer {
                AnswerView::Chosen(c) => (WizardView {
                    baseline: Self::baseline_named(c),
                    ..self
                }).at(WizardStep::PickExposure),
                _ => self.at(WizardStep::Cancelled),
            },
            WizardStep::PickBaselineToModify => match answer {
                AnswerView::Chosen(c) => (WizardView {
                    baseline: Self::baseline_named(c),
                    ..self
                }).at(WizardStep::EditBaseline),
                _ => self.at(WizardStep::Cancelled),
            },
            WizardStep::EditBaseline => match answer {
                AnswerView::Picked(Some(vars)) => (WizardView {
                    baseline_vars: Some(vars),
                    ..self
                }).at(WizardStep::PickExposure),
                _ => self.at(WizardStep::Cancelled),
            },
            WizardStep::CustomBaseline => match answer {
                AnswerView::Picked(Some(vars)) => if vars.len() > 0 {
                    (WizardView { baseline: "custom"@, baseline_vars: Some(vars), ..self }).at(
                        WizardStep::PickExposure,
                    )
                } else {
                    self.at(WizardStep::Cancelled)
                },
                _ => self.at(WizardStep::Cancelled),
            },
            WizardStep::PickExposure => match answer {
                AnswerView::Chosen(Some(e)) => (WizardView { exposure: e, ..self }).at(
                    if self.kind == ProjectKind::GrfEvent {
                        WizardStep::AskOutcomeVariable
                    } else if around.has_outcome_templates {
                        WizardStep::OutcomeMethod
                    } else {
                        WizardStep::PickOutcomes
                    },
                ),
                _ => self.at(WizardStep::Cancelled),
            },
            WizardStep::OutcomeMethod => match answer {
                AnswerView::Chosen(Some(m)) => if starts_with(m, "templates"@) {
                    self.at(WizardStep::PickOutcomeTemplate)
                } else if starts_with(m, "variables"@) {
                    self.at(WizardStep::PickOutcomes)
                } else {
                    self.at(WizardStep::Cancelled)
                },
                _ => self.at(WizardStep::Cancelled),
            },
            WizardStep::PickOutcomeTemplate => match answer {
                AnswerView::Chosen(Some(t)) => (WizardView {
                    templates: Some(seq![t]),
                    ..self
                }).ask_leave(around),
                _ => self.at(WizardStep::Cancelled),
            },
            WizardStep::PickOutcomes => match answer {
                AnswerView::Picked(Some(vars)) => if vars.len() > 0 {
                    (WizardView { outcomes: vars, ..self }).ask_leave(around)
                } else {
                    self.at(WizardStep::Cancelled)
                },
                _ => self.at(WizardStep::Cancelled),
            },
            WizardStep::AskOutcomeVariable => match answer {
                AnswerView::Confirmed(Some(true)) => self.at(WizardStep::PickOutcomeVariable),
                AnswerView::Confirmed(_) => self.ask_leave(around),
                _ => self.at(WizardStep::Cancelled),
            },
            WizardStep::PickOutcomeVariable => match answer {
                AnswerView::Chosen(c) => (WizardView { outcome: c, ..self }).ask_leave(around),
                _ => self.at(WizardStep::Cancelled),
            },
            WizardStep::ConfirmOverwrite | WizardStep::ConfirmContinue => match answer {
                AnswerView::Confirmed(Some(true)) => self.at(WizardStep::ConfirmCreate),
                _ => self.at(WizardStep::Cancelled),
            },
            WizardStep::ConfirmCreate => match answer {
                AnswerView::Confirmed(Some(true)) => self.at(WizardStep::Create),
                _ => self.at(WizardStep::Cancelled),
            },
            WizardStep::Create | WizardStep::Cancelled => self,
        }
    }

    /// The setup has ended.
    pub open spec fn ended(self) -> bool {
        self.step == WizardStep::Create || self.step == WizardStep::Cancelled
    }
}

/// A project is made only after leave was given: the step before the
/// making is the last question, and its answer was yes.
pub proof fn law_create_needs_leave(w: WizardView, answer: AnswerView, around: Surroundings)
    requires
        w.step != WizardStep::Create,
        w.step(answer, around).step == WizardStep::Create,
    ensures
        w.step == WizardStep::ConfirmCreate,
        answer == AnswerView::Confirmed(Some(true)),
{
}

/// Where a project's files exist, the last question is reached only after
/// leave to overwrite them was given.
pub proof fn law_existing_files_need_leave(w: WizardView, answer: AnswerView, around: Surroundings)
    requires
        around.existing != Existing::Clean,
        w.step != WizardStep::ConfirmCreate,
        w.step(answer, around).step == WizardStep::ConfirmCreate,
    ensures
        w.step == WizardStep::ConfirmOverwrite || w.step == WizardStep::ConfirmContinue,
        answer == AnswerView::Confirmed(Some(true)),
{
}

impl Wizard {
    /// Begins the guided setup of a project.
    pub fn start(kind: ProjectKind, around: Surroundings) -> (w: Wizard)
        ensures
            w@ == WizardView::start(kind, around),
    {
        let step = if !around.has_baselines {
            WizardStep::PickExposure
        } else if kind == ProjectKind::Grf {
            WizardStep::BaselineMethod
        } else {
            WizardStep::PickBaseline
        };
        let w = Wizard {
            kind,
            step,
            baseline: "default".to_owned(),
            baseline_vars: None,
            exposure: String::new(),
            outcomes: Vec::new(),
            templates: None,
            outcome: None,
        };
        assert(w@.outcomes =~= Seq::empty());
        w
    }

    fn ask_leave(&mut self, around: Surroundings)
        ensures
            final(self)@ == old(self)@.ask_leave(around),
    {
        self.step = match around.existing {
            Existing::Complete => WizardStep::ConfirmOverwrite,
            Existing::Partial => WizardStep::ConfirmContinue,
            Existing::Clean => WizardStep::ConfirmCreate,
        };
    }

    fn baseline_named(choice: Option<String>) -> (r: String)
        ensures
            r@ == WizardView::baseline_named(
                match choice {
                    Some(c) => Some(c@),
                    None => None,
                },
            ),
    {
        match choice {
            Some(c) => c,
            None => "default".to_owned(),
        }
    }

    /// Takes an answer to the question that the setup is at.
    pub fn advance(&mut self, answer: Answer, around: Surroundings)
        ensures
            final(self)@ == old(self)@.step(answer@, around),
    {
        match self.step {
            WizardStep::BaselineMethod => match answer {
                Answer::Chosen(Some(m)) => {
                    self.step = if str_starts_with(m.as_str(), "template") {
                        WizardStep::PickBaseline
                    } else if str_starts_with(m.as_str(), "modify") {
                        WizardStep::PickBaselineToModify
                    } else if str_starts_with(m.as_str(), "custom") {
                        WizardStep::CustomBaseline
                    } else {
                        WizardStep::Cancelled
                    };
                },
                _ => {
                    self.step = WizardStep::Cancelled;
                },
            },
            WizardStep::PickBaseline => match answer {
                Answer::Chosen(c) => {
                    self.baseline = Wizard::baseline_named(c);
                    self.step = WizardStep::PickExposure;
                },
                _ => {
                    self.step = WizardStep::Cancelled;
                },
            },
            WizardStep::PickBaselineToModify => match answer {
                Answer::Chosen(c) => {
                    self.baseline = Wizard::baseline_named(c);
                    self.step = WizardStep::EditBaseline;
                },
                _ => {
                    self.step = WizardStep::Cancelled;
                },
            },
            WizardStep::EditBaseline => match answer {
                Answer::Picked(Some(vars)) => {
                    self.baseline_vars = Some(vars);
                    self.step = WizardStep::PickExposure;
                },
                _ => {
                    self.step = WizardStep::Cancelled;
                },
            },
            WizardStep::CustomBaseline => match answer {
                Answer::Picked(Some(vars)) => {
                    if vars.len() > 0 {
                        self.baseline = "custom".to_owned();
                        self.baseline_vars = Some(vars);
                        self.step = WizardStep::PickExposure;
                    } else {
                        self.step = WizardStep::Cancelled;
                    }
                },
                _ => {
                    self.step = WizardStep::Cancelled;
                },
            },
            WizardStep::PickExposure => match answer {
                Answer::Chosen(Some(e)) => {
                    self.exposure = e;
                    self.step = if self.kind == ProjectKind::GrfEvent {
                        WizardStep::AskOutcomeVariable
                    } else if around.has_outcome_templates {
                        WizardStep::OutcomeMethod
                    } else {
                        WizardStep::PickOutcomes
                    };
                },
                _ => {
                    self.step = WizardStep::Cancelled;
                },
            },
            WizardStep::OutcomeMethod => match answer {
                Answer::Chosen(Some(m)) => {
                    self.step = if str_starts_with(m.as_str(), "templates") {
                        WizardStep::PickOutcomeTemplate
                    } else if str_starts_with(m.as_str(), "variables") {
                        WizardStep::PickOutcomes
                    } else {
                        WizardStep::Cancelled
                    };
                },
                _ => {
                    self.step = WizardStep::Cancelled;
                },
            },
            WizardStep::PickOutcomeTemplate => match answer {
                Answer::Chosen(Some(t)) => {
                    let ghost name = t@;
                    let mut list: Vec<String> = Vec::new();
                    list.push(t);
                    assert(texts_view(list@) =~= seq![name]);
                    self.templates = Some(list);
                    self.ask_leave(around);
                },
                _ => {
                    self.step = WizardStep::Cancelled;
                },
            },
            WizardStep::PickOutcomes => match answer {
                Answer::Picked(Some(vars)) => {
                    if vars.len() > 0 {
                        self.outcomes = vars;
                        self.ask_leave(around);
                    } else {
                        self.step = WizardStep::Cancelled;
                    }
                },
                _ => {
                    self.step = WizardStep::Cancelled;
                },
            },
            WizardStep::AskOutcomeVariable => match answer {
                Answer::Confirmed(Some(true)) => {
                    self.step = WizardStep::PickOutcomeVariable;
                },
                Answer::Confirmed(_) => {
                    self.ask_leave(around);
                },
                _ => {
                    self.step = WizardStep::Cancelled;
                },
            },
            WizardStep::PickOutcomeVariable => match answer {
                Answer::Chosen(c) => {
                    self.outcome = c;
                    self.ask_leave(around);
                },
                _ => {
                    self.step = WizardStep::Cancelled;
                },
            },
            WizardStep::ConfirmOverwrite | WizardStep::ConfirmContinue => match answer {
                Answer::Confirmed(Some(true)) => {
                    self.step = WizardStep::ConfirmCreate;
                },
                _ => {
                    self.step = WizardStep::Cancelled;
                },
            },
            WizardStep::ConfirmCreate => match answer {
                Answer::Confirmed(Some(true)) => {
                    self.step = WizardStep::Create;
                },
                _ => {
                    self.step = WizardStep::Cancelled;
                },
            },
            WizardStep::Create | WizardStep::Cancelled => {},
        }
    }

    /// Whether the setup has ended.
    pub fn ended(&self) -> (r: bool)
        ensures
            r == self@.ended(),
    {
        self.step == WizardStep::Create || self.step == WizardStep::Cancelled
    }
}

/// The baseline templates in the order in which they are offered: `default`
/// first if it is among them, the others as they stand.
pub open spec fn default_first(names: Seq<Seq<char>>) -> Seq<Seq<char>> {
    if exists|i: int| 0 <= i < names.len() && names[i] == "default"@ {
        let i = choose|i: int|
            0 <= i < names.len() && names[i] == "default"@ && forall|j: int|
                0 <= j < i ==> names[j] != "default"@;
        seq!["default"@] + names.remove(i)
    } else {
        names
    }
}

/// Puts `default` before the other baseline templates.
pub fn offer_baselines(available: &Vec<String>) -> (r: Vec<String>)
    ensures
        texts_view(r@) == default_first(texts_view(available@)),
{
    let ghost names = texts_view(available@);
    let mut found: Option<usize> = None;
    let mut i: usize = 0;
    while i < available.len() && found.is_none()
        invariant
            i <= available.len(),
            names == texts_view(available@),
            match found {
                Some(k) => k < available.len() && names[k as int] == "default"@ && forall|j: int|
                    0 <= j < k ==> names[j] != "default"@,
                None => forall|j: int| 0 <= j < i ==> names[j] != "default"@,
            },
        decreases available.len() - i + (if found is None { 1int } else { 0int }),
    {
        if crate::text::str_eq(available[i].as_str(), "default") {
            found = Some(i);
        } else {
            i += 1;
        }
    }
    let mut r: Vec<String> = Vec::new();
    match found {
        None => {
            let mut k: usize = 0;
            while k < available.len()
                invariant
                    k <= available.len(),
                    names == texts_view(available@),
                    texts_view(r@) == names.take(k as int),
                decreases available.len() - k,
            {
                let ghost before = texts_view(r@);
                r.push(available[k].clone());
                proof {
                    assert(texts_view(r@) =~= before.push(names[k as int]));
                    assert(texts_view(r@) =~= names.take(k + 1));
                }
                k += 1;
            }
            proof {
                assert(names.take(available.len() as int) =~= names);
            }
        },
        Some(at) => {
            r.push("default".to_owned());
            let ghost chosen = choose|i: int|
                0 <= i < names.len() && names[i] == "default"@ && forall|j: int|
                    0 <= j < i ==> names[j] != "default"@;
            assert(chosen == at) by {
                assert(names[at as int] == "default"@);
                if chosen < at {
                    assert(names[chosen] != "default"@);
                }
                if at < chosen {
                    assert(names[at as int] != "default"@);
                }
            }
            let ghost rest = names.remove(at as int);
            let mut k: usize = 0;
            proof {
                assert(texts_view(r@) =~= seq!["default"@] + rest.take(0));
            }
            while k < available.len()
                invariant
                    k <= available.len(),
                    at < available.len(),
                    names == texts_view(available@),
                    rest == names.remove(at as int),
                    texts_view(r@) == seq!["default"@] + rest.take(
                        if k <= at {
                            k as int
                        } else {
                            k - 1
                        },
                    ),
                decreases available.len() - k,
            {
                if k != at {
                    let ghost before = texts_view(r@);
                    r.push(available[k].clone());
                    proof {
                        let idx = if k < at {
                            k as int
                        } else {
                            k - 1
                        };
                        assert(rest[idx] == names[k as int]);
                        assert(texts_view(r@) =~= before.push(names[k as int]));
                        assert(rest.take(idx + 1) =~= rest.take(idx).push(rest[idx]));
                        assert(texts_view(r@) =~= seq!["default"@] + rest.take(idx + 1));
                    }
                }
                k += 1;
            }
            proof {
                assert(rest.take(available.len() - 1) =~= rest);
            }
        },
    }
    r
}

} // verus!
