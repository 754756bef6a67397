use margo::commands::wizard::{
    offer_baselines, Answer, Existing, ProjectKind, Surroundings, Wizard, WizardStep,
};
use margo::commands::{command_picker_items, picked_command, welcome_config, SlashCommand};
use margo::config::Config;

fn around(has_baselines: bool, has_outcome_templates: bool, existing: Existing) -> Surroundings {
    Surroundings { has_baselines, has_outcome_templates, existing }
}

fn chosen(s: &str) -> Answer {
    Answer::Chosen(Some(s.to_string()))
}

fn picked(list: &[&str]) -> Answer {
    Answer::Picked(Some(list.iter().map(|s| s.to_string()).collect()))
}

fn yes() -> Answer {
    Answer::Confirmed(Some(true))
}

#[test]
fn setup_with_a_template_baseline_and_picked_outcomes() {
    let a = around(true, false, Existing::Clean);
    let mut w = Wizard::start(ProjectKind::Grf, a);
    assert_eq!(w.step, WizardStep::BaselineMethod);
    w.advance(chosen("template     — use saved baseline template"), a);
    assert_eq!(w.step, WizardStep::PickBaseline);
    w.advance(chosen("minimal"), a);
    assert_eq!((w.step, w.baseline.as_str()), (WizardStep::PickExposure, "minimal"));
    assert!(w.baseline_vars.is_none());
    w.advance(chosen("church"), a);
    assert_eq!((w.step, w.exposure.as_str()), (WizardStep::PickOutcomes, "church"));
    w.advance(picked(&["pwi", "rwa"]), a);
    assert_eq!(w.step, WizardStep::ConfirmCreate);
    assert_eq!(w.outcomes, vec!["pwi", "rwa"]);
    assert!(!w.ended());
    w.advance(yes(), a);
    assert_eq!(w.step, WizardStep::Create);
    assert!(w.ended());
    w.advance(Answer::Confirmed(Some(false)), a);
    assert_eq!(w.step, WizardStep::Create);
}

#[test]
fn setup_with_a_modified_baseline_and_an_outcome_template() {
    let a = around(true, true, Existing::Complete);
    let mut w = Wizard::start(ProjectKind::Grf, a);
    w.advance(chosen("modify       — edit template variables"), a);
    assert_eq!(w.step, WizardStep::PickBaselineToModify);
    w.advance(Answer::Chosen(None), a);
    assert_eq!((w.step, w.baseline.as_str()), (WizardStep::EditBaseline, "default"));
    w.advance(picked(&[]), a);
    assert_eq!(w.step, WizardStep::PickExposure);
    assert_eq!(w.baseline_vars, Some(Vec::new()));
    w.advance(chosen("church"), a);
    assert_eq!(w.step, WizardStep::OutcomeMethod);
    w.advance(chosen("templates    — use saved outcome templates"), a);
    assert_eq!(w.step, WizardStep::PickOutcomeTemplate);
    w.advance(chosen("wellbeing"), a);
    assert_eq!(w.step, WizardStep::ConfirmOverwrite);
    assert_eq!(w.templates, Some(vec!["wellbeing".to_string()]));
    w.advance(yes(), a);
    assert_eq!(w.step, WizardStep::ConfirmCreate);
    w.advance(Answer::Confirmed(Some(false)), a);
    assert_eq!(w.step, WizardStep::Cancelled);
    assert!(w.ended());
}

#[test]
fn setup_with_a_custom_baseline() {
    let a = around(true, true, Existing::Partial);
    let mut w = Wizard::start(ProjectKind::Grf, a);
    w.advance(chosen("custom       — pick individual variables"), a);
    assert_eq!(w.step, WizardStep::CustomBaseline);
    w.advance(picked(&["age"]), a);
    assert_eq!((w.step, w.baseline.as_str()), (WizardStep::PickExposure, "custom"));
    assert_eq!(w.baseline_vars, Some(vec!["age".to_string()]));
    w.advance(chosen("x"), a);
    w.advance(chosen("variables    — pick individual variables"), a);
    assert_eq!(w.step, WizardStep::PickOutcomes);
    w.advance(picked(&["y"]), a);
    assert_eq!(w.step, WizardStep::ConfirmContinue);
    w.advance(Answer::Confirmed(None), a);
    assert_eq!(w.step, WizardStep::Cancelled);
}

#[test]
fn withheld_answers_cancel() {
    let a = around(true, true, Existing::Clean);
    let cases: Vec<(Vec<Answer>, Answer)> = vec![
        (vec![], Answer::Chosen(None)),
        (vec![], chosen("other")),
        (vec![], yes()),
        (vec![chosen("modify"), chosen("x")], Answer::Picked(None)),
        (vec![chosen("custom")], picked(&[])),
        (vec![chosen("custom")], Answer::Picked(None)),
        (vec![chosen("template"), chosen("x")], Answer::Chosen(None)),
        (vec![chosen("template"), chosen("x"), chosen("e")], Answer::Chosen(None)),
        (vec![chosen("template"), chosen("x"), chosen("e")], chosen("neither")),
        (vec![chosen("template"), chosen("x"), chosen("e"), chosen("templates")], Answer::Chosen(None)),
        (vec![chosen("template"), chosen("x"), chosen("e"), chosen("variables")], picked(&[])),
        (vec![chosen("template")], picked(&["x"])),
    ];
    for (path, last) in cases {
        let mut w = Wizard::start(ProjectKind::Grf, a);
        for answer in path {
            w.advance(answer, a);
            assert_ne!(w.step, WizardStep::Cancelled);
        }
        w.advance(last, a);
        assert_eq!(w.step, WizardStep::Cancelled);
    }
}

#[test]
fn setup_without_baseline_templates_takes_the_default() {
    let a = around(false, true, Existing::Clean);
    let w = Wizard::start(ProjectKind::Grf, a);
    assert_eq!((w.step, w.baseline.as_str()), (WizardStep::PickExposure, "default"));
    let w = Wizard::start(ProjectKind::GrfEvent, a);
    assert_eq!((w.step, w.baseline.as_str()), (WizardStep::PickExposure, "default"));
    assert!(w.outcomes.is_empty() && w.templates.is_none() && w.outcome.is_none());
}

#[test]
fn event_study_may_name_its_outcome() {
    let a = around(true, true, Existing::Clean);
    let mut w = Wizard::start(ProjectKind::GrfEvent, a);
    assert_eq!(w.step, WizardStep::PickBaseline);
    w.advance(chosen("default"), a);
    w.advance(chosen("church"), a);
    assert_eq!(w.step, WizardStep::AskOutcomeVariable);
    let mut skipped = w.clone();
    skipped.advance(Answer::Confirmed(Some(false)), a);
    assert_eq!(skipped.step, WizardStep::ConfirmCreate);
    assert!(skipped.outcome.is_none());
    let mut none = w.clone();
    none.advance(Answer::Confirmed(None), a);
    assert_eq!(none.step, WizardStep::ConfirmCreate);
    w.advance(yes(), a);
    assert_eq!(w.step, WizardStep::PickOutcomeVariable);
    let mut unnamed = w.clone();
    unnamed.advance(Answer::Chosen(None), a);
    assert_eq!(unnamed.step, WizardStep::ConfirmCreate);
    assert!(unnamed.outcome.is_none());
    w.advance(chosen("pwi"), a);
    assert_eq!(w.outcome.as_deref(), Some("pwi"));
    w.advance(yes(), a);
    assert_eq!(w.step, WizardStep::Create);
}

#[test]
fn default_baseline_is_offered_first() {
    let list = |v: &[&str]| -> Vec<String> { v.iter().map(|s| s.to_string()).collect() };
    assert_eq!(offer_baselines(&list(&["a", "default", "b"])), vec!["default", "a", "b"]);
    assert_eq!(offer_baselines(&list(&["default", "b"])), vec!["default", "b"]);
    assert_eq!(offer_baselines(&list(&["a", "b"])), vec!["a", "b"]);
    assert_eq!(offer_baselines(&list(&["a", "default", "default"])), vec!["default", "a", "default"]);
    assert!(offer_baselines(&Vec::new()).is_empty());
}

#[test]
fn command_picker_names_its_commands() {
    let items = command_picker_items();
    assert_eq!(items.len(), 13);
    let commands: Vec<SlashCommand> = items.iter().map(|i| picked_command(i).command).collect();
    assert_eq!(
        commands,
        vec![
            SlashCommand::Help,
            SlashCommand::Config,
            SlashCommand::Templates,
            SlashCommand::View,
            SlashCommand::Save,
            SlashCommand::Vars,
            SlashCommand::Theme,
            SlashCommand::QuickEdit,
            SlashCommand::Here,
            SlashCommand::Home,
            SlashCommand::Cd,
            SlashCommand::Refresh,
            SlashCommand::Unknown,
        ]
    );
    let call = picked_command(items[7]);
    assert_eq!(call.name, "e");
    assert!(call.args.is_empty());
}

#[test]
fn welcome_shows_what_is_set() {
    let mut config = Config::default();
    let lines = welcome_config(&config, Some("/home/ada"), None);
    let shown: Vec<(&str, &str, bool)> =
        lines.iter().map(|l| (l.label.as_str(), l.value.as_str(), l.is_set)).collect();
    assert_eq!(
        shown,
        vec![
            ("data", "not set", false),
            ("output", "not set", false),
            ("baselines", "default", true),
            ("cwd", "unknown", true),
        ]
    );
    config.pull_data = Some("/home/ada/data".to_string());
    config.push_mods = Some("/srv/out".to_string());
    config.baselines = Some("not set".to_string());
    let lines = welcome_config(&config, Some("/home/ada"), Some("/home/ada/work"));
    let shown: Vec<(&str, &str, bool)> =
        lines.iter().map(|l| (l.label.as_str(), l.value.as_str(), l.is_set)).collect();
    assert_eq!(
        shown,
        vec![
            ("data", "~/data", true),
            ("output", "/srv/out", true),
            ("baselines", "not set", false),
            ("cwd", "~/work", true),
        ]
    );
}
