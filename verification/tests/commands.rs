use margo::commands::init::{
    grf_full, grf_quiet, InitError, extract_old_project_name, grf_event_from_config, grf_from_config, project_name_in,
    project_name_now, pull_data_path, push_mods_base, retitle_study_config, year_string,
};
use margo::commands::{
    find_position, find_positions, first_word_or, cd_target, config_command, contains_name, editor_command, existing_project, find_template,
    locate_template, parse_slash, picked_name, picker_item, quick_edit_path, resolve_editor,
    save_request, shorten_path, slash_command, templates_command, theme_command,
    valid_template_name, vars_prompt, CdTarget, ConfigCommand, ExistingProject, SaveRequest,
    SlashCommand, TemplatesCommand, ThemeCommand,
};
use margo::config::{Config, TemplateKind};
use margo::examples::{
    example_path_in, examples_dir_in, kind_for_word, plan_examples, CopyError,
};
use margo::catalog::{shipped_templates, TemplateAsset};
use margo::sync::TemplateFile;
use margo::templates::Template;
use margo::text::{replace_all, split_words};

fn names(list: &[&str]) -> Vec<String> {
    list.iter().map(|s| s.to_string()).collect()
}

fn file(path: &str, content: &str) -> TemplateFile {
    TemplateFile { path: path.to_string(), content: content.to_string() }
}

#[test]
fn slash_commands_have_aliases() {
    let table = [
        ("", SlashCommand::Picker),
        ("help", SlashCommand::Help),
        ("h", SlashCommand::Help),
        ("?", SlashCommand::Help),
        ("config", SlashCommand::Config),
        ("templates", SlashCommand::Templates),
        ("t", SlashCommand::Templates),
        ("view", SlashCommand::View),
        ("save", SlashCommand::Save),
        ("vars", SlashCommand::Vars),
        ("v", SlashCommand::Vars),
        ("theme", SlashCommand::Theme),
        ("th", SlashCommand::Theme),
        ("here", SlashCommand::Here),
        ("pwd", SlashCommand::Here),
        ("home", SlashCommand::Home),
        ("~", SlashCommand::Home),
        ("cd", SlashCommand::Cd),
        ("e", SlashCommand::QuickEdit),
        ("o", SlashCommand::QuickEdit),
        ("refresh", SlashCommand::Refresh),
        ("r", SlashCommand::Refresh),
        ("quit", SlashCommand::Unknown),
        ("Help", SlashCommand::Unknown),
    ];
    for (word, command) in table {
        assert_eq!(slash_command(word), command, "{:?}", word);
    }
}

#[test]
fn parse_slash_splits_into_words() {
    let call = parse_slash("templates  new outcomes   mine ");
    assert_eq!(call.command, SlashCommand::Templates);
    assert_eq!(call.name, "templates");
    assert_eq!(call.args, vec!["new", "outcomes", "mine"]);
    let call = parse_slash("   ");
    assert_eq!(call.command, SlashCommand::Picker);
    assert_eq!(call.name, "");
    assert!(call.args.is_empty());
    let call = parse_slash("nope x");
    assert_eq!(call.command, SlashCommand::Unknown);
    assert_eq!(call.name, "nope");
    assert_eq!(call.args, vec!["x"]);
}

#[test]
fn words_are_split_at_whitespace() {
    assert_eq!(split_words(" a\tb  c\n"), vec!["a", "b", "c"]);
    assert_eq!(split_words("one"), vec!["one"]);
    assert!(split_words("").is_empty());
    assert!(split_words(" \u{3000} ").is_empty());
}

#[test]
fn config_and_theme_subcommands() {
    assert_eq!(config_command(&names(&[])), ConfigCommand::Show);
    assert_eq!(config_command(&names(&["edit"])), ConfigCommand::Edit);
    assert_eq!(config_command(&names(&["init", "x"])), ConfigCommand::Init);
    assert_eq!(config_command(&names(&["path"])), ConfigCommand::Path);
    assert_eq!(config_command(&names(&["x"])), ConfigCommand::Unknown);
    assert_eq!(theme_command(&names(&[])), ThemeCommand::Toggle);
    assert_eq!(theme_command(&names(&["toggle"])), ThemeCommand::Toggle);
    assert_eq!(theme_command(&names(&["light"])), ThemeCommand::Light);
    assert_eq!(theme_command(&names(&["latte"])), ThemeCommand::Light);
    assert_eq!(theme_command(&names(&["dark"])), ThemeCommand::Dark);
    assert_eq!(theme_command(&names(&["mocha"])), ThemeCommand::Dark);
    assert_eq!(theme_command(&names(&["show"])), ThemeCommand::Show);
    assert_eq!(theme_command(&names(&["current"])), ThemeCommand::Show);
    assert_eq!(theme_command(&names(&["basic"])), ThemeCommand::Usage);
}

#[test]
fn templates_subcommands() {
    assert!(matches!(templates_command(&names(&[])), TemplatesCommand::ListAll));
    assert!(matches!(templates_command(&names(&["outcomes"])), TemplatesCommand::ListOutcomes));
    assert!(matches!(templates_command(&names(&["baselines"])), TemplatesCommand::ListBaselines));
    assert!(matches!(templates_command(&names(&["edit"])), TemplatesCommand::EditUsage));
    assert!(matches!(templates_command(&names(&["edit", "x"])), TemplatesCommand::Edit(ref n) if n == "x"));
    assert!(matches!(templates_command(&names(&["open"])), TemplatesCommand::OpenUsage));
    assert!(matches!(templates_command(&names(&["open", "y", "z"])), TemplatesCommand::Open(ref n) if n == "y"));
    assert!(matches!(templates_command(&names(&["new", "outcomes"])), TemplatesCommand::NewUsage));
    assert!(matches!(
        templates_command(&names(&["new", "outcome", "a"])),
        TemplatesCommand::New(TemplateKind::Outcomes, ref n) if n == "a"
    ));
    assert!(matches!(
        templates_command(&names(&["new", "baselines", "b"])),
        TemplatesCommand::New(TemplateKind::Baselines, ref n) if n == "b"
    ));
    assert!(matches!(templates_command(&names(&["new", "other", "b"])), TemplatesCommand::NewBadKind));
    assert!(matches!(templates_command(&names(&["list"])), TemplatesCommand::Unknown(ref w) if w == "list"));
}

#[test]
fn template_names_are_letters_digits_and_underscores() {
    assert!(valid_template_name("well_being2"));
    assert!(valid_template_name(""));
    assert!(valid_template_name("été"));
    assert!(!valid_template_name("a-b"));
    assert!(!valid_template_name("a b"));
    assert!(!valid_template_name("a/b"));
}

#[test]
fn save_requests_are_checked_in_order() {
    let files = vec![file("c/outcomes/mine.toml", "vars = [\"a\"]"), file("c/baselines/empty.toml", "")];
    assert!(matches!(save_request(&names(&["outcomes"]), "c", &files), SaveRequest::Usage));
    assert!(matches!(save_request(&names(&["outcome", "x"]), "c", &files), SaveRequest::InvalidType(ref t) if t == "outcome"));
    assert!(matches!(save_request(&names(&["other", "a-b"]), "c", &files), SaveRequest::InvalidType(_)));
    assert!(matches!(save_request(&names(&["outcomes", "a-b"]), "c", &files), SaveRequest::InvalidName(ref n) if n == "a-b"));
    assert!(matches!(
        save_request(&names(&["outcomes", "mine"]), "c", &files),
        SaveRequest::Exists(TemplateKind::Outcomes, ref n) if n == "mine"
    ));
    assert!(matches!(
        save_request(&names(&["baselines", "mine"]), "c", &files),
        SaveRequest::Ready(TemplateKind::Baselines, ref n) if n == "mine"
    ));
    assert!(matches!(
        save_request(&names(&["baselines", "empty", "more"]), "c", &files),
        SaveRequest::Ready(TemplateKind::Baselines, ref n) if n == "empty"
    ));
}

#[test]
fn templates_are_looked_for_among_outcomes_first() {
    let files = vec![
        file("c/outcomes/both.toml", "vars = [\"o\"]"),
        file("c/baselines/both.toml", "vars = [\"b\"]"),
        file("c/baselines/base.toml", "vars = [\"x\"]"),
        file("c/outcomes/hollow.toml", "# no list"),
        file("c/baselines/hollow.toml", "vars = [\"h\"]"),
    ];
    assert_eq!(locate_template("c", &files, "both"), Some((TemplateKind::Outcomes, "c/outcomes/both.toml".to_string())));
    assert_eq!(locate_template("c", &files, "base"), Some((TemplateKind::Baselines, "c/baselines/base.toml".to_string())));
    assert_eq!(locate_template("c", &files, "none"), None);
    assert_eq!(quick_edit_path("c", &files, "both"), "c/outcomes/both.toml");
    assert_eq!(quick_edit_path("c", &files, "base"), "c/baselines/base.toml");
    assert_eq!(quick_edit_path("c", &files, "none"), "c/baselines/none.toml");
    assert_eq!(find_template("c", &files, "both").unwrap().vars, vec!["o"]);
    assert_eq!(find_template("c", &files, "base").unwrap().vars, vec!["x"]);
    assert_eq!(find_template("c", &files, "hollow").unwrap().vars, vec!["h"]);
    assert!(find_template("c", &files, "none").is_none());
}

#[test]
fn editor_is_resolved_from_config_then_environment() {
    let mut config = Config::default();
    assert_eq!(resolve_editor(&config, None), "nvim");
    assert_eq!(resolve_editor(&config, Some("vi")), "vi");
    config.editor = Some("code --wait".to_string());
    assert_eq!(resolve_editor(&config, Some("vi")), "code --wait");
    config.editor = Some("$EDITOR".to_string());
    assert_eq!(resolve_editor(&config, Some("vi")), "vi");
    assert_eq!(resolve_editor(&config, None), "nvim");
    assert_eq!(editor_command("code  --wait -n"), ("code".to_string(), names(&["--wait", "-n"])));
    assert_eq!(editor_command("vi"), ("vi".to_string(), names(&[])));
    assert_eq!(editor_command("  "), ("nvim".to_string(), names(&[])));
}

#[test]
fn paths_are_shortened_and_expanded() {
    assert_eq!(shorten_path("/home/ada/x", Some("/home/ada")), "~/x");
    assert_eq!(shorten_path("/home/ada", Some("/home/ada")), "~");
    assert_eq!(shorten_path("/home/adam", Some("/home/ada")), "~m");
    assert_eq!(shorten_path("/tmp/x", Some("/home/ada")), "/tmp/x");
    assert_eq!(shorten_path("/tmp/x", None), "/tmp/x");
    assert!(matches!(cd_target(&names(&[]), Some("/h")), CdTarget::Home));
    assert!(matches!(cd_target(&names(&["~"]), Some("/h")), CdTarget::Path(ref p) if p == "/h"));
    assert!(matches!(cd_target(&names(&["~/a/b"]), Some("/h")), CdTarget::Path(ref p) if p == "/h/a/b"));
    assert!(matches!(cd_target(&names(&["~é"]), Some("/h")), CdTarget::Path(ref p) if p == "/h/"));
    assert!(matches!(cd_target(&names(&["~/a"]), None), CdTarget::NoHome));
    assert!(matches!(cd_target(&names(&["/x", "y"]), None), CdTarget::Path(ref p) if p == "/x"));
    assert!(matches!(cd_target(&names(&[""]), None), CdTarget::Path(ref p) if p.is_empty()));
}

#[test]
fn existing_project_files_are_noticed() {
    assert!(matches!(existing_project(&names(&[])), ExistingProject::Clean));
    assert!(matches!(existing_project(&names(&["README.md", "00-setup.R"])), ExistingProject::Clean));
    assert!(matches!(existing_project(&names(&["08-plots.R", "study.toml"])), ExistingProject::Complete));
    assert!(matches!(
        existing_project(&names(&["08-plots.R", "x", "01-data-prep.R"])),
        ExistingProject::Partial(ref f) if f == &names(&["01-data-prep.R", "08-plots.R"])
    ));
    assert!(contains_name(&names(&["a", "b"]), "b"));
    assert!(!contains_name(&names(&["a", "b"]), "c"));
}

#[test]
fn prompts_and_picker_items() {
    assert_eq!(vars_prompt("", 120), "Browse variables (120 total):");
    assert_eq!(vars_prompt("ag", 0), "Variables matching 'ag' (0 matches):");
    let t = Template { name: "wellbeing".to_string(), vars: names(&["a", "b", "c"]) };
    assert_eq!(picker_item(TemplateKind::Outcomes, &t), "outcomes/wellbeing (3 vars)");
    assert_eq!(picker_item(TemplateKind::Baselines, &Template::default()), "baselines/ (0 vars)");
    assert_eq!(picked_name("outcomes/wellbeing (3 vars)"), Some("wellbeing".to_string()));
    assert_eq!(picked_name("baselines/a/b (1 vars)"), Some("a".to_string()));
    assert_eq!(picked_name("baselines/ (0 vars)"), Some("(0".to_string()));
    assert_eq!(picked_name("baselines/"), None);
    assert_eq!(picked_name("plain"), None);
}

#[test]
fn old_project_name_is_read_from_the_first_line() {
    assert_eq!(extract_old_project_name("# my-study - GRF study configuration\n[paths]\n"), "my-study");
    assert_eq!(extract_old_project_name("# a - b - c"), "a");
    assert_eq!(extract_old_project_name("#my-study - x"), "");
    assert_eq!(extract_old_project_name("# my-study"), "");
    assert_eq!(extract_old_project_name("# - x"), "");
    assert_eq!(extract_old_project_name("\n# a - b"), "");
    assert_eq!(extract_old_project_name(""), "");
    assert_eq!(extract_old_project_name("#  - x"), "");
}

#[test]
fn replace_follows_occurrences_from_the_left() {
    assert_eq!(replace_all("a_b_c", "_", "-"), "a-b-c");
    assert_eq!(replace_all("aaa", "aa", "b"), "ba");
    assert_eq!(replace_all("abc", "x", "y"), "abc");
    assert_eq!(replace_all("abc", "", "-"), "-a-b-c-");
    assert_eq!(replace_all("", "", "-"), "-");
    assert_eq!(replace_all("", "a", "-"), "");
    assert_eq!(replace_all("abab", "ab", ""), "");
    assert_eq!(
        retitle_study_config("# old - GRF study\nname = \"old\"\n", "new"),
        "# new - GRF study\nname = \"new\"\n"
    );
    assert_eq!(retitle_study_config("ab", "-"), "-a-b-");
}

#[test]
fn grf_plan_takes_defaults_from_the_configuration() {
    let mut config = Config::default();
    let files = vec![
        file("c/baselines/default.toml", "vars = [\"age\", \"male\"]"),
        file("c/outcomes/wellbeing.toml", "vars = [\"pwi\"]"),
        file("c/outcomes/health.toml", "vars = [\"sfh\", \"bmi\"]"),
    ];
    let plan = grf_from_config(&config, Some("/work"), "c", &files, "church", None, None, "default", None, None);
    assert_eq!(plan.project_name, "church");
    assert_eq!(plan.pull_data, "/work");
    assert_eq!(plan.push_mods_path, "/work/outputs/church");
    assert!(plan.outcome_vars.is_empty());
    assert_eq!(plan.baseline_vars, vec!["age", "male"]);
    assert!(plan.use_renv);
    assert!(plan.missing_outcome_templates.is_empty());
    assert!(!plan.baselines_missing);

    config.pull_data = Some("/data".to_string());
    config.push_mods = Some("/out".to_string());
    config.use_rv = Some(false);
    let direct = names(&["rwa", "sdo"]);
    let templates = names(&["wellbeing", "missing", "health"]);
    let plan = grf_from_config(&config, None, "c", &files, "church", Some(&direct), Some(&templates), "none", None, None);
    assert_eq!(plan.project_name, "church-rwa");
    assert_eq!(plan.pull_data, "/data");
    assert_eq!(plan.push_mods_path, "/out/church-rwa");
    assert_eq!(plan.outcome_vars, vec!["rwa", "sdo", "pwi", "sfh", "bmi"]);
    assert!(plan.baseline_vars.is_empty());
    assert!(plan.baselines_missing);
    assert!(!plan.use_renv);
    assert_eq!(plan.missing_outcome_templates, vec!["missing"]);

    let none: Vec<String> = Vec::new();
    let over = names(&["x"]);
    let plan = grf_from_config(&Config::default(), None, "c", &files, "e", Some(&none), Some(&templates), "none", Some(&over), None);
    assert_eq!(plan.project_name, "e-wellbeing-missing-health");
    assert_eq!(plan.pull_data, ".");
    assert_eq!(plan.push_mods_path, "./outputs/e-wellbeing-missing-health");
    assert_eq!(plan.baseline_vars, vec!["x"]);
    assert!(!plan.baselines_missing);
    let plan = grf_from_config(&Config::default(), None, "c", &files, "e", Some(&direct), Some(&none), "default", None, Some("mine"));
    assert_eq!(plan.project_name, "mine");
    assert_eq!(plan.outcome_vars, vec!["rwa", "sdo"]);
    let plan = grf_from_config(&Config::default(), None, "c", &files, "e", None, Some(&none), "default", None, None);
    assert_eq!(plan.project_name, "e");
    assert_eq!(pull_data_path(&Config::default(), Some("/w")), "/w");
    assert_eq!(push_mods_base(&Config::default(), None), "./outputs");
}

#[test]
fn grf_event_plan_defaults() {
    let files = vec![file("c/baselines/default.toml", "vars = [\"age\"]")];
    let plan = grf_event_from_config(&Config::default(), Some("/w"), "c", &files, "church", None, None, None, "default", None);
    assert_eq!(plan.project_name, "church-event-study");
    assert_eq!(plan.pull_data, "/w");
    assert_eq!(plan.push_mods_path, "/w/outputs/church-event-study");
    assert_eq!(plan.outcome_var, "outcome_variable");
    assert_eq!(plan.outcome_waves.len(), 13);
    assert_eq!(plan.outcome_waves[0], "2011");
    assert_eq!(plan.outcome_waves[12], "2023");
    assert_eq!(plan.reference_wave, "2011");
    assert_eq!(plan.baseline_vars, vec!["age"]);
    assert!(!plan.baselines_missing);
    let waves = names(&["2015", "2016"]);
    let plan = grf_event_from_config(&Config::default(), None, "c", &files, "church", Some("pwi"), Some(&waves), None, "x", Some("mine"));
    assert_eq!(plan.project_name, "mine");
    assert_eq!(plan.outcome_var, "pwi");
    assert_eq!(plan.outcome_waves, waves);
    assert_eq!(plan.reference_wave, "2015");
    assert!(plan.baselines_missing);
    let empty: Vec<String> = Vec::new();
    let plan = grf_event_from_config(&Config::default(), None, "c", &files, "church", None, Some(&empty), None, "x", None);
    assert_eq!(plan.reference_wave, "2011");
    let plan = grf_event_from_config(&Config::default(), None, "c", &files, "church", None, Some(&waves), Some("2016"), "x", None);
    assert_eq!(plan.reference_wave, "2016");
}

#[test]
fn guided_project_names() {
    assert_eq!(year_string(2026), "2026");
    assert_eq!(year_string(0), "0");
    assert_eq!(year_string(-44), "-44");
    assert_eq!(year_string(i32::MIN), "-2147483648");
    assert_eq!(project_name_in(2026, "church_attendance_freq", false), "2026-church-attendance-freq");
    assert_eq!(project_name_in(2026, "church", true), "2026-church-event");
    let now = project_name_now("a_b", true);
    assert!(now.ends_with("-a-b-event"));
    assert!(now.len() > "-a-b-event".len());
}

#[test]
fn examples_are_planned_where_missing() {
    assert_eq!(examples_dir_in("c", TemplateKind::Baselines), "c/baselines/examples");
    assert_eq!(example_path_in("c", TemplateKind::Outcomes, "health"), "c/outcomes/examples/health.toml");
    assert_eq!(kind_for_word("baseline"), Some(TemplateKind::Baselines));
    assert_eq!(kind_for_word("outcomes"), Some(TemplateKind::Outcomes));
    assert_eq!(kind_for_word("Outcomes"), None);
    let files = vec![file("c/baselines/examples/minimal.toml", "mine")];
    let plan = Config::init_examples("c", &files);
    assert_eq!(
        plan.created,
        vec![
            "baselines/examples/default.toml",
            "baselines/examples/extended.toml",
            "outcomes/examples/wellbeing.toml",
            "outcomes/examples/health.toml",
        ]
    );
    let paths: Vec<&str> = plan.writes.iter().map(|w| w.path.as_str()).collect();
    assert_eq!(
        paths,
        vec![
            "c/baselines/examples/default.toml",
            "c/baselines/examples/extended.toml",
            "c/outcomes/examples/wellbeing.toml",
            "c/outcomes/examples/health.toml",
        ]
    );
    let catalog = shipped_templates();
    assert_eq!(plan.writes[1].content, catalog[2].content);
    let plan = plan_examples(&vec![TemplateAsset::new(TemplateKind::Outcomes, "o", "x")], "d", &files);
    assert_eq!(plan.created, vec!["outcomes/examples/o.toml"]);
    assert_eq!(plan.writes[0].content, "x");
}

#[test]
fn examples_are_copied_once() {
    let files = vec![
        file("c/baselines/examples/minimal.toml", "vars = [\"age\"]"),
        file("c/outcomes/examples/health.toml", "h"),
        file("c/outcomes/health.toml", "mine"),
    ];
    let copied = Config::copy_example("c", &files, "baseline", "minimal").unwrap();
    assert_eq!(copied.path, "c/baselines/minimal.toml");
    assert_eq!(copied.content, "vars = [\"age\"]");
    assert_eq!(Config::copy_example("c", &files, "sort", "minimal").unwrap_err(), CopyError::UnknownKind);
    assert_eq!(Config::copy_example("c", &files, "outcomes", "minimal").unwrap_err(), CopyError::NotFound);
    assert_eq!(Config::copy_example("c", &files, "outcome", "health").unwrap_err(), CopyError::AlreadyExists);
    assert_eq!(CopyError::UnknownKind.message("sort", "x"), "unknown template kind: sort");
    assert_eq!(CopyError::NotFound.message("outcomes", "x"), "example 'x' not found in outcomes/examples/");
    assert_eq!(CopyError::AlreadyExists.message("outcome", "x"), "'x' already exists in your outcome directory");
    assert_eq!(Config::read_example("c", &files, "outcomes", "health"), Some("h".to_string()));
    assert_eq!(Config::read_example("c", &files, "outcomes", "none"), None);
    assert_eq!(Config::read_example("c", &files, "other", "health"), None);
}

#[test]
fn first_words_and_positions() {
    assert_eq!(first_word_or("grf-event  — grf event study", "grf"), "grf-event");
    assert_eq!(first_word_or("   ", "grf"), "grf");
    assert_eq!(first_word_or("", ""), "");
    let among = names(&["age", "rwa", "age", "sdo"]);
    assert_eq!(find_position(&among, "age"), Some(0));
    assert_eq!(find_position(&among, "sdo"), Some(3));
    assert_eq!(find_position(&among, "x"), None);
    assert_eq!(find_position(&Vec::new(), "x"), None);
    assert_eq!(find_positions(&names(&["sdo", "x", "age", "sdo"]), &among), vec![3, 0, 3]);
    assert!(find_positions(&names(&[]), &among).is_empty());
}

#[test]
fn a_project_in_its_own_directory_needs_a_free_name() {
    let p = grf_quiet("trial", false).unwrap();
    assert_eq!(p.dir, "trial");
    assert!(p.study_config.is_none());
    assert_eq!(grf_quiet("trial", true).unwrap_err(), InitError::DirectoryExists);
    assert_eq!(grf_full("trial", true, Some("x.toml"), None).unwrap_err(), InitError::DirectoryExists);
    assert_eq!(grf_full("trial", false, Some("x.toml"), None).unwrap_err(), InitError::SourceMissing);
    let p = grf_full("trial", false, Some("x.toml"), Some("# old - GRF\nname = \"old\"\n")).unwrap();
    assert_eq!(p.study_config.as_deref(), Some("# trial - GRF\nname = \"trial\"\n"));
    let p = grf_full("trial", false, None, Some("# old - GRF\n")).unwrap();
    assert!(p.study_config.is_none());
    assert_eq!(
        InitError::DirectoryExists.message("trial", ""),
        "directory 'trial' already exists. choose a different name or remove the existing directory."
    );
    assert_eq!(InitError::SourceMissing.message("trial", "x.toml"), "source config not found: x.toml");
}
