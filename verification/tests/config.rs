use margo::config::{kind_dir_in, join_path, template_file, template_path_in, Config, TemplateKind};

#[test]
fn test_parse_config() {
    let content = r#"
[paths]
pull_data = "/Users/joseph/data/nzavs"
push_mods = "/Users/joseph/outputs"

[defaults]
baselines = "default"
use_rv = true
"#;

    let config = Config::parse(content);
    assert_eq!(config.pull_data, Some("/Users/joseph/data/nzavs".to_string()));
    assert_eq!(config.push_mods, Some("/Users/joseph/outputs".to_string()));
    assert_eq!(config.baselines, Some("default".to_string()));
    assert_eq!(config.use_rv, Some(true));
}

#[test]
fn test_parse_config_accepts_use_renv() {
    let content = r#"
[defaults]
use_renv = false
"#;

    let config = Config::parse(content);
    assert_eq!(config.use_rv, Some(false));
}

#[test]
fn test_empty_returns_default() {
    let config = Config::parse("");
    assert!(config.pull_data.is_none());
}

#[test]
fn parse_config_reads_editor_and_theme() {
    let config = Config::parse("[editor]\ncommand = \"code --wait\"\n[theme]\ntheme = plain\n");
    assert_eq!(config.editor, Some("code --wait".to_string()));
    assert_eq!(config.theme, Some("plain".to_string()));
    assert!(config.pull_data.is_none());
    assert!(config.use_rv.is_none());
}

#[test]
fn parse_config_skips_comments_and_unknown_keys() {
    let config = Config::parse("# pull_data = \"/a\"\nunknown = 1\nno equals sign\n  push_mods =  /b  \r\n");
    assert!(config.pull_data.is_none());
    assert_eq!(config.push_mods, Some("/b".to_string()));
}

#[test]
fn parse_config_last_value_wins_and_splits_at_first_equals() {
    let config = Config::parse("editor = a=b\neditor = \"\"x\"\"\nuse_rv = TRUE");
    assert_eq!(config.editor, Some("x".to_string()));
    assert_eq!(config.use_rv, Some(false));
}

#[test]
fn default_config_parses_to_use_rv_only() {
    let config = Config::parse(&Config::default_config_content());
    assert_eq!(config.use_rv, Some(true));
    assert!(config.pull_data.is_none());
    assert!(config.push_mods.is_none());
    assert!(config.baselines.is_none());
    assert!(config.editor.is_none());
    assert!(config.theme.is_none());
}

#[test]
fn default_config_is_empty_by_default_impl() {
    let config = Config::default();
    assert!(config.pull_data.is_none());
    assert!(config.use_rv.is_none());
}

#[test]
fn kind_tags_round_trip() {
    assert_eq!(TemplateKind::Baselines.as_str(), "baselines");
    assert_eq!(TemplateKind::Outcomes.as_str(), "outcomes");
    assert_eq!(TemplateKind::from_str("baselines"), Some(TemplateKind::Baselines));
    assert_eq!(TemplateKind::from_str("outcomes"), Some(TemplateKind::Outcomes));
    assert_eq!(TemplateKind::from_str("baseline"), None);
    assert_eq!(TemplateKind::from_str(""), None);
}

#[test]
fn paths_are_built_from_the_config_dir() {
    assert_eq!(Config::config_dir_from(Some("/home/ada")), "/home/ada/.config/margo");
    assert_eq!(Config::config_dir_from(None), "./.config/margo");
    assert_eq!(join_path("/a", "b"), "/a/b");
    assert_eq!(kind_dir_in("/c", TemplateKind::Outcomes), "/c/outcomes");
    assert_eq!(template_file("/c/baselines", "default"), "/c/baselines/default.toml");
    assert_eq!(template_path_in("/c", TemplateKind::Baselines, "minimal"), "/c/baselines/minimal.toml");
}

#[test]
fn user_paths_lie_under_the_config_dir() {
    let dir = Config::config_dir();
    assert!(dir.ends_with("/.config/margo"));
    assert_eq!(Config::config_path(), format!("{}/config.toml", dir));
    assert_eq!(Config::baselines_dir(), format!("{}/baselines", dir));
    assert_eq!(Config::outcomes_dir(), format!("{}/outcomes", dir));
    assert_eq!(Config::baselines_examples_dir(), format!("{}/baselines/examples", dir));
    assert_eq!(Config::outcomes_examples_dir(), format!("{}/outcomes/examples", dir));
}
