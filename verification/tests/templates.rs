use margo::catalog::shipped_templates;
use margo::config::Config;
use margo::listing::{has_toml_extension, has_user_templates, list_templates, str_le, DirEntry};
use margo::sync::TemplateFile;
use margo::templates::{
    edited_template_toml, format_outcomes_list, format_string_array, format_template_toml,
    format_var_array, template_baselines_content, template_outcomes_content,
};

fn names(list: &[&str]) -> Vec<String> {
    list.iter().map(|s| s.to_string()).collect()
}

fn file(path: &str, content: &str) -> TemplateFile {
    TemplateFile { path: path.to_string(), content: content.to_string() }
}

fn entry(dir: &str, name: &str, is_dir: bool) -> DirEntry {
    DirEntry { name: name.to_string(), path: format!("{}/{}", dir, name), is_dir }
}

#[test]
fn test_parse_vars_single_line() {
    let content = r#"vars = ["age", "male", "eth_cat"]"#;
    let vars = Config::parse_vars(content);
    assert_eq!(vars, vec!["age", "male", "eth_cat"]);
}

#[test]
fn test_parse_vars_multi_line() {
    let content = r#"
vars = [
  "age",
  "male",
  "eth_cat",
]
"#;
    let vars = Config::parse_vars(content);
    assert_eq!(vars, vec!["age", "male", "eth_cat"]);
}

#[test]
fn parse_vars_skips_comments_and_accepts_single_quotes() {
    let content = "vars = [\n  # demographics\n  'age',\n  \"male\"\n]\nvars_after = 1\n\"ignored\"\n";
    assert_eq!(Config::parse_vars(content), vec!["age", "male"]);
}

#[test]
fn parse_vars_of_empty_and_closed_lists() {
    assert!(Config::parse_vars("").is_empty());
    assert!(Config::parse_vars("vars = []").is_empty());
    assert!(Config::parse_vars("vars = [ , ,]").is_empty());
    assert!(Config::parse_vars("name = [\"a\"]").is_empty());
}

#[test]
fn parse_vars_with_closing_bracket_first_reads_an_empty_list() {
    assert!(Config::parse_vars("vars ] = [\"a\"").is_empty());
    assert_eq!(Config::parse_vars("vars ] [\n\"a\"\n"), Vec::<String>::new());
}

#[test]
fn parse_vars_last_line_may_close_the_list() {
    assert_eq!(Config::parse_vars("vars = [\n\"a\",\n\"b\"]\n\"c\"\n"), vec!["a", "b"]);
}

#[test]
fn parse_vars_reads_every_bundled_template() {
    let counts = [39usize, 7, 44, 5, 5];
    let catalog = shipped_templates();
    assert_eq!(catalog.len(), counts.len());
    for (asset, count) in catalog.iter().zip(counts.iter()) {
        let vars = Config::parse_vars(&asset.content);
        assert_eq!(vars.len(), *count, "{}", asset.name);
        assert_eq!(vars[0], if asset.name == "wellbeing" { "life_satisfaction" } else if asset.name == "health" { "short_form_health" } else { "age" });
    }
}

#[test]
fn load_template_needs_a_file_with_variables() {
    assert!(Config::load_template(None, "x").is_none());
    assert!(Config::load_template(Some("vars = []"), "x").is_none());
    let t = Config::load_template(Some("vars = [\"a\"]"), "x").unwrap();
    assert_eq!(t.name, "x");
    assert_eq!(t.vars, vec!["a"]);
}

#[test]
fn load_baselines_and_outcomes_read_their_own_directories() {
    let files = vec![
        file("/c/baselines/mine.toml", "vars = [\"age\"]"),
        file("/c/outcomes/mine.toml", "vars = [\"pwi\", \"rwa\"]"),
        file("/c/outcomes/empty.toml", "# nothing"),
    ];
    assert_eq!(Config::load_baselines("/c", &files, "mine").unwrap().vars, vec!["age"]);
    assert_eq!(Config::load_outcomes("/c", &files, "mine").unwrap().vars, vec!["pwi", "rwa"]);
    assert!(Config::load_outcomes("/c", &files, "empty").is_none());
    assert!(Config::load_baselines("/c", &files, "other").is_none());
    assert!(Config::load_baselines("/d", &files, "mine").is_none());
}

#[test]
fn toml_extension_needs_a_stem() {
    assert!(has_toml_extension("a.toml"));
    assert!(has_toml_extension("a.b.toml"));
    assert!(has_toml_extension("..toml"));
    assert!(!has_toml_extension(".toml"));
    assert!(!has_toml_extension("a.TOML"));
    assert!(!has_toml_extension("atoml"));
    assert!(!has_toml_extension("a.toml.bak"));
    assert!(!has_toml_extension(""));
}

#[test]
fn string_order_is_by_character() {
    assert!(str_le("", ""));
    assert!(str_le("", "a"));
    assert!(!str_le("a", ""));
    assert!(str_le("a", "a"));
    assert!(str_le("a", "b"));
    assert!(!str_le("b", "a"));
    assert!(str_le("ab", "abc"));
    assert!(!str_le("abc", "ab"));
    assert!(str_le("Z", "a"));
    assert!(str_le("z", "é"));
}

#[test]
fn list_templates_sorts_and_skips_directories() {
    let entries = vec![
        entry("/c/baselines", "minimal.toml", false),
        entry("/c/baselines", "examples", true),
        entry("/c/baselines", "dir.toml", true),
        entry("/c/baselines", "default.toml", false),
        entry("/c/baselines", "notes.txt", false),
        entry("/c/baselines", ".toml", false),
        entry("/c/baselines/examples", "extended.toml", false),
        entry("/c/outcomes", "health.toml", false),
    ];
    assert_eq!(list_templates(&entries, "/c/baselines"), vec!["default", "minimal"]);
    assert_eq!(Config::list_baselines("/c", &entries), vec!["default", "minimal"]);
    assert_eq!(Config::list_outcomes("/c", &entries), vec!["health"]);
    assert_eq!(Config::list_baselines_examples("/c", &entries), vec!["extended"]);
    assert!(Config::list_outcomes_examples("/c", &entries).is_empty());
    assert!(has_user_templates(&entries, "/c/baselines"));
    assert!(has_user_templates(&entries, "/c/outcomes"));
    assert!(!has_user_templates(&entries, "/c/outcomes/examples"));
    assert!(!has_user_templates(&entries, "/c"));
}

#[test]
fn list_templates_keeps_equal_names() {
    let entries = vec![
        entry("/d", "b.toml", false),
        entry("/d", "a.toml", false),
        entry("/d", "b.toml", false),
        entry("/d", "B.toml", false),
    ];
    assert_eq!(list_templates(&entries, "/d"), vec!["B", "a", "b", "b"]);
}

#[test]
fn format_arrays() {
    assert_eq!(format_var_array(&[]), "[]");
    assert_eq!(format_string_array(&[]), "[]");
    assert_eq!(format_var_array(&names(&["age"])), "[\n  \"age\"\n]");
    assert_eq!(format_var_array(&names(&["age", "male"])), "[\n  \"age\",\n  \"male\"\n]");
    assert_eq!(format_string_array(&names(&["age"])), "[\"age\"]");
    assert_eq!(format_string_array(&names(&["age", "male", "x"])), "[\"age\", \"male\", \"x\"]");
}

#[test]
fn format_template_files() {
    assert_eq!(
        format_template_toml(&names(&["a", "b"])),
        "# template created with /save\n\nvars = [\n  \"a\",\n  \"b\",\n]\n"
    );
    assert_eq!(format_template_toml(&[]), "# template created with /save\n\nvars = [\n]\n");
    assert_eq!(
        edited_template_toml(&names(&["a"])),
        "# template variables\n\nvars = [\n    \"a\",\n]\n"
    );
}

#[test]
fn written_templates_are_read_back() {
    let vars = names(&["age", "male_binary", "eth_cat"]);
    assert_eq!(Config::parse_vars(&format_template_toml(&vars)), vars);
    assert_eq!(Config::parse_vars(&edited_template_toml(&vars)), vars);
    assert_eq!(Config::parse_vars(&format!("vars = {}", format_string_array(&vars))), vars);
    assert_eq!(Config::parse_vars(&format!("vars = {}", format_var_array(&vars))), vars);
}

#[test]
fn new_template_contents_list_nothing() {
    assert!(template_outcomes_content().starts_with("# outcome variables template\n"));
    assert!(template_baselines_content().starts_with("# baseline covariate template\n"));
    assert!(Config::parse_vars(&template_outcomes_content()).is_empty());
    assert!(Config::parse_vars(&template_baselines_content()).is_empty());
}

#[test]
fn outcomes_summary_shows_three() {
    assert_eq!(format_outcomes_list(&[]), "");
    assert_eq!(format_outcomes_list(&names(&["a"])), "a");
    assert_eq!(format_outcomes_list(&names(&["a", "b", "c"])), "a, b, c");
    assert_eq!(format_outcomes_list(&names(&["a", "b", "c", "d"])), "a, b, c, ... (4 total)");
    let many: Vec<String> = (0..120).map(|i| format!("v{}", i)).collect();
    assert_eq!(format_outcomes_list(&many), "v0, v1, v2, ... (120 total)");
}
