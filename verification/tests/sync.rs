use margo::catalog::{shipped_templates, TemplateAsset, VERSION};
use margo::config::{Config, TemplateKind};
use margo::hash::hash_content;
use margo::listing::DirEntry;
use margo::manifest::TemplateManifest;
use margo::sync::{
    asset_action, bootstrap, classify, decide, lookup, reconcile, record_writes, synchronize,
    templates_manifest_path, templates_sidecar_path, AssetState, RefreshPlan, SyncAction,
    TemplateFile, TemplateRefreshOptions, TemplateRefreshReport,
};

const AGE: &str = "vars = [\"age\"]";
const EDITED: &str = "vars = [\"age\", \"male\"]";

fn opts(force: bool, sidecar: bool, dry_run: bool) -> TemplateRefreshOptions {
    TemplateRefreshOptions { force, sidecar, dry_run }
}

fn one_baseline(content: &str) -> Vec<TemplateAsset> {
    vec![TemplateAsset::new(TemplateKind::Baselines, "default", content)]
}

fn file(path: &str, content: &str) -> TemplateFile {
    TemplateFile { path: path.to_string(), content: content.to_string() }
}

/// Carries a plan out on the files in memory, as a caller does on disk.
fn carry_out(files: &mut Vec<TemplateFile>, dir: &str, plan: &RefreshPlan) {
    record_writes(files, &plan.writes);
    if let Some(m) = &plan.manifest {
        files.push(TemplateFile { path: templates_manifest_path(dir), content: m.render() });
    }
}

fn run(catalog: &Vec<TemplateAsset>, files: &mut Vec<TemplateFile>, o: TemplateRefreshOptions) -> TemplateRefreshReport {
    let plan = synchronize(catalog, "1.0", "cfg", files, o);
    carry_out(files, "cfg", &plan);
    plan.report
}

fn none() -> Vec<String> {
    Vec::new()
}

#[test]
fn first_run_creates_the_file_and_the_manifest() {
    let catalog = one_baseline(AGE);
    let mut files = Vec::new();
    let plan = synchronize(&catalog, "1.0", "cfg", &files, opts(false, false, false));
    assert_eq!(plan.report.created, vec!["cfg/baselines/default.toml"]);
    assert_eq!(plan.report.updated, none());
    assert_eq!(plan.report.unchanged, none());
    assert_eq!(plan.report.skipped_modified, none());
    assert_eq!(plan.report.sidecar, none());
    assert_eq!(plan.writes.len(), 1);
    assert_eq!(plan.writes[0].path, "cfg/baselines/default.toml");
    assert_eq!(plan.writes[0].content, AGE);
    let manifest = plan.manifest.as_ref().unwrap();
    assert_eq!(manifest.entries.len(), 1);
    assert_eq!(manifest.entries[0].kind, TemplateKind::Baselines);
    assert_eq!(manifest.entries[0].name, "default");
    assert_eq!(manifest.entries[0].hash, hash_content(AGE));
    carry_out(&mut files, "cfg", &plan);
    assert_eq!(lookup(&files, "cfg/baselines/default.toml"), Some(AGE));
    let stored = TemplateManifest::parse(lookup(&files, "cfg/templates.manifest").unwrap()).unwrap();
    assert_eq!(stored.find_hash(TemplateKind::Baselines, "default"), Some(hash_content(AGE).as_str()));
}

#[test]
fn second_run_reports_unchanged() {
    let catalog = one_baseline(AGE);
    let mut files = Vec::new();
    run(&catalog, &mut files, opts(false, false, false));
    let before = files.len();
    let plan = synchronize(&catalog, "1.0", "cfg", &files, opts(false, false, false));
    assert_eq!(plan.report.unchanged, vec!["cfg/baselines/default.toml"]);
    assert_eq!(plan.report.created, none());
    assert_eq!(plan.report.updated, none());
    assert_eq!(plan.report.skipped_modified, none());
    assert_eq!(plan.report.sidecar, none());
    assert!(plan.writes.is_empty());
    assert_eq!(files.len(), before);
}

#[test]
fn edited_file_is_skipped_and_kept() {
    let catalog = one_baseline(AGE);
    let mut files = Vec::new();
    run(&catalog, &mut files, opts(false, false, false));
    files.push(file("cfg/baselines/default.toml", EDITED));
    let report = run(&catalog, &mut files, opts(false, false, false));
    assert_eq!(report.skipped_modified, vec!["cfg/baselines/default.toml"]);
    assert_eq!(report.created, none());
    assert_eq!(report.updated, none());
    assert_eq!(report.unchanged, none());
    assert_eq!(report.sidecar, none());
    assert_eq!(lookup(&files, "cfg/baselines/default.toml"), Some(EDITED));
}

#[test]
fn edited_file_gets_a_sidecar() {
    let catalog = one_baseline(AGE);
    let mut files = Vec::new();
    run(&catalog, &mut files, opts(false, false, false));
    files.push(file("cfg/baselines/default.toml", EDITED));
    let report = run(&catalog, &mut files, opts(false, true, false));
    assert_eq!(report.sidecar, vec!["cfg/templates.new/baselines/default.toml"]);
    assert_eq!(report.skipped_modified, none());
    assert_eq!(lookup(&files, "cfg/templates.new/baselines/default.toml"), Some(AGE));
    assert_eq!(lookup(&files, "cfg/baselines/default.toml"), Some(EDITED));
}

#[test]
fn untouched_file_follows_a_new_release() {
    let mut files = Vec::new();
    run(&one_baseline(AGE), &mut files, opts(false, false, false));
    let newer = one_baseline("vars = [\"age\", \"eth_cat\"]");
    let report = run(&newer, &mut files, opts(false, false, false));
    assert_eq!(report.updated, vec!["cfg/baselines/default.toml"]);
    assert_eq!(lookup(&files, "cfg/baselines/default.toml"), Some("vars = [\"age\", \"eth_cat\"]"));
    let again = run(&newer, &mut files, opts(false, false, false));
    assert_eq!(again.unchanged, vec!["cfg/baselines/default.toml"]);
}

#[test]
fn edited_file_does_not_follow_a_new_release() {
    let mut files = Vec::new();
    run(&one_baseline(AGE), &mut files, opts(false, false, false));
    files.push(file("cfg/baselines/default.toml", EDITED));
    let newer = one_baseline("vars = [\"age\", \"eth_cat\"]");
    let report = run(&newer, &mut files, opts(false, false, false));
    assert_eq!(report.skipped_modified, vec!["cfg/baselines/default.toml"]);
    assert_eq!(lookup(&files, "cfg/baselines/default.toml"), Some(EDITED));
}

#[test]
fn force_overwrites_an_edited_file() {
    let catalog = one_baseline(AGE);
    let mut files = vec![file("cfg/baselines/default.toml", EDITED)];
    let report = run(&catalog, &mut files, opts(true, true, false));
    assert_eq!(report.updated, vec!["cfg/baselines/default.toml"]);
    assert_eq!(report.sidecar, none());
    assert_eq!(lookup(&files, "cfg/baselines/default.toml"), Some(AGE));
    let again = run(&catalog, &mut files, opts(true, false, false));
    assert_eq!(again.unchanged, vec!["cfg/baselines/default.toml"]);
    assert_eq!(again.updated, none());
}

#[test]
fn dry_run_reports_and_writes_nothing() {
    let catalog = vec![
        TemplateAsset::new(TemplateKind::Baselines, "default", AGE),
        TemplateAsset::new(TemplateKind::Baselines, "mine", "a"),
        TemplateAsset::new(TemplateKind::Outcomes, "health", "b"),
    ];
    let files = vec![file("cfg/baselines/mine.toml", "edited"), file("cfg/outcomes/health.toml", "b")];
    for force in [false, true] {
        for sidecar in [false, true] {
            let dry = synchronize(&catalog, "1.0", "cfg", &files, opts(force, sidecar, true));
            let wet = synchronize(&catalog, "1.0", "cfg", &files, opts(force, sidecar, false));
            assert!(dry.writes.is_empty());
            assert!(dry.manifest.is_none());
            assert!(wet.manifest.is_some());
            assert_eq!(dry.report.created, wet.report.created);
            assert_eq!(dry.report.updated, wet.report.updated);
            assert_eq!(dry.report.unchanged, wet.report.unchanged);
            assert_eq!(dry.report.skipped_modified, wet.report.skipped_modified);
            assert_eq!(dry.report.sidecar, wet.report.sidecar);
            assert_eq!(dry.report.created, vec!["cfg/baselines/default.toml"]);
            assert_eq!(dry.report.unchanged, vec!["cfg/outcomes/health.toml"]);
        }
    }
}

#[test]
fn file_without_history_that_is_current_is_unchanged() {
    let catalog = one_baseline(AGE);
    let files = vec![file("cfg/baselines/default.toml", AGE)];
    let plan = synchronize(&catalog, "1.0", "cfg", &files, opts(false, false, false));
    assert_eq!(plan.report.unchanged, vec!["cfg/baselines/default.toml"]);
    assert!(plan.writes.is_empty());
    assert!(plan.manifest.is_some());
}

#[test]
fn unreadable_manifest_counts_as_no_history() {
    let catalog = one_baseline(AGE);
    let files = vec![
        file("cfg/baselines/default.toml", EDITED),
        file("cfg/templates.manifest", format!("baselines:default:{}\n", hash_content(EDITED)).as_str()),
    ];
    let plan = synchronize(&catalog, "1.0", "cfg", &files, opts(false, false, false));
    assert_eq!(plan.report.skipped_modified, vec!["cfg/baselines/default.toml"]);
    let with_version = vec![
        file("cfg/baselines/default.toml", EDITED),
        file("cfg/templates.manifest", format!("version=0.9\nbaselines:default:{}\n", hash_content(EDITED)).as_str()),
    ];
    let plan = synchronize(&catalog, "1.0", "cfg", &with_version, opts(false, false, false));
    assert_eq!(plan.report.updated, vec!["cfg/baselines/default.toml"]);
}

#[test]
fn reconcile_takes_the_previous_manifest_as_given() {
    let catalog = one_baseline(AGE);
    let files = vec![file("cfg/baselines/default.toml", EDITED)];
    let previous = TemplateManifest::for_catalog(&one_baseline(EDITED), "0.9");
    let plan = reconcile(&catalog, "1.0", "cfg", &files, Some(&previous), opts(false, false, false));
    assert_eq!(plan.report.updated, vec!["cfg/baselines/default.toml"]);
    assert_eq!(plan.manifest.unwrap().version, "1.0");
    let plan = reconcile(&catalog, "1.0", "cfg", &files, None, opts(false, false, false));
    assert_eq!(plan.report.skipped_modified, vec!["cfg/baselines/default.toml"]);
}

#[test]
fn report_is_in_catalog_order() {
    let catalog = shipped_templates();
    let files = Vec::new();
    let plan = Config::refresh_templates("/h/.config/margo", &files, opts(false, false, false));
    assert_eq!(
        plan.report.created,
        vec![
            "/h/.config/margo/baselines/default.toml",
            "/h/.config/margo/baselines/minimal.toml",
            "/h/.config/margo/baselines/extended.toml",
            "/h/.config/margo/outcomes/wellbeing.toml",
            "/h/.config/margo/outcomes/health.toml",
        ]
    );
    assert_eq!(plan.writes.len(), 5);
    for (w, a) in plan.writes.iter().zip(catalog.iter()) {
        assert_eq!(w.content, a.content);
    }
    let manifest = plan.manifest.unwrap();
    assert_eq!(manifest.version, VERSION);
    assert_eq!(manifest.entries.len(), 5);
}

#[test]
fn classify_follows_the_priority_order() {
    assert_eq!(classify(None, Some("a"), "a", true), AssetState::Missing);
    assert_eq!(classify(None, None, "a", false), AssetState::Missing);
    assert_eq!(classify(Some("x"), Some("x"), "a", true), AssetState::ForceOverwrite);
    assert_eq!(classify(Some("x"), Some("x"), "a", false), AssetState::UntouchedUpgrade);
    assert_eq!(classify(Some("a"), Some("a"), "a", false), AssetState::UntouchedUpgrade);
    assert_eq!(classify(Some("a"), Some("x"), "a", false), AssetState::AlreadyCurrent);
    assert_eq!(classify(Some("a"), None, "a", false), AssetState::AlreadyCurrent);
    assert_eq!(classify(Some("y"), Some("x"), "a", false), AssetState::DivergedNoHistory);
    assert_eq!(classify(Some("y"), None, "a", false), AssetState::DivergedNoHistory);
}

#[test]
fn decide_gives_each_state_its_action() {
    for up in [false, true] {
        for sc in [false, true] {
            assert_eq!(decide(AssetState::Missing, up, sc), SyncAction::Create);
            assert_eq!(decide(AssetState::AlreadyCurrent, up, sc), SyncAction::Unchanged);
            assert_eq!(decide(AssetState::ForceOverwrite, up, sc), if up { SyncAction::Unchanged } else { SyncAction::Update });
            assert_eq!(decide(AssetState::UntouchedUpgrade, up, sc), if up { SyncAction::Unchanged } else { SyncAction::Update });
            assert_eq!(decide(AssetState::DivergedNoHistory, up, sc), if sc { SyncAction::Sidecar } else { SyncAction::SkipModified });
        }
    }
}

#[test]
fn asset_action_reads_the_files() {
    let asset = TemplateAsset::new(TemplateKind::Outcomes, "health", "b");
    let files = vec![file("cfg/outcomes/health.toml", "edited")];
    assert_eq!(asset_action(&asset, "cfg", &files, None, opts(false, false, false)), SyncAction::SkipModified);
    assert_eq!(asset_action(&asset, "cfg", &files, None, opts(false, true, false)), SyncAction::Sidecar);
    assert_eq!(asset_action(&asset, "cfg", &files, None, opts(true, true, false)), SyncAction::Update);
    assert_eq!(asset_action(&asset, "other", &files, None, opts(false, false, false)), SyncAction::Create);
}

#[test]
fn lookup_returns_the_last_file_written() {
    let mut files = vec![file("a", "1"), file("b", "2"), file("a", "3")];
    assert_eq!(lookup(&files, "a"), Some("3"));
    assert_eq!(lookup(&files, "b"), Some("2"));
    assert_eq!(lookup(&files, "c"), None);
    record_writes(&mut files, &vec![file("c", "4"), file("b", "5")]);
    assert_eq!(lookup(&files, "c"), Some("4"));
    assert_eq!(lookup(&files, "b"), Some("5"));
    assert_eq!(lookup(&files, "a"), Some("3"));
}

#[test]
fn sidecar_and_manifest_paths() {
    assert_eq!(templates_manifest_path("/c"), "/c/templates.manifest");
    assert_eq!(templates_sidecar_path("/c", TemplateKind::Baselines), "/c/templates.new/baselines");
    assert_eq!(templates_sidecar_path("/c", TemplateKind::Outcomes), "/c/templates.new/outcomes");
}

#[test]
fn default_options_allow_nothing() {
    let o = TemplateRefreshOptions::default();
    assert!(!o.force && !o.sidecar && !o.dry_run);
    let r = TemplateRefreshReport::default();
    assert!(r.created.is_empty() && r.updated.is_empty() && r.unchanged.is_empty());
    assert!(r.skipped_modified.is_empty() && r.sidecar.is_empty());
}

fn entry(dir: &str, name: &str, is_dir: bool) -> DirEntry {
    DirEntry { name: name.to_string(), path: format!("{}/{}", dir, name), is_dir }
}

#[test]
fn bootstrap_seeds_the_kinds_without_templates() {
    let catalog = shipped_templates();
    let plan = bootstrap(&catalog, "1.0", "cfg", false, false);
    assert_eq!(plan.report.created.len(), 5);
    assert_eq!(plan.writes.len(), 5);
    assert!(plan.manifest.is_some());
    let plan = bootstrap(&catalog, "1.0", "cfg", true, false);
    assert_eq!(plan.report.created, vec!["cfg/outcomes/wellbeing.toml", "cfg/outcomes/health.toml"]);
    assert_eq!(plan.manifest.as_ref().unwrap().entries.len(), 5);
    let plan = bootstrap(&catalog, "1.0", "cfg", false, true);
    assert_eq!(
        plan.report.created,
        vec!["cfg/baselines/default.toml", "cfg/baselines/minimal.toml", "cfg/baselines/extended.toml"]
    );
    assert_eq!(plan.writes[1].content, catalog[1].content);
    let plan = bootstrap(&catalog, "1.0", "cfg", true, true);
    assert!(plan.report.created.is_empty());
    assert!(plan.writes.is_empty());
    assert!(plan.manifest.is_none());
}

#[test]
fn bootstrap_puts_baselines_first_whatever_the_catalog_order() {
    let catalog = vec![
        TemplateAsset::new(TemplateKind::Outcomes, "o", "1"),
        TemplateAsset::new(TemplateKind::Baselines, "b", "2"),
    ];
    let plan = bootstrap(&catalog, "1.0", "cfg", false, false);
    assert_eq!(plan.report.created, vec!["cfg/baselines/b.toml", "cfg/outcomes/o.toml"]);
    assert!(plan.report.updated.is_empty() && plan.report.unchanged.is_empty());
}

#[test]
fn ensure_templates_initialized_looks_at_the_listing() {
    let entries = vec![
        entry("cfg/baselines", "mine.toml", false),
        entry("cfg/outcomes", "examples", true),
        entry("cfg/outcomes", "readme.md", false),
    ];
    let plan = Config::ensure_templates_initialized("cfg", &entries);
    assert_eq!(plan.report.created, vec!["cfg/outcomes/wellbeing.toml", "cfg/outcomes/health.toml"]);
    let plan = Config::ensure_templates_initialized("cfg", &Vec::new());
    assert_eq!(plan.report.created.len(), 5);
}
