//! The templates bundled with this release.

use crate::config::{Config, TemplateKind};
use vstd::prelude::*;

verus! {

/// The release that the bundled templates belong to.
pub const VERSION: &'static str = "0.1.0";

/// The bundled baseline template `default`.
pub const BASELINE_DEFAULT: &'static str = r#"# default baseline covariates
# standard set for NZAVS causal inference studies

vars = [
  # demographics
  "age",
  "born_nz_binary",
  "education_level_coarsen",
  "employed_binary",
  "eth_cat",
  "male_binary",
  "not_heterosexual_binary",
  "parent_binary",
  "partner_binary",
  "religion_identification_level",
  "rural_gch_2018_l",
  "sample_frame_opt_in_binary",
  # personality - Big Six
  "agreeableness",
  "conscientiousness",
  "extraversion",
  "honesty_humility",
  "neuroticism",
  "openness",
  # health/lifestyle
  "alcohol_frequency_weekly",
  "alcohol_intensity",
  "hlth_bmi",
  "hlth_disability_binary",
  "hlth_fatigue",
  "kessler_latent_anxiety",
  "kessler_latent_depression",
  "log_hours_children",
  "log_hours_commute",
  "log_hours_exercise",
  "log_hours_housework",
  "log_household_inc",
  "short_form_health",
  "smoker_binary",
  # social/psychological
  "belong",
  "nz_dep2018",
  "nzsei_13_l",
  "political_conservative",
  "rwa",
  "sdo",
  "support"
]
"#;

/// The bundled baseline template `minimal`.
pub const BASELINE_MINIMAL: &'static str = r#"# minimal baseline covariates
# core demographics only

vars = [
  "age",
  "male_binary",
  "eth_cat",
  "education_level_coarsen",
  "employed_binary",
  "partner_binary",
  "nz_dep2018"
]
"#;

/// The bundled baseline template `extended`.
pub const BASELINE_EXTENDED: &'static str = r#"# extended baseline covariates
# comprehensive set including additional psychological measures

vars = [
  # demographics
  "age",
  "born_nz_binary",
  "education_level_coarsen",
  "employed_binary",
  "eth_cat",
  "male_binary",
  "not_heterosexual_binary",
  "parent_binary",
  "partner_binary",
  "religion_identification_level",
  "rural_gch_2018_l",
  "sample_frame_opt_in_binary",
  # personality - Big Six
  "agreeableness",
  "conscientiousness",
  "extraversion",
  "honesty_humility",
  "neuroticism",
  "openness",
  # health/lifestyle
  "alcohol_frequency_weekly",
  "alcohol_intensity",
  "hlth_bmi",
  "hlth_disability_binary",
  "hlth_fatigue",
  "kessler_latent_anxiety",
  "kessler_latent_depression",
  "log_hours_children",
  "log_hours_commute",
  "log_hours_exercise",
  "log_hours_housework",
  "log_household_inc",
  "short_form_health",
  "smoker_binary",
  # social/psychological
  "belong",
  "nz_dep2018",
  "nzsei_13_l",
  "political_conservative",
  "rwa",
  "sdo",
  "support",
  # additional measures
  "gratitude",
  "modesty",
  "perfectionism",
  "self_esteem",
  "vengeful_rumination"
]
"#;

/// The bundled outcome template `wellbeing`.
pub const OUTCOMES_WELLBEING: &'static str = r#"# wellbeing outcome variables
# psychological wellbeing measures

vars = [
  "life_satisfaction",
  "pwi",
  "self_esteem",
  "meaning_purpose",
  "gratitude"
]
"#;

/// The bundled outcome template `health`.
pub const OUTCOMES_HEALTH: &'static str = r#"# health outcome variables
# physical and mental health measures

vars = [
  "short_form_health",
  "kessler_latent_anxiety",
  "kessler_latent_depression",
  "hlth_fatigue",
  "hlth_sleep_hours"
]
"#;

/// A template shipped with a release.
#[derive(Debug, Clone)]
pub struct TemplateAsset {
    pub kind: TemplateKind,
    pub name: String,
    pub content: String,
}

/// A bundled template as plain values.
pub struct AssetView {
    pub kind: TemplateKind,
    pub name: Seq<char>,
    pub content: Seq<char>,
}

impl View for TemplateAsset {
    type V = AssetView;

    open spec fn view(&self) -> AssetView {
        AssetView { kind: self.kind, name: self.name@, content: self.content@ }
    }
}

/// A catalog as plain values.
pub open spec fn catalog_view(catalog: Seq<TemplateAsset>) -> Seq<AssetView> {
    catalog.map_values(|a: TemplateAsset| a@)
}

/// No two assets of a catalog share kind and name.
pub open spec fn catalog_wf(catalog: Seq<AssetView>) -> bool {
    forall|i: int, j: int|
        0 <= i < j < catalog.len() ==> !(#[trigger] catalog[i].kind == #[trigger] catalog[j].kind
            && catalog[i].name == catalog[j].name)
}

/// The catalog of this release.
pub open spec fn shipped_catalog() -> Seq<AssetView> {
    seq![
        AssetView { kind: TemplateKind::Baselines, name: "default"@, content: BASELINE_DEFAULT@ },
        AssetView { kind: TemplateKind::Baselines, name: "minimal"@, content: BASELINE_MINIMAL@ },
        AssetView { kind: TemplateKind::Baselines, name: "extended"@, content: BASELINE_EXTENDED@ },
        AssetView { kind: TemplateKind::Outcomes, name: "wellbeing"@, content: OUTCOMES_WELLBEING@ },
        AssetView { kind: TemplateKind::Outcomes, name: "health"@, content: OUTCOMES_HEALTH@ },
    ]
}

/// The catalog of this release names no asset twice.
pub proof fn lemma_shipped_catalog_wf()
    ensures
        catalog_wf(shipped_catalog()),
{
    reveal_strlit("default");
    reveal_strlit("minimal");
    reveal_strlit("extended");
    reveal_strlit("wellbeing");
    reveal_strlit("health");
    let c = shipped_catalog();
    assert(c[0].name[0] == 'd');
    assert(c[1].name[0] == 'm');
    assert(c[2].name[0] == 'e');
    assert(c[3].name[0] == 'w');
    assert(c[4].name[0] == 'h');
}

impl TemplateAsset {
    /// A bundled template of the given kind, name and content.
    pub fn new(kind: TemplateKind, name: &str, content: &str) -> (asset: TemplateAsset)
        ensures
            asset@ == (AssetView { kind, name: name@, content: content@ }),
    {
        TemplateAsset { kind, name: name.to_owned(), content: content.to_owned() }
    }
}

impl Config {
    /// The content of the bundled baseline template `default`.
    pub fn bundled_baseline_default() -> (r: &'static str)
        ensures
            r@ == BASELINE_DEFAULT@,
    {
        BASELINE_DEFAULT
    }

    /// The content of the bundled baseline template `minimal`.
    pub fn bundled_baseline_minimal() -> (r: &'static str)
        ensures
            r@ == BASELINE_MINIMAL@,
    {
        BASELINE_MINIMAL
    }

    /// The content of the bundled baseline template `extended`.
    pub fn bundled_baseline_extended() -> (r: &'static str)
        ensures
            r@ == BASELINE_EXTENDED@,
    {
        BASELINE_EXTENDED
    }

    /// The content of the bundled outcome template `wellbeing`.
    pub fn bundled_outcomes_wellbeing() -> (r: &'static str)
        ensures
            r@ == OUTCOMES_WELLBEING@,
    {
        OUTCOMES_WELLBEING
    }

    /// The content of the bundled outcome template `health`.
    pub fn bundled_outcomes_health() -> (r: &'static str)
        ensures
            r@ == OUTCOMES_HEALTH@,
    {
        OUTCOMES_HEALTH
    }
}

/// The templates bundled with this release, baselines first.
pub fn shipped_templates() -> (catalog: Vec<TemplateAsset>)
    ensures
        catalog_view(catalog@) == shipped_catalog(),
        catalog_wf(catalog_view(catalog@)),
{
    let mut catalog: Vec<TemplateAsset> = Vec::new();
    catalog.push(
        TemplateAsset::new(TemplateKind::Baselines, "default", Config::bundled_baseline_default()),
    );
    catalog.push(
        TemplateAsset::new(TemplateKind::Baselines, "minimal", Config::bundled_baseline_minimal()),
    );
    catalog.push(
        TemplateAsset::new(TemplateKind::Baselines, "extended", Config::bundled_baseline_extended()),
    );
    catalog.push(
        TemplateAsset::new(TemplateKind::Outcomes, "wellbeing", Config::bundled_outcomes_wellbeing()),
    );
    catalog.push(
        TemplateAsset::new(TemplateKind::Outcomes, "health", Config::bundled_outcomes_health()),
    );
    proof {
        assert(catalog_view(catalog@) =~= shipped_catalog());
        lemma_shipped_catalog_wf();
    }
    catalog
}

} // verus!
