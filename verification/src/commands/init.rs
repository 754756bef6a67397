//! Setting up a project: the names and the lists that a new project
//! starts from.

use crate::config::{opt_view, path_in, template_path, Config, ConfigView, TemplateKind};
use crate::sync::{files_map, files_view, opt_str_view, TemplateFile};
use crate::templates::{load_template_spec, read_file};
use crate::text::{
    chars_of, concat, copy_texts, decimal, decimal_string, find, find_range, join, join_texts,
    lines, next_line, range_starts_with, replace, replace_all, starts_with, substring, texts_view,
};
use vstd::prelude::*;

verus! {

/// The name of the project in a study configuration: what stands between
/// `# ` at the beginning of the first line and the first ` - ` after it;
/// empty if the first line is not of that form.
pub open spec fn old_project_name(content: Seq<char>) -> Seq<char> {
    if lines(content).len() == 0 {
        Seq::empty()
    } else {
        let first = lines(content)[0];
        if starts_with(first, "# "@) && find(first, " - "@) >= 0 {
            let title = first.skip(2);
            let i = find(title, " - "@);
            if i >= 0 {
                title.take(i)
            } else {
                Seq::empty()
            }
        } else {
            Seq::empty()
        }
    }
}

/// Reads the name of the project out of a study configuration.
pub fn extract_old_project_name(content: &str) -> (r: String)
    ensures
        r@ == old_project_name(content@),
{
    let chars = chars_of(content);
    let n = chars.len();
    proof {
        assert(content@.skip(0) =~= content@);
    }
    if n == 0 {
        return String::new();
    }
    let (lo, hi, _next) = next_line(&chars, 0);
    let ghost first = chars@.subrange(lo as int, hi as int);
    assert(lines(content@)[0] == first);
    let dash = chars_of(" - ");
    if !range_starts_with(&chars, lo, hi, "# ") {
        return String::new();
    }
    if find_range(&chars, lo, hi, &dash).is_none() {
        return String::new();
    }
    proof {
        reveal_strlit("# ");
        assert(first.skip(2) =~= chars@.subrange(lo + 2, hi as int));
    }
    match find_range(&chars, lo + 2, hi, &dash) {
        Some(i) => {
            proof {
                assert(first.skip(2).take(i - lo - 2) =~= chars@.subrange(lo + 2, i as int));
            }
            substring(content, lo + 2, i)
        },
        None => String::new(),
    }
}

/// A study configuration taken over for the project `name`: every
/// occurrence of the name of the project it was written for is replaced.
pub fn retitle_study_config(source: &str, name: &str) -> (r: String)
    ensures
        r@ == replace(source@, old_project_name(source@), name@),
{
    let old = extract_old_project_name(source);
    replace_all(source, old.as_str(), name)
}

/// Why a project cannot be made in a directory of its own.
#[derive(Debug, Clone, Copy, PartialEq, Eq, Structural)]
pub enum InitError {
    /// The directory of the project exists.
    DirectoryExists,
    /// The study configuration to take over cannot be found.
    SourceMissing,
}

/// What making a project in a directory of its own starts from.
#[derive(Debug, Clone)]
pub struct NewProject {
    /// The directory to make, which is the name of the project.
    pub dir: String,
    /// The study configuration, where one is taken over.
    pub study_config: Option<String>,
}

/// A new project as plain values.
pub struct NewProjectView {
    pub dir: Seq<char>,
    pub study_config: Option<Seq<char>>,
}

impl View for NewProject {
    type V = NewProjectView;

    open spec fn view(&self) -> NewProjectView {
        NewProjectView {
            dir: self.dir@,
            study_config: match self.study_config {
                Some(c) => Some(c@),
                None => None,
            },
        }
    }
}

/// What a project in a directory of its own starts from.  The directory
/// must not exist; where a study configuration is taken over from `from`
/// it must have been found, and it is taken over for the new name.
pub open spec fn new_project_spec(
    name: Seq<char>,
    dir_exists: bool,
    from: Option<Seq<char>>,
    source: Option<Seq<char>>,
) -> Result<NewProjectView, InitError> {
    if dir_exists {
        Err(InitError::DirectoryExists)
    } else if from is Some && source is None {
        Err(InitError::SourceMissing)
    } else {
        Ok(
            NewProjectView {
                dir: name,
                study_config: if from is Some {
                    Some(replace(source->0, old_project_name(source->0), name))
                } else {
                    None
                },
            },
        )
    }
}

/// The words that tell the user why the project cannot be made.
pub open spec fn init_error_text(err: InitError, name: Seq<char>, from: Seq<char>) -> Seq<char> {
    match err {
        InitError::DirectoryExists => "directory '"@ + name
            + "' already exists. choose a different name or remove the existing directory."@,
        InitError::SourceMissing => "source config not found: "@ + from,
    }
}

impl InitError {
    /// The words that tell the user what went wrong.
    pub fn message(&self, name: &str, from: &str) -> (r: String)
        ensures
            r@ == init_error_text(*self, name@, from@),
    {
        match self {
            InitError::DirectoryExists => {
                let mut r = concat("directory '", name);
                r.append(
                    "' already exists. choose a different name or remove the existing directory.",
                );
                r
            },
            InitError::SourceMissing => concat("source config not found: ", from),
        }
    }
}

/// Plans a project in a directory of its own, given whether the directory
/// exists and, where a study configuration is taken over from the file
/// `from`, the content of that file if it was found.
pub fn grf_full(name: &str, dir_exists: bool, from: Option<&str>, source: Option<&str>) -> (r: Result<
    NewProject,
    InitError,
>)
    ensures
        (match r {
            Ok(p) => Ok(p@),
            Err(e) => Err(e),
        }) == new_project_spec(name@, dir_exists, opt_str_view(from), opt_str_view(source)),
{
    if dir_exists {
        return Err(InitError::DirectoryExists);
    }
    match from {
        None => Ok(NewProject { dir: name.to_owned(), study_config: None }),
        Some(_) => match source {
            None => Err(InitError::SourceMissing),
            Some(content) => Ok(
                NewProject {
                    dir: name.to_owned(),
                    study_config: Some(retitle_study_config(content, name)),
                },
            ),
        },
    }
}

/// Plans a project in a directory of its own, with nothing taken over.
pub fn grf_quiet(name: &str, dir_exists: bool) -> (r: Result<NewProject, InitError>)
    ensures
        (match r {
            Ok(p) => Ok(p@),
            Err(e) => Err(e),
        }) == new_project_spec(name@, dir_exists, None, None),
{
    grf_full(name, dir_exists, None, None)
}

/// Strings as plain values, if there are any.
pub open spec fn opt_texts_view(v: Option<&Vec<String>>) -> Option<Seq<Seq<char>>> {
    match v {
        Some(v) => Some(texts_view(v@)),
        None => None,
    }
}

/// What is asked for when a project is set up.
pub struct GrfRequest {
    pub exposure: Seq<char>,
    /// Outcome variables named one by one.
    pub direct_outcomes: Option<Seq<Seq<char>>>,
    /// Outcome templates whose variables are taken.
    pub outcome_templates: Option<Seq<Seq<char>>>,
    /// The baseline template whose variables are taken.
    pub baselines_name: Seq<char>,
    /// Baseline variables that are taken instead of a template's.
    pub baselines_override: Option<Seq<Seq<char>>>,
    /// The name of the project, if it is not to be made up.
    pub custom_name: Option<Seq<char>>,
}

/// What a project is set up from, besides the request.
pub struct GrfContext {
    pub config: ConfigView,
    /// The current directory, if it is known.
    pub cwd: Option<Seq<char>>,
    pub config_dir: Seq<char>,
    pub fs: Map<Seq<char>, Seq<char>>,
}

/// The variables of the user's template of the kind and name: none if the
/// template cannot be read.
pub open spec fn vars_of_template(ctx: GrfContext, kind: TemplateKind, name: Seq<char>) -> Option<
    Seq<Seq<char>>,
> {
    match load_template_spec(read_file(ctx.fs, template_path(ctx.config_dir, kind, name)), name) {
        Some(t) => Some(t.vars),
        None => None,
    }
}

/// The variables of the outcome templates, in order; a template that cannot
/// be read gives none.
pub open spec fn vars_of_templates(ctx: GrfContext, names: Seq<Seq<char>>) -> Seq<Seq<char>>
    decreases names.len(),
{
    if names.len() == 0 {
        Seq::empty()
    } else {
        vars_of_templates(ctx, names.drop_last()) + (match vars_of_template(
            ctx,
            TemplateKind::Outcomes,
            names.last(),
        ) {
            Some(vars) => vars,
            None => Seq::empty(),
        })
    }
}

/// The outcome templates that cannot be read, in order.
pub open spec fn unreadable_templates(ctx: GrfContext, names: Seq<Seq<char>>) -> Seq<Seq<char>>
    decreases names.len(),
{
    if names.len() == 0 {
        Seq::empty()
    } else {
        let before = unreadable_templates(ctx, names.drop_last());
        if vars_of_template(ctx, TemplateKind::Outcomes, names.last()) is None {
            before.push(names.last())
        } else {
            before
        }
    }
}

/// Where the data is read from: where the configuration says, else the
/// current directory.
pub open spec fn pull_data_spec(ctx: GrfContext) -> Seq<char> {
    match ctx.config.pull_data {
        Some(p) => p,
        None => match ctx.cwd {
            Some(c) => c,
            None => "."@,
        },
    }
}

/// The directory under which the outputs of projects are kept: where the
/// configuration says, else `outputs` in the current directory.
pub open spec fn push_mods_base_spec(ctx: GrfContext) -> Seq<char> {
    match ctx.config.push_mods {
        Some(p) => p,
        None => match ctx.cwd {
            Some(c) => path_in(c, "outputs"@),
            None => "./outputs"@,
        },
    }
}

/// The name of a project: the one asked for, else the exposure with the
/// first outcome named, else the exposure with the names of the outcome
/// templates, else the exposure alone.
pub open spec fn grf_project_name(req: GrfRequest) -> Seq<char> {
    match req.custom_name {
        Some(n) => n,
        None => if req.direct_outcomes is Some && req.direct_outcomes->0.len() > 0 {
            req.exposure + "-"@ + req.direct_outcomes->0[0]
        } else if req.outcome_templates is Some && req.outcome_templates->0.len() > 0 {
            req.exposure + "-"@ + join(req.outcome_templates->0, "-"@)
        } else {
            req.exposure
        },
    }
}

/// The outcome variables of a project: those named one by one, then those
/// of the outcome templates.
pub open spec fn grf_outcome_vars(req: GrfRequest, ctx: GrfContext) -> Seq<Seq<char>> {
    (match req.direct_outcomes {
        Some(d) => d,
        None => Seq::empty(),
    }) + (match req.outcome_templates {
        Some(t) => vars_of_templates(ctx, t),
        None => Seq::empty(),
    })
}

/// The baseline variables of a project: those given instead of a
/// template, else those of the baseline template, else none.
pub open spec fn grf_baseline_vars(req: GrfRequest, ctx: GrfContext) -> Seq<Seq<char>> {
    match req.baselines_override {
        Some(vars) => vars,
        None => match vars_of_template(ctx, TemplateKind::Baselines, req.baselines_name) {
            Some(vars) => vars,
            None => Seq::empty(),
        },
    }
}

/// What a new project starts from.
#[derive(Debug, Clone)]
pub struct GrfPlan {
    pub project_name: String,
    /// Where the data is read from.
    pub pull_data: String,
    /// Where the outputs of the project are written.
    pub push_mods_path: String,
    pub outcome_vars: Vec<String>,
    pub baseline_vars: Vec<String>,
    /// Whether the scripts set up a package environment.
    pub use_renv: bool,
    /// The outcome templates that were asked for and could not be read.
    pub missing_outcome_templates: Vec<String>,
    /// Whether the baseline template was needed and could not be read.
    pub baselines_missing: bool,
}

/// A plan as plain values.
pub struct GrfPlanView {
    pub project_name: Seq<char>,
    pub pull_data: Seq<char>,
    pub push_mods_path: Seq<char>,
    pub outcome_vars: Seq<Seq<char>>,
    pub baseline_vars: Seq<Seq<char>>,
    pub use_renv: bool,
    pub missing_outcome_templates: Seq<Seq<char>>,
    pub baselines_missing: bool,
}

impl View for GrfPlan {
    type V = GrfPlanView;

    open spec fn view(&self) -> GrfPlanView {
        GrfPlanView {
            project_name: self.project_name@,
            pull_data: self.pull_data@,
            push_mods_path: self.push_mods_path@,
            outcome_vars: texts_view(self.outcome_vars@),
            baseline_vars: texts_view(self.baseline_vars@),
            use_renv: self.use_renv,
            missing_outcome_templates: texts_view(self.missing_outcome_templates@),
            baselines_missing: self.baselines_missing,
        }
    }
}

/// What a new project starts from: its name, where it reads and writes,
/// its variables, and what could not be found.  The outputs go to a
/// directory of the project's name; a package environment is set up unless
/// the configuration says otherwise.
pub open spec fn grf_plan_spec(req: GrfRequest, ctx: GrfContext) -> GrfPlanView {
    GrfPlanView {
        project_name: grf_project_name(req),
        pull_data: pull_data_spec(ctx),
        push_mods_path: path_in(push_mods_base_spec(ctx), grf_project_name(req)),
        outcome_vars: grf_outcome_vars(req, ctx),
        baseline_vars: grf_baseline_vars(req, ctx),
        use_renv: match ctx.config.use_rv {
            Some(b) => b,
            None => true,
        },
        missing_outcome_templates: match req.outcome_templates {
            Some(t) => unreadable_templates(ctx, t),
            None => Seq::empty(),
        },
        baselines_missing: req.baselines_override is None && vars_of_template(
            ctx,
            TemplateKind::Baselines,
            req.baselines_name,
        ) is None,
    }
}

/// The request as the executable code holds it.
pub open spec fn request_of(
    exposure: &str,
    direct_outcomes: Option<&Vec<String>>,
    outcome_templates: Option<&Vec<String>>,
    baselines_name: &str,
    baselines_override: Option<&Vec<String>>,
    custom_name: Option<&str>,
) -> GrfRequest {
    GrfRequest {
        exposure: exposure@,
        direct_outcomes: opt_texts_view(direct_outcomes),
        outcome_templates: opt_texts_view(outcome_templates),
        baselines_name: baselines_name@,
        baselines_override: opt_texts_view(baselines_override),
        custom_name: opt_str_view(custom_name),
    }
}

/// The context as the executable code holds it.
pub open spec fn grf_context_of(
    config: &Config,
    cwd: Option<&str>,
    config_dir: &str,
    files: &Vec<TemplateFile>,
) -> GrfContext {
    GrfContext {
        config: config@,
        cwd: opt_str_view(cwd),
        config_dir: config_dir@,
        fs: files_map(files_view(files@)),
    }
}

/// Where the data is read from.
pub fn pull_data_path(config: &Config, cwd: Option<&str>) -> (r: String)
    ensures
        r@ == (match opt_view(config.pull_data) {
            Some(p) => p,
            None => match opt_str_view(cwd) {
                Some(c) => c,
                None => "."@,
            },
        }),
{
    match &config.pull_data {
        Some(p) => p.clone(),
        None => match cwd {
            Some(c) => c.to_owned(),
            None => ".".to_owned(),
        },
    }
}

/// The directory under which the outputs of projects are kept.
pub fn push_mods_base(config: &Config, cwd: Option<&str>) -> (r: String)
    ensures
        r@ == (match opt_view(config.push_mods) {
            Some(p) => p,
            None => match opt_str_view(cwd) {
                Some(c) => path_in(c, "outputs"@),
                None => "./outputs"@,
            },
        }),
{
    match &config.push_mods {
        Some(p) => p.clone(),
        None => match cwd {
            Some(c) => crate::config::join_path(c, "outputs"),
            None => "./outputs".to_owned(),
        },
    }
}

/// Plans a project from the configuration, the user's templates and what
/// was asked for.
pub fn grf_from_config(
    config: &Config,
    cwd: Option<&str>,
    config_dir: &str,
    files: &Vec<TemplateFile>,
    exposure: &str,
    direct_outcomes: Option<&Vec<String>>,
    outcome_templates: Option<&Vec<String>>,
    baselines_name: &str,
    baselines_override: Option<&Vec<String>>,
    custom_name: Option<&str>,
) -> (plan: GrfPlan)
    ensures
        plan@ == grf_plan_spec(
            request_of(
                exposure,
                direct_outcomes,
                outcome_templates,
                baselines_name,
                baselines_override,
                custom_name,
            ),
            grf_context_of(config, cwd, config_dir, files),
        ),
{
    let ghost req = request_of(
        exposure,
        direct_outcomes,
        outcome_templates,
        baselines_name,
        baselines_override,
        custom_name,
    );
    let ghost ctx = grf_context_of(config, cwd, config_dir, files);
    let pull_data = pull_data_path(config, cwd);
    let base = push_mods_base(config, cwd);
    let mut outcome_vars: Vec<String> = match direct_outcomes {
        Some(d) => copy_texts(d),
        None => Vec::new(),
    };
    let ghost direct = texts_view(outcome_vars@);
    let mut missing: Vec<String> = Vec::new();
    match outcome_templates {
        Some(names) => {
            let ghost all = texts_view(names@);
            let mut i: usize = 0;
            proof {
                assert(texts_view(outcome_vars@) =~= direct + vars_of_templates(ctx, all.take(0)));
                assert(texts_view(missing@) =~= unreadable_templates(ctx, all.take(0)));
            }
            while i < names.len()
                invariant
                    i <= names.len(),
                    all == texts_view(names@),
                    ctx == grf_context_of(config, cwd, config_dir, files),
                    texts_view(outcome_vars@) == direct + vars_of_templates(ctx, all.take(i as int)),
                    texts_view(missing@) == unreadable_templates(ctx, all.take(i as int)),
                decreases names.len() - i,
            {
                let ghost before = texts_view(outcome_vars@);
                let ghost before_missing = texts_view(missing@);
                proof {
                    let next = all.take(i + 1);
                    assert(next.drop_last() =~= all.take(i as int));
                    assert(next.last() == names@[i as int]@);
                }
                match Config::load_outcomes(config_dir, files, names[i].as_str()) {
                    Some(t) => {
                        let mut vars = t.vars;
                        let ghost added = texts_view(vars@);
                        outcome_vars.append(&mut vars);
                        proof {
                            assert(texts_view(outcome_vars@) =~= before + added);
                            assert(texts_view(outcome_vars@) =~= direct + vars_of_templates(
                                ctx,
                                all.take(i + 1),
                            ));
                        }
                    },
                    None => {
                        missing.push(names[i].clone());
                        proof {
                            assert(texts_view(missing@) =~= before_missing.push(names@[i as int]@));
                            assert(texts_view(outcome_vars@) =~= direct + vars_of_templates(
                                ctx,
                                all.take(i + 1),
                            ));
                        }
                    },
                }
                i += 1;
            }
            proof {
                assert(all.take(names.len() as int) =~= all);
            }
        },
        None => {
            proof {
                assert(texts_view(outcome_vars@) =~= direct + Seq::<Seq<char>>::empty());
            }
        },
    }
    let first_outcome: Option<&String> = match direct_outcomes {
        Some(d) => if d.len() > 0 {
            Some(&d[0])
        } else {
            None
        },
        None => None,
    };
    let project_name = match custom_name {
        Some(n) => n.to_owned(),
        None => match first_outcome {
            Some(first) => {
                let mut r = concat(exposure, "-");
                r.append(first.as_str());
                r
            },
            None => match outcome_templates {
                Some(t) => if t.len() > 0 {
                    let mut r = concat(exposure, "-");
                    let joined = join_texts(t, "-");
                    r.append(joined.as_str());
                    r
                } else {
                    exposure.to_owned()
                },
                None => exposure.to_owned(),
            },
        },
    };
    let mut baselines_missing = false;
    let baseline_vars = match baselines_override {
        Some(vars) => copy_texts(vars),
        None => match Config::load_baselines(config_dir, files, baselines_name) {
            Some(t) => t.vars,
            None => {
                baselines_missing = true;
                Vec::new()
            },
        },
    };
    let push_mods_path = crate::config::join_path(base.as_str(), project_name.as_str());
    let use_renv = match config.use_rv {
        Some(b) => b,
        None => true,
    };
    let plan = GrfPlan {
        project_name,
        pull_data,
        push_mods_path,
        outcome_vars,
        baseline_vars,
        use_renv,
        missing_outcome_templates: missing,
        baselines_missing,
    };
    proof {
        let want = grf_plan_spec(req, ctx);
        assert(plan@.outcome_vars =~= want.outcome_vars);
        assert(plan@.baseline_vars =~= want.baseline_vars);
        assert(plan@.missing_outcome_templates =~= want.missing_outcome_templates);
    }
    plan
}

/// The years whose waves an event study looks at unless it is told
/// otherwise: 2011 to 2023.
pub open spec fn default_waves() -> Seq<Seq<char>> {
    Seq::new(13, |i: int| decimal((2011 + i) as nat))
}

/// What a new event study starts from.
#[derive(Debug, Clone)]
pub struct GrfEventPlan {
    pub project_name: String,
    pub pull_data: String,
    pub push_mods_path: String,
    pub outcome_var: String,
    pub outcome_waves: Vec<String>,
    pub reference_wave: String,
    pub baseline_vars: Vec<String>,
    /// Whether the baseline template could not be read.
    pub baselines_missing: bool,
}

/// An event study plan as plain values.
pub struct GrfEventPlanView {
    pub project_name: Seq<char>,
    pub pull_data: Seq<char>,
    pub push_mods_path: Seq<char>,
    pub outcome_var: Seq<char>,
    pub outcome_waves: Seq<Seq<char>>,
    pub reference_wave: Seq<char>,
    pub baseline_vars: Seq<Seq<char>>,
    pub baselines_missing: bool,
}

impl View for GrfEventPlan {
    type V = GrfEventPlanView;

    open spec fn view(&self) -> GrfEventPlanView {
        GrfEventPlanView {
            project_name: self.project_name@,
            pull_data: self.pull_data@,
            push_mods_path: self.push_mods_path@,
            outcome_var: self.outcome_var@,
            outcome_waves: texts_view(self.outcome_waves@),
            reference_wave: self.reference_wave@,
            baseline_vars: texts_view(self.baseline_vars@),
            baselines_missing: self.baselines_missing,
        }
    }
}

/// What a new event study starts from.  Without an outcome it looks at
/// `outcome_variable`; without waves, at the years 2011 to 2023; without a
/// reference wave, at the first wave, or 2011 if there is no wave; and
/// without a name it is named after the exposure.
pub open spec fn grf_event_plan_spec(
    ctx: GrfContext,
    exposure: Seq<char>,
    outcome: Option<Seq<char>>,
    waves: Option<Seq<Seq<char>>>,
    reference: Option<Seq<char>>,
    baselines_name: Seq<char>,
    custom_name: Option<Seq<char>>,
) -> GrfEventPlanView {
    let outcome_waves = match waves {
        Some(w) => w,
        None => default_waves(),
    };
    let project_name = match custom_name {
        Some(n) => n,
        None => exposure + "-event-study"@,
    };
    GrfEventPlanView {
        project_name,
        pull_data: pull_data_spec(ctx),
        push_mods_path: path_in(push_mods_base_spec(ctx), project_name),
        outcome_var: match outcome {
            Some(o) => o,
            None => "outcome_variable"@,
        },
        outcome_waves,
        reference_wave: match reference {
            Some(r) => r,
            None => if outcome_waves.len() > 0 {
                outcome_waves[0]
            } else {
                "2011"@
            },
        },
        baseline_vars: match vars_of_template(ctx, TemplateKind::Baselines, baselines_name) {
            Some(vars) => vars,
            None => Seq::empty(),
        },
        baselines_missing: vars_of_template(ctx, TemplateKind::Baselines, baselines_name) is None,
    }
}

/// The years 2011 to 2023.
fn default_wave_list() -> (waves: Vec<String>)
    ensures
        texts_view(waves@) == default_waves(),
{
    let mut waves: Vec<String> = Vec::new();
    let mut year: usize = 2011;
    while year <= 2023
        invariant
            2011 <= year <= 2024,
            waves@.len() == year - 2011,
            forall|i: int| 0 <= i < waves@.len() ==> (#[trigger] waves@[i])@ == decimal((2011 + i) as nat),
        decreases 2024 - year,
    {
        waves.push(decimal_string(year));
        year += 1;
    }
    assert(texts_view(waves@) =~= default_waves());
    waves
}

/// Plans an event study from the configuration, the user's templates and
/// what was asked for.
pub fn grf_event_from_config(
    config: &Config,
    cwd: Option<&str>,
    config_dir: &str,
    files: &Vec<TemplateFile>,
    exposure: &str,
    outcome: Option<&str>,
    waves: Option<&Vec<String>>,
    reference: Option<&str>,
    baselines_name: &str,
    custom_name: Option<&str>,
) -> (plan: GrfEventPlan)
    ensures
        plan@ == grf_event_plan_spec(
            grf_context_of(config, cwd, config_dir, files),
            exposure@,
            opt_str_view(outcome),
            opt_texts_view(waves),
            opt_str_view(reference),
            baselines_name@,
            opt_str_view(custom_name),
        ),
{
    proof {
        reveal_strlit("2011");
    }
    let pull_data = pull_data_path(config, cwd);
    let base = push_mods_base(config, cwd);
    let outcome_var = match outcome {
        Some(o) => o.to_owned(),
        None => "outcome_variable".to_owned(),
    };
    let outcome_waves = match waves {
        Some(w) => copy_texts(w),
        None => default_wave_list(),
    };
    let reference_wave = match reference {
        Some(r) => r.to_owned(),
        None => if outcome_waves.len() > 0 {
            outcome_waves[0].clone()
        } else {
            "2011".to_owned()
        },
    };
    let project_name = match custom_name {
        Some(n) => n.to_owned(),
        None => concat(exposure, "-event-study"),
    };
    let mut baselines_missing = false;
    let baseline_vars = match Config::load_baselines(config_dir, files, baselines_name) {
        Some(t) => t.vars,
        None => {
            baselines_missing = true;
            Vec::new()
        },
    };
    let push_mods_path = crate::config::join_path(base.as_str(), project_name.as_str());
    let plan = GrfEventPlan {
        project_name,
        pull_data,
        push_mods_path,
        outcome_var,
        outcome_waves,
        reference_wave,
        baseline_vars,
        baselines_missing,
    };
    proof {
        let want = grf_event_plan_spec(
            grf_context_of(config, cwd, config_dir, files),
            exposure@,
            opt_str_view(outcome),
            opt_texts_view(waves),
            opt_str_view(reference),
            baselines_name@,
            opt_str_view(custom_name),
        );
        assert(plan@.outcome_waves =~= want.outcome_waves);
        assert(plan@.baseline_vars =~= want.baseline_vars);
    }
    plan
}

/// A year in decimal, with a minus sign before a year below zero.
pub open spec fn year_text(year: int) -> Seq<char> {
    if year < 0 {
        "-"@ + decimal((-year) as nat)
    } else {
        decimal(year as nat)
    }
}

/// The name under which the guided setup shows a project: the year, then
/// the exposure with its underscores turned into hyphens, then `-event` for
/// an event study.
pub open spec fn guided_project_name(year: int, exposure: Seq<char>, event: bool) -> Seq<char> {
    year_text(year) + "-"@ + replace(exposure, "_"@, "-"@) + (if event {
        "-event"@
    } else {
        Seq::empty()
    })
}

/// Calls `time::OffsetDateTime::now_utc` and takes the year of what it
/// returns: the year that the system clock shows, of which nothing is
/// claimed.  The call gives up on a clock set beyond the years that the
/// crate counts, which end at 9999.
#[verifier::external_body]
fn current_year() -> (year: i32) {
    time::OffsetDateTime::now_utc().year()
}

/// Writes a year in decimal.
pub fn year_string(year: i32) -> (r: String)
    ensures
        r@ == year_text(year as int),
{
    if year < 0 {
        let positive: usize = (-(year as i64)) as usize;
        let digits = decimal_string(positive);
        concat("-", digits.as_str())
    } else {
        decimal_string(year as usize)
    }
}

/// The name under which the guided setup shows a project of the given
/// year.
pub fn project_name_in(year: i32, exposure: &str, event: bool) -> (r: String)
    ensures
        r@ == guided_project_name(year as int, exposure@, event),
{
    let mut r = year_string(year);
    r.append("-");
    let hyphenated = replace_all(exposure, "_", "-");
    r.append(hyphenated.as_str());
    if event {
        r.append("-event");
    }
    assert(r@ =~= guided_project_name(year as int, exposure@, event));
    r
}

/// The name under which the guided setup shows a project made now.
pub fn project_name_now(exposure: &str, event: bool) -> (r: String)
    ensures
        exists|year: int| r@ == #[trigger] guided_project_name(year, exposure@, event),
{
    let year = current_year();
    let r = project_name_in(year, exposure, event);
    assert(r@ == guided_project_name(year as int, exposure@, event));
    r
}

} // verus!
