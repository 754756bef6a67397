//! Keeping a user's template files in step with the bundled templates.
//!
//! For each bundled template three hashes are compared: the hash of the
//! bundled content, the hash of the user's file, and the hash that the
//! manifest recorded when the templates were last brought in step.  A file
//! that still has the recorded hash was never edited and follows the bundled
//! content; a file with any other hash is the user's work and is left alone
//! unless the caller forces the update.
//!
//! Nothing here touches a disk.  The caller hands in the files it has read
//! and gets back a plan: the report, the files to write, and the manifest
//! to store.  What carrying out a plan does to the files is said by
//! [`plan_effect`].

use crate::catalog::{
    catalog_view, catalog_wf, shipped_catalog, shipped_templates, AssetView, TemplateAsset, VERSION,
};
use crate::config::{
    join_path, kind_dir, kind_dir_in, path_in, template_file, template_file_in, template_path,
    template_path_in, Config, TemplateKind,
};
use crate::hash::{content_hash, hash_content};
use crate::listing::{has_templates, has_user_templates, listing_view, DirEntry};
use crate::manifest::{manifest_of, parse_manifest, render_manifest, ManifestView, TemplateManifest};
use crate::text::{str_eq, texts_view};
use vstd::prelude::*;

verus! {

/// What a caller allows a refresh to do.
#[derive(Debug, Clone, Copy)]
pub struct TemplateRefreshOptions {
    /// Overwrite files even where the user has edited them.
    pub force: bool,
    /// Put the bundled content of an edited template beside the user's
    /// templates instead of skipping it.
    pub sidecar: bool,
    /// Report what would be done, and write nothing.
    pub dry_run: bool,
}

impl Default for TemplateRefreshOptions {
    fn default() -> (opts: TemplateRefreshOptions)
        ensures
            !opts.force,
            !opts.sidecar,
            !opts.dry_run,
    {
        TemplateRefreshOptions { force: false, sidecar: false, dry_run: false }
    }
}

/// What a refresh did with each template, by the path it concerns.
#[derive(Debug, Clone)]
pub struct TemplateRefreshReport {
    pub created: Vec<String>,
    pub updated: Vec<String>,
    pub unchanged: Vec<String>,
    pub skipped_modified: Vec<String>,
    pub sidecar: Vec<String>,
}

/// A report as plain values.
pub struct ReportView {
    pub created: Seq<Seq<char>>,
    pub updated: Seq<Seq<char>>,
    pub unchanged: Seq<Seq<char>>,
    pub skipped_modified: Seq<Seq<char>>,
    pub sidecar: Seq<Seq<char>>,
}

impl View for TemplateRefreshReport {
    type V = ReportView;

    open spec fn view(&self) -> ReportView {
        ReportView {
            created: texts_view(self.created@),
            updated: texts_view(self.updated@),
            unchanged: texts_view(self.unchanged@),
            skipped_modified: texts_view(self.skipped_modified@),
            sidecar: texts_view(self.sidecar@),
        }
    }
}

impl Default for TemplateRefreshReport {
    fn default() -> (report: TemplateRefreshReport)
        ensures
            report@.created.len() == 0,
            report@.updated.len() == 0,
            report@.unchanged.len() == 0,
            report@.skipped_modified.len() == 0,
            report@.sidecar.len() == 0,
    {
        TemplateRefreshReport {
            created: Vec::new(),
            updated: Vec::new(),
            unchanged: Vec::new(),
            skipped_modified: Vec::new(),
            sidecar: Vec::new(),
        }
    }
}

/// A file: its path and its whole content.
#[derive(Debug, Clone)]
pub struct TemplateFile {
    pub path: String,
    pub content: String,
}

/// A file as plain values.
pub struct FileView {
    pub path: Seq<char>,
    pub content: Seq<char>,
}

impl View for TemplateFile {
    type V = FileView;

    open spec fn view(&self) -> FileView {
        FileView { path: self.path@, content: self.content@ }
    }
}

/// Files as plain values.
pub open spec fn files_view(files: Seq<TemplateFile>) -> Seq<FileView> {
    files.map_values(|f: TemplateFile| f@)
}

/// The files after the given writes, made in order: each write replaces the
/// whole content at its path.
pub open spec fn apply_writes(fs: Map<Seq<char>, Seq<char>>, writes: Seq<FileView>) -> Map<
    Seq<char>,
    Seq<char>,
>
    decreases writes.len(),
{
    if writes.len() == 0 {
        fs
    } else {
        apply_writes(fs, writes.drop_last()).insert(writes.last().path, writes.last().content)
    }
}

/// The content that the last of the given writes to `path` leaves there.
pub open spec fn last_write(writes: Seq<FileView>, path: Seq<char>) -> Option<Seq<char>>
    decreases writes.len(),
{
    if writes.len() == 0 {
        None
    } else if writes.last().path == path {
        Some(writes.last().content)
    } else {
        last_write(writes.drop_last(), path)
    }
}

/// The files that a list of files stands for: where a path occurs more than
/// once, the last occurrence counts.
pub open spec fn files_map(files: Seq<FileView>) -> Map<Seq<char>, Seq<char>> {
    apply_writes(Map::empty(), files)
}

/// After some writes a path holds what was last written to it, or what it
/// held before if nothing was.
pub proof fn lemma_apply_writes_at(
    fs: Map<Seq<char>, Seq<char>>,
    writes: Seq<FileView>,
    path: Seq<char>,
)
    ensures
        apply_writes(fs, writes).contains_key(path) <==> (last_write(writes, path) is Some
            || fs.contains_key(path)),
        last_write(writes, path) matches Some(c) ==> apply_writes(fs, writes)[path] == c,
        last_write(writes, path) is None ==> apply_writes(fs, writes)[path] == fs[path],
    decreases writes.len(),
{
    if writes.len() > 0 {
        lemma_apply_writes_at(fs, writes.drop_last(), path);
    }
}

/// Writing two lists in turn is writing their concatenation.
pub proof fn lemma_apply_writes_concat(
    fs: Map<Seq<char>, Seq<char>>,
    first: Seq<FileView>,
    second: Seq<FileView>,
)
    ensures
        apply_writes(fs, first + second) == apply_writes(apply_writes(fs, first), second),
    decreases second.len(),
{
    if second.len() == 0 {
        assert(first + second =~= first);
    } else {
        lemma_apply_writes_concat(fs, first, second.drop_last());
        assert((first + second).drop_last() =~= first + second.drop_last());
    }
}

/// The file in which the manifest is kept.
pub open spec fn manifest_path(config_dir: Seq<char>) -> Seq<char> {
    path_in(config_dir, "templates.manifest"@)
}

/// The directory that takes the bundled content of edited templates of one
/// kind.
pub open spec fn sidecar_dir(config_dir: Seq<char>, kind: TemplateKind) -> Seq<char> {
    kind_dir(path_in(config_dir, "templates.new"@), kind)
}

/// The file that takes the bundled content of the edited template `name`.
pub open spec fn sidecar_path(config_dir: Seq<char>, kind: TemplateKind, name: Seq<char>) -> Seq<
    char,
> {
    template_file_in(sidecar_dir(config_dir, kind), name)
}

/// The state of a user's template file against the bundled template.
#[derive(Debug, Clone, Copy, PartialEq, Eq, Structural)]
pub enum AssetState {
    /// The user has no such file.
    Missing,
    /// The caller asked to overwrite whatever is there.
    ForceOverwrite,
    /// The file is what was last shipped: the user never edited it.
    UntouchedUpgrade,
    /// The file already is the bundled content.
    AlreadyCurrent,
    /// The file differs from the bundled content, and nothing shows that
    /// the user left it alone.
    DivergedNoHistory,
}

/// What a refresh does with one template.
#[derive(Debug, Clone, Copy, PartialEq, Eq, Structural)]
pub enum SyncAction {
    /// Write the missing file.
    Create,
    /// Overwrite the file with the bundled content.
    Update,
    /// Leave the file: it is up to date.
    Unchanged,
    /// Leave the file: the user edited it.
    SkipModified,
    /// Leave the file, and write the bundled content beside the templates.
    Sidecar,
}

/// The state of a file, decided in this order: missing; forced; untouched
/// since the last refresh; already current; diverged.
pub open spec fn classify_spec(
    current: Option<Seq<char>>,
    old: Option<Seq<char>>,
    new: Seq<char>,
    force: bool,
) -> AssetState {
    if current is None {
        AssetState::Missing
    } else if force {
        AssetState::ForceOverwrite
    } else if old is Some && old == current {
        AssetState::UntouchedUpgrade
    } else if current == Some(new) {
        AssetState::AlreadyCurrent
    } else {
        AssetState::DivergedNoHistory
    }
}

/// The action for a state, where `up_to_date` says whether the file has the
/// hash of the bundled content.
pub open spec fn action_spec(state: AssetState, up_to_date: bool, sidecar: bool) -> SyncAction {
    match state {
        AssetState::Missing => SyncAction::Create,
        AssetState::ForceOverwrite | AssetState::UntouchedUpgrade => if up_to_date {
            SyncAction::Unchanged
        } else {
            SyncAction::Update
        },
        AssetState::AlreadyCurrent => SyncAction::Unchanged,
        AssetState::DivergedNoHistory => if sidecar {
            SyncAction::Sidecar
        } else {
            SyncAction::SkipModified
        },
    }
}

/// What a refresh works on besides the catalog.
pub struct SyncContext {
    /// The user's configuration directory.
    pub config_dir: Seq<char>,
    /// The files as they are before the refresh.
    pub fs: Map<Seq<char>, Seq<char>>,
    /// The manifest of the last refresh, if one is known.
    pub previous: Option<ManifestView>,
    /// What the caller allows.
    pub opts: TemplateRefreshOptions,
}

impl SyncContext {
    /// The user's file for a bundled template.
    pub open spec fn dest(self, asset: AssetView) -> Seq<char> {
        template_path(self.config_dir, asset.kind, asset.name)
    }

    /// The file beside the templates for a bundled template.
    pub open spec fn sidecar(self, asset: AssetView) -> Seq<char> {
        sidecar_path(self.config_dir, asset.kind, asset.name)
    }

    /// The hash of the user's file, if the file exists.
    pub open spec fn current_hash(self, asset: AssetView) -> Option<Seq<char>> {
        if self.fs.contains_key(self.dest(asset)) {
            Some(content_hash(self.fs[self.dest(asset)]))
        } else {
            None
        }
    }

    /// The hash that the last refresh recorded for a bundled template.
    pub open spec fn old_hash(self, asset: AssetView) -> Option<Seq<char>> {
        match self.previous {
            Some(m) => m.find(asset.kind, asset.name),
            None => None,
        }
    }

    /// The state of the user's file for a bundled template.
    pub open spec fn state(self, asset: AssetView) -> AssetState {
        classify_spec(
            self.current_hash(asset),
            self.old_hash(asset),
            content_hash(asset.content),
            self.opts.force,
        )
    }

    /// What the refresh does with a bundled template.
    pub open spec fn action(self, asset: AssetView) -> SyncAction {
        action_spec(
            self.state(asset),
            self.current_hash(asset) == Some(content_hash(asset.content)),
            self.opts.sidecar,
        )
    }

    /// The path under which the report lists a bundled template.
    pub open spec fn reported_path(self, asset: AssetView) -> Seq<char> {
        if self.action(asset) == SyncAction::Sidecar {
            self.sidecar(asset)
        } else {
            self.dest(asset)
        }
    }

    /// The files that the refresh writes for a bundled template: none in a
    /// dry run, and none where the user's file is left as it is without a
    /// sidecar.
    pub open spec fn asset_writes(self, asset: AssetView) -> Seq<FileView> {
        if self.opts.dry_run {
            Seq::empty()
        } else {
            match self.action(asset) {
                SyncAction::Create | SyncAction::Update => seq![
                    FileView { path: self.dest(asset), content: asset.content },
                ],
                SyncAction::Sidecar => seq![
                    FileView { path: self.sidecar(asset), content: asset.content },
                ],
                _ => Seq::empty(),
            }
        }
    }

    /// The paths that the report lists under one action, in catalog order.
    pub open spec fn bucket(self, catalog: Seq<AssetView>, which: SyncAction) -> Seq<Seq<char>>
        decreases catalog.len(),
    {
        if catalog.len() == 0 {
            Seq::empty()
        } else {
            let before = self.bucket(catalog.drop_last(), which);
            if self.action(catalog.last()) == which {
                before.push(self.reported_path(catalog.last()))
            } else {
                before
            }
        }
    }

    /// The report of the refresh.
    pub open spec fn report(self, catalog: Seq<AssetView>) -> ReportView {
        ReportView {
            created: self.bucket(catalog, SyncAction::Create),
            updated: self.bucket(catalog, SyncAction::Update),
            unchanged: self.bucket(catalog, SyncAction::Unchanged),
            skipped_modified: self.bucket(catalog, SyncAction::SkipModified),
            sidecar: self.bucket(catalog, SyncAction::Sidecar),
        }
    }

    /// The template files that the refresh writes, in catalog order.
    pub open spec fn writes(self, catalog: Seq<AssetView>) -> Seq<FileView>
        decreases catalog.len(),
    {
        if catalog.len() == 0 {
            Seq::empty()
        } else {
            self.writes(catalog.drop_last()) + self.asset_writes(catalog.last())
        }
    }
}

/// What a refresh reports and what it wants written.
#[derive(Debug, Clone)]
pub struct RefreshPlan {
    /// What is done with each bundled template.
    pub report: TemplateRefreshReport,
    /// The template files to write, in order.
    pub writes: Vec<TemplateFile>,
    /// The manifest to store once the files are written; none in a dry run.
    pub manifest: Option<TemplateManifest>,
}

/// A plan as plain values.
pub struct PlanView {
    pub report: ReportView,
    pub writes: Seq<FileView>,
    pub manifest: Option<ManifestView>,
}

impl View for RefreshPlan {
    type V = PlanView;

    open spec fn view(&self) -> PlanView {
        PlanView {
            report: self.report@,
            writes: files_view(self.writes@),
            manifest: match self.manifest {
                Some(m) => Some(m@),
                None => None,
            },
        }
    }
}

/// The plan of a refresh: every bundled template is reported under exactly
/// one action, the files of the created, updated and mirrored ones are
/// written unless this is a dry run, and unless this is a dry run the
/// manifest of the catalog is stored.
pub open spec fn refresh_plan(catalog: Seq<AssetView>, version: Seq<char>, ctx: SyncContext) -> PlanView {
    PlanView {
        report: ctx.report(catalog),
        writes: ctx.writes(catalog),
        manifest: if ctx.opts.dry_run {
            None
        } else {
            Some(manifest_of(catalog, version))
        },
    }
}

/// The files after a plan is carried out: the template files are written in
/// order, and then the manifest, if the plan has one.
pub open spec fn plan_effect(
    plan: PlanView,
    config_dir: Seq<char>,
    fs: Map<Seq<char>, Seq<char>>,
) -> Map<Seq<char>, Seq<char>> {
    let written = apply_writes(fs, plan.writes);
    match plan.manifest {
        Some(m) => written.insert(manifest_path(config_dir), render_manifest(m)),
        None => written,
    }
}

/// The characters of an optional string slice.
pub open spec fn opt_str_view(s: Option<&str>) -> Option<Seq<char>> {
    match s {
        Some(s) => Some(s@),
        None => None,
    }
}

/// The view of an optional manifest.
pub open spec fn opt_manifest_view(m: Option<&TemplateManifest>) -> Option<ManifestView> {
    match m {
        Some(m) => Some(m@),
        None => None,
    }
}

/// The file in which the manifest is kept.
pub fn templates_manifest_path(config_dir: &str) -> (r: String)
    ensures
        r@ == manifest_path(config_dir@),
{
    join_path(config_dir, "templates.manifest")
}

/// The directory that takes the bundled content of edited templates of one
/// kind.
pub fn templates_sidecar_path(config_dir: &str, kind: TemplateKind) -> (r: String)
    ensures
        r@ == sidecar_dir(config_dir@, kind),
{
    let base = join_path(config_dir, "templates.new");
    kind_dir_in(base.as_str(), kind)
}

/// Decides the state of a user's file from the three hashes.
pub fn classify(current_hash: Option<&str>, old_hash: Option<&str>, new_hash: &str, force: bool) -> (state:
    AssetState)
    ensures
        state == classify_spec(
            opt_str_view(current_hash),
            opt_str_view(old_hash),
            new_hash@,
            force,
        ),
{
    match current_hash {
        None => AssetState::Missing,
        Some(current) => {
            if force {
                AssetState::ForceOverwrite
            } else {
                let untouched = match old_hash {
                    Some(old) => str_eq(old, current),
                    None => false,
                };
                if untouched {
                    AssetState::UntouchedUpgrade
                } else if str_eq(current, new_hash) {
                    AssetState::AlreadyCurrent
                } else {
                    AssetState::DivergedNoHistory
                }
            }
        },
    }
}

/// Decides the action for a state.
pub fn decide(state: AssetState, up_to_date: bool, sidecar: bool) -> (action: SyncAction)
    ensures
        action == action_spec(state, up_to_date, sidecar),
{
    match state {
        AssetState::Missing => SyncAction::Create,
        AssetState::ForceOverwrite | AssetState::UntouchedUpgrade => {
            if up_to_date {
                SyncAction::Unchanged
            } else {
                SyncAction::Update
            }
        },
        AssetState::AlreadyCurrent => SyncAction::Unchanged,
        AssetState::DivergedNoHistory => {
            if sidecar {
                SyncAction::Sidecar
            } else {
                SyncAction::SkipModified
            }
        },
    }
}

/// The content of the file at `path`, if the list holds one.
pub fn lookup<'a>(files: &'a Vec<TemplateFile>, path: &str) -> (r: Option<&'a str>)
    ensures
        r is Some <==> files_map(files_view(files@)).contains_key(path@),
        r matches Some(c) ==> c@ == files_map(files_view(files@))[path@],
{
    let wanted = path.to_owned();
    let ghost all = files_view(files@);
    let mut i: usize = files.len();
    proof {
        assert(all.take(i as int) =~= all);
    }
    while i > 0
        invariant
            i <= files.len(),
            wanted@ == path@,
            all == files_view(files@),
            last_write(all, path@) == last_write(all.take(i as int), path@),
        decreases i,
    {
        let ghost prefix = all.take(i as int);
        assert(prefix.last() == files[i - 1]@);
        assert(prefix.drop_last() =~= all.take(i - 1));
        if files[i - 1].path == wanted {
            proof {
                lemma_apply_writes_at(Map::empty(), all, path@);
            }
            return Some(files[i - 1].content.as_str());
        }
        i -= 1;
    }
    proof {
        lemma_apply_writes_at(Map::empty(), all, path@);
    }
    None
}

/// Carries out writes on a list of files.
pub fn record_writes(files: &mut Vec<TemplateFile>, writes: &Vec<TemplateFile>)
    ensures
        files_map(files_view(final(files)@)) == apply_writes(
            files_map(files_view(old(files)@)),
            files_view(writes@),
        ),
{
    let ghost before = files_view(files@);
    let mut i: usize = 0;
    proof {
        assert(before + files_view(writes@).take(0) =~= before);
    }
    while i < writes.len()
        invariant
            i <= writes.len(),
            files_view(files@) == before + files_view(writes@).take(i as int),
        decreases writes.len() - i,
    {
        let ghost cur = files_view(files@);
        files.push(TemplateFile { path: writes[i].path.clone(), content: writes[i].content.clone() });
        proof {
            assert(files_view(files@) =~= cur.push(writes[i as int]@));
            assert(files_view(files@) =~= before + files_view(writes@).take(i + 1));
        }
        i += 1;
    }
    proof {
        assert(files_view(writes@).take(writes.len() as int) =~= files_view(writes@));
        lemma_apply_writes_concat(Map::empty(), before, files_view(writes@));
    }
}

/// The context of a refresh as the executable code holds it.
pub open spec fn context_of(
    config_dir: &str,
    files: &Vec<TemplateFile>,
    previous: Option<&TemplateManifest>,
    opts: TemplateRefreshOptions,
) -> SyncContext {
    SyncContext {
        config_dir: config_dir@,
        fs: files_map(files_view(files@)),
        previous: opt_manifest_view(previous),
        opts,
    }
}

/// Decides what a refresh does with one bundled template, given the files
/// as they are and the manifest of the last refresh.
pub fn asset_action(
    asset: &TemplateAsset,
    config_dir: &str,
    files: &Vec<TemplateFile>,
    previous: Option<&TemplateManifest>,
    opts: TemplateRefreshOptions,
) -> (action: SyncAction)
    ensures
        action == context_of(config_dir, files, previous, opts).action(asset@),
{
    let dest = template_path_in(config_dir, asset.kind, asset.name.as_str());
    let new_hash = hash_content(asset.content.as_str());
    let old_hash: Option<&str> = match previous {
        Some(m) => m.find_hash(asset.kind, asset.name.as_str()),
        None => None,
    };
    match lookup(files, dest.as_str()) {
        None => {
            let state = classify(None, old_hash, new_hash.as_str(), opts.force);
            decide(state, false, opts.sidecar)
        },
        Some(content) => {
            let current = hash_content(content);
            let state = classify(Some(current.as_str()), old_hash, new_hash.as_str(), opts.force);
            let up_to_date = str_eq(current.as_str(), new_hash.as_str());
            decide(state, up_to_date, opts.sidecar)
        },
    }
}

/// Plans a refresh of the user's templates against a catalog.
///
/// `files` holds the files that exist under `config_dir`, `previous` the
/// manifest of the last refresh.  The plan reports every bundled template
/// under exactly one action, in catalog order.
pub fn reconcile(
    catalog: &Vec<TemplateAsset>,
    version: &str,
    config_dir: &str,
    files: &Vec<TemplateFile>,
    previous: Option<&TemplateManifest>,
    opts: TemplateRefreshOptions,
) -> (plan: RefreshPlan)
    ensures
        plan@ == refresh_plan(
            catalog_view(catalog@),
            version@,
            context_of(config_dir, files, previous, opts),
        ),
        catalog_wf(catalog_view(catalog@)) ==> (plan@.manifest matches Some(m) ==> m.wf()),
{
    let ghost ctx = context_of(config_dir, files, previous, opts);
    let ghost cat = catalog_view(catalog@);
    let mut report = TemplateRefreshReport::default();
    let mut writes: Vec<TemplateFile> = Vec::new();
    let mut i: usize = 0;
    proof {
        assert(report@.created =~= ctx.bucket(cat.take(0), SyncAction::Create));
        assert(report@.updated =~= ctx.bucket(cat.take(0), SyncAction::Update));
        assert(report@.unchanged =~= ctx.bucket(cat.take(0), SyncAction::Unchanged));
        assert(report@.skipped_modified =~= ctx.bucket(cat.take(0), SyncAction::SkipModified));
        assert(report@.sidecar =~= ctx.bucket(cat.take(0), SyncAction::Sidecar));
        assert(files_view(writes@) =~= ctx.writes(cat.take(0)));
    }
    while i < catalog.len()
        invariant
            i <= catalog.len(),
            ctx == context_of(config_dir, files, previous, opts),
            cat == catalog_view(catalog@),
            report@.created == ctx.bucket(cat.take(i as int), SyncAction::Create),
            report@.updated == ctx.bucket(cat.take(i as int), SyncAction::Update),
            report@.unchanged == ctx.bucket(cat.take(i as int), SyncAction::Unchanged),
            report@.skipped_modified == ctx.bucket(cat.take(i as int), SyncAction::SkipModified),
            report@.sidecar == ctx.bucket(cat.take(i as int), SyncAction::Sidecar),
            files_view(writes@) == ctx.writes(cat.take(i as int)),
        decreases catalog.len() - i,
    {
        let asset = &catalog[i];
        let ghost old_report = report@;
        let ghost old_writes = files_view(writes@);
        proof {
            let next = cat.take(i + 1);
            assert(next.drop_last() =~= cat.take(i as int));
            assert(next.last() == asset@);
        }
        let action = asset_action(asset, config_dir, files, previous, opts);
        let dest = template_path_in(config_dir, asset.kind, asset.name.as_str());
        match action {
            SyncAction::Create => {
                if !opts.dry_run {
                    writes.push(TemplateFile { path: dest.clone(), content: asset.content.clone() });
                }
                report.created.push(dest);
            },
            SyncAction::Update => {
                if !opts.dry_run {
                    writes.push(TemplateFile { path: dest.clone(), content: asset.content.clone() });
                }
                report.updated.push(dest);
            },
            SyncAction::Unchanged => {
                report.unchanged.push(dest);
            },
            SyncAction::SkipModified => {
                report.skipped_modified.push(dest);
            },
            SyncAction::Sidecar => {
                let dir = templates_sidecar_path(config_dir, asset.kind);
                let path = template_file(dir.as_str(), asset.name.as_str());
                if !opts.dry_run {
                    writes.push(TemplateFile { path: path.clone(), content: asset.content.clone() });
                }
                report.sidecar.push(path);
            },
        }
        proof {
            let next = cat.take(i + 1);
            assert(files_view(writes@) =~= old_writes + ctx.asset_writes(asset@));
            assert(report@.created =~= ctx.bucket(next, SyncAction::Create));
            assert(report@.updated =~= ctx.bucket(next, SyncAction::Update));
            assert(report@.unchanged =~= ctx.bucket(next, SyncAction::Unchanged));
            assert(report@.skipped_modified =~= ctx.bucket(next, SyncAction::SkipModified));
            assert(report@.sidecar =~= ctx.bucket(next, SyncAction::Sidecar));
        }
        i += 1;
    }
    proof {
        assert(cat.take(catalog.len() as int) =~= cat);
    }
    let manifest = if opts.dry_run {
        None
    } else {
        Some(TemplateManifest::for_catalog(catalog, version))
    };
    RefreshPlan { report, writes, manifest }
}

/// The manifest that the files hold, if they hold one that can be read.
pub open spec fn stored_manifest(config_dir: Seq<char>, fs: Map<Seq<char>, Seq<char>>) -> Option<
    ManifestView,
> {
    if fs.contains_key(manifest_path(config_dir)) {
        parse_manifest(fs[manifest_path(config_dir)])
    } else {
        None
    }
}

/// The context of a refresh that takes the manifest of the last refresh
/// from the files.
pub open spec fn stored_context(
    config_dir: Seq<char>,
    fs: Map<Seq<char>, Seq<char>>,
    opts: TemplateRefreshOptions,
) -> SyncContext {
    SyncContext { config_dir, fs, previous: stored_manifest(config_dir, fs), opts }
}

/// Plans a refresh of the user's templates against a catalog, with the
/// manifest of the last refresh read from `files`.  A manifest that is
/// missing or names no version counts as no history.
pub fn synchronize(
    catalog: &Vec<TemplateAsset>,
    version: &str,
    config_dir: &str,
    files: &Vec<TemplateFile>,
    opts: TemplateRefreshOptions,
) -> (plan: RefreshPlan)
    ensures
        plan@ == refresh_plan(
            catalog_view(catalog@),
            version@,
            stored_context(config_dir@, files_map(files_view(files@)), opts),
        ),
        catalog_wf(catalog_view(catalog@)) ==> (plan@.manifest matches Some(m) ==> m.wf()),
{
    let path = templates_manifest_path(config_dir);
    let previous = match lookup(files, path.as_str()) {
        Some(text) => TemplateManifest::parse(text),
        None => None,
    };
    reconcile(catalog, version, config_dir, files, previous.as_ref(), opts)
}

/// The files that seed the templates of one kind: one per bundled template
/// of that kind, in catalog order, with the bundled content.
pub open spec fn seed_writes(catalog: Seq<AssetView>, config_dir: Seq<char>, kind: TemplateKind) -> Seq<
    FileView,
>
    decreases catalog.len(),
{
    if catalog.len() == 0 {
        Seq::empty()
    } else {
        let before = seed_writes(catalog.drop_last(), config_dir, kind);
        let asset = catalog.last();
        if asset.kind == kind {
            before.push(
                FileView {
                    path: template_path(config_dir, asset.kind, asset.name),
                    content: asset.content,
                },
            )
        } else {
            before
        }
    }
}

/// The files that the first run writes: the bundled baselines unless the
/// user has a baseline template, then the bundled outcomes unless the user
/// has an outcome template.
pub open spec fn bootstrap_writes(
    catalog: Seq<AssetView>,
    config_dir: Seq<char>,
    has_baselines: bool,
    has_outcomes: bool,
) -> Seq<FileView> {
    (if has_baselines {
        Seq::empty()
    } else {
        seed_writes(catalog, config_dir, TemplateKind::Baselines)
    }) + (if has_outcomes {
        Seq::empty()
    } else {
        seed_writes(catalog, config_dir, TemplateKind::Outcomes)
    })
}

/// The plan of the first run: the written files are reported as created,
/// and if there is any the manifest of the whole catalog is stored.
pub open spec fn bootstrap_plan(
    catalog: Seq<AssetView>,
    version: Seq<char>,
    config_dir: Seq<char>,
    has_baselines: bool,
    has_outcomes: bool,
) -> PlanView {
    let writes = bootstrap_writes(catalog, config_dir, has_baselines, has_outcomes);
    PlanView {
        report: ReportView {
            created: writes.map_values(|f: FileView| f.path),
            updated: Seq::empty(),
            unchanged: Seq::empty(),
            skipped_modified: Seq::empty(),
            sidecar: Seq::empty(),
        },
        writes,
        manifest: if writes.len() > 0 {
            Some(manifest_of(catalog, version))
        } else {
            None
        },
    }
}

/// Adds the files that seed the templates of one kind.
fn seed_kind(
    catalog: &Vec<TemplateAsset>,
    config_dir: &str,
    kind: TemplateKind,
    writes: &mut Vec<TemplateFile>,
    created: &mut Vec<String>,
)
    requires
        texts_view(old(created)@) == files_view(old(writes)@).map_values(|f: FileView| f.path),
    ensures
        files_view(final(writes)@) == files_view(old(writes)@) + seed_writes(
            catalog_view(catalog@),
            config_dir@,
            kind,
        ),
        texts_view(final(created)@) == files_view(final(writes)@).map_values(|f: FileView| f.path),
{
    let ghost cat = catalog_view(catalog@);
    let ghost start = files_view(writes@);
    let mut i: usize = 0;
    proof {
        assert(files_view(writes@) =~= start + seed_writes(cat.take(0), config_dir@, kind));
    }
    while i < catalog.len()
        invariant
            i <= catalog.len(),
            cat == catalog_view(catalog@),
            files_view(writes@) == start + seed_writes(cat.take(i as int), config_dir@, kind),
            texts_view(created@) == files_view(writes@).map_values(|f: FileView| f.path),
        decreases catalog.len() - i,
    {
        let asset = &catalog[i];
        proof {
            let next = cat.take(i + 1);
            assert(next.drop_last() =~= cat.take(i as int));
            assert(next.last() == asset@);
        }
        if asset.kind == kind {
            let ghost old_writes = files_view(writes@);
            let ghost old_created = texts_view(created@);
            let dest = template_path_in(config_dir, asset.kind, asset.name.as_str());
            writes.push(TemplateFile { path: dest.clone(), content: asset.content.clone() });
            created.push(dest);
            proof {
                let w = FileView { path: dest@, content: asset@.content };
                assert(files_view(writes@) =~= old_writes.push(w));
                assert(texts_view(created@) =~= old_created.push(dest@));
                assert(files_view(writes@) =~= start + seed_writes(
                    cat.take(i + 1),
                    config_dir@,
                    kind,
                ));
                assert(texts_view(created@) =~= files_view(writes@).map_values(
                    |f: FileView| f.path,
                ));
            }
        }
        i += 1;
    }
    proof {
        assert(cat.take(catalog.len() as int) =~= cat);
    }
}

/// Plans the first run: seeds each kind of template for which the user has
/// none, and touches nothing of a kind for which the user has one.
pub fn bootstrap(
    catalog: &Vec<TemplateAsset>,
    version: &str,
    config_dir: &str,
    has_baselines: bool,
    has_outcomes: bool,
) -> (plan: RefreshPlan)
    ensures
        plan@ == bootstrap_plan(
            catalog_view(catalog@),
            version@,
            config_dir@,
            has_baselines,
            has_outcomes,
        ),
        catalog_wf(catalog_view(catalog@)) ==> (plan@.manifest matches Some(m) ==> m.wf()),
{
    let mut report = TemplateRefreshReport::default();
    let mut writes: Vec<TemplateFile> = Vec::new();
    let mut created: Vec<String> = Vec::new();
    proof {
        assert(texts_view(created@) =~= files_view(writes@).map_values(|f: FileView| f.path));
    }
    if !has_baselines {
        seed_kind(catalog, config_dir, TemplateKind::Baselines, &mut writes, &mut created);
    }
    let ghost mid = files_view(writes@);
    if !has_outcomes {
        seed_kind(catalog, config_dir, TemplateKind::Outcomes, &mut writes, &mut created);
    }
    proof {
        let expected = bootstrap_writes(
            catalog_view(catalog@),
            config_dir@,
            has_baselines,
            has_outcomes,
        );
        assert(files_view(writes@) =~= expected);
    }
    let manifest = if writes.len() > 0 {
        Some(TemplateManifest::for_catalog(catalog, version))
    } else {
        None
    };
    report.created = created;
    proof {
        assert(report@.updated =~= Seq::empty());
        assert(report@.unchanged =~= Seq::empty());
        assert(report@.skipped_modified =~= Seq::empty());
        assert(report@.sidecar =~= Seq::empty());
    }
    RefreshPlan { report, writes, manifest }
}

impl Config {
    /// Plans a refresh of the user's templates against the templates
    /// bundled with this release.
    pub fn refresh_templates(
        config_dir: &str,
        files: &Vec<TemplateFile>,
        opts: TemplateRefreshOptions,
    ) -> (plan: RefreshPlan)
        ensures
            plan@ == refresh_plan(
                shipped_catalog(),
                VERSION@,
                stored_context(config_dir@, files_map(files_view(files@)), opts),
            ),
            plan@.manifest matches Some(m) ==> m.wf(),
    {
        let catalog = shipped_templates();
        synchronize(&catalog, VERSION, config_dir, files, opts)
    }

    /// Plans the first run against the templates bundled with this release,
    /// given a listing of the user's two template directories.
    pub fn ensure_templates_initialized(config_dir: &str, entries: &Vec<DirEntry>) -> (plan:
        RefreshPlan)
        ensures
            plan@ == bootstrap_plan(
                shipped_catalog(),
                VERSION@,
                config_dir@,
                has_templates(
                    listing_view(entries@),
                    kind_dir(config_dir@, TemplateKind::Baselines),
                ),
                has_templates(listing_view(entries@), kind_dir(config_dir@, TemplateKind::Outcomes)),
            ),
            plan@.manifest matches Some(m) ==> m.wf(),
    {
        let catalog = shipped_templates();
        let baselines = kind_dir_in(config_dir, TemplateKind::Baselines);
        let outcomes = kind_dir_in(config_dir, TemplateKind::Outcomes);
        bootstrap(
            &catalog,
            VERSION,
            config_dir,
            has_user_templates(entries, baselines.as_str()),
            has_user_templates(entries, outcomes.as_str()),
        )
    }
}

} // verus!
