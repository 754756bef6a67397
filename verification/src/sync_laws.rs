//! What holds of every refresh.
//!
//! The statements here are about the plan that [`refresh_plan`] describes
//! and about the files after the plan is carried out, as [`plan_effect`]
//! describes them.

use crate::catalog::{catalog_wf, lemma_shipped_catalog_wf, shipped_catalog, AssetView, VERSION};
use crate::config::{kind_name, path_in, template_path, TemplateKind};
use crate::hash::content_hash;
use crate::manifest::{lemma_manifest_of_find, manifest_of};
use crate::manifest_laws::{
    law_manifest_round_trip, lemma_manifest_of_storable, name_storable, version_storable,
};
use crate::sync::{
    apply_writes, bootstrap_plan, last_write, lemma_apply_writes_at, manifest_path, plan_effect,
    refresh_plan, seed_writes, sidecar_path, stored_context, FileView, SyncAction, SyncContext,
    TemplateRefreshOptions,
};
use vstd::prelude::*;

verus! {

/// The files of two bundled templates coincide only if the templates do.
pub proof fn lemma_template_path_injective(
    dir: Seq<char>,
    k1: TemplateKind,
    n1: Seq<char>,
    k2: TemplateKind,
    n2: Seq<char>,
)
    requires
        template_path(dir, k1, n1) == template_path(dir, k2, n2),
    ensures
        k1 == k2,
        n1 == n2,
{
    reveal_strlit("baselines");
    reveal_strlit("outcomes");
    reveal_strlit("/");
    reveal_strlit(".toml");
    let p1 = template_path(dir, k1, n1);
    let p2 = template_path(dir, k2, n2);
    let d = dir.len() as int;
    assert(p1[d + 1] == kind_name(k1)[0]);
    assert(p2[d + 1] == kind_name(k2)[0]);
    assert(k1 == k2);
    let start = d + 1 + kind_name(k1).len() + 1;
    assert(p1.len() == start + n1.len() + 5);
    assert(p2.len() == start + n2.len() + 5);
    assert forall|t: int| 0 <= t < n1.len() implies n1[t] == n2[t] by {
        assert(p1[start + t] == n1[t]);
        assert(p2[start + t] == n2[t]);
    }
    assert(n1 =~= n2);
}

/// No sidecar file is the file of a user's template.
pub proof fn lemma_sidecar_not_template(
    dir: Seq<char>,
    k1: TemplateKind,
    n1: Seq<char>,
    k2: TemplateKind,
    n2: Seq<char>,
)
    ensures
        sidecar_path(dir, k1, n1) != template_path(dir, k2, n2),
{
    reveal_strlit("baselines");
    reveal_strlit("outcomes");
    reveal_strlit("templates.new");
    reveal_strlit("/");
    reveal_strlit(".toml");
    let p1 = sidecar_path(dir, k1, n1);
    let p2 = template_path(dir, k2, n2);
    let d = dir.len() as int;
    assert(p1[d + 1] == 't');
    assert(p2[d + 1] == kind_name(k2)[0]);
}

/// The manifest is not the file of a user's template.
pub proof fn lemma_manifest_not_template(dir: Seq<char>, kind: TemplateKind, name: Seq<char>)
    ensures
        manifest_path(dir) != template_path(dir, kind, name),
{
    reveal_strlit("baselines");
    reveal_strlit("outcomes");
    reveal_strlit("templates.manifest");
    reveal_strlit("/");
    reveal_strlit(".toml");
    let p1 = manifest_path(dir);
    let p2 = template_path(dir, kind, name);
    let d = dir.len() as int;
    assert(p1[d + 1] == 't');
    assert(p2[d + 1] == kind_name(kind)[0]);
}

/// The manifest is no sidecar file.
pub proof fn lemma_manifest_not_sidecar(dir: Seq<char>, kind: TemplateKind, name: Seq<char>)
    ensures
        manifest_path(dir) != sidecar_path(dir, kind, name),
{
    reveal_strlit("baselines");
    reveal_strlit("outcomes");
    reveal_strlit("templates.manifest");
    reveal_strlit("templates.new");
    reveal_strlit("/");
    reveal_strlit(".toml");
    let p1 = manifest_path(dir);
    let p2 = sidecar_path(dir, kind, name);
    let d = dir.len() as int;
    assert(p1[d + 11] == 'm');
    assert(p2[d + 11] == 'n');
}

/// A path that is neither the file nor the sidecar file of any bundled
/// template is not written.
pub proof fn lemma_unrelated_path_not_written(
    ctx: SyncContext,
    catalog: Seq<AssetView>,
    path: Seq<char>,
)
    requires
        forall|j: int|
            0 <= j < catalog.len() ==> ctx.dest(#[trigger] catalog[j]) != path && ctx.sidecar(
                catalog[j],
            ) != path,
    ensures
        last_write(ctx.writes(catalog), path) is None,
    decreases catalog.len(),
{
    if catalog.len() > 0 {
        let before = catalog.drop_last();
        assert forall|j: int| 0 <= j < before.len() implies ctx.dest(#[trigger] before[j]) != path
            && ctx.sidecar(before[j]) != path by {
            assert(before[j] == catalog[j]);
        }
        lemma_unrelated_path_not_written(ctx, before, path);
        lemma_last_write_step(ctx, catalog, path);
        assert(ctx.dest(catalog[catalog.len() - 1]) != path);
    }
}

/// The last write to a path that a catalog's plan holds is the one for the
/// catalog's last asset, if that writes the path, else the last among the
/// writes for the assets before it.
pub proof fn lemma_last_write_step(ctx: SyncContext, catalog: Seq<AssetView>, path: Seq<char>)
    requires
        catalog.len() > 0,
    ensures
        last_write(ctx.writes(catalog), path) == (if ctx.asset_writes(catalog.last()).len() == 1
            && ctx.asset_writes(catalog.last())[0].path == path {
            Some(ctx.asset_writes(catalog.last())[0].content)
        } else {
            last_write(ctx.writes(catalog.drop_last()), path)
        }),
        ctx.asset_writes(catalog.last()).len() <= 1,
{
    let w = ctx.asset_writes(catalog.last());
    let before = ctx.writes(catalog.drop_last());
    if w.len() == 0 {
        assert(before + w =~= before);
    } else {
        assert((before + w).drop_last() =~= before);
        assert((before + w).last() == w[0]);
    }
}

/// What the plan last writes to the file of one of the catalog's
/// templates: the bundled content where the template is created or updated,
/// and nothing otherwise or in a dry run.
pub proof fn lemma_last_write_dest(ctx: SyncContext, catalog: Seq<AssetView>, i: int)
    requires
        catalog_wf(catalog),
        0 <= i < catalog.len(),
    ensures
        last_write(ctx.writes(catalog), ctx.dest(catalog[i])) == (if !ctx.opts.dry_run && (
        ctx.action(catalog[i]) == SyncAction::Create || ctx.action(catalog[i])
            == SyncAction::Update) {
            Some(catalog[i].content)
        } else {
            None
        }),
    decreases catalog.len(),
{
    let path = ctx.dest(catalog[i]);
    let before = catalog.drop_last();
    let last = catalog.last();
    lemma_last_write_step(ctx, catalog, path);
    lemma_sidecar_not_template(ctx.config_dir, last.kind, last.name, catalog[i].kind, catalog[i].name);
    if i == catalog.len() - 1 {
        assert forall|j: int| 0 <= j < before.len() implies ctx.dest(#[trigger] before[j]) != path
            && ctx.sidecar(before[j]) != path by {
            assert(before[j] == catalog[j]);
            lemma_sidecar_not_template(
                ctx.config_dir,
                before[j].kind,
                before[j].name,
                catalog[i].kind,
                catalog[i].name,
            );
            if ctx.dest(before[j]) == path {
                lemma_template_path_injective(
                    ctx.config_dir,
                    before[j].kind,
                    before[j].name,
                    catalog[i].kind,
                    catalog[i].name,
                );
            }
        }
        lemma_unrelated_path_not_written(ctx, before, path);
    } else {
        assert(before[i] == catalog[i]);
        assert(catalog_wf(before)) by {
            assert forall|a: int, b: int| 0 <= a < b < before.len() implies !((
            #[trigger] before[a]).kind == (#[trigger] before[b]).kind && before[a].name
                == before[b].name) by {
                assert(before[a] == catalog[a]);
                assert(before[b] == catalog[b]);
            }
        }
        lemma_last_write_dest(ctx, before, i);
        if ctx.dest(last) == path {
            lemma_template_path_injective(
                ctx.config_dir,
                last.kind,
                last.name,
                catalog[i].kind,
                catalog[i].name,
            );
        }
    }
}

/// What the plan last writes to the sidecar file of one of the catalog's
/// templates: the bundled content where the template is mirrored, and
/// nothing otherwise or in a dry run.
pub proof fn lemma_last_write_sidecar(ctx: SyncContext, catalog: Seq<AssetView>, i: int)
    requires
        catalog_wf(catalog),
        0 <= i < catalog.len(),
    ensures
        last_write(ctx.writes(catalog), ctx.sidecar(catalog[i])) == (if !ctx.opts.dry_run
            && ctx.action(catalog[i]) == SyncAction::Sidecar {
            Some(catalog[i].content)
        } else {
            None
        }),
    decreases catalog.len(),
{
    let path = ctx.sidecar(catalog[i]);
    let beside = path_in(ctx.config_dir, "templates.new"@);
    let before = catalog.drop_last();
    let last = catalog.last();
    lemma_last_write_step(ctx, catalog, path);
    lemma_sidecar_not_template(ctx.config_dir, catalog[i].kind, catalog[i].name, last.kind, last.name);
    if i == catalog.len() - 1 {
        assert forall|j: int| 0 <= j < before.len() implies ctx.dest(#[trigger] before[j]) != path
            && ctx.sidecar(before[j]) != path by {
            assert(before[j] == catalog[j]);
            lemma_sidecar_not_template(
                ctx.config_dir,
                catalog[i].kind,
                catalog[i].name,
                before[j].kind,
                before[j].name,
            );
            if ctx.sidecar(before[j]) == path {
                lemma_template_path_injective(
                    beside,
                    before[j].kind,
                    before[j].name,
                    catalog[i].kind,
                    catalog[i].name,
                );
            }
        }
        lemma_unrelated_path_not_written(ctx, before, path);
    } else {
        assert(before[i] == catalog[i]);
        assert(catalog_wf(before)) by {
            assert forall|a: int, b: int| 0 <= a < b < before.len() implies !((
            #[trigger] before[a]).kind == (#[trigger] before[b]).kind && before[a].name
                == before[b].name) by {
                assert(before[a] == catalog[a]);
                assert(before[b] == catalog[b]);
            }
        }
        lemma_last_write_sidecar(ctx, before, i);
        if ctx.sidecar(last) == path {
            lemma_template_path_injective(
                beside,
                last.kind,
                last.name,
                catalog[i].kind,
                catalog[i].name,
            );
        }
    }
}

/// The file of one of the catalog's templates after the plan is carried
/// out: the bundled content where the template is created or updated, and
/// what it was before otherwise or in a dry run.
pub proof fn lemma_effect_at_dest(
    catalog: Seq<AssetView>,
    version: Seq<char>,
    ctx: SyncContext,
    i: int,
)
    requires
        catalog_wf(catalog),
        0 <= i < catalog.len(),
    ensures
        ({
            let after = plan_effect(refresh_plan(catalog, version, ctx), ctx.config_dir, ctx.fs);
            let dest = ctx.dest(catalog[i]);
            if !ctx.opts.dry_run && (ctx.action(catalog[i]) == SyncAction::Create || ctx.action(
                catalog[i],
            ) == SyncAction::Update) {
                after.contains_key(dest) && after[dest] == catalog[i].content
            } else {
                after.contains_key(dest) == ctx.fs.contains_key(dest) && after[dest] == ctx.fs[dest]
            }
        }),
{
    let dest = ctx.dest(catalog[i]);
    lemma_last_write_dest(ctx, catalog, i);
    lemma_apply_writes_at(ctx.fs, ctx.writes(catalog), dest);
    lemma_manifest_not_template(ctx.config_dir, catalog[i].kind, catalog[i].name);
}

/// A template is listed in the bucket of its action.
pub proof fn lemma_bucket_lists(ctx: SyncContext, catalog: Seq<AssetView>, which: SyncAction, i: int)
    requires
        0 <= i < catalog.len(),
        ctx.action(catalog[i]) == which,
    ensures
        ctx.bucket(catalog, which).contains(ctx.reported_path(catalog[i])),
    decreases catalog.len(),
{
    let before = catalog.drop_last();
    let b = ctx.bucket(catalog, which);
    if i == catalog.len() - 1 {
        assert(b[b.len() - 1] == ctx.reported_path(catalog[i]));
    } else {
        assert(before[i] == catalog[i]);
        lemma_bucket_lists(ctx, before, which, i);
        let inner = ctx.bucket(before, which);
        let k = choose|k: int| 0 <= k < inner.len() && inner[k] == ctx.reported_path(catalog[i]);
        assert(b[k] == ctx.reported_path(catalog[i]));
    }
}

/// Every path in a bucket is that of a template with the bucket's action.
pub proof fn lemma_bucket_member(
    ctx: SyncContext,
    catalog: Seq<AssetView>,
    which: SyncAction,
    path: Seq<char>,
)
    requires
        ctx.bucket(catalog, which).contains(path),
    ensures
        exists|j: int|
            0 <= j < catalog.len() && ctx.action(#[trigger] catalog[j]) == which
                && ctx.reported_path(catalog[j]) == path,
    decreases catalog.len(),
{
    let b = ctx.bucket(catalog, which);
    let k = choose|k: int| 0 <= k < b.len() && b[k] == path;
    if catalog.len() > 0 {
        let before = catalog.drop_last();
        let inner = ctx.bucket(before, which);
        if ctx.action(catalog.last()) == which && k == b.len() - 1 {
            assert(catalog[catalog.len() - 1] == catalog.last());
        } else {
            assert(inner[k] == path);
            lemma_bucket_member(ctx, before, which, path);
            let j = choose|j: int|
                0 <= j < before.len() && ctx.action(#[trigger] before[j]) == which
                    && ctx.reported_path(before[j]) == path;
            assert(catalog[j] == before[j]);
        }
    }
}

/// The buckets hold as many paths as there are templates with their action;
/// in particular one is empty exactly if no template has its action, and
/// holds a path for every template if all have it.
pub proof fn lemma_bucket_len(ctx: SyncContext, catalog: Seq<AssetView>, which: SyncAction)
    ensures
        ctx.bucket(catalog, which).len() <= catalog.len(),
        ctx.bucket(catalog, which).len() == 0 <==> (forall|j: int|
            0 <= j < catalog.len() ==> ctx.action(#[trigger] catalog[j]) != which),
        ctx.bucket(catalog, which).len() == catalog.len() <==> (forall|j: int|
            0 <= j < catalog.len() ==> ctx.action(#[trigger] catalog[j]) == which),
    decreases catalog.len(),
{
    if catalog.len() > 0 {
        let before = catalog.drop_last();
        lemma_bucket_len(ctx, before, which);
        assert(forall|j: int| 0 <= j < before.len() ==> before[j] == catalog[j]);
        assert(catalog[catalog.len() - 1] == catalog.last());
        if ctx.action(catalog.last()) == which {
            if forall|j: int| 0 <= j < before.len() ==> ctx.action(#[trigger] before[j]) == which {
                assert forall|j: int| 0 <= j < catalog.len() implies ctx.action(
                    #[trigger] catalog[j],
                ) == which by {
                    if j < before.len() {
                        assert(before[j] == catalog[j]);
                    }
                }
            } else {
                let j = choose|j: int|
                    0 <= j < before.len() && ctx.action(#[trigger] before[j]) != which;
                assert(catalog[j] == before[j]);
            }
        } else {
            if forall|j: int| 0 <= j < before.len() ==> ctx.action(#[trigger] before[j]) != which {
                assert forall|j: int| 0 <= j < catalog.len() implies ctx.action(
                    #[trigger] catalog[j],
                ) != which by {
                    if j < before.len() {
                        assert(before[j] == catalog[j]);
                    }
                }
            } else {
                let j = choose|j: int|
                    0 <= j < before.len() && ctx.action(#[trigger] before[j]) == which;
                assert(catalog[j] == before[j]);
            }
        }
    }
}

/// Idempotence.  When a refresh has nothing left to skip or to mirror, and
/// was no dry run that found something to create or update, then the same
/// refresh run again on the files it left creates, updates, skips and
/// mirrors nothing, reports every bundled template as unchanged, and writes
/// no template file: whatever manifest the second run finds.
pub proof fn law_refresh_is_idempotent(
    catalog: Seq<AssetView>,
    version: Seq<char>,
    ctx: SyncContext,
    next: SyncContext,
)
    requires
        catalog_wf(catalog),
        refresh_plan(catalog, version, ctx).report.skipped_modified.len() == 0,
        refresh_plan(catalog, version, ctx).report.sidecar.len() == 0,
        ctx.opts.dry_run ==> refresh_plan(catalog, version, ctx).report.created.len() == 0
            && refresh_plan(catalog, version, ctx).report.updated.len() == 0,
        next.config_dir == ctx.config_dir,
        next.opts == ctx.opts,
        next.fs == plan_effect(refresh_plan(catalog, version, ctx), ctx.config_dir, ctx.fs),
    ensures
        ({
            let second = refresh_plan(catalog, version, next);
            &&& second.report.created.len() == 0
            &&& second.report.updated.len() == 0
            &&& second.report.skipped_modified.len() == 0
            &&& second.report.sidecar.len() == 0
            &&& second.report.unchanged.len() == catalog.len()
            &&& second.writes.len() == 0
        }),
{
    lemma_bucket_len(ctx, catalog, SyncAction::SkipModified);
    lemma_bucket_len(ctx, catalog, SyncAction::Sidecar);
    lemma_bucket_len(ctx, catalog, SyncAction::Create);
    lemma_bucket_len(ctx, catalog, SyncAction::Update);
    assert forall|j: int| 0 <= j < catalog.len() implies next.action(#[trigger] catalog[j])
        == SyncAction::Unchanged by {
        let a = catalog[j];
        lemma_effect_at_dest(catalog, version, ctx, j);
        assert(next.dest(a) == ctx.dest(a));
        assert(ctx.action(a) != SyncAction::SkipModified);
        assert(ctx.action(a) != SyncAction::Sidecar);
        if ctx.opts.dry_run {
            assert(ctx.action(a) != SyncAction::Create);
            assert(ctx.action(a) != SyncAction::Update);
        }
        assert(next.current_hash(a) == Some(content_hash(a.content)));
    }
    lemma_bucket_len(next, catalog, SyncAction::Unchanged);
    lemma_bucket_len(next, catalog, SyncAction::Create);
    lemma_bucket_len(next, catalog, SyncAction::Update);
    lemma_bucket_len(next, catalog, SyncAction::SkipModified);
    lemma_bucket_len(next, catalog, SyncAction::Sidecar);
    lemma_no_writes_when_unchanged(next, catalog);
}

/// A refresh that leaves every template unchanged writes no template file.
pub proof fn lemma_no_writes_when_unchanged(ctx: SyncContext, catalog: Seq<AssetView>)
    requires
        forall|j: int| 0 <= j < catalog.len() ==> ctx.action(#[trigger] catalog[j]) == SyncAction::Unchanged,
    ensures
        ctx.writes(catalog).len() == 0,
    decreases catalog.len(),
{
    if catalog.len() > 0 {
        let before = catalog.drop_last();
        assert forall|j: int| 0 <= j < before.len() implies ctx.action(#[trigger] before[j])
            == SyncAction::Unchanged by {
            assert(before[j] == catalog[j]);
        }
        lemma_no_writes_when_unchanged(ctx, before);
        assert(catalog[catalog.len() - 1] == catalog.last());
    }
}

/// Non-destructive default.  A user's file whose hash is neither the hash
/// of the bundled content nor the hash that the manifest records is, without
/// `force` and `sidecar`, the same after the refresh as before, and its
/// path is reported as skipped.
pub proof fn law_edited_file_is_kept(
    catalog: Seq<AssetView>,
    version: Seq<char>,
    ctx: SyncContext,
    i: int,
)
    requires
        catalog_wf(catalog),
        0 <= i < catalog.len(),
        !ctx.opts.force,
        !ctx.opts.sidecar,
        ctx.fs.contains_key(ctx.dest(catalog[i])),
        ctx.current_hash(catalog[i]) != Some(content_hash(catalog[i].content)),
        ctx.current_hash(catalog[i]) != ctx.old_hash(catalog[i]),
    ensures
        ({
            let plan = refresh_plan(catalog, version, ctx);
            let after = plan_effect(plan, ctx.config_dir, ctx.fs);
            let dest = ctx.dest(catalog[i]);
            &&& after.contains_key(dest)
            &&& after[dest] == ctx.fs[dest]
            &&& plan.report.skipped_modified.contains(dest)
        }),
{
    lemma_effect_at_dest(catalog, version, ctx, i);
    lemma_bucket_lists(ctx, catalog, SyncAction::SkipModified, i);
}

/// Upgrade transparency.  A user's file that still has the hash that the
/// manifest records, where the bundled content now has another hash, holds
/// the bundled content after a refresh that is no dry run, and its path is
/// reported as updated.
pub proof fn law_untouched_file_is_upgraded(
    catalog: Seq<AssetView>,
    version: Seq<char>,
    ctx: SyncContext,
    i: int,
)
    requires
        catalog_wf(catalog),
        0 <= i < catalog.len(),
        !ctx.opts.dry_run,
        ctx.fs.contains_key(ctx.dest(catalog[i])),
        ctx.current_hash(catalog[i]) == ctx.old_hash(catalog[i]),
        ctx.current_hash(catalog[i]) != Some(content_hash(catalog[i].content)),
    ensures
        ({
            let plan = refresh_plan(catalog, version, ctx);
            let after = plan_effect(plan, ctx.config_dir, ctx.fs);
            let dest = ctx.dest(catalog[i]);
            &&& after.contains_key(dest)
            &&& after[dest] == catalog[i].content
            &&& plan.report.updated.contains(dest)
        }),
{
    lemma_effect_at_dest(catalog, version, ctx, i);
    lemma_bucket_lists(ctx, catalog, SyncAction::Update, i);
}

/// Force wins.  After a forced refresh that is no dry run, the file of
/// every bundled template exists and has the hash of the bundled content;
/// it holds the bundled content itself unless it was another text with the
/// same hash.  Its path is reported as unchanged exactly if the file had
/// that hash before.
pub proof fn law_force_wins(catalog: Seq<AssetView>, version: Seq<char>, ctx: SyncContext, i: int)
    requires
        catalog_wf(catalog),
        0 <= i < catalog.len(),
        ctx.opts.force,
        !ctx.opts.dry_run,
    ensures
        ({
            let plan = refresh_plan(catalog, version, ctx);
            let after = plan_effect(plan, ctx.config_dir, ctx.fs);
            let dest = ctx.dest(catalog[i]);
            let matched = ctx.current_hash(catalog[i]) == Some(content_hash(catalog[i].content));
            &&& after.contains_key(dest)
            &&& content_hash(after[dest]) == content_hash(catalog[i].content)
            &&& (!matched || ctx.fs[dest] == catalog[i].content) ==> after[dest] == catalog[i].content
            &&& plan.report.unchanged.contains(dest) <==> matched
        }),
{
    let dest = ctx.dest(catalog[i]);
    lemma_effect_at_dest(catalog, version, ctx, i);
    let matched = ctx.current_hash(catalog[i]) == Some(content_hash(catalog[i].content));
    if matched {
        lemma_bucket_lists(ctx, catalog, SyncAction::Unchanged, i);
    }
    if ctx.bucket(catalog, SyncAction::Unchanged).contains(dest) {
        lemma_bucket_member(ctx, catalog, SyncAction::Unchanged, dest);
        let j = choose|j: int|
            0 <= j < catalog.len() && ctx.action(#[trigger] catalog[j]) == SyncAction::Unchanged
                && ctx.reported_path(catalog[j]) == dest;
        lemma_template_path_injective(
            ctx.config_dir,
            catalog[j].kind,
            catalog[j].name,
            catalog[i].kind,
            catalog[i].name,
        );
    }
}

/// The sidecar never touches the user's file.  Where a refresh mirrors the
/// bundled content of a template to its sidecar file, the user's file is
/// the same after the refresh as before, and unless this is a dry run the
/// sidecar file holds the bundled content.
pub proof fn law_sidecar_keeps_user_file(
    catalog: Seq<AssetView>,
    version: Seq<char>,
    ctx: SyncContext,
    i: int,
)
    requires
        catalog_wf(catalog),
        0 <= i < catalog.len(),
        ctx.action(catalog[i]) == SyncAction::Sidecar,
    ensures
        ({
            let plan = refresh_plan(catalog, version, ctx);
            let after = plan_effect(plan, ctx.config_dir, ctx.fs);
            let dest = ctx.dest(catalog[i]);
            let beside = ctx.sidecar(catalog[i]);
            &&& ctx.opts.sidecar
            &&& plan.report.sidecar.contains(beside)
            &&& after.contains_key(dest)
            &&& after[dest] == ctx.fs[dest]
            &&& !ctx.opts.dry_run ==> after.contains_key(beside) && after[beside]
                == catalog[i].content
        }),
{
    lemma_effect_at_dest(catalog, version, ctx, i);
    lemma_bucket_lists(ctx, catalog, SyncAction::Sidecar, i);
    lemma_last_write_sidecar(ctx, catalog, i);
    lemma_apply_writes_at(ctx.fs, ctx.writes(catalog), ctx.sidecar(catalog[i]));
    lemma_manifest_not_sidecar(ctx.config_dir, catalog[i].kind, catalog[i].name);
}

/// What a refresh does with a template does not depend on whether it is a
/// dry run.
pub proof fn lemma_report_ignores_dry_run(
    ctx: SyncContext,
    other: SyncContext,
    catalog: Seq<AssetView>,
    which: SyncAction,
)
    requires
        other.config_dir == ctx.config_dir,
        other.fs == ctx.fs,
        other.previous == ctx.previous,
        other.opts.force == ctx.opts.force,
        other.opts.sidecar == ctx.opts.sidecar,
    ensures
        ctx.bucket(catalog, which) == other.bucket(catalog, which),
    decreases catalog.len(),
{
    if catalog.len() > 0 {
        lemma_report_ignores_dry_run(ctx, other, catalog.drop_last(), which);
    }
}

/// A dry run writes no template file.
pub proof fn lemma_dry_run_writes_nothing(ctx: SyncContext, catalog: Seq<AssetView>)
    requires
        ctx.opts.dry_run,
    ensures
        ctx.writes(catalog) == Seq::<FileView>::empty(),
    decreases catalog.len(),
{
    if catalog.len() > 0 {
        lemma_dry_run_writes_nothing(ctx, catalog.drop_last());
        assert(ctx.writes(catalog.drop_last()) + ctx.asset_writes(catalog.last()) =~= Seq::<
            FileView,
        >::empty());
    }
}

/// The same refresh as no dry run.
pub open spec fn without_dry_run(ctx: SyncContext) -> SyncContext {
    SyncContext {
        config_dir: ctx.config_dir,
        fs: ctx.fs,
        previous: ctx.previous,
        opts: TemplateRefreshOptions {
            force: ctx.opts.force,
            sidecar: ctx.opts.sidecar,
            dry_run: false,
        },
    }
}

/// A dry run has no effect.  Carrying out the plan of a dry run leaves
/// every file as it is, the manifest too, and the plan reports what the same
/// refresh reports when it is no dry run.
pub proof fn law_dry_run_changes_nothing(catalog: Seq<AssetView>, version: Seq<char>, ctx: SyncContext)
    requires
        ctx.opts.dry_run,
    ensures
        plan_effect(refresh_plan(catalog, version, ctx), ctx.config_dir, ctx.fs) == ctx.fs,
        refresh_plan(catalog, version, ctx).writes.len() == 0,
        refresh_plan(catalog, version, ctx).manifest is None,
        refresh_plan(catalog, version, ctx).report == refresh_plan(
            catalog,
            version,
            without_dry_run(ctx),
        ).report,
{
    let wet = without_dry_run(ctx);
    lemma_dry_run_writes_nothing(ctx, catalog);
    lemma_report_ignores_dry_run(ctx, wet, catalog, SyncAction::Create);
    lemma_report_ignores_dry_run(ctx, wet, catalog, SyncAction::Update);
    lemma_report_ignores_dry_run(ctx, wet, catalog, SyncAction::Unchanged);
    lemma_report_ignores_dry_run(ctx, wet, catalog, SyncAction::SkipModified);
    lemma_report_ignores_dry_run(ctx, wet, catalog, SyncAction::Sidecar);
}

/// Every bundled template is reported once: the five buckets together hold
/// as many paths as the catalog has templates.
pub proof fn law_report_covers_catalog(catalog: Seq<AssetView>, version: Seq<char>, ctx: SyncContext)
    ensures
        ({
            let report = refresh_plan(catalog, version, ctx).report;
            report.created.len() + report.updated.len() + report.unchanged.len()
                + report.skipped_modified.len() + report.sidecar.len() == catalog.len()
        }),
    decreases catalog.len(),
{
    if catalog.len() > 0 {
        law_report_covers_catalog(catalog.drop_last(), version, ctx);
    }
}

/// Idempotence, with the manifest kept in the files.  A refresh that has
/// nothing left to skip or to mirror, and was no dry run that found
/// something to create or update, reports every bundled template as
/// unchanged when it is run again on the files it left, and writes no
/// template file.
pub proof fn law_synchronize_is_idempotent(
    catalog: Seq<AssetView>,
    version: Seq<char>,
    config_dir: Seq<char>,
    fs: Map<Seq<char>, Seq<char>>,
    opts: TemplateRefreshOptions,
)
    requires
        catalog_wf(catalog),
        ({
            let first = refresh_plan(catalog, version, stored_context(config_dir, fs, opts));
            &&& first.report.skipped_modified.len() == 0
            &&& first.report.sidecar.len() == 0
            &&& opts.dry_run ==> first.report.created.len() == 0 && first.report.updated.len() == 0
        }),
    ensures
        ({
            let first = refresh_plan(catalog, version, stored_context(config_dir, fs, opts));
            let left = plan_effect(first, config_dir, fs);
            let second = refresh_plan(catalog, version, stored_context(config_dir, left, opts));
            &&& second.report.created.len() == 0
            &&& second.report.updated.len() == 0
            &&& second.report.skipped_modified.len() == 0
            &&& second.report.sidecar.len() == 0
            &&& second.report.unchanged.len() == catalog.len()
            &&& second.writes.len() == 0
        }),
{
    let ctx = stored_context(config_dir, fs, opts);
    let left = plan_effect(refresh_plan(catalog, version, ctx), config_dir, fs);
    law_refresh_is_idempotent(catalog, version, ctx, stored_context(config_dir, left, opts));
}

/// After a refresh that is no dry run, the manifest in the files is the
/// manifest of the catalog, where the version and the names of the
/// catalog's templates can be held by a manifest file: the hash that the
/// next refresh finds recorded for a bundled template is the hash of its
/// content now.
pub proof fn law_refresh_advances_the_manifest(
    catalog: Seq<AssetView>,
    version: Seq<char>,
    ctx: SyncContext,
    i: int,
)
    requires
        catalog_wf(catalog),
        version_storable(version),
        forall|j: int| 0 <= j < catalog.len() ==> name_storable((#[trigger] catalog[j]).name),
        !ctx.opts.dry_run,
        0 <= i < catalog.len(),
    ensures
        ({
            let left = plan_effect(refresh_plan(catalog, version, ctx), ctx.config_dir, ctx.fs);
            let next = stored_context(ctx.config_dir, left, ctx.opts);
            &&& next.previous == Some(manifest_of(catalog, version))
            &&& next.old_hash(catalog[i]) == Some(content_hash(catalog[i].content))
        }),
{
    lemma_manifest_of_storable(catalog, version);
    law_manifest_round_trip(manifest_of(catalog, version));
    lemma_manifest_of_find(catalog, version, i);
}

/// The release's own version and template names can be held by a manifest
/// file.
pub proof fn law_shipped_catalog_storable()
    ensures
        catalog_wf(shipped_catalog()),
        version_storable(VERSION@),
        forall|i: int|
            0 <= i < shipped_catalog().len() ==> name_storable((#[trigger] shipped_catalog()[i]).name),
{
    lemma_shipped_catalog_wf();
    reveal_strlit("0.1.0");
    reveal_strlit("default");
    reveal_strlit("minimal");
    reveal_strlit("extended");
    reveal_strlit("wellbeing");
    reveal_strlit("health");
    let c = shipped_catalog();
    assert(name_storable(c[0].name));
    assert(name_storable(c[1].name));
    assert(name_storable(c[2].name));
    assert(name_storable(c[3].name));
    assert(name_storable(c[4].name));
}

/// Every file that seeds a kind is the file of a bundled template of that
/// kind, and holds the bundled content.
pub proof fn lemma_seed_writes_member(
    catalog: Seq<AssetView>,
    config_dir: Seq<char>,
    kind: TemplateKind,
    k: int,
)
    requires
        0 <= k < seed_writes(catalog, config_dir, kind).len(),
    ensures
        exists|j: int|
            0 <= j < catalog.len() && (#[trigger] catalog[j]).kind == kind && seed_writes(
                catalog,
                config_dir,
                kind,
            )[k] == (FileView {
                path: template_path(config_dir, kind, catalog[j].name),
                content: catalog[j].content,
            }),
    decreases catalog.len(),
{
    let before = catalog.drop_last();
    let inner = seed_writes(before, config_dir, kind);
    if k < inner.len() {
        lemma_seed_writes_member(before, config_dir, kind, k);
        let j = choose|j: int|
            0 <= j < before.len() && (#[trigger] before[j]).kind == kind && inner[k] == (FileView {
                path: template_path(config_dir, kind, before[j].name),
                content: before[j].content,
            });
        assert(catalog[j] == before[j]);
    } else {
        assert(catalog[catalog.len() - 1] == catalog.last());
    }
}

/// Writes none of which is to a path leave the path as it is.
pub proof fn lemma_last_write_none(writes: Seq<FileView>, path: Seq<char>)
    requires
        forall|k: int| 0 <= k < writes.len() ==> (#[trigger] writes[k]).path != path,
    ensures
        last_write(writes, path) is None,
    decreases writes.len(),
{
    if writes.len() > 0 {
        let before = writes.drop_last();
        assert forall|k: int| 0 <= k < before.len() implies (#[trigger] before[k]).path != path by {
            assert(before[k] == writes[k]);
        }
        lemma_last_write_none(before, path);
        assert(writes[writes.len() - 1] == writes.last());
    }
}

/// The first run touches nothing of a kind of which the user has a
/// template: no file of a template of that kind is written, whatever its
/// name.
pub proof fn law_bootstrap_skips_kinds_with_templates(
    catalog: Seq<AssetView>,
    version: Seq<char>,
    config_dir: Seq<char>,
    has_baselines: bool,
    has_outcomes: bool,
    fs: Map<Seq<char>, Seq<char>>,
    kind: TemplateKind,
    name: Seq<char>,
)
    requires
        kind == TemplateKind::Baselines ==> has_baselines,
        kind == TemplateKind::Outcomes ==> has_outcomes,
    ensures
        ({
            let plan = bootstrap_plan(catalog, version, config_dir, has_baselines, has_outcomes);
            let path = template_path(config_dir, kind, name);
            let after = apply_writes(fs, plan.writes);
            &&& after.contains_key(path) == fs.contains_key(path)
            &&& after[path] == fs[path]
        }),
{
    let plan = bootstrap_plan(catalog, version, config_dir, has_baselines, has_outcomes);
    let path = template_path(config_dir, kind, name);
    let b = seed_writes(catalog, config_dir, TemplateKind::Baselines);
    let o = seed_writes(catalog, config_dir, TemplateKind::Outcomes);
    assert forall|k: int| 0 <= k < plan.writes.len() implies (#[trigger] plan.writes[k]).path
        != path by {
        let other = if kind == TemplateKind::Baselines {
            TemplateKind::Outcomes
        } else {
            TemplateKind::Baselines
        };
        let seeded = seed_writes(catalog, config_dir, other);
        assert(plan.writes =~= seeded);
        lemma_seed_writes_member(catalog, config_dir, other, k);
        let j = choose|j: int|
            0 <= j < catalog.len() && (#[trigger] catalog[j]).kind == other && seeded[k] == (FileView {
                path: template_path(config_dir, other, catalog[j].name),
                content: catalog[j].content,
            });
        if plan.writes[k].path == path {
            lemma_template_path_injective(config_dir, other, catalog[j].name, kind, name);
        }
    }
    lemma_last_write_none(plan.writes, path);
    lemma_apply_writes_at(fs, plan.writes, path);
}

} // verus!
