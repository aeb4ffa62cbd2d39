use vstd::prelude::*;

verus! {

use vstd::string::StringExecFns;
use crate::Profile;
use crate::config::ResolvedConfig;
use crate::config::spec_resolved_license;
use crate::config::spec_resolved_org;
use crate::plan::ArtifactKind;
use crate::plan::DirState;
use crate::plan::PlanAction;
use crate::plan::PlanEntry;
use crate::plan::plan;
use crate::plan::spec_plan;
use crate::render::render;
use crate::render::rel_path;
use crate::render::spec_manifest_patch;
use crate::render::spec_rel_path;
use crate::render::spec_render;

/// One filesystem effect the driver asks its caller to perform; the
/// decisions are made here, the writes happen outside.
pub enum StepOp {
    /// Write a fresh artifact file at the relative path.
    WriteFile { rel_path: String, content: String },
    /// Append the rendered patch to the manifest at the relative path
    /// and rewrite it in place.
    AppendToManifest { rel_path: String, patch: String },
    /// The artifact already exists: perform no I/O.
    NoOp,
}

/// One sequenced step of an invocation: the artifact it concerns and
/// the effect chosen for it.
pub struct Step {
    pub kind: ArtifactKind,
    pub op: StepOp,
}

/// A step carries out its plan entry: the kinds agree, a `Create`
/// becomes a fresh write of the rendered content at the artifact's
/// path, an `AppendFields` becomes a manifest append of the rendered
/// patch, and a `Skip` performs no I/O.
pub open spec fn spec_step_matches(s: Step, e: PlanEntry, cfg: ResolvedConfig, year: int) -> bool {
    &&& s.kind == e.kind
    &&& match e.action {
        PlanAction::Create => s.op matches StepOp::WriteFile { rel_path, content }
            && rel_path@ == spec_rel_path(e.kind) && content@ == spec_render(e.kind, cfg, year),
        PlanAction::AppendFields => s.op matches StepOp::AppendToManifest { rel_path, patch }
            && rel_path@ == spec_rel_path(e.kind) && patch@ == spec_manifest_patch(cfg),
        PlanAction::Skip => s.op is NoOp,
    }
}

/// Turn the plan into the ordered steps the caller performs, rendering
/// each artifact to be written from the configuration and the
/// render-time year.
pub fn build_steps(entries: &Vec<PlanEntry>, cfg: &ResolvedConfig, year: i32) -> (steps: Vec<Step>)
    ensures
        steps@.len() == entries@.len(),
        forall|i: int|
            0 <= i < entries@.len() ==> spec_step_matches(steps@[i], entries@[i], *cfg, year as int),
{
    let mut steps: Vec<Step> = Vec::new();
    let mut idx: usize = 0;
    while idx < entries.len()
        invariant
            idx <= entries@.len(),
            steps@.len() == idx,
            forall|i: int|
                0 <= i < idx ==> spec_step_matches(steps@[i], entries@[i], *cfg, year as int),
        decreases entries@.len() - idx,
    {
        let e = entries[idx];
        let op = match e.action {
            PlanAction::Create => StepOp::WriteFile {
                rel_path: rel_path(e.kind),
                content: render(e.kind, cfg, year),
            },
            PlanAction::AppendFields => StepOp::AppendToManifest {
                rel_path: rel_path(e.kind),
                patch: render(ArtifactKind::ManifestPatch, cfg, year),
            },
            PlanAction::Skip => StepOp::NoOp,
        };
        steps.push(Step { kind: e.kind, op });
        idx = idx + 1;
    }
    steps
}

/// The new manifest text for an `AppendFields` step: the current text
/// with the rendered patch appended at the end.
pub fn append_manifest(existing: &str, patch: &str) -> (r: String)
    ensures
        r@ == existing@ + patch@,
{
    let mut s = existing.to_owned();
    s.append(patch);
    s
}

/// The kinds of the entries that carry one action, in plan order.
pub open spec fn spec_kinds_with(entries: Seq<PlanEntry>, action: PlanAction) -> Seq<ArtifactKind>
    decreases entries.len(),
{
    if entries.len() == 0 {
        Seq::<ArtifactKind>::empty()
    } else {
        spec_kinds_with(entries.drop_last(), action) + (if entries.last().action == action {
            seq![entries.last().kind]
        } else {
            Seq::<ArtifactKind>::empty()
        })
    }
}

/// What a completed invocation reports back: which artifacts were
/// created, which skipped, which appended to, and the resolved license,
/// for the caller to display.
pub struct Report {
    pub created: Vec<ArtifactKind>,
    pub skipped: Vec<ArtifactKind>,
    pub appended: Vec<ArtifactKind>,
    pub license: String,
}

/// Summarize a plan that was carried out in full: each entry's kind is
/// reported under its action, in plan order, beside the resolved
/// license.
pub fn make_report(entries: &Vec<PlanEntry>, license: String) -> (r: Report)
    ensures
        r.created@ == spec_kinds_with(entries@, PlanAction::Create),
        r.skipped@ == spec_kinds_with(entries@, PlanAction::Skip),
        r.appended@ == spec_kinds_with(entries@, PlanAction::AppendFields),
        r.license == license,
{
    let mut created: Vec<ArtifactKind> = Vec::new();
    let mut skipped: Vec<ArtifactKind> = Vec::new();
    let mut appended: Vec<ArtifactKind> = Vec::new();
    let mut idx: usize = 0;
    while idx < entries.len()
        invariant
            idx <= entries@.len(),
            created@ == spec_kinds_with(entries@.take(idx as int), PlanAction::Create),
            skipped@ == spec_kinds_with(entries@.take(idx as int), PlanAction::Skip),
            appended@ == spec_kinds_with(entries@.take(idx as int), PlanAction::AppendFields),
        decreases entries@.len() - idx,
    {
        let e = entries[idx];
        match e.action {
            PlanAction::Create => created.push(e.kind),
            PlanAction::Skip => skipped.push(e.kind),
            PlanAction::AppendFields => appended.push(e.kind),
        }
        proof {
            let t = entries@.take(idx + 1 as int);
            assert(t.drop_last() =~= entries@.take(idx as int));
            assert(t.last() == entries@[idx as int]);
            assert(created@ =~= spec_kinds_with(t, PlanAction::Create));
            assert(skipped@ =~= spec_kinds_with(t, PlanAction::Skip));
            assert(appended@ =~= spec_kinds_with(t, PlanAction::AppendFields));
        }
        idx = idx + 1;
    }
    proof {
        assert(entries@.take(entries@.len() as int) =~= entries@);
    }
    Report { created, skipped, appended, license }
}

/// Why an invocation failed: the underlying package-creation command
/// returned non-zero, so enrichment never began; or a single artifact
/// write failed, and the artifacts already written stay on disk.
pub enum ScaffoldError {
    UnderlyingToolFailure,
    IoFailure { kind: ArtifactKind },
}

impl ScaffoldError {
    /// The message shown for this failure.
    pub open spec fn spec_describe(self) -> Seq<char> {
        match self {
            ScaffoldError::UnderlyingToolFailure => "the package-creation command failed"@,
            ScaffoldError::IoFailure { kind } => "failed to write "@ + spec_rel_path(kind),
        }
    }

    /// Describe this failure for the user.
    pub fn describe(&self) -> (r: String)
        ensures
            r@ == self.spec_describe(),
    {
        match self {
            ScaffoldError::UnderlyingToolFailure => "the package-creation command failed".to_owned(),
            ScaffoldError::IoFailure { kind } => {
                let mut s = "failed to write ".to_owned();
                s.append(rel_path(*kind).as_str());
                s
            },
        }
    }
}

/// Relies on chrono::Utc::now and chrono::Datelike::year for the
/// current civil year. The clock decides the result, so nothing is
/// promised of it; every caller is verified for every year.
#[verifier::external_body]
fn current_year() -> i32 {
    chrono::Datelike::year(&chrono::Utc::now())
}

/// Everything one invocation decides and renders, short of the
/// filesystem writes themselves: the resolved configuration, the plan,
/// the ordered steps for the caller to perform, the report to show when
/// every step succeeds, and the civil year the license was rendered
/// with.
pub struct Enrichment {
    pub config: ResolvedConfig,
    pub entries: Vec<PlanEntry>,
    pub steps: Vec<Step>,
    pub report: Report,
    pub year: i32,
}

/// The whole enrichment pipeline for one invocation: merge the
/// overrides with the profile, plan against the directory state, and
/// render every artifact at the current civil year. Pure but for the
/// clock read; the caller performs the steps in order and fails fast on
/// the first write error.
pub fn prepare(
    project_name: String,
    is_binary: bool,
    cli_license: Option<String>,
    profile: &Option<Profile>,
    dir: &DirState,
) -> (e: Enrichment)
    requires
        project_name@.len() > 0,
        cli_license is Some ==> cli_license->0@.len() > 0,
        (*profile) is Some && (*profile)->0.license is Some ==> (*profile)->0.license->0@.len()
            > 0,
    ensures
        e.config.wf(),
        e.config.project_name == project_name,
        e.config.is_binary == is_binary,
        e.config.license@ == spec_resolved_license(cli_license, *profile),
        e.config.author_name == (if (*profile) is Some {
            (*profile)->0.name
        } else {
            None::<String>
        }),
        e.config.author_email == (if (*profile) is Some {
            (*profile)->0.email
        } else {
            None::<String>
        }),
        e.config.vcs_handle == (if (*profile) is Some {
            (*profile)->0.github
        } else {
            None::<String>
        }),
        e.config.organization@ == spec_resolved_org(*profile),
        e.entries@ == spec_plan(*dir),
        e.steps@.len() == e.entries@.len(),
        forall|i: int|
            0 <= i < e.entries@.len() ==> spec_step_matches(
                e.steps@[i],
                e.entries@[i],
                e.config,
                e.year as int,
            ),
        e.report.created@ == spec_kinds_with(spec_plan(*dir), PlanAction::Create),
        e.report.skipped@ == spec_kinds_with(spec_plan(*dir), PlanAction::Skip),
        e.report.appended@ == spec_kinds_with(spec_plan(*dir), PlanAction::AppendFields),
        e.report.license == e.config.license,
{
    let config = ResolvedConfig::resolve(project_name, is_binary, cli_license, profile);
    let entries = plan(dir);
    let year = current_year();
    let steps = build_steps(&entries, &config, year);
    let report = make_report(&entries, config.license.clone());
    Enrichment { config, entries, steps, report, year }
}

} // verus!
