use vstd::prelude::*;

verus! {

/// One generated file of the scaffold.
#[derive(Clone, Copy, Debug, PartialEq, Eq, Structural)]
pub enum ArtifactKind {
    ManifestPatch,
    Readme,
    License,
    Changelog,
    CiWorkflow,
    TestStub,
    BenchStub,
}

/// What the planner decides to do for one artifact kind.
#[derive(Clone, Copy, Debug, PartialEq, Eq, Structural)]
pub enum PlanAction {
    Create,
    Skip,
    AppendFields,
}

/// One entry of the plan: an artifact kind and the action chosen for it.
#[derive(Clone, Copy, Debug, PartialEq, Eq, Structural)]
pub struct PlanEntry {
    pub kind: ArtifactKind,
    pub action: PlanAction,
}

/// Which artifact paths already exist under the target directory at
/// planning time. The manifest has no entry here: it is guaranteed
/// freshly created by the underlying tool and is always patched.
#[derive(Clone, Copy, Debug, PartialEq, Eq, Structural)]
pub struct DirState {
    pub readme_exists: bool,
    pub license_exists: bool,
    pub changelog_exists: bool,
    pub ci_workflow_exists: bool,
    pub test_stub_exists: bool,
    pub bench_stub_exists: bool,
}

/// The action for an artifact whose path may pre-exist: skip it when it
/// is already there, create it otherwise.
pub open spec fn spec_action_for(exists: bool) -> PlanAction {
    if exists {
        PlanAction::Skip
    } else {
        PlanAction::Create
    }
}

/// The whole plan for a directory state: the manifest patch first, so
/// that it is applied before any artifact refers to it, then one entry
/// per remaining artifact kind in a fixed order.
pub open spec fn spec_plan(dir: DirState) -> Seq<PlanEntry> {
    seq![
        PlanEntry { kind: ArtifactKind::ManifestPatch, action: PlanAction::AppendFields },
        PlanEntry { kind: ArtifactKind::Readme, action: spec_action_for(dir.readme_exists) },
        PlanEntry { kind: ArtifactKind::License, action: spec_action_for(dir.license_exists) },
        PlanEntry { kind: ArtifactKind::Changelog, action: spec_action_for(dir.changelog_exists) },
        PlanEntry { kind: ArtifactKind::CiWorkflow, action: spec_action_for(dir.ci_workflow_exists) },
        PlanEntry { kind: ArtifactKind::TestStub, action: spec_action_for(dir.test_stub_exists) },
        PlanEntry { kind: ArtifactKind::BenchStub, action: spec_action_for(dir.bench_stub_exists) },
    ]
}

/// Choose create or skip for an artifact whose path may pre-exist.
fn action_for(exists: bool) -> (a: PlanAction)
    ensures
        a == spec_action_for(exists),
{
    if exists {
        PlanAction::Skip
    } else {
        PlanAction::Create
    }
}

/// Decide, per artifact kind, whether to create it, skip it because its
/// path already exists, or append fields to the freshly written
/// manifest. Pure planning: the directory state was only read.
pub fn plan(dir: &DirState) -> (p: Vec<PlanEntry>)
    ensures
        p@ == spec_plan(*dir),
        p@[0].action == PlanAction::AppendFields,
{
    let mut p: Vec<PlanEntry> = Vec::new();
    p.push(PlanEntry { kind: ArtifactKind::ManifestPatch, action: PlanAction::AppendFields });
    p.push(PlanEntry { kind: ArtifactKind::Readme, action: action_for(dir.readme_exists) });
    p.push(PlanEntry { kind: ArtifactKind::License, action: action_for(dir.license_exists) });
    p.push(PlanEntry { kind: ArtifactKind::Changelog, action: action_for(dir.changelog_exists) });
    p.push(PlanEntry { kind: ArtifactKind::CiWorkflow, action: action_for(dir.ci_workflow_exists) });
    p.push(PlanEntry { kind: ArtifactKind::TestStub, action: action_for(dir.test_stub_exists) });
    p.push(PlanEntry { kind: ArtifactKind::BenchStub, action: action_for(dir.bench_stub_exists) });
    proof {
        assert(p@ =~= spec_plan(*dir));
    }
    p
}

/// The directory state after a plan for `dir` has been fully applied:
/// every artifact path exists, because each was either already present
/// (skipped) or created.
pub open spec fn spec_dir_after_plan(dir: DirState) -> DirState {
    DirState {
        readme_exists: dir.readme_exists || spec_action_for(dir.readme_exists) == PlanAction::Create,
        license_exists: dir.license_exists || spec_action_for(dir.license_exists) == PlanAction::Create,
        changelog_exists: dir.changelog_exists || spec_action_for(dir.changelog_exists) == PlanAction::Create,
        ci_workflow_exists: dir.ci_workflow_exists || spec_action_for(dir.ci_workflow_exists) == PlanAction::Create,
        test_stub_exists: dir.test_stub_exists || spec_action_for(dir.test_stub_exists) == PlanAction::Create,
        bench_stub_exists: dir.bench_stub_exists || spec_action_for(dir.bench_stub_exists) == PlanAction::Create,
    }
}

/// Idempotence of the planner: after a run has been fully applied, a
/// second plan for the same directory skips every artifact kind except
/// the manifest patch.
pub proof fn lemma_planner_idempotent(dir: DirState)
    ensures
        spec_plan(spec_dir_after_plan(dir))[0].action == PlanAction::AppendFields,
        forall|i: int|
            1 <= i < spec_plan(spec_dir_after_plan(dir)).len()
                ==> spec_plan(spec_dir_after_plan(dir))[i].action == PlanAction::Skip,
{
}

/// Documented non-idempotence of the manifest patch: whatever the
/// directory already holds, and however many runs came before, the
/// manifest entry is always `AppendFields`, and it is the only entry
/// with that action.
pub proof fn lemma_manifest_always_appended(dir: DirState)
    ensures
        spec_plan(dir)[0].kind == ArtifactKind::ManifestPatch,
        spec_plan(dir)[0].action == PlanAction::AppendFields,
        forall|i: int|
            1 <= i < spec_plan(dir).len() ==> spec_plan(dir)[i].action != PlanAction::AppendFields,
{
}

} // verus!
