mod config;
mod driver;
mod plan;
mod render;

use vstd::prelude::*;

pub use driver::Enrichment;
pub use driver::Report;
pub use driver::ScaffoldError;
pub use driver::Step;
pub use driver::StepOp;
pub use driver::append_manifest;
pub use driver::build_steps;
pub use driver::make_report;
pub use driver::prepare;
pub use driver::spec_kinds_with;
pub use driver::spec_step_matches;

pub use render::format_u64;
pub use render::format_year;
pub use render::rel_path;
pub use render::render;
pub use render::render_bench_stub;
pub use render::render_changelog;
pub use render::render_ci_workflow;
pub use render::render_license;
pub use render::render_manifest_patch;
pub use render::render_readme;
pub use render::render_test_stub;
pub use render::lemma_license_round_trip;
pub use render::lemma_year_four_digits;
pub use render::spec_attribution;
pub use render::spec_author_line;
pub use render::spec_badge_handle;
pub use render::spec_bench_stub;
pub use render::spec_changelog;
pub use render::spec_contains;
pub use render::spec_contains_at;
pub use render::spec_ci_badge;
pub use render::spec_ci_workflow;
pub use render::spec_dec_str;
pub use render::spec_digit_char;
pub use render::spec_int_str;
pub use render::spec_license_line;
pub use render::spec_license_text;
pub use render::spec_manifest_patch;
pub use render::spec_opt_str;
pub use render::spec_readme;
pub use render::spec_rel_path;
pub use render::spec_render;
pub use render::spec_repository_line;
pub use render::spec_test_stub;

pub use plan::ArtifactKind;
pub use plan::DirState;
pub use plan::PlanAction;
pub use plan::PlanEntry;
pub use plan::lemma_manifest_always_appended;
pub use plan::lemma_planner_idempotent;
pub use plan::plan;
pub use plan::spec_action_for;
pub use plan::spec_dir_after_plan;
pub use plan::spec_plan;

pub use config::ResolvedConfig;
pub use config::lemma_license_precedence;
pub use config::resolve_license;
pub use config::resolve_organization;
pub use config::spec_resolved_license;
pub use config::spec_resolved_org;

verus! {

/// User-level default metadata, read once per invocation from the
/// profile file; every field is optional.
pub struct Profile {
    pub name: Option<String>,
    pub email: Option<String>,
    pub github: Option<String>,
    pub license: Option<String>,
    pub organization: Option<String>,
}

} // verus!
