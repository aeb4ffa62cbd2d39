use cargo_setup::ArtifactKind;
use cargo_setup::Profile;
use cargo_setup::ResolvedConfig;
use cargo_setup::format_u64;
use cargo_setup::format_year;
use cargo_setup::rel_path;
use cargo_setup::render;
use cargo_setup::render_bench_stub;
use cargo_setup::render_changelog;
use cargo_setup::render_ci_workflow;
use cargo_setup::render_license;
use cargo_setup::render_manifest_patch;
use cargo_setup::render_readme;
use cargo_setup::render_test_stub;

fn full_config() -> ResolvedConfig {
    let p = Some(Profile {
        name: Some("Ann".to_string()),
        email: Some("ann@example.com".to_string()),
        github: Some("ann-gh".to_string()),
        license: Some("Apache-2.0".to_string()),
        organization: Some("Acme".to_string()),
    });
    ResolvedConfig::resolve("demo".to_string(), false, None, &p)
}

fn bare_config() -> ResolvedConfig {
    ResolvedConfig::resolve("demo".to_string(), false, None, &None)
}

#[test]
fn decimal_formatting_exact_values() {
    assert_eq!(format_u64(0), "0");
    assert_eq!(format_u64(7), "7");
    assert_eq!(format_u64(42), "42");
    assert_eq!(format_u64(1000), "1000");
    assert_eq!(format_u64(18446744073709551615), "18446744073709551615");
}

#[test]
fn year_formatting_handles_signs() {
    assert_eq!(format_year(2024), "2024");
    assert_eq!(format_year(0), "0");
    assert_eq!(format_year(-44), "-44");
    assert_eq!(format_year(-2147483648), "-2147483648");
}

#[test]
fn manifest_patch_with_full_profile() {
    let t = render_manifest_patch(&full_config());
    assert_eq!(
        t,
        "authors = [\"Ann <ann@example.com>\"]\n\
         license = \"Apache-2.0\"\n\
         repository = \"https://github.com/ann-gh/demo\"\n"
    );
}

#[test]
fn manifest_patch_email_defaults_to_empty() {
    let p = Some(Profile {
        name: Some("Ann".to_string()),
        email: None,
        github: None,
        license: None,
        organization: None,
    });
    let c = ResolvedConfig::resolve("demo".to_string(), false, None, &p);
    let t = render_manifest_patch(&c);
    assert_eq!(t, "authors = [\"Ann <>\"]\nlicense = \"MIT\"\n");
}

#[test]
fn manifest_patch_without_profile_still_has_license_line() {
    let t = render_manifest_patch(&bare_config());
    assert_eq!(t, "license = \"MIT\"\n");
}

#[test]
fn readme_with_handle_embeds_it() {
    let t = render_readme(&full_config());
    assert!(t.starts_with("# demo\n\n"));
    assert!(t.contains(
        "[![CI](https://github.com/ann-gh/demo/actions/workflows/ci.yml/badge.svg)](https://github.com/ann-gh/demo/actions)"
    ));
    assert!(t.contains("Created by [ann-gh](https://github.com/ann-gh)"));
    assert!(t.contains("cargo install demo"));
    assert!(t.contains("fn main()"));
}

#[test]
fn readme_without_handle_uses_placeholder_and_no_attribution() {
    let t = render_readme(&bare_config());
    assert!(t.contains(
        "[![CI](https://github.com/your-github/demo/actions/workflows/ci.yml/badge.svg)](https://github.com/your-github/demo/actions)"
    ));
    assert!(!t.contains("Created by"));
}

#[test]
fn license_text_exact() {
    let t = render_license(&bare_config(), 2024);
    assert_eq!(t, "Copyright (c) 2024 Your Org\n\nLicensed under the MIT license.");
}

#[test]
fn license_round_trip_has_identifier_and_four_digit_year() {
    let c = full_config();
    let t = render_license(&c, 2024);
    assert!(t.contains("Apache-2.0"));
    let year_digits = "2024";
    assert_eq!(year_digits.len(), 4);
    assert!(t.contains(year_digits));
}

#[test]
fn changelog_exact() {
    let t = render_changelog(&bare_config());
    assert_eq!(
        t,
        "# Changelog\n\nAll notable changes to `demo` will be documented here.\n\n\
         The format is based on [Keep a Changelog](https://keepachangelog.com/en/1.0.0/),\n\
         and this project adheres to [Semantic Versioning](https://semver.org/spec/v2.0.0.html).\n\n\
         ## [Unreleased]\n- Initial scaffold\n"
    );
}

#[test]
fn ci_workflow_is_constant_and_complete() {
    let t = render_ci_workflow();
    assert_eq!(t, render_ci_workflow());
    assert!(t.starts_with("\nname: CI\n"));
    assert!(t.contains("branches: [ \"main\" ]"));
    assert!(t.contains("pull_request:"));
    assert!(t.contains("os: [ubuntu-latest, macos-latest, windows-latest]"));
    assert!(t.contains("cargo build --verbose"));
    assert!(t.contains("cargo test --verbose"));
    assert!(t.contains("cargo fmt -- --check"));
    assert!(t.contains("cargo clippy -- -D warnings"));
}

#[test]
fn stubs_exact() {
    assert_eq!(render_test_stub(), "#[test]\nfn it_works() {\n    assert_eq!(2+2, 4);\n}\n");
    assert_eq!(
        render_bench_stub(),
        "// Basic benchmark (requires criterion)\nfn main() { println!(\"Run with cargo bench\"); }\n"
    );
}

#[test]
fn artifact_paths() {
    assert_eq!(rel_path(ArtifactKind::ManifestPatch), "Cargo.toml");
    assert_eq!(rel_path(ArtifactKind::Readme), "README.md");
    assert_eq!(rel_path(ArtifactKind::License), "LICENSE");
    assert_eq!(rel_path(ArtifactKind::Changelog), "CHANGELOG.md");
    assert_eq!(rel_path(ArtifactKind::CiWorkflow), ".github/workflows/ci.yml");
    assert_eq!(rel_path(ArtifactKind::TestStub), "tests/basic.rs");
    assert_eq!(rel_path(ArtifactKind::BenchStub), "benches/bench.rs");
}

#[test]
fn render_dispatch_matches_each_renderer() {
    let c = full_config();
    assert_eq!(render(ArtifactKind::ManifestPatch, &c, 2024), render_manifest_patch(&c));
    assert_eq!(render(ArtifactKind::Readme, &c, 2024), render_readme(&c));
    assert_eq!(render(ArtifactKind::License, &c, 2024), render_license(&c, 2024));
    assert_eq!(render(ArtifactKind::Changelog, &c, 2024), render_changelog(&c));
    assert_eq!(render(ArtifactKind::CiWorkflow, &c, 2024), render_ci_workflow());
    assert_eq!(render(ArtifactKind::TestStub, &c, 2024), render_test_stub());
    assert_eq!(render(ArtifactKind::BenchStub, &c, 2024), render_bench_stub());
}
