use vstd::prelude::*;

verus! {

use vstd::string::StringExecFns;
use crate::config::ResolvedConfig;
use crate::plan::ArtifactKind;

/// The decimal digit character for one digit value.
pub open spec fn spec_digit_char(d: int) -> char {
    if d == 0 {
        '0'
    } else if d == 1 {
        '1'
    } else if d == 2 {
        '2'
    } else if d == 3 {
        '3'
    } else if d == 4 {
        '4'
    } else if d == 5 {
        '5'
    } else if d == 6 {
        '6'
    } else if d == 7 {
        '7'
    } else if d == 8 {
        '8'
    } else {
        '9'
    }
}

/// The decimal digit string of a natural number, most significant digit
/// first, with no leading zeros except for zero itself.
pub open spec fn spec_dec_str(n: nat) -> Seq<char>
    decreases n,
{
    if n < 10 {
        seq![spec_digit_char(n as int)]
    } else {
        spec_dec_str(n / 10) + seq![spec_digit_char((n % 10) as int)]
    }
}

/// The decimal string of an integer, with a leading minus sign when it
/// is negative.
pub open spec fn spec_int_str(n: int) -> Seq<char> {
    if n < 0 {
        seq!['-'] + spec_dec_str((-n) as nat)
    } else {
        spec_dec_str(n as nat)
    }
}

/// The one-character string for one decimal digit.
fn digit_str(d: u64) -> (r: &'static str)
    requires
        d < 10,
    ensures
        r@ == seq![spec_digit_char(d as int)],
{
    proof {
        reveal_strlit("0");
        reveal_strlit("1");
        reveal_strlit("2");
        reveal_strlit("3");
        reveal_strlit("4");
        reveal_strlit("5");
        reveal_strlit("6");
        reveal_strlit("7");
        reveal_strlit("8");
        reveal_strlit("9");
        assert("0"@ =~= seq!['0']);
        assert("1"@ =~= seq!['1']);
        assert("2"@ =~= seq!['2']);
        assert("3"@ =~= seq!['3']);
        assert("4"@ =~= seq!['4']);
        assert("5"@ =~= seq!['5']);
        assert("6"@ =~= seq!['6']);
        assert("7"@ =~= seq!['7']);
        assert("8"@ =~= seq!['8']);
        assert("9"@ =~= seq!['9']);
    }
    match d {
        0 => "0",
        1 => "1",
        2 => "2",
        3 => "3",
        4 => "4",
        5 => "5",
        6 => "6",
        7 => "7",
        8 => "8",
        _ => "9",
    }
}

/// Format a natural number in decimal.
pub fn format_u64(n: u64) -> (r: String)
    ensures
        r@ == spec_dec_str(n as nat),
    decreases n,
{
    if n < 10 {
        digit_str(n).to_owned()
    } else {
        proof {
            assert(n / 10 < n) by (nonlinear_arith)
                requires
                    n >= 10,
            ;
        }
        let mut s = format_u64(n / 10);
        s.append(digit_str(n % 10));
        s
    }
}

/// Format a year in decimal, with a leading minus sign when negative.
pub fn format_year(y: i32) -> (r: String)
    ensures
        r@ == spec_int_str(y as int),
{
    proof {
        reveal_strlit("-");
        assert("-"@ =~= seq!['-']);
    }
    if y >= 0 {
        format_u64(y as u64)
    } else {
        let m: i64 = -(y as i64);
        let mut s = "-".to_owned();
        s.append(format_u64(m as u64).as_str());
        s
    }
}

/// The optional field's text: its characters when present, nothing when
/// absent.
pub open spec fn spec_opt_str(o: Option<String>) -> Seq<char> {
    match o {
        Some(s) => s@,
        None => Seq::<char>::empty(),
    }
}

/// The manifest authors line, present exactly when an author name is
/// known, with an empty-string email when the email is absent.
pub open spec fn spec_author_line(cfg: ResolvedConfig) -> Seq<char> {
    match cfg.author_name {
        Some(n) => "authors = [\""@ + n@ + " <"@ + spec_opt_str(cfg.author_email) + ">\"]\n"@,
        None => Seq::<char>::empty(),
    }
}

/// The manifest license line, always present.
pub open spec fn spec_license_line(cfg: ResolvedConfig) -> Seq<char> {
    "license = \""@ + cfg.license@ + "\"\n"@
}

/// The manifest repository line, present exactly when a VCS handle is
/// known, interpolating the handle and the project name.
pub open spec fn spec_repository_line(cfg: ResolvedConfig) -> Seq<char> {
    match cfg.vcs_handle {
        Some(h) => "repository = \"https://github.com/"@ + h@ + "/"@ + cfg.project_name@ + "\"\n"@,
        None => Seq::<char>::empty(),
    }
}

/// The whole metadata block appended to the manifest.
pub open spec fn spec_manifest_patch(cfg: ResolvedConfig) -> Seq<char> {
    spec_author_line(cfg) + spec_license_line(cfg) + spec_repository_line(cfg)
}

/// Render the manifest metadata block.
pub fn render_manifest_patch(cfg: &ResolvedConfig) -> (r: String)
    ensures
        r@ == spec_manifest_patch(*cfg),
{
    let mut s = String::new();
    match &cfg.author_name {
        Some(n) => {
            s.append("authors = [\"");
            s.append(n.as_str());
            s.append(" <");
            match &cfg.author_email {
                Some(e) => s.append(e.as_str()),
                None => {},
            }
            s.append(">\"]\n");
        },
        None => {},
    }
    s.append("license = \"");
    s.append(cfg.license.as_str());
    s.append("\"\n");
    match &cfg.vcs_handle {
        Some(h) => {
            s.append("repository = \"https://github.com/");
            s.append(h.as_str());
            s.append("/");
            s.append(cfg.project_name.as_str());
            s.append("\"\n");
        },
        None => {},
    }
    proof {
        assert(s@ =~= spec_manifest_patch(*cfg));
    }
    s
}

/// The handle the readme badge uses: the VCS handle when known, else
/// the literal placeholder.
pub open spec fn spec_badge_handle(cfg: ResolvedConfig) -> Seq<char> {
    match cfg.vcs_handle {
        Some(h) => h@,
        None => "your-github"@,
    }
}

/// The CI-status badge, referencing the badge handle and project name.
pub open spec fn spec_ci_badge(cfg: ResolvedConfig) -> Seq<char> {
    "[![CI](https://github.com/"@ + spec_badge_handle(cfg) + "/"@ + cfg.project_name@
        + "/actions/workflows/ci.yml/badge.svg)](https://github.com/"@ + spec_badge_handle(cfg)
        + "/"@ + cfg.project_name@ + "/actions)"@
}

/// The attribution line, present exactly when a VCS handle is known.
pub open spec fn spec_attribution(cfg: ResolvedConfig) -> Seq<char> {
    match cfg.vcs_handle {
        Some(h) => "Created by ["@ + h@ + "](https://github.com/"@ + h@ + ")\n\n"@,
        None => Seq::<char>::empty(),
    }
}

/// The whole readme: heading, badge, attribution, installation
/// instructions and a minimal usage example.
pub open spec fn spec_readme(cfg: ResolvedConfig) -> Seq<char> {
    "# "@ + cfg.project_name@ + "\n\n"@ + spec_ci_badge(cfg) + "\n\n"@ + spec_attribution(cfg)
        + "## 📦 Installation\n\n```bash\ncargo install "@ + cfg.project_name@ + "\n```\n\n"@
        + "## 🚀 Usage\n\n```rust\nfn main() {\n    println!(\"Hello from your new crate!\");\n}\n"@
}

/// Render the readme.
pub fn render_readme(cfg: &ResolvedConfig) -> (r: String)
    ensures
        r@ == spec_readme(*cfg),
{
    let mut s = "# ".to_owned();
    s.append(cfg.project_name.as_str());
    s.append("\n\n");
    s.append("[![CI](https://github.com/");
    match &cfg.vcs_handle {
        Some(h) => s.append(h.as_str()),
        None => s.append("your-github"),
    }
    s.append("/");
    s.append(cfg.project_name.as_str());
    s.append("/actions/workflows/ci.yml/badge.svg)](https://github.com/");
    match &cfg.vcs_handle {
        Some(h) => s.append(h.as_str()),
        None => s.append("your-github"),
    }
    s.append("/");
    s.append(cfg.project_name.as_str());
    s.append("/actions)");
    s.append("\n\n");
    match &cfg.vcs_handle {
        Some(h) => {
            s.append("Created by [");
            s.append(h.as_str());
            s.append("](https://github.com/");
            s.append(h.as_str());
            s.append(")\n\n");
        },
        None => {},
    }
    s.append("## 📦 Installation\n\n```bash\ncargo install ");
    s.append(cfg.project_name.as_str());
    s.append("\n```\n\n");
    s.append("## 🚀 Usage\n\n```rust\nfn main() {\n    println!(\"Hello from your new crate!\");\n}\n");
    proof {
        assert(s@ =~= spec_readme(*cfg));
    }
    s
}

/// The license text: copyright line with the render-time year and the
/// resolved organization, and a statement naming the resolved license.
pub open spec fn spec_license_text(cfg: ResolvedConfig, year: int) -> Seq<char> {
    "Copyright (c) "@ + spec_int_str(year) + " "@ + cfg.organization@
        + "\n\nLicensed under the "@ + cfg.license@ + " license."@
}

/// Render the license artifact for the given civil year.
pub fn render_license(cfg: &ResolvedConfig, year: i32) -> (r: String)
    ensures
        r@ == spec_license_text(*cfg, year as int),
{
    let mut s = "Copyright (c) ".to_owned();
    s.append(format_year(year).as_str());
    s.append(" ");
    s.append(cfg.organization.as_str());
    s.append("\n\nLicensed under the ");
    s.append(cfg.license.as_str());
    s.append(" license.");
    proof {
        assert(s@ =~= spec_license_text(*cfg, year as int));
    }
    s
}

/// `p` occurs in `t` starting at index `i`.
pub open spec fn spec_contains_at(t: Seq<char>, i: int, p: Seq<char>) -> bool {
    0 <= i && i + p.len() <= t.len() && t.subrange(i, i + p.len() as int) == p
}

/// `p` occurs somewhere in `t`.
pub open spec fn spec_contains(t: Seq<char>, p: Seq<char>) -> bool {
    exists|i: int| spec_contains_at(t, i, p)
}

/// A year of four decimal digits renders as exactly four characters.
pub proof fn lemma_year_four_digits(year: int)
    requires
        1000 <= year <= 9999,
    ensures
        spec_int_str(year).len() == 4,
{
    let n = year as nat;
    let n1 = n / 10;
    let n2 = n1 / 10;
    let n3 = n2 / 10;
    assert(100 <= n1 <= 999 && 10 <= n2 <= 99 && 1 <= n3 <= 9) by (nonlinear_arith)
        requires
            1000 <= n <= 9999 && n1 == n / 10 && n2 == n1 / 10 && n3 == n2 / 10,
    ;
    assert(spec_dec_str(n3).len() == 1);
    assert(spec_dec_str(n2).len() == 2);
    assert(spec_dec_str(n1).len() == 3);
    assert(spec_dec_str(n).len() == 4);
}

/// Round trip for the license artifact: the rendered text contains the
/// exact resolved license identifier, and the render-time year as a
/// four-digit number.
pub proof fn lemma_license_round_trip(cfg: ResolvedConfig, year: int)
    requires
        1000 <= year <= 9999,
    ensures
        spec_int_str(year).len() == 4,
        spec_contains(spec_license_text(cfg, year), spec_int_str(year)),
        spec_contains(spec_license_text(cfg, year), cfg.license@),
{
    reveal_strlit("Copyright (c) ");
    reveal_strlit(" ");
    reveal_strlit("\n\nLicensed under the ");
    reveal_strlit(" license.");
    lemma_year_four_digits(year);
    let t = spec_license_text(cfg, year);
    let ys = spec_int_str(year);
    let i = "Copyright (c) "@.len() as int;
    assert(t.subrange(i, i + ys.len() as int) =~= ys);
    assert(spec_contains_at(t, i, ys));
    let j = i + ys.len() + 1 + cfg.organization@.len() + "\n\nLicensed under the "@.len();
    assert(t.subrange(j as int, j + cfg.license@.len() as int) =~= cfg.license@);
    assert(spec_contains_at(t, j as int, cfg.license@));
}

/// The changelog, following the Keep a Changelog convention, with a
/// single Unreleased section noting the initial scaffold.
pub open spec fn spec_changelog(cfg: ResolvedConfig) -> Seq<char> {
    "# Changelog\n\nAll notable changes to `"@ + cfg.project_name@
        + "` will be documented here.\n\nThe format is based on [Keep a Changelog](https://keepachangelog.com/en/1.0.0/),\nand this project adheres to [Semantic Versioning](https://semver.org/spec/v2.0.0.html).\n\n## [Unreleased]\n- Initial scaffold\n"@
}

/// Render the changelog.
pub fn render_changelog(cfg: &ResolvedConfig) -> (r: String)
    ensures
        r@ == spec_changelog(*cfg),
{
    let mut s = "# Changelog\n\nAll notable changes to `".to_owned();
    s.append(cfg.project_name.as_str());
    s.append(
        "` will be documented here.\n\nThe format is based on [Keep a Changelog](https://keepachangelog.com/en/1.0.0/),\nand this project adheres to [Semantic Versioning](https://semver.org/spec/v2.0.0.html).\n\n## [Unreleased]\n- Initial scaffold\n",
    );
    proof {
        assert(s@ =~= spec_changelog(*cfg));
    }
    s
}

/// The fixed continuous-integration pipeline definition: triggers on
/// push to main and on pull requests, and runs build, test, format
/// check and lint across three operating systems. Constant across
/// invocations.
pub open spec fn spec_ci_workflow() -> Seq<char> {
    "\nname: CI\n\non:\n  push:\n    branches: [ \"main\" ]\n  pull_request:\n\njobs:\n  test:\n    name: Test on ${{ matrix.os }}\n    runs-on: ${{ matrix.os }}\n    strategy:\n      matrix:\n        os: [ubuntu-latest, macos-latest, windows-latest]\n\n    steps:\n      - uses: actions/checkout@v4\n\n      - name: Install Rust\n        uses: dtolnay/rust-toolchain@stable\n\n      - name: Build\n        run: cargo build --verbose\n\n      - name: Run tests\n        run: cargo test --verbose\n\n      - name: Check formatting\n        run: cargo fmt -- --check\n\n      - name: Run clippy\n        run: cargo clippy -- -D warnings\n"@
}

/// Render the CI workflow.
pub fn render_ci_workflow() -> (r: String)
    ensures
        r@ == spec_ci_workflow(),
{
    "\nname: CI\n\non:\n  push:\n    branches: [ \"main\" ]\n  pull_request:\n\njobs:\n  test:\n    name: Test on ${{ matrix.os }}\n    runs-on: ${{ matrix.os }}\n    strategy:\n      matrix:\n        os: [ubuntu-latest, macos-latest, windows-latest]\n\n    steps:\n      - uses: actions/checkout@v4\n\n      - name: Install Rust\n        uses: dtolnay/rust-toolchain@stable\n\n      - name: Build\n        run: cargo build --verbose\n\n      - name: Run tests\n        run: cargo test --verbose\n\n      - name: Check formatting\n        run: cargo fmt -- --check\n\n      - name: Run clippy\n        run: cargo clippy -- -D warnings\n".to_owned()
}

/// The trivial passing test placed in the test stub.
pub open spec fn spec_test_stub() -> Seq<char> {
    "#[test]\nfn it_works() {\n    assert_eq!(2+2, 4);\n}\n"@
}

/// Render the test stub.
pub fn render_test_stub() -> (r: String)
    ensures
        r@ == spec_test_stub(),
{
    "#[test]\nfn it_works() {\n    assert_eq!(2+2, 4);\n}\n".to_owned()
}

/// The placeholder benchmark entry point, noting that the benchmarking
/// tool is not wired up.
pub open spec fn spec_bench_stub() -> Seq<char> {
    "// Basic benchmark (requires criterion)\nfn main() { println!(\"Run with cargo bench\"); }\n"@
}

/// Render the bench stub.
pub fn render_bench_stub() -> (r: String)
    ensures
        r@ == spec_bench_stub(),
{
    "// Basic benchmark (requires criterion)\nfn main() { println!(\"Run with cargo bench\"); }\n".to_owned()
}

/// The path of each artifact, relative to the target directory.
pub open spec fn spec_rel_path(kind: ArtifactKind) -> Seq<char> {
    match kind {
        ArtifactKind::ManifestPatch => "Cargo.toml"@,
        ArtifactKind::Readme => "README.md"@,
        ArtifactKind::License => "LICENSE"@,
        ArtifactKind::Changelog => "CHANGELOG.md"@,
        ArtifactKind::CiWorkflow => ".github/workflows/ci.yml"@,
        ArtifactKind::TestStub => "tests/basic.rs"@,
        ArtifactKind::BenchStub => "benches/bench.rs"@,
    }
}

/// The relative path an artifact is written to.
pub fn rel_path(kind: ArtifactKind) -> (r: String)
    ensures
        r@ == spec_rel_path(kind),
{
    match kind {
        ArtifactKind::ManifestPatch => "Cargo.toml".to_owned(),
        ArtifactKind::Readme => "README.md".to_owned(),
        ArtifactKind::License => "LICENSE".to_owned(),
        ArtifactKind::Changelog => "CHANGELOG.md".to_owned(),
        ArtifactKind::CiWorkflow => ".github/workflows/ci.yml".to_owned(),
        ArtifactKind::TestStub => "tests/basic.rs".to_owned(),
        ArtifactKind::BenchStub => "benches/bench.rs".to_owned(),
    }
}

/// What each artifact kind renders to, for one configuration and one
/// render-time year. Rendering is total: no well-formed configuration
/// makes it fail.
pub open spec fn spec_render(kind: ArtifactKind, cfg: ResolvedConfig, year: int) -> Seq<char> {
    match kind {
        ArtifactKind::ManifestPatch => spec_manifest_patch(cfg),
        ArtifactKind::Readme => spec_readme(cfg),
        ArtifactKind::License => spec_license_text(cfg, year),
        ArtifactKind::Changelog => spec_changelog(cfg),
        ArtifactKind::CiWorkflow => spec_ci_workflow(),
        ArtifactKind::TestStub => spec_test_stub(),
        ArtifactKind::BenchStub => spec_bench_stub(),
    }
}

/// Render one artifact kind from the resolved configuration and the
/// render-time year.
pub fn render(kind: ArtifactKind, cfg: &ResolvedConfig, year: i32) -> (r: String)
    ensures
        r@ == spec_render(kind, *cfg, year as int),
{
    match kind {
        ArtifactKind::ManifestPatch => render_manifest_patch(cfg),
        ArtifactKind::Readme => render_readme(cfg),
        ArtifactKind::License => render_license(cfg, year),
        ArtifactKind::Changelog => render_changelog(cfg),
        ArtifactKind::CiWorkflow => render_ci_workflow(),
        ArtifactKind::TestStub => render_test_stub(),
        ArtifactKind::BenchStub => render_bench_stub(),
    }
}

} // verus!
