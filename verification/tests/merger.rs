use cargo_setup::Profile;
use cargo_setup::ResolvedConfig;
use cargo_setup::resolve_license;
use cargo_setup::resolve_organization;

fn profile(
    name: Option<&str>,
    email: Option<&str>,
    github: Option<&str>,
    license: Option<&str>,
    organization: Option<&str>,
) -> Profile {
    Profile {
        name: name.map(|s| s.to_string()),
        email: email.map(|s| s.to_string()),
        github: github.map(|s| s.to_string()),
        license: license.map(|s| s.to_string()),
        organization: organization.map(|s| s.to_string()),
    }
}

#[test]
fn license_explicit_override_wins() {
    let p = Some(profile(None, None, None, Some("Apache-2.0"), None));
    let r = resolve_license(Some("GPL-3.0".to_string()), &p);
    assert_eq!(r, "GPL-3.0");
}

#[test]
fn license_profile_value_wins_over_fallback() {
    let p = Some(profile(None, None, None, Some("Apache-2.0"), None));
    let r = resolve_license(None, &p);
    assert_eq!(r, "Apache-2.0");
}

#[test]
fn license_fallback_when_nothing_given() {
    assert_eq!(resolve_license(None, &None), "MIT");
    let p = Some(profile(Some("Ann"), None, None, None, None));
    assert_eq!(resolve_license(None, &p), "MIT");
}

#[test]
fn organization_profile_then_placeholder() {
    let p = Some(profile(None, None, None, None, Some("Acme")));
    assert_eq!(resolve_organization(&p), "Acme");
    assert_eq!(resolve_organization(&None), "Your Org");
}

#[test]
fn resolve_fills_every_field() {
    let p = Some(profile(
        Some("Ann"),
        Some("ann@example.com"),
        Some("ann-gh"),
        Some("Apache-2.0"),
        Some("Acme"),
    ));
    let c = ResolvedConfig::resolve("demo".to_string(), true, None, &p);
    assert_eq!(c.project_name, "demo");
    assert!(c.is_binary);
    assert_eq!(c.license, "Apache-2.0");
    assert_eq!(c.author_name.as_deref(), Some("Ann"));
    assert_eq!(c.author_email.as_deref(), Some("ann@example.com"));
    assert_eq!(c.vcs_handle.as_deref(), Some("ann-gh"));
    assert_eq!(c.organization, "Acme");
}

#[test]
fn resolve_without_profile_uses_fallbacks() {
    let c = ResolvedConfig::resolve("demo".to_string(), false, None, &None);
    assert_eq!(c.license, "MIT");
    assert_eq!(c.author_name, None);
    assert_eq!(c.author_email, None);
    assert_eq!(c.vcs_handle, None);
    assert_eq!(c.organization, "Your Org");
    assert!(!c.is_binary);
}
