use vstd::prelude::*;

verus! {

use crate::Profile;

/// The fully merged, invocation-specific settings after precedence
/// resolution; immutable once constructed.
pub struct ResolvedConfig {
    pub project_name: String,
    pub is_binary: bool,
    pub license: String,
    pub author_name: Option<String>,
    pub author_email: Option<String>,
    pub vcs_handle: Option<String>,
    pub organization: String,
}

impl ResolvedConfig {
    /// Well-formedness: the project name and the resolved license are
    /// never empty.
    pub open spec fn wf(self) -> bool {
        self.project_name@.len() > 0 && self.license@.len() > 0
    }
}

/// The license a configuration resolves to: the explicit override when
/// given, else the profile's license when given, else the fallback.
pub open spec fn spec_resolved_license(cli: Option<String>, profile: Option<Profile>) -> Seq<char> {
    if cli is Some {
        cli->0@
    } else if profile is Some && profile->0.license is Some {
        profile->0.license->0@
    } else {
        "MIT"@
    }
}

/// The organization a configuration resolves to: the profile's
/// organization when given, else the placeholder.
pub open spec fn spec_resolved_org(profile: Option<Profile>) -> Seq<char> {
    if profile is Some && profile->0.organization is Some {
        profile->0.organization->0@
    } else {
        "Your Org"@
    }
}

/// Resolve the license by strict precedence:
/// explicit per-invocation value > profile value > hard-coded default.
pub fn resolve_license(cli: Option<String>, profile: &Option<Profile>) -> (r: String)
    ensures
        r@ == spec_resolved_license(cli, *profile),
{
    match cli {
        Some(l) => l,
        None => match profile {
            Some(p) => match &p.license {
                Some(l) => l.clone(),
                None => "MIT".to_owned(),
            },
            None => "MIT".to_owned(),
        },
    }
}

/// Resolve the organization: profile value > hard-coded placeholder.
pub fn resolve_organization(profile: &Option<Profile>) -> (r: String)
    ensures
        r@ == spec_resolved_org(*profile),
{
    match profile {
        Some(p) => match &p.organization {
            Some(o) => o.clone(),
            None => "Your Org".to_owned(),
        },
        None => "Your Org".to_owned(),
    }
}

/// Copy an optional profile field out of the profile, absent when the
/// profile itself is absent.
fn profile_field(field: &Option<String>) -> (r: Option<String>)
    ensures
        r == *field,
{
    match field {
        Some(s) => Some(s.clone()),
        None => None,
    }
}

impl ResolvedConfig {
    /// Merge the per-invocation overrides with the profile defaults and
    /// the hard-coded fallbacks into a fully resolved configuration.
    pub fn resolve(
        project_name: String,
        is_binary: bool,
        cli_license: Option<String>,
        profile: &Option<Profile>,
    ) -> (r: ResolvedConfig)
        requires
            project_name@.len() > 0,
            cli_license is Some ==> cli_license->0@.len() > 0,
            (*profile) is Some && (*profile)->0.license is Some
                ==> (*profile)->0.license->0@.len() > 0,
        ensures
            r.wf(),
            r.project_name == project_name,
            r.is_binary == is_binary,
            r.license@ == spec_resolved_license(cli_license, *profile),
            r.author_name == (if (*profile) is Some { (*profile)->0.name } else { None::<String> }),
            r.author_email == (if (*profile) is Some { (*profile)->0.email } else { None::<String> }),
            r.vcs_handle == (if (*profile) is Some { (*profile)->0.github } else { None::<String> }),
            r.organization@ == spec_resolved_org(*profile),
    {
        proof {
            reveal_strlit("MIT");
        }
        let license = resolve_license(cli_license, profile);
        let organization = resolve_organization(profile);
        let (author_name, author_email, vcs_handle) = match profile {
            Some(p) => (
                profile_field(&p.name),
                profile_field(&p.email),
                profile_field(&p.github),
            ),
            None => (None, None, None),
        };
        ResolvedConfig {
            project_name,
            is_binary,
            license,
            author_name,
            author_email,
            vcs_handle,
            organization,
        }
    }
}

/// Precedence law: for every resolved configuration the license is
/// non-empty, and it equals the explicit override when one is given,
/// else the profile's license when the profile carries one, else the
/// literal fallback. No field resolution special-cases this order.
pub proof fn lemma_license_precedence(cli: Option<String>, profile: Option<Profile>)
    requires
        cli is Some ==> cli->0@.len() > 0,
        profile is Some && profile->0.license is Some ==> profile->0.license->0@.len() > 0,
    ensures
        spec_resolved_license(cli, profile).len() > 0,
        cli is Some ==> spec_resolved_license(cli, profile) == cli->0@,
        cli is None && profile is Some && profile->0.license is Some
            ==> spec_resolved_license(cli, profile) == profile->0.license->0@,
        cli is None && (profile is None || profile->0.license is None)
            ==> spec_resolved_license(cli, profile) == "MIT"@,
{
    reveal_strlit("MIT");
}

} // verus!
