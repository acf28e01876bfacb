//! Workspace-local settings and the registry-URL check.

use vstd::prelude::*;
use vstd::string::*;

use crate::errors::LazyNixError;
use crate::package_validator::spec_is_package_char;
use crate::text::{spec_split, spec_starts_with, split_str, starts_with_str};

verus! {

/// Optional per-workspace settings.
#[derive(Debug, Clone, PartialEq, Eq)]
pub struct Settings {
    /// When set, replaces the default stable package registry URL.
    pub override_stable_package: Option<String>,
}

/// A URL part (owner, repository or branch) is non-empty and made of
/// ASCII alphanumerics, `-`, `_` and `.` only.
pub open spec fn spec_url_part_ok(p: Seq<char>) -> bool {
    p.len() > 0 && forall|i: int| 0 <= i < p.len() ==> spec_is_package_char(#[trigger] p[i])
}

/// The name of the `i`-th URL part, for error messages.
pub open spec fn spec_url_part_name(i: int) -> Seq<char> {
    if i == 0 {
        "OWNER"@
    } else if i == 1 {
        "REPO"@
    } else {
        "BRANCH"@
    }
}

/// The first error among the URL parts from index `i` on: an emptiness
/// complaint naming the part, or a character complaint naming the URL.
pub open spec fn spec_url_parts_error(url: Seq<char>, parts: Seq<Seq<char>>, i: int) -> Option<
    Seq<char>,
>
    decreases parts.len() - i,
{
    if i < 0 || i >= parts.len() {
        None
    } else if parts[i].len() == 0 {
        Some(
            "Invalid registry URL: "@ + spec_url_part_name(i) + " cannot be empty in '"@ + url
                + "'"@,
        )
    } else if !(forall|j: int| 0 <= j < parts[i].len() ==> spec_is_package_char(
        #[trigger] parts[i][j],
    )) {
        Some(
            "Invalid registry URL: '"@ + url
                + "' contains invalid characters. Only alphanumeric, hyphens, underscores, and dots are allowed"@,
        )
    } else {
        spec_url_parts_error(url, parts, i + 1)
    }
}

/// The outcome of checking a registry URL: `None` when the URL is
/// accepted, otherwise the error message. A URL is accepted exactly when
/// it reads `github:OWNER/REPO/BRANCH` with three well-formed parts.
pub open spec fn spec_validate_registry_url(url: Seq<char>) -> Option<Seq<char>> {
    if url.len() == 0 {
        Some("Registry URL cannot be empty"@)
    } else if !spec_starts_with(url, "github:"@) {
        Some(
            "Invalid registry URL format: '"@ + url
                + "'. Must start with 'github:' (e.g., 'github:NixOS/nixpkgs/nixos-25.06')"@,
        )
    } else {
        let parts = spec_split(url.skip("github:"@.len() as int), '/');
        if parts.len() != 3 {
            Some(
                "Invalid registry URL format: '"@ + url
                    + "'. Expected format: 'github:OWNER/REPO/BRANCH' (e.g., 'github:NixOS/nixpkgs/nixos-25.06')"@,
            )
        } else {
            spec_url_parts_error(url, parts, 0)
        }
    }
}

fn url_part_name(i: usize) -> (r: &'static str)
    ensures
        r@ == spec_url_part_name(i as int),
{
    if i == 0 {
        "OWNER"
    } else if i == 1 {
        "REPO"
    } else {
        "BRANCH"
    }
}

/// Reports whether every character of `s` may appear in a URL part.
fn all_part_chars(s: &str) -> (r: bool)
    ensures
        r == forall|i: int| 0 <= i < s@.len() ==> spec_is_package_char(#[trigger] s@[i]),
{
    let len = s.unicode_len();
    let mut i: usize = 0;
    while i < len
        invariant
            len == s@.len(),
            0 <= i <= len,
            forall|j: int| 0 <= j < i ==> spec_is_package_char(#[trigger] s@[j]),
        decreases len - i,
    {
        if !crate::package_validator::is_package_char(s.get_char(i)) {
            return false;
        }
        i += 1;
    }
    true
}

/// Checks a registry URL of the form `github:OWNER/REPO/BRANCH`. Returns
/// `Ok(())` exactly when `spec_validate_registry_url` accepts the URL, and
/// otherwise the settings-validation error carrying that spec's message.
pub fn validate_registry_url(url: &str) -> (r: Result<(), LazyNixError>)
    ensures
        r is Ok <==> spec_validate_registry_url(url@) is None,
        r is Err ==> (r matches Err(LazyNixError::SettingsValidation(m)) && Some(m@)
            == spec_validate_registry_url(url@)),
{
    let len = url.unicode_len();
    if len == 0 {
        return Err(LazyNixError::SettingsValidation("Registry URL cannot be empty".to_owned()));
    }
    let prefix = "github:";
    if !starts_with_str(url, prefix) {
        let mut m = "Invalid registry URL format: '".to_owned();
        m.append(url);
        m.append("'. Must start with 'github:' (e.g., 'github:NixOS/nixpkgs/nixos-25.06')");
        return Err(LazyNixError::SettingsValidation(m));
    }
    let plen = prefix.unicode_len();
    let rest = url.substring_char(plen, len);
    proof {
        assert(rest@ =~= url@.skip("github:"@.len() as int));
    }
    let parts = split_str(rest, '/');
    if parts.len() != 3 {
        let mut m = "Invalid registry URL format: '".to_owned();
        m.append(url);
        m.append("'. Expected format: 'github:OWNER/REPO/BRANCH' (e.g., 'github:NixOS/nixpkgs/nixos-25.06')");
        return Err(LazyNixError::SettingsValidation(m));
    }
    let ghost ps = parts.deep_view();
    let mut i: usize = 0;
    while i < parts.len()
        invariant
            url@.len() > 0,
            spec_starts_with(url@, "github:"@),
            parts@.len() == 3,
            ps.len() == 3,
            ps == parts.deep_view(),
            ps == spec_split(url@.skip("github:"@.len() as int), '/'),
            0 <= i <= 3,
            spec_url_parts_error(url@, ps, 0) == spec_url_parts_error(url@, ps, i as int),
        decreases parts@.len() - i,
    {
        proof {
            assert(ps[i as int] == parts@[i as int]@);
        }
        if parts[i].as_str().unicode_len() == 0 {
            let mut m = "Invalid registry URL: ".to_owned();
            m.append(url_part_name(i));
            m.append(" cannot be empty in '");
            m.append(url);
            m.append("'");
            proof {
                assert(ps[i as int].len() == 0);
                assert(spec_url_parts_error(url@, ps, i as int) == Some(
                    "Invalid registry URL: "@ + spec_url_part_name(i as int)
                        + " cannot be empty in '"@ + url@ + "'"@,
                ));
            }
            return Err(LazyNixError::SettingsValidation(m));
        }
        if !all_part_chars(parts[i].as_str()) {
            let mut m = "Invalid registry URL: '".to_owned();
            m.append(url);
            m.append(
                "' contains invalid characters. Only alphanumeric, hyphens, underscores, and dots are allowed",
            );
            proof {
                assert(ps[i as int].len() > 0);
                assert(!(forall|j: int|
                    0 <= j < ps[i as int].len() ==> spec_is_package_char(
                        #[trigger] ps[i as int][j],
                    )));
                assert(spec_url_parts_error(url@, ps, i as int) == Some(
                    "Invalid registry URL: '"@ + url@
                        + "' contains invalid characters. Only alphanumeric, hyphens, underscores, and dots are allowed"@,
                ));
            }
            return Err(LazyNixError::SettingsValidation(m));
        }
        proof {
            assert(spec_url_parts_error(url@, ps, i as int) == spec_url_parts_error(
                url@,
                ps,
                i + 1,
            ));
        }
        i += 1;
    }
    proof {
        assert(spec_url_parts_error(url@, ps, 3) is None);
    }
    Ok(())
}

} // verus!
