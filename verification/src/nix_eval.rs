//! Types and checks around one registry-evaluator invocation.
//!
//! The evaluator itself is an external process; this module holds the raw
//! outcome of one invocation and the sanitization that runs before any
//! process is spawned.

use vstd::prelude::*;
use vstd::string::*;

use crate::errors::LinterError;

verus! {

/// The raw result of one evaluator invocation.
#[derive(Debug, Clone)]
pub struct NixEvalResult {
    /// Whether the evaluation succeeded (exit code 0).
    pub success: bool,
    /// Captured standard output, decoded verbatim.
    pub stdout: String,
    /// Captured standard error, decoded verbatim.
    pub stderr: String,
    /// The process's exit code, `-1` when none was reported.
    pub exit_code: i32,
}

/// A package name that is safe to hand to the evaluator: non-empty and
/// drawn from `[A-Za-z0-9._-]` only. This is the sole injection defense;
/// every shell metacharacter is outside the set.
pub open spec fn spec_package_name_sanitary(name: Seq<char>) -> bool {
    name.len() > 0 && forall|i: int|
        0 <= i < name.len() ==> crate::package_validator::spec_is_package_char(#[trigger] name[i])
}

/// Sanitizes a package name before it may reach the evaluator.
///
/// Returns `Ok(())` exactly when the name is non-empty and made only of
/// ASCII alphanumerics, `-`, `_` and `.`; everything else — in particular
/// any shell metacharacter — is rejected with `InvalidPackageName`.
pub fn validate_package_name(package_name: &str) -> (r: Result<(), LinterError>)
    ensures
        r is Ok <==> spec_package_name_sanitary(package_name@),
        package_name@.len() == 0 ==> (r matches Err(LinterError::InvalidPackageName(m))
            && m@ == "Package name cannot be empty"@),
        package_name@.len() > 0 && !spec_package_name_sanitary(package_name@) ==> (r matches Err(
            LinterError::InvalidPackageName(m),
        ) && m@ == "Package name '"@ + package_name@ + "' contains invalid characters"@),
{
    let len = package_name.unicode_len();
    if len == 0 {
        return Err(LinterError::InvalidPackageName("Package name cannot be empty".to_owned()));
    }
    let mut i: usize = 0;
    while i < len
        invariant
            len == package_name@.len(),
            0 <= i <= len,
            forall|j: int|
                0 <= j < i ==> crate::package_validator::spec_is_package_char(
                    #[trigger] package_name@[j],
                ),
        decreases len - i,
    {
        if !crate::package_validator::is_package_char(package_name.get_char(i)) {
            let mut message = "Package name '".to_owned();
            message.append(package_name);
            message.append("' contains invalid characters");
            return Err(LinterError::InvalidPackageName(message));
        }
        i += 1;
    }
    Ok(())
}

/// Sanitizer security property: a name containing `;`, `|`, `&`, `$`, a
/// backtick or whitespace is never sanitary, so `validate_package_name`
/// rejects it before any process could be spawned.
pub proof fn lemma_sanitizer_rejects_metacharacters(name: Seq<char>, i: int)
    requires
        0 <= i < name.len(),
        name[i] == ';' || name[i] == '|' || name[i] == '&' || name[i] == '$' || name[i] == '`'
            || name[i] == ' ' || name[i] == '\t' || name[i] == '\n',
    ensures
        !spec_package_name_sanitary(name),
{
    assert(!crate::package_validator::spec_is_package_char(name[i]));
}

} // verus!
