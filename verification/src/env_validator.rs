//! Validation of the environment configuration: dotenv files must exist
//! and exported variable names must be well-formed.
//!
//! Whether a file exists is a fact about the machine, not about the
//! inputs, so the contract of `validate_env_config` pins everything except
//! which dotenv file, if any, is reported missing.

use vstd::prelude::*;
use vstd::string::*;

use crate::config::Env;
use crate::errors::LazyNixError;
use crate::text::{spec_trim_dot_slash, trim_dot_slash};

verus! {

/// A well-formed environment variable name: `[a-zA-Z_][a-zA-Z0-9_]*`.
pub open spec fn spec_is_valid_env_var_name(name: Seq<char>) -> bool {
    &&& name.len() > 0
    &&& (('a' <= name[0] && name[0] <= 'z') || ('A' <= name[0] && name[0] <= 'Z') || name[0]
        == '_')
    &&& forall|i: int| 1 <= i < name.len() ==> spec_is_env_var_char(#[trigger] name[i])
}

/// Characters allowed after the first position of a variable name.
pub open spec fn spec_is_env_var_char(c: char) -> bool {
    ('a' <= c && c <= 'z') || ('A' <= c && c <= 'Z') || ('0' <= c && c <= '9') || c == '_'
}

/// Checks that `name` matches `[a-zA-Z_][a-zA-Z0-9_]*`.
pub fn is_valid_env_var_name(name: &str) -> (r: bool)
    ensures
        r == spec_is_valid_env_var_name(name@),
{
    let len = name.unicode_len();
    if len == 0 {
        return false;
    }
    let first = name.get_char(0);
    if !(('a' <= first && first <= 'z') || ('A' <= first && first <= 'Z') || first == '_') {
        return false;
    }
    let mut i: usize = 1;
    while i < len
        invariant
            len == name@.len(),
            1 <= i <= len,
            forall|j: int| 1 <= j < i ==> spec_is_env_var_char(#[trigger] name@[j]),
        decreases len - i,
    {
        let c = name.get_char(i);
        if !(('a' <= c && c <= 'z') || ('A' <= c && c <= 'Z') || ('0' <= c && c <= '9') || c
            == '_') {
            return false;
        }
        i += 1;
    }
    true
}

/// Where a declared dotenv path resolves to: an absolute path stands as
/// it is; a relative path, with any leading `./` segments removed, is
/// placed under the base directory with a single `/` between.
pub open spec fn spec_resolve_dotenv_path(path: Seq<char>, base_dir: Seq<char>) -> Seq<char> {
    if path.len() > 0 && path[0] == '/' {
        path
    } else {
        base_dir + "/"@ + spec_trim_dot_slash(path)
    }
}

/// Resolves a declared dotenv path against the base directory.
pub fn resolve_dotenv_path(path: &str, base_dir: &str) -> (r: Result<String, LazyNixError>)
    ensures
        r matches Ok(p) && p@ == spec_resolve_dotenv_path(path@, base_dir@),
{
    let len = path.unicode_len();
    if len > 0 && path.get_char(0) == '/' {
        Ok(path.to_owned())
    } else {
        let mut out = base_dir.to_owned();
        out.append("/");
        out.append(trim_dot_slash(path));
        Ok(out)
    }
}

/// Relies on `std::path::Path::exists`: whether `path` names an existing
/// file or directory on this machine, at this moment. Nothing can be
/// promised of the answer.
#[verifier::external_body]
fn path_exists(path: &str) -> bool {
    std::path::Path::new(path).exists()
}

/// The missing-file complaint for a dotenv entry.
pub open spec fn spec_dotenv_missing_message(path: Seq<char>, base_dir: Seq<char>) -> Seq<char> {
    path + " (resolved to "@ + spec_resolve_dotenv_path(path, base_dir) + ")"@
}

/// Validates the environment configuration. Every declared dotenv file
/// must exist on disk and every variable name must be well-formed; dotenv
/// files are checked first, in order, then the variable names, in order.
///
/// Which dotenv files exist depends on the machine, so the contract
/// leaves open *whether* a `DotenvFileNotFound` error is returned — but
/// pins which errors are possible: an accepted configuration has only
/// well-formed variable names, a name complaint names the first invalid
/// variable, and a file complaint names a declared dotenv entry.
#[verifier::loop_isolation(false)]
pub fn validate_env_config(env: &Option<Env>, base_dir: &str) -> (r: Result<(), LazyNixError>)
    ensures
        env is None ==> r is Ok,
        r is Ok ==> (match env {
            Some(e) => forall|i: int|
                0 <= i < e.envvar@.len() ==> spec_is_valid_env_var_name(
                    #[trigger] e.envvar@[i].name@,
                ),
            None => true,
        }),
        r is Err ==> (match r {
            Err(LazyNixError::DotenvFileNotFound(m)) => (match env {
                Some(e) => exists|i: int|
                    0 <= i < e.dotenv@.len() && m@ == spec_dotenv_missing_message(
                        #[trigger] e.dotenv@[i]@,
                        base_dir@,
                    ),
                None => false,
            }),
            Err(LazyNixError::InvalidEnvVarName(n)) => (match env {
                Some(e) => exists|i: int|
                    0 <= i < e.envvar@.len() && !spec_is_valid_env_var_name(
                        #[trigger] e.envvar@[i].name@,
                    ) && n@ == e.envvar@[i].name@ && forall|j: int|
                        0 <= j < i ==> spec_is_valid_env_var_name(e.envvar@[j].name@),
                None => false,
            }),
            _ => false,
        }),
{
    if let Some(env) = env {
        let mut i: usize = 0;
        while i < env.dotenv.len()
            invariant
                0 <= i <= env.dotenv@.len(),
            decreases env.dotenv@.len() - i,
        {
            let dotenv_path = &env.dotenv[i];
            let resolved = match resolve_dotenv_path(dotenv_path.as_str(), base_dir) {
                Ok(p) => p,
                Err(e) => {
                    return Err(e);
                },
            };
            if !path_exists(resolved.as_str()) {
                let mut m = dotenv_path.clone();
                m.append(" (resolved to ");
                m.append(resolved.as_str());
                m.append(")");
                return Err(LazyNixError::DotenvFileNotFound(m));
            }
            i += 1;
        }
        let mut k: usize = 0;
        while k < env.envvar.len()
            invariant
                0 <= k <= env.envvar@.len(),
                forall|j: int|
                    0 <= j < k ==> spec_is_valid_env_var_name(#[trigger] env.envvar@[j].name@),
            decreases env.envvar@.len() - k,
        {
            let envvar = &env.envvar[k];
            if !is_valid_env_var_name(envvar.name.as_str()) {
                return Err(LazyNixError::InvalidEnvVarName(envvar.name.clone()));
            }
            k += 1;
        }
    }
    Ok(())
}

} // verus!
