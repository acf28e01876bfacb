//! The configuration model: what a workspace declares about its
//! development shell, and the checks run on it before anything is
//! rendered. Task definitions are held as a list of `(name, definition)`
//! pairs in declaration order.

use vstd::prelude::*;
use vstd::string::*;

use crate::errors::FlakeGeneratorError;
use crate::package_validator::{is_valid_package_name, spec_is_valid_package_name};

verus! {

/// One exported environment variable.
#[derive(Debug, Clone)]
pub struct EnvVar {
    pub name: String,
    pub value: String,
}

/// Environment configuration: dotenv files to load and variables to
/// export.
#[derive(Debug, Clone)]
pub struct Env {
    pub dotenv: Vec<String>,
    pub envvar: Vec<EnvVar>,
}

/// The declared packages, split by registry channel.
#[derive(Debug, Clone)]
pub struct Package {
    pub stable: Vec<String>,
    pub unstable: Vec<String>,
}

/// One named task: an optional description and its commands.
#[derive(Debug, Clone)]
pub struct TaskDef {
    pub description: Option<String>,
    pub commands: Vec<String>,
}

/// The development-shell declaration.
#[derive(Debug, Clone)]
pub struct DevShell {
    pub allow_unfree: bool,
    pub package: Package,
    pub shell_hook: Vec<String>,
    pub env: Option<Env>,
    pub test: Vec<String>,
    pub task: Option<Vec<(String, TaskDef)>>,
    pub shell_alias: Vec<String>,
}

/// A whole configuration.
#[derive(Debug, Clone)]
pub struct Config {
    pub dev_shell: DevShell,
}

/// A well-formed task name: non-empty, ASCII alphanumerics, `-` and `_`.
pub open spec fn spec_is_valid_task_name(name: Seq<char>) -> bool {
    name.len() > 0 && forall|i: int|
        0 <= i < name.len() ==> spec_is_task_char(#[trigger] name[i])
}

/// Characters allowed in a task name.
pub open spec fn spec_is_task_char(c: char) -> bool {
    ('a' <= c && c <= 'z') || ('A' <= c && c <= 'Z') || ('0' <= c && c <= '9') || c == '-' || c
        == '_'
}

/// Checks that `name` is a well-formed task name.
pub fn is_valid_task_name(name: &str) -> (r: bool)
    ensures
        r == spec_is_valid_task_name(name@),
{
    let len = name.unicode_len();
    if len == 0 {
        return false;
    }
    let mut i: usize = 0;
    while i < len
        invariant
            len == name@.len(),
            0 <= i <= len,
            forall|j: int| 0 <= j < i ==> spec_is_task_char(#[trigger] name@[j]),
        decreases len - i,
    {
        let c = name.get_char(i);
        if !(('a' <= c && c <= 'z') || ('A' <= c && c <= 'Z') || ('0' <= c && c <= '9') || c == '-'
            || c == '_') {
            return false;
        }
        i += 1;
    }
    true
}

/// The first package from index `i` on whose name is not well-formed.
pub open spec fn spec_first_invalid_package(pkgs: Seq<String>, i: int) -> Option<Seq<char>>
    decreases pkgs.len() - i,
{
    if i < 0 || i >= pkgs.len() {
        None
    } else if !spec_is_valid_package_name(pkgs[i]@) {
        Some(pkgs[i]@)
    } else {
        spec_first_invalid_package(pkgs, i + 1)
    }
}

/// The guidance appended to a package-name complaint.
pub open spec fn spec_package_name_guidance() -> Seq<char> {
    ". Package names should contain only alphanumeric characters, hyphens, underscores, and dots (for nested attributes like python312Packages.pip)"@
}

/// The first error among the task entries from index `i` on: an invalid
/// name, or an empty command list.
pub open spec fn spec_task_error(tasks: Seq<(String, TaskDef)>, i: int) -> Option<Seq<char>>
    decreases tasks.len() - i,
{
    if i < 0 || i >= tasks.len() {
        None
    } else if !spec_is_valid_task_name(tasks[i].0@) {
        Some(
            "Invalid task name: '"@ + tasks[i].0@
                + "'. Task names should contain only alphanumeric characters, hyphens, and underscores"@,
        )
    } else if tasks[i].1.commands@.len() == 0 {
        Some(
            "Task '"@ + tasks[i].0@
                + "' has an empty commands list. At least one command must be specified"@,
        )
    } else {
        spec_task_error(tasks, i + 1)
    }
}

/// The outcome of validating a configuration: `None` when it is accepted,
/// otherwise the first complaint, checking stable package names, then
/// unstable package names, then task definitions.
pub open spec fn spec_validate_config(c: &Config) -> Option<Seq<char>> {
    if spec_first_invalid_package(c.dev_shell.package.stable@, 0) is Some {
        Some(
            "Invalid stable package name: "@ + spec_first_invalid_package(
                c.dev_shell.package.stable@,
                0,
            )->Some_0 + spec_package_name_guidance(),
        )
    } else if spec_first_invalid_package(c.dev_shell.package.unstable@, 0) is Some {
        Some(
            "Invalid unstable package name: "@ + spec_first_invalid_package(
                c.dev_shell.package.unstable@,
                0,
            )->Some_0 + spec_package_name_guidance(),
        )
    } else {
        match c.dev_shell.task {
            Some(ref tasks) => spec_task_error(tasks@, 0),
            None => None,
        }
    }
}

/// Returns the first invalid package name of `pkgs`, if any.
fn first_invalid_package(pkgs: &Vec<String>) -> (r: Option<&String>)
    ensures
        match r {
            Some(p) => spec_first_invalid_package(pkgs@, 0) == Some(p@),
            None => spec_first_invalid_package(pkgs@, 0) is None,
        },
{
    let mut i: usize = 0;
    while i < pkgs.len()
        invariant
            0 <= i <= pkgs@.len(),
            spec_first_invalid_package(pkgs@, 0) == spec_first_invalid_package(pkgs@, i as int),
        decreases pkgs@.len() - i,
    {
        if !is_valid_package_name(pkgs[i].as_str()) {
            return Some(&pkgs[i]);
        }
        i += 1;
    }
    None
}

/// Validates a configuration: every declared package name must be
/// well-formed, every task must have a well-formed name and at least one
/// command. Returns `Ok(())` exactly when `spec_validate_config` accepts
/// the configuration, and otherwise the validation error carrying that
/// spec's message. (A configuration without any packages is accepted.)
#[verifier::loop_isolation(false)]
pub fn validate_config(config: &Config) -> (r: Result<(), FlakeGeneratorError>)
    ensures
        r is Ok <==> spec_validate_config(config) is None,
        r is Err ==> (r matches Err(FlakeGeneratorError::Validation(m)) && Some(m@)
            == spec_validate_config(config)),
{
    if let Some(bad) = first_invalid_package(&config.dev_shell.package.stable) {
        let mut m = "Invalid stable package name: ".to_owned();
        m.append(bad.as_str());
        m.append(
            ". Package names should contain only alphanumeric characters, hyphens, underscores, and dots (for nested attributes like python312Packages.pip)",
        );
        return Err(FlakeGeneratorError::Validation(m));
    }
    if let Some(bad) = first_invalid_package(&config.dev_shell.package.unstable) {
        let mut m = "Invalid unstable package name: ".to_owned();
        m.append(bad.as_str());
        m.append(
            ". Package names should contain only alphanumeric characters, hyphens, underscores, and dots (for nested attributes like python312Packages.pip)",
        );
        return Err(FlakeGeneratorError::Validation(m));
    }
    if let Some(tasks) = &config.dev_shell.task {
        let mut i: usize = 0;
        while i < tasks.len()
            invariant
                0 <= i <= tasks@.len(),
                spec_task_error(tasks@, 0) == spec_task_error(tasks@, i as int),
            decreases tasks@.len() - i,
        {
            let (task_name, task_def) = &tasks[i];
            if !is_valid_task_name(task_name.as_str()) {
                let mut m = "Invalid task name: '".to_owned();
                m.append(task_name.as_str());
                m.append(
                    "'. Task names should contain only alphanumeric characters, hyphens, and underscores",
                );
                return Err(FlakeGeneratorError::Validation(m));
            }
            if task_def.commands.len() == 0 {
                let mut m = "Task '".to_owned();
                m.append(task_name.as_str());
                m.append("' has an empty commands list. At least one command must be specified");
                return Err(FlakeGeneratorError::Validation(m));
            }
            i += 1;
        }
    }
    Ok(())
}

/// Finds the first task entry named `name`; returns its index.
pub fn find_task(tasks: &Vec<(String, TaskDef)>, name: &str) -> (r: Option<usize>)
    ensures
        match r {
            Some(idx) => 0 <= idx < tasks@.len() && tasks@[idx as int].0@ == name@ && forall|j: int|
                0 <= j < idx ==> tasks@[j].0@ != name@,
            None => forall|j: int| 0 <= j < tasks@.len() ==> tasks@[j].0@ != name@,
        },
{
    let mut i: usize = 0;
    while i < tasks.len()
        invariant
            0 <= i <= tasks@.len(),
            forall|j: int| 0 <= j < i ==> tasks@[j].0@ != name@,
        decreases tasks@.len() - i,
    {
        if crate::text::str_eq(tasks[i].0.as_str(), name) {
            return Some(i);
        }
        i += 1;
    }
    None
}

} // verus!
