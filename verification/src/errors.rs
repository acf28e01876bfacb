//! Error types for every layer of the crate, each with a verified
//! human-readable message.

use vstd::prelude::*;
use vstd::string::*;

verus! {

/// Errors raised while driving the registry evaluator.
#[derive(Debug, Clone, PartialEq, Eq)]
pub enum LinterError {
    /// The evaluator process could not be executed; carries the launch
    /// failure's description.
    CommandExecutionFailed(String),
    /// The package name failed sanitization (potential shell injection).
    InvalidPackageName(String),
    /// The evaluator ran longer than the given number of seconds.
    Timeout(u64),
    /// The evaluator's raw output was not valid UTF-8; carries the
    /// decoding failure's description.
    Utf8Error(String),
}

/// The message text of a `LinterError`.
pub open spec fn spec_linter_error_message(e: LinterError) -> Seq<char> {
    match e {
        LinterError::CommandExecutionFailed(s) => "Failed to execute nix command: "@ + s@,
        LinterError::InvalidPackageName(s) => "Invalid package name: "@ + s@,
        LinterError::Timeout(secs) => "Nix eval command timed out after "@ + crate::text::spec_decimal(
            secs as int,
        ) + " seconds"@,
        LinterError::Utf8Error(s) => "Failed to convert command output to UTF-8: "@ + s@,
    }
}

impl LinterError {
    /// Renders the error as the sentence a caller would print.
    pub fn message(&self) -> (r: String)
        ensures
            r@ == spec_linter_error_message(*self),
    {
        match self {
            LinterError::CommandExecutionFailed(s) => {
                let mut out = "Failed to execute nix command: ".to_owned();
                out.append(s.as_str());
                out
            },
            LinterError::InvalidPackageName(s) => {
                let mut out = "Invalid package name: ".to_owned();
                out.append(s.as_str());
                out
            },
            LinterError::Timeout(secs) => {
                let mut out = "Nix eval command timed out after ".to_owned();
                let digits = crate::text::u64_to_string(*secs);
                out.append(digits.as_str());
                out.append(" seconds");
                out
            },
            LinterError::Utf8Error(s) => {
                let mut out = "Failed to convert command output to UTF-8: ".to_owned();
                out.append(s.as_str());
                out
            },
        }
    }
}

/// Why one package identifier failed validation.
#[derive(Debug, Clone, PartialEq, Eq)]
pub enum ValidationError {
    /// The registry does not provide the package.
    PackageNotFound { package: String },
    /// The package exists but is not available for the target architecture;
    /// `arch` is `"unknown"` when no architecture tag could be extracted.
    ArchitectureUnsupported { package: String, arch: String },
    /// The failure text matched no known pattern; `message` carries the
    /// collapsed evaluator output.
    UnknownError { package: String, message: String },
}

/// The structured rendering of a `ValidationError`, used by the verbose
/// report: the variant name followed by its fields.
pub open spec fn spec_validation_error_describe(e: ValidationError) -> Seq<char> {
    match e {
        ValidationError::PackageNotFound { package } => "PackageNotFound { package: \""@ + package@
            + "\" }"@,
        ValidationError::ArchitectureUnsupported { package, arch } =>
            "ArchitectureUnsupported { package: \""@ + package@ + "\", arch: \""@ + arch@
            + "\" }"@,
        ValidationError::UnknownError { package, message } => "UnknownError { package: \""@
            + package@ + "\", message: \""@ + message@ + "\" }"@,
    }
}

impl ValidationError {
    /// Renders the variant name and fields, for diagnostic output.
    pub fn describe(&self) -> (r: String)
        ensures
            r@ == spec_validation_error_describe(*self),
    {
        match self {
            ValidationError::PackageNotFound { package } => {
                let mut out = "PackageNotFound { package: \"".to_owned();
                out.append(package.as_str());
                out.append("\" }");
                out
            },
            ValidationError::ArchitectureUnsupported { package, arch } => {
                let mut out = "ArchitectureUnsupported { package: \"".to_owned();
                out.append(package.as_str());
                out.append("\", arch: \"");
                out.append(arch.as_str());
                out.append("\" }");
                out
            },
            ValidationError::UnknownError { package, message } => {
                let mut out = "UnknownError { package: \"".to_owned();
                out.append(package.as_str());
                out.append("\", message: \"");
                out.append(message.as_str());
                out.append("\" }");
                out
            },
        }
    }
}

/// Errors raised while reading, validating or rendering configuration.
#[derive(Debug, Clone, PartialEq, Eq)]
pub enum FlakeGeneratorError {
    /// The configuration's content is invalid.
    Validation(String),
    /// The configuration file is not valid YAML; carries the parser's
    /// description.
    YamlParse(String),
    /// A file could not be read or written; carries the description.
    IoError(String),
    /// The configuration file does not exist.
    ConfigNotFound,
}

/// The message text of a `FlakeGeneratorError`.
pub open spec fn spec_flake_generator_error_message(e: FlakeGeneratorError) -> Seq<char> {
    match e {
        FlakeGeneratorError::Validation(s) => "Config validation failed: "@ + s@,
        FlakeGeneratorError::YamlParse(s) => "Invalid YAML syntax: "@ + s@,
        FlakeGeneratorError::IoError(s) => "Failed to read file: "@ + s@,
        FlakeGeneratorError::ConfigNotFound => "Config file not found"@,
    }
}

impl FlakeGeneratorError {
    /// Renders the error as the sentence a caller would print.
    pub fn message(&self) -> (r: String)
        ensures
            r@ == spec_flake_generator_error_message(*self),
    {
        match self {
            FlakeGeneratorError::Validation(s) => {
                let mut out = "Config validation failed: ".to_owned();
                out.append(s.as_str());
                out
            },
            FlakeGeneratorError::YamlParse(s) => {
                let mut out = "Invalid YAML syntax: ".to_owned();
                out.append(s.as_str());
                out
            },
            FlakeGeneratorError::IoError(s) => {
                let mut out = "Failed to read file: ".to_owned();
                out.append(s.as_str());
                out
            },
            FlakeGeneratorError::ConfigNotFound => "Config file not found".to_owned(),
        }
    }
}

/// Errors raised when running the external environment tool.
#[derive(Debug, Clone, PartialEq, Eq)]
pub enum NixDispatcherError {
    /// The command could not be executed; carries the description.
    CommandExecution(String),
    /// The command exited with a non-zero status.
    NonZeroExit { code: i32 },
    /// The command's exit code could not be obtained.
    NoExitCode,
    /// An input/output failure; carries the description.
    Io(String),
}

/// The message text of a `NixDispatcherError`.
pub open spec fn spec_nix_dispatcher_error_message(e: NixDispatcherError) -> Seq<char> {
    match e {
        NixDispatcherError::CommandExecution(s) => "Failed to execute nix command: "@ + s@,
        NixDispatcherError::NonZeroExit { code } => "Nix command exited with status "@
            + spec_i32_decimal(code as int),
        NixDispatcherError::NoExitCode => "Failed to get exit code from command"@,
        NixDispatcherError::Io(s) => "IO error: "@ + s@,
    }
}

/// The decimal rendering of a possibly negative number.
pub open spec fn spec_i32_decimal(n: int) -> Seq<char> {
    if n < 0 {
        seq!['-'] + crate::text::spec_decimal(-n)
    } else {
        crate::text::spec_decimal(n)
    }
}

/// Renders the possibly negative `n` in decimal.
pub fn i32_to_string(n: i32) -> (r: String)
    ensures
        r@ == spec_i32_decimal(n as int),
{
    if n < 0 {
        let mut out = "-".to_owned();
        let magnitude: u64 = (-(n as i64)) as u64;
        let digits = crate::text::u64_to_string(magnitude);
        out.append(digits.as_str());
        proof {
            reveal_strlit("-");
            assert("-"@ =~= seq!['-']);
        }
        out
    } else {
        crate::text::usize_to_string(n as usize)
    }
}

impl NixDispatcherError {
    /// Renders the error as the sentence a caller would print.
    pub fn message(&self) -> (r: String)
        ensures
            r@ == spec_nix_dispatcher_error_message(*self),
    {
        match self {
            NixDispatcherError::CommandExecution(s) => {
                let mut out = "Failed to execute nix command: ".to_owned();
                out.append(s.as_str());
                out
            },
            NixDispatcherError::NonZeroExit { code } => {
                let mut out = "Nix command exited with status ".to_owned();
                let digits = i32_to_string(*code);
                out.append(digits.as_str());
                out
            },
            NixDispatcherError::NoExitCode => "Failed to get exit code from command".to_owned(),
            NixDispatcherError::Io(s) => {
                let mut out = "IO error: ".to_owned();
                out.append(s.as_str());
                out
            },
        }
    }
}

/// Errors raised by the command-line driver's workflow.
#[derive(Debug, Clone, PartialEq, Eq)]
pub enum LazyNixError {
    /// A file that would be created already exists.
    FileExists(String),
    /// The configuration file does not exist.
    ConfigNotFound,
    /// A file could not be read or written; carries the description.
    IoError(String),
    /// A file is not valid YAML; carries the parser's description.
    YamlParse(String),
    /// The configuration's content is invalid.
    Validation(String),
    /// The settings file's content is invalid.
    SettingsValidation(String),
    /// The external environment tool failed.
    NixCommand(String),
    /// A declared dotenv file does not exist.
    DotenvFileNotFound(String),
    /// An environment variable name is not well-formed.
    InvalidEnvVarName(String),
}

/// The message text of a `LazyNixError`.
pub open spec fn spec_lazynix_error_message(e: LazyNixError) -> Seq<char> {
    match e {
        LazyNixError::FileExists(s) => "File already exists: "@ + s@
            + ". Use --force to overwrite"@,
        LazyNixError::ConfigNotFound => "lazynix.yaml not found in current directory"@,
        LazyNixError::IoError(s) => "Failed to read file: "@ + s@,
        LazyNixError::YamlParse(s) => "Invalid YAML syntax: "@ + s@,
        LazyNixError::Validation(s) => "Config validation failed: "@ + s@,
        LazyNixError::SettingsValidation(s) => "Settings validation failed: "@ + s@,
        LazyNixError::NixCommand(s) => "Nix command failed: "@ + s@,
        LazyNixError::DotenvFileNotFound(s) => "Dotenv file not found: "@ + s@,
        LazyNixError::InvalidEnvVarName(s) => "Invalid environment variable name: "@ + s@
            + ". Variable names must match [a-zA-Z_][a-zA-Z0-9_]*"@,
    }
}

impl LazyNixError {
    /// Renders the error as the sentence a caller would print.
    pub fn message(&self) -> (r: String)
        ensures
            r@ == spec_lazynix_error_message(*self),
    {
        match self {
            LazyNixError::FileExists(s) => {
                let mut out = "File already exists: ".to_owned();
                out.append(s.as_str());
                out.append(". Use --force to overwrite");
                out
            },
            LazyNixError::ConfigNotFound => "lazynix.yaml not found in current directory".to_owned(
            ),
            LazyNixError::IoError(s) => {
                let mut out = "Failed to read file: ".to_owned();
                out.append(s.as_str());
                out
            },
            LazyNixError::YamlParse(s) => {
                let mut out = "Invalid YAML syntax: ".to_owned();
                out.append(s.as_str());
                out
            },
            LazyNixError::Validation(s) => {
                let mut out = "Config validation failed: ".to_owned();
                out.append(s.as_str());
                out
            },
            LazyNixError::SettingsValidation(s) => {
                let mut out = "Settings validation failed: ".to_owned();
                out.append(s.as_str());
                out
            },
            LazyNixError::NixCommand(s) => {
                let mut out = "Nix command failed: ".to_owned();
                out.append(s.as_str());
                out
            },
            LazyNixError::DotenvFileNotFound(s) => {
                let mut out = "Dotenv file not found: ".to_owned();
                out.append(s.as_str());
                out
            },
            LazyNixError::InvalidEnvVarName(s) => {
                let mut out = "Invalid environment variable name: ".to_owned();
                out.append(s.as_str());
                out.append(". Variable names must match [a-zA-Z_][a-zA-Z0-9_]*");
                out
            },
        }
    }
}

} // verus!
