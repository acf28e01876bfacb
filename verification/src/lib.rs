//! LazyNix: a YAML-driven development-environment helper.
//!
//! The crate validates declared package identifiers against a registry
//! evaluator, classifies failure output into a structured taxonomy, and
//! renders configuration into a Nix flake. All of the decision logic is
//! verified; process and file handling live outside the library.

pub mod cli_parser;
pub mod config;
pub mod env_validator;
pub mod error_classifier;
pub mod errors;
pub mod generator;
pub mod nix_eval;
pub mod package_validator;
pub mod parser;
pub mod reporter;
pub mod settings;
pub mod task_interpolator;
pub mod text;
pub mod validator;

pub use cli_parser::{Cli, Commands};
pub use config::{
    is_valid_task_name, validate_config, Config, DevShell, Env, EnvVar, Package, TaskDef,
};
pub use env_validator::{is_valid_env_var_name, validate_env_config};
pub use error_classifier::classify_nix_eval_error;
pub use errors::{
    FlakeGeneratorError, LazyNixError, LinterError, NixDispatcherError, ValidationError,
};
pub use generator::render_flake;
pub use nix_eval::{validate_package_name, NixEvalResult};
pub use package_validator::is_valid_package_name;
pub use parser::LazyNixParser;
pub use reporter::{format_validation_result, format_validation_result_verbose};
pub use settings::{validate_registry_url, Settings};
pub use task_interpolator::interpolate_command;
pub use validator::{classify_eval_outcome, collect_validation_results, ValidationResult};
