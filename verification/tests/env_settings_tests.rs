//! Tests for environment validation and registry-URL checking.

use lazynix::config::{Env, EnvVar};
use lazynix::env_validator::{is_valid_env_var_name, resolve_dotenv_path, validate_env_config};
use lazynix::errors::LazyNixError;
use lazynix::settings::validate_registry_url;

#[test]
fn test_is_valid_env_var_name() {
    assert!(is_valid_env_var_name("MY_VAR"));
    assert!(is_valid_env_var_name("_PRIVATE"));
    assert!(is_valid_env_var_name("PATH"));
    assert!(is_valid_env_var_name("PYTHON_PATH"));
    assert!(is_valid_env_var_name("VAR123"));
    assert!(is_valid_env_var_name("_"));
    assert!(is_valid_env_var_name("a"));

    assert!(!is_valid_env_var_name("123VAR"));
    assert!(!is_valid_env_var_name("MY-VAR"));
    assert!(!is_valid_env_var_name("MY VAR"));
    assert!(!is_valid_env_var_name("MY.VAR"));
    assert!(!is_valid_env_var_name(""));
}

#[test]
fn test_validate_env_dotenv_file_not_found() {
    let env = Some(Env {
        dotenv: vec![".env.missing".to_string()],
        envvar: vec![],
    });

    let result = validate_env_config(&env, "/nonexistent-lazynix-test-dir");
    assert!(result.is_err());
    assert!(matches!(
        result.unwrap_err(),
        LazyNixError::DotenvFileNotFound(_)
    ));
}

#[test]
fn test_validate_env_invalid_var_name() {
    let env = Some(Env {
        dotenv: vec![],
        envvar: vec![EnvVar {
            name: "123VAR".to_string(),
            value: "test".to_string(),
        }],
    });

    let result = validate_env_config(&env, "/nonexistent-lazynix-test-dir");
    assert!(result.is_err());
    assert!(matches!(
        result.unwrap_err(),
        LazyNixError::InvalidEnvVarName(_)
    ));
}

#[test]
fn test_validate_env_none() {
    let result = validate_env_config(&None, "/nonexistent-lazynix-test-dir");
    assert!(result.is_ok());
}

#[test]
fn test_resolve_dotenv_path_values() {
    assert_eq!(
        resolve_dotenv_path("/abs/.env", "/base").unwrap(),
        "/abs/.env"
    );
    assert_eq!(
        resolve_dotenv_path(".env", "/base").unwrap(),
        "/base/.env"
    );
    assert_eq!(
        resolve_dotenv_path("./conf/.env", "/base").unwrap(),
        "/base/conf/.env"
    );
    assert_eq!(
        resolve_dotenv_path("././x", "/base").unwrap(),
        "/base/x"
    );
}

#[test]
fn test_dotenv_missing_message_names_entry() {
    let env = Some(Env {
        dotenv: vec![".env.gone".to_string()],
        envvar: vec![],
    });
    match validate_env_config(&env, "/nonexistent-lazynix-test-dir") {
        Err(LazyNixError::DotenvFileNotFound(m)) => {
            assert_eq!(
                m,
                ".env.gone (resolved to /nonexistent-lazynix-test-dir/.env.gone)"
            );
        }
        other => panic!("expected DotenvFileNotFound, got {:?}", other),
    }
}

#[test]
fn test_validate_registry_url_valid() {
    assert!(validate_registry_url("github:NixOS/nixpkgs/nixos-25.06").is_ok());
    assert!(validate_registry_url("github:NixOS/nixpkgs/nixos-25.11").is_ok());
    assert!(validate_registry_url("github:NixOS/nixpkgs/nixos-unstable").is_ok());

    assert!(validate_registry_url("github:myuser/nixpkgs/custom-branch").is_ok());

    assert!(validate_registry_url("github:my_user/nix_pkgs/branch.name").is_ok());
}

#[test]
fn test_validate_registry_url_invalid() {
    assert!(validate_registry_url("").is_err());

    assert!(validate_registry_url("https://github.com/NixOS/nixpkgs").is_err());
    assert!(validate_registry_url("gitlab:NixOS/nixpkgs/main").is_err());

    assert!(validate_registry_url("github:NixOS/nixpkgs").is_err());
    assert!(validate_registry_url("github:NixOS").is_err());
    assert!(validate_registry_url("github:").is_err());

    assert!(validate_registry_url("github:NixOS/nixpkgs/branch/extra").is_err());

    assert!(validate_registry_url("github://nixpkgs/branch").is_err());
    assert!(validate_registry_url("github:NixOS//branch").is_err());
    assert!(validate_registry_url("github:NixOS/nixpkgs/").is_err());

    assert!(validate_registry_url("github:NixOS/nixpkgs/branch@tag").is_err());
    assert!(validate_registry_url("github:Nix OS/nixpkgs/branch").is_err());
    assert!(validate_registry_url("github:NixOS/nix$pkgs/branch").is_err());
}

#[test]
fn test_validate_registry_url_empty_message() {
    match validate_registry_url("") {
        Err(LazyNixError::SettingsValidation(m)) => {
            assert_eq!(m, "Registry URL cannot be empty");
        }
        other => panic!("expected SettingsValidation, got {:?}", other),
    }
}

#[test]
fn test_validate_registry_url_empty_part_message() {
    match validate_registry_url("github:NixOS//branch") {
        Err(LazyNixError::SettingsValidation(m)) => {
            assert_eq!(
                m,
                "Invalid registry URL: REPO cannot be empty in 'github:NixOS//branch'"
            );
        }
        other => panic!("expected SettingsValidation, got {:?}", other),
    }
}

#[test]
fn test_lazynix_error_messages() {
    assert_eq!(
        LazyNixError::FileExists("flake.nix".to_string()).message(),
        "File already exists: flake.nix. Use --force to overwrite"
    );
    assert_eq!(
        LazyNixError::ConfigNotFound.message(),
        "lazynix.yaml not found in current directory"
    );
    assert_eq!(
        LazyNixError::IoError("denied".to_string()).message(),
        "Failed to read file: denied"
    );
    assert_eq!(
        LazyNixError::YamlParse("bad indent".to_string()).message(),
        "Invalid YAML syntax: bad indent"
    );
    assert_eq!(
        LazyNixError::Validation("no".to_string()).message(),
        "Config validation failed: no"
    );
    assert_eq!(
        LazyNixError::SettingsValidation("no".to_string()).message(),
        "Settings validation failed: no"
    );
    assert_eq!(
        LazyNixError::NixCommand("exit 2".to_string()).message(),
        "Nix command failed: exit 2"
    );
    assert_eq!(
        LazyNixError::DotenvFileNotFound(".env".to_string()).message(),
        "Dotenv file not found: .env"
    );
    assert_eq!(
        LazyNixError::InvalidEnvVarName("1X".to_string()).message(),
        "Invalid environment variable name: 1X. Variable names must match [a-zA-Z_][a-zA-Z0-9_]*"
    );
}
