//! Tests for the flake renderer: packages, registry override, environment
//! loading, shell hooks, aliases, test execution, and path resolution.

use lazynix::config::{Config, DevShell, Env, EnvVar, Package};
use lazynix::generator::{is_absolute_path, render_flake, render_test_execution, resolve_path};

fn create_default_config() -> Config {
    Config {
        dev_shell: DevShell {
            allow_unfree: false,
            package: Package {
                stable: vec!["bash".to_string()],
                unstable: vec![],
            },
            shell_hook: vec![],
            env: None,
            test: vec![],
            task: None,
            shell_alias: vec![],
        },
    }
}

fn create_config_with_env(env: Env) -> Config {
    let mut config = create_default_config();
    config.dev_shell.env = Some(env);
    config
}

fn create_config_with_packages(stable: Vec<String>, unstable: Vec<String>) -> Config {
    let mut config = create_default_config();
    config.dev_shell.package.stable = stable;
    config.dev_shell.package.unstable = unstable;
    config
}

fn create_config_with_allow_unfree(allow_unfree: bool) -> Config {
    let mut config = create_default_config();
    config.dev_shell.allow_unfree = allow_unfree;
    config
}

#[test]
fn test_render_flake_with_packages() {
    let mut config = create_config_with_packages(
        vec!["python312".to_string(), "gcc".to_string()],
        vec!["rust-analyzer".to_string()],
    );
    config.dev_shell.shell_hook = vec!["echo Hello".to_string()];

    let flake = render_flake(&config, None);

    assert!(flake.contains("stablePackages.python312"));
    assert!(flake.contains("stablePackages.gcc"));
    assert!(flake.contains("unstablePackages.rust-analyzer"));
    assert!(flake.contains("echo Hello"));
    assert!(flake.contains("config.allowUnfree = false"));
}

#[test]
fn test_render_flake_allow_unfree() {
    let config = create_config_with_allow_unfree(true);

    let flake = render_flake(&config, None);
    assert!(flake.contains("config.allowUnfree = true"));
}

#[test]
fn test_render_flake_with_override_stable_package() {
    let config = create_config_with_packages(vec!["python312".to_string()], vec![]);

    let custom_url = "github:NixOS/nixpkgs/nixos-25.06";
    let flake = render_flake(&config, Some(custom_url));

    assert!(flake.contains(&format!("nixpkgs.url = \"{}\";", custom_url)));
    assert!(!flake.contains("nixpkgs.url = \"github:NixOS/nixpkgs/nixos-25.11\";"));
}

#[test]
fn test_render_flake_without_override_uses_default() {
    let config = create_config_with_packages(vec!["python312".to_string()], vec![]);

    let flake = render_flake(&config, None);

    assert!(flake.contains("nixpkgs.url = \"github:NixOS/nixpkgs/nixos-25.11\";"));
}

#[test]
fn test_render_flake_without_dotenv() {
    let env = Env {
        dotenv: vec![],
        envvar: vec![],
    };
    let config = create_config_with_env(env);

    let flake = render_flake(&config, None);

    assert!(!flake.contains("Load dotenv file"));
    assert!(flake.contains("Welcome to LazyNix DevShell!"));
}

#[test]
fn test_render_flake_with_single_dotenv() {
    let env = Env {
        dotenv: vec![".env".to_string()],
        envvar: vec![],
    };
    let config = create_config_with_env(env);

    let flake = render_flake(&config, None);

    assert!(flake.contains("Load dotenv file: .env"));
    assert!(flake.contains("set -a"));
    assert!(flake.contains("source \"$PWD/.env\""));
    assert!(flake.contains("set +a"));
}

#[test]
fn test_render_flake_with_multiple_dotenv() {
    let env = Env {
        dotenv: vec![".env".to_string(), ".env.local".to_string()],
        envvar: vec![],
    };
    let config = create_config_with_env(env);

    let flake = render_flake(&config, None);

    assert!(flake.contains("Load dotenv file: .env"));
    assert!(flake.contains("Load dotenv file: .env.local"));

    let env_pos = flake.find("Load dotenv file: .env\n").unwrap();
    let env_local_pos = flake.find("Load dotenv file: .env.local").unwrap();
    assert!(env_pos < env_local_pos);
}

#[test]
fn test_render_flake_with_envvar_only() {
    let env = Env {
        dotenv: vec![],
        envvar: vec![
            EnvVar {
                name: "MY_VAR".to_string(),
                value: "hello".to_string(),
            },
            EnvVar {
                name: "PYTHONPATH".to_string(),
                value: "/path/to/project".to_string(),
            },
        ],
    };
    let config = create_config_with_env(env);

    let flake = render_flake(&config, None);

    assert!(flake.contains("export MY_VAR=hello"));
    assert!(flake.contains("export PYTHONPATH=/path/to/project"));
}

#[test]
fn test_render_flake_with_relative_path() {
    let env = Env {
        dotenv: vec!["./config/.env".to_string(), "../.env.shared".to_string()],
        envvar: vec![],
    };
    let config = create_config_with_env(env);

    let flake = render_flake(&config, None);

    assert!(flake.contains("$PWD/config/.env"));
    assert!(flake.contains("$PWD/../.env.shared"));
}

#[test]
fn test_render_flake_with_absolute_path() {
    let env = Env {
        dotenv: vec!["/home/user/.env.global".to_string()],
        envvar: vec![],
    };
    let config = create_config_with_env(env);

    let flake = render_flake(&config, None);

    assert!(flake.contains("/home/user/.env.global"));
    assert!(!flake.contains("$PWD/home/user/.env.global"));
}

#[test]
fn test_render_flake_with_env_and_envvar() {
    let env = Env {
        dotenv: vec!["./config/.env".to_string(), "/tmp/.env.global".to_string()],
        envvar: vec![EnvVar {
            name: "MY_VAR".to_string(),
            value: "hello".to_string(),
        }],
    };
    let mut config = create_config_with_env(env);
    config.dev_shell.shell_hook = vec!["echo Hello".to_string()];

    let flake = render_flake(&config, None);

    assert!(flake.contains("$PWD/config/.env"));
    assert!(flake.contains("/tmp/.env.global"));

    assert!(flake.contains("export MY_VAR=hello"));

    let dotenv_pos = flake.find("$PWD/config/.env").unwrap();
    let envvar_pos = flake.find("export MY_VAR").unwrap();
    let user_hook_pos = flake.find("echo Hello").unwrap();
    assert!(dotenv_pos < envvar_pos);
    assert!(envvar_pos < user_hook_pos);
}

#[test]
fn test_path_resolution_functions() {
    assert!(is_absolute_path("/home/user/.env"));
    assert!(is_absolute_path("/tmp/.env"));
    assert!(!is_absolute_path(".env"));
    assert!(!is_absolute_path("./config/.env"));
    assert!(!is_absolute_path("../.env"));

    assert_eq!(resolve_path("/home/user/.env"), "/home/user/.env");

    assert_eq!(resolve_path(".env"), "$PWD/.env");
    assert_eq!(resolve_path("./config/.env"), "$PWD/config/.env");
    assert_eq!(resolve_path("../.env"), "$PWD/../.env");
}

#[test]
fn test_render_test_execution_empty() {
    let tests: Vec<String> = vec![];
    let script = render_test_execution(&tests);
    assert_eq!(script, "");
}

#[test]
fn test_render_test_execution_single_command() {
    let tests = vec!["pytest".to_string()];
    let script = render_test_execution(&tests);

    assert!(script.contains("pytest"));
    assert!(script.contains("TESTS_FAILED"));
    assert!(script.contains("TESTS_PASSED"));
    assert!(script.contains("Running tests"));
    assert!(script.contains("[PASS]"));
    assert!(script.contains("[FAIL]"));
    assert!(script.contains("exit 1"));
}

#[test]
fn test_render_test_execution_multiple_commands() {
    let tests = vec![
        "pytest".to_string(),
        "cargo test".to_string(),
        "npm run test".to_string(),
    ];
    let script = render_test_execution(&tests);

    assert!(script.contains("pytest"));
    assert!(script.contains("cargo test"));
    assert!(script.contains("npm run test"));

    assert!(script.contains("for test_cmd in"));
    assert!(script.contains("bash -c"));
    assert!(script.contains("Test Results:"));
}

#[test]
fn test_render_flake_with_test() {
    let mut config = create_default_config();
    config.dev_shell.test = vec!["pytest".to_string(), "cargo test".to_string()];

    let flake = render_flake(&config, None);

    assert!(flake.contains("if [ \"$LAZYNIX_TEST_MODE\" = \"1\" ]"));
    assert!(flake.contains("Running tests"));
    assert!(flake.contains("pytest"));
    assert!(flake.contains("cargo test"));
    assert!(flake.contains("TESTS_FAILED"));
    assert!(flake.contains("TESTS_PASSED"));
}

#[test]
fn test_render_flake_without_test() {
    let config = create_default_config();

    let flake = render_flake(&config, None);

    assert!(!flake.contains("LAZYNIX_TEST_MODE"));
    assert!(!flake.contains("TESTS_FAILED"));
    assert!(flake.contains("Welcome to LazyNix DevShell!"));
}

#[test]
fn test_render_flake_with_empty_shell_alias() {
    let config = create_default_config();
    let flake = render_flake(&config, None);

    assert!(!flake.contains("Load shell aliases"));
    assert!(!flake.contains("grep '^alias '"));
}

#[test]
fn test_render_shell_alias_single_file() {
    let mut config = create_default_config();
    config.dev_shell.shell_alias = vec!["./aliases.sh".to_string()];

    let flake = render_flake(&config, None);

    assert!(flake.contains("Load shell aliases: ./aliases.sh"));
    assert!(flake.contains("$PWD/aliases.sh"));
    assert!(flake.contains("grep '^alias '"));
}

#[test]
fn test_render_shell_alias_multiple_files() {
    let mut config = create_default_config();
    config.dev_shell.shell_alias = vec!["./aliases.sh".to_string(), "~/.my_aliases".to_string()];

    let flake = render_flake(&config, None);

    assert!(flake.contains("Load shell aliases: ./aliases.sh"));
    assert!(flake.contains("$PWD/aliases.sh"));
    assert!(flake.contains("Load shell aliases: ~/.my_aliases"));
    assert!(flake.contains("$HOME/.my_aliases"));
}

#[test]
fn test_render_shell_alias_absolute_path() {
    let mut config = create_default_config();
    config.dev_shell.shell_alias = vec!["/etc/aliases.sh".to_string()];

    let flake = render_flake(&config, None);

    assert!(flake.contains("/etc/aliases.sh"));
    assert!(!flake.contains("$PWD/etc/aliases.sh"));
}

#[test]
fn test_render_shell_alias_tilde_expansion() {
    let mut config = create_default_config();
    config.dev_shell.shell_alias = vec!["~/.aliases".to_string()];

    let flake = render_flake(&config, None);

    assert!(flake.contains("$HOME/.aliases"));
    assert!(!flake.contains("~/.aliases\" 2>/dev/null"));
}

#[test]
fn test_shell_hook_integration_order() {
    let mut config = create_default_config();
    config.dev_shell.env = Some(Env {
        dotenv: vec![".env".to_string()],
        envvar: vec![EnvVar {
            name: "TEST".to_string(),
            value: "value".to_string(),
        }],
    });
    config.dev_shell.shell_alias = vec!["./aliases.sh".to_string()];
    config.dev_shell.shell_hook = vec!["echo 'user hook'".to_string()];

    let flake = render_flake(&config, None);

    let dotenv_pos = flake.find("Load dotenv").unwrap();
    let envvar_pos = flake.find("export TEST=").unwrap();
    let alias_pos = flake.find("Load shell aliases").unwrap();
    let user_pos = flake.find("echo 'user hook'").unwrap();

    assert!(dotenv_pos < envvar_pos);
    assert!(envvar_pos < alias_pos);
    assert!(alias_pos < user_pos);
}

#[test]
fn test_path_resolution_tilde() {
    assert_eq!(resolve_path("~/foo"), "$HOME/foo");
    assert_eq!(resolve_path("~/.aliases"), "$HOME/.aliases");
}
