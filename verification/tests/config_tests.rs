//! Tests for configuration validation and task lookup.

use lazynix::config::{
    find_task, is_valid_task_name, validate_config, Config, DevShell, Package, TaskDef,
};
use lazynix::errors::FlakeGeneratorError;

fn config_with(
    stable: Vec<String>,
    unstable: Vec<String>,
    task: Option<Vec<(String, TaskDef)>>,
) -> Config {
    Config {
        dev_shell: DevShell {
            allow_unfree: false,
            package: Package { stable, unstable },
            shell_hook: vec![],
            env: None,
            test: vec![],
            task,
            shell_alias: vec![],
        },
    }
}

#[test]
fn test_validate_task_valid() {
    let config = config_with(
        vec!["bash".to_string()],
        vec![],
        Some(vec![(
            "my-task_123".to_string(),
            TaskDef {
                description: Some("Valid task".to_string()),
                commands: vec!["echo \"test\"".to_string()],
            },
        )]),
    );
    assert!(validate_config(&config).is_ok());
}

#[test]
fn test_validate_task_invalid_name() {
    let config = config_with(
        vec!["bash".to_string()],
        vec![],
        Some(vec![(
            "invalid@task".to_string(),
            TaskDef {
                description: None,
                commands: vec!["echo \"test\"".to_string()],
            },
        )]),
    );
    let result = validate_config(&config);
    assert!(result.is_err());
    assert!(result
        .unwrap_err()
        .message()
        .contains("Invalid task name"));
}

#[test]
fn test_validate_task_empty_command() {
    let config = config_with(
        vec!["bash".to_string()],
        vec![],
        Some(vec![(
            "empty-task".to_string(),
            TaskDef {
                description: Some("Empty command".to_string()),
                commands: vec![],
            },
        )]),
    );
    let result = validate_config(&config);
    assert!(result.is_err());
    assert!(result
        .unwrap_err()
        .message()
        .contains("empty commands list"));
}

#[test]
fn test_validate_config_accepts_empty_packages() {
    let config = config_with(vec![], vec![], None);
    assert!(validate_config(&config).is_ok());
}

#[test]
fn test_validate_config_invalid_stable_package() {
    let config = config_with(vec!["bad name".to_string()], vec![], None);
    match validate_config(&config) {
        Err(FlakeGeneratorError::Validation(m)) => {
            assert!(m.starts_with("Invalid stable package name: bad name"));
        }
        other => panic!("expected Validation error, got {:?}", other),
    }
}

#[test]
fn test_validate_config_invalid_unstable_package() {
    let config = config_with(vec!["ok".to_string()], vec![".dot".to_string()], None);
    match validate_config(&config) {
        Err(FlakeGeneratorError::Validation(m)) => {
            assert!(m.starts_with("Invalid unstable package name: .dot"));
        }
        other => panic!("expected Validation error, got {:?}", other),
    }
}

#[test]
fn test_is_valid_task_name_cases() {
    assert!(is_valid_task_name("sync"));
    assert!(is_valid_task_name("my-task_123"));
    assert!(!is_valid_task_name(""));
    assert!(!is_valid_task_name("invalid@task"));
    assert!(!is_valid_task_name("has space"));
    assert!(!is_valid_task_name("dotted.name"));
}

#[test]
fn test_find_task_first_match() {
    let tasks = vec![
        (
            "sync".to_string(),
            TaskDef {
                description: Some("Sync dependencies".to_string()),
                commands: vec!["uv sync".to_string()],
            },
        ),
        (
            "start".to_string(),
            TaskDef {
                description: None,
                commands: vec!["uv run python main.py".to_string()],
            },
        ),
    ];
    assert_eq!(find_task(&tasks, "start"), Some(1));
    assert_eq!(find_task(&tasks, "sync"), Some(0));
    assert_eq!(find_task(&tasks, "missing"), None);
}

#[test]
fn test_flake_generator_error_messages() {
    assert_eq!(
        FlakeGeneratorError::Validation("bad".to_string()).message(),
        "Config validation failed: bad"
    );
    assert_eq!(
        FlakeGeneratorError::YamlParse("oops".to_string()).message(),
        "Invalid YAML syntax: oops"
    );
    assert_eq!(
        FlakeGeneratorError::IoError("denied".to_string()).message(),
        "Failed to read file: denied"
    );
    assert_eq!(
        FlakeGeneratorError::ConfigNotFound.message(),
        "Config file not found"
    );
}
