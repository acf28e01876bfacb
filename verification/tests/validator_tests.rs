//! Tests for outcome assessment and aggregation: the partition invariant,
//! idempotence, and the full pipeline from canned evaluator output to the
//! rendered report.

use lazynix::errors::{LinterError, ValidationError};
use lazynix::nix_eval::NixEvalResult;
use lazynix::reporter::format_validation_result;
use lazynix::validator::{classify_eval_outcome, collect_validation_results};

fn success_outcome() -> NixEvalResult {
    NixEvalResult {
        success: true,
        stdout: "\"/nix/store/abc\"".to_string(),
        stderr: String::new(),
        exit_code: 0,
    }
}

fn failure_outcome(stderr: &str) -> NixEvalResult {
    NixEvalResult {
        success: false,
        stdout: String::new(),
        stderr: stderr.to_string(),
        exit_code: 1,
    }
}

#[test]
fn test_classify_eval_outcome_success() {
    let outcome: Result<NixEvalResult, LinterError> = Ok(success_outcome());
    assert!(classify_eval_outcome("hello", &outcome).is_ok());
}

#[test]
fn test_classify_eval_outcome_failure_is_classified() {
    let outcome: Result<NixEvalResult, LinterError> =
        Ok(failure_outcome("error: attribute 'x' does not provide attribute 'outPath'"));
    let result = classify_eval_outcome("x", &outcome);
    assert_eq!(
        result,
        Err(ValidationError::PackageNotFound {
            package: "x".to_string()
        })
    );
}

#[test]
fn test_classify_eval_outcome_invocation_error() {
    let outcome: Result<NixEvalResult, LinterError> =
        Err(LinterError::CommandExecutionFailed("no such file".to_string()));
    let result = classify_eval_outcome("pkg", &outcome);
    assert_eq!(
        result,
        Err(ValidationError::UnknownError {
            package: "pkg".to_string(),
            message: "Failed to execute nix command: no such file".to_string()
        })
    );
}

#[test]
fn test_partition_invariant_concrete() {
    let results: Vec<(String, Result<(), ValidationError>)> = vec![
        ("a".to_string(), Ok(())),
        (
            "b".to_string(),
            Err(ValidationError::PackageNotFound {
                package: "b".to_string(),
            }),
        ),
        ("c".to_string(), Ok(())),
        (
            "d".to_string(),
            Err(ValidationError::UnknownError {
                package: "d".to_string(),
                message: "boom".to_string(),
            }),
        ),
    ];
    let total = results.len();
    let collected = collect_validation_results(results);
    assert_eq!(
        collected.valid_packages.len() + collected.errors.len(),
        total
    );
    assert_eq!(collected.valid_packages, vec!["a".to_string(), "c".to_string()]);
    assert_eq!(collected.errors.len(), 2);
    assert!(collected
        .errors
        .contains(&ValidationError::PackageNotFound {
            package: "b".to_string()
        }));
    assert!(collected.errors.contains(&ValidationError::UnknownError {
        package: "d".to_string(),
        message: "boom".to_string()
    }));
}

#[test]
fn test_partition_empty_input() {
    let results: Vec<(String, Result<(), ValidationError>)> = vec![];
    let collected = collect_validation_results(results);
    assert_eq!(collected.valid_packages.len(), 0);
    assert_eq!(collected.errors.len(), 0);
}

#[test]
fn test_aggregation_idempotent_concrete() {
    let make = || -> Vec<(String, Result<(), ValidationError>)> {
        vec![
            ("hello".to_string(), Ok(())),
            (
                "ghost".to_string(),
                Err(ValidationError::PackageNotFound {
                    package: "ghost".to_string(),
                }),
            ),
        ]
    };
    let first = collect_validation_results(make());
    let second = collect_validation_results(make());
    assert_eq!(first.valid_packages, second.valid_packages);
    assert_eq!(first.errors, second.errors);
}

#[test]
fn test_end_to_end_scenario() {
    let identifiers = ["hello", "vim", "nonexistent-pkg-xyz"];
    let mut results: Vec<(String, Result<(), ValidationError>)> = Vec::new();
    for id in identifiers {
        let outcome: Result<NixEvalResult, LinterError> = if id == "nonexistent-pkg-xyz" {
            Ok(failure_outcome(
                "error: attribute 'nonexistent-pkg-xyz' does not provide attribute 'outPath'",
            ))
        } else {
            Ok(success_outcome())
        };
        results.push((id.to_string(), classify_eval_outcome(id, &outcome)));
    }
    let collected = collect_validation_results(results);
    assert_eq!(
        collected.valid_packages,
        vec!["hello".to_string(), "vim".to_string()]
    );
    assert_eq!(
        collected.errors,
        vec![ValidationError::PackageNotFound {
            package: "nonexistent-pkg-xyz".to_string()
        }]
    );
    let output = format_validation_result(&collected);
    assert!(output.contains("PACKAGE_NOT_FOUND"));
    assert!(output.contains("nonexistent-pkg-xyz"));
}

#[test]
fn test_linter_error_messages() {
    assert_eq!(
        LinterError::CommandExecutionFailed("boom".to_string()).message(),
        "Failed to execute nix command: boom"
    );
    assert_eq!(
        LinterError::InvalidPackageName("x;y".to_string()).message(),
        "Invalid package name: x;y"
    );
    assert_eq!(
        LinterError::Timeout(30).message(),
        "Nix eval command timed out after 30 seconds"
    );
    assert_eq!(
        LinterError::Utf8Error("bad byte".to_string()).message(),
        "Failed to convert command output to UTF-8: bad byte"
    );
}
