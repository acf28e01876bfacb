//! Tests for the report renderer: the success line, the grouped failure
//! sections, and the verbose dump.

use lazynix::errors::ValidationError;
use lazynix::reporter::{
    format_success_message, format_validation_result, format_validation_result_verbose,
};
use lazynix::validator::ValidationResult;

#[test]
fn test_format_success_message() {
    let result = ValidationResult {
        valid_packages: vec!["vim".to_string(), "git".to_string()],
        errors: vec![],
    };
    let output = format_validation_result(&result);
    assert!(output.contains("✓"));
    assert!(output.contains("2 package(s)"));
    assert!(output.contains("successfully"));
}

#[test]
fn test_format_package_not_found() {
    let result = ValidationResult {
        valid_packages: vec![],
        errors: vec![
            ValidationError::PackageNotFound {
                package: "nonexistent1".to_string(),
            },
            ValidationError::PackageNotFound {
                package: "nonexistent2".to_string(),
            },
        ],
    };
    let output = format_validation_result(&result);
    assert!(output.contains("PACKAGE_NOT_FOUND"));
    assert!(output.contains("nonexistent1"));
    assert!(output.contains("nonexistent2"));
    assert!(output.contains("https://search.nixos.org/packages"));
}

#[test]
fn test_format_architecture_unsupported() {
    let result = ValidationResult {
        valid_packages: vec![],
        errors: vec![ValidationError::ArchitectureUnsupported {
            package: "chromium".to_string(),
            arch: "aarch64-darwin".to_string(),
        }],
    };
    let output = format_validation_result(&result);
    assert!(output.contains("ARCHITECTURE"));
    assert!(output.contains("chromium"));
    assert!(output.contains("aarch64-darwin"));
}

#[test]
fn test_format_unknown_error() {
    let result = ValidationResult {
        valid_packages: vec![],
        errors: vec![ValidationError::UnknownError {
            package: "somepkg".to_string(),
            message: "strange error occurred".to_string(),
        }],
    };
    let output = format_validation_result(&result);
    assert!(output.contains("UNKNOWN_ERROR"));
    assert!(output.contains("somepkg"));
    assert!(output.contains("strange error"));
}

#[test]
fn test_format_mixed_errors() {
    let result = ValidationResult {
        valid_packages: vec!["vim".to_string()],
        errors: vec![
            ValidationError::PackageNotFound {
                package: "pkg1".to_string(),
            },
            ValidationError::ArchitectureUnsupported {
                package: "pkg2".to_string(),
                arch: "x86_64-linux".to_string(),
            },
        ],
    };
    let output = format_validation_result(&result);
    assert!(output.contains("PACKAGE_NOT_FOUND"));
    assert!(output.contains("ARCHITECTURE"));
    assert!(output.contains("pkg1"));
    assert!(output.contains("pkg2"));
}

#[test]
fn test_format_verbose() {
    let result = ValidationResult {
        valid_packages: vec![],
        errors: vec![ValidationError::PackageNotFound {
            package: "test".to_string(),
        }],
    };
    let output = format_validation_result_verbose(&result);
    assert!(output.contains("Verbose Error Details"));
    assert!(output.contains("PackageNotFound"));
}

#[test]
fn test_format_success_message_exact() {
    assert_eq!(
        format_success_message(2),
        "✓ All 2 package(s) validated successfully!\n"
    );
    assert_eq!(
        format_success_message(0),
        "✓ All 0 package(s) validated successfully!\n"
    );
    assert_eq!(
        format_success_message(12),
        "✓ All 12 package(s) validated successfully!\n"
    );
}

#[test]
fn test_reporter_groups_same_architecture_under_one_heading() {
    let result = ValidationResult {
        valid_packages: vec![],
        errors: vec![
            ValidationError::ArchitectureUnsupported {
                package: "alpha".to_string(),
                arch: "aarch64-darwin".to_string(),
            },
            ValidationError::ArchitectureUnsupported {
                package: "beta".to_string(),
                arch: "aarch64-darwin".to_string(),
            },
            ValidationError::ArchitectureUnsupported {
                package: "gamma".to_string(),
                arch: "x86_64-linux".to_string(),
            },
        ],
    };
    let output = format_validation_result(&result);
    let heading = "LazyNix Linting Error: PACKAGE_DOES_NOT_PROVIDE_TO_SELECTED_ARCHITECTURE";
    assert_eq!(output.matches(heading).count(), 2);

    let first_heading = output.find("(aarch64-darwin)").unwrap();
    let second_heading = output.find("(x86_64-linux)").unwrap();
    let alpha = output.find("- alpha").unwrap();
    let beta = output.find("- beta").unwrap();
    let gamma = output.find("- gamma").unwrap();
    assert!(first_heading < alpha);
    assert!(alpha < beta);
    assert!(beta < second_heading);
    assert!(second_heading < gamma);
}

#[test]
fn test_verbose_report_keeps_normal_report() {
    let result = ValidationResult {
        valid_packages: vec![],
        errors: vec![ValidationError::UnknownError {
            package: "p".to_string(),
            message: "m".to_string(),
        }],
    };
    let normal = format_validation_result(&result);
    let verbose = format_validation_result_verbose(&result);
    assert!(verbose.starts_with(&normal));
    assert!(verbose.contains("UnknownError { package: \"p\", message: \"m\" }"));
}

#[test]
fn test_fixed_group_order() {
    let result = ValidationResult {
        valid_packages: vec![],
        errors: vec![
            ValidationError::UnknownError {
                package: "u".to_string(),
                message: "m".to_string(),
            },
            ValidationError::ArchitectureUnsupported {
                package: "a".to_string(),
                arch: "i686-linux".to_string(),
            },
            ValidationError::PackageNotFound {
                package: "n".to_string(),
            },
        ],
    };
    let output = format_validation_result(&result);
    let not_found = output.find("PACKAGE_NOT_FOUND").unwrap();
    let arch = output.find("PACKAGE_DOES_NOT_PROVIDE_TO_SELECTED_ARCHITECTURE").unwrap();
    let unknown = output.find("UNKNOWN_ERROR").unwrap();
    assert!(not_found < arch);
    assert!(arch < unknown);
}
