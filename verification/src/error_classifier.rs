//! Classification of registry-evaluator failure output.
//!
//! The evaluator reports failures as free text. The classifier maps that
//! text onto the closed [`ValidationError`] taxonomy by an ordered list of
//! substring patterns; first match wins. Any change to the evaluator's
//! wording silently degrades classification to `UnknownError` — a graceful
//! fallback, not a crash — so the patterns are pinned by literal tests.

use vstd::prelude::*;
use vstd::string::*;

use crate::errors::ValidationError;
use crate::text::{
    contains_str, join_with, spec_contains, spec_join_with, spec_split, spec_starts_with,
    spec_trim, split_str, starts_with_str, trim_str,
};

verus! {

/// The mathematical image of a `ValidationError`: the same variants over
/// character sequences.
pub enum FailureView {
    PackageNotFound { package: Seq<char> },
    ArchitectureUnsupported { package: Seq<char>, arch: Seq<char> },
    UnknownError { package: Seq<char>, message: Seq<char> },
}

impl View for ValidationError {
    type V = FailureView;

    open spec fn view(&self) -> FailureView {
        match self {
            ValidationError::PackageNotFound { package } => FailureView::PackageNotFound {
                package: package@,
            },
            ValidationError::ArchitectureUnsupported { package, arch } =>
                FailureView::ArchitectureUnsupported { package: package@, arch: arch@ },
            ValidationError::UnknownError { package, message } => FailureView::UnknownError {
                package: package@,
                message: message@,
            },
        }
    }
}

impl DeepView for ValidationError {
    type V = FailureView;

    open spec fn deep_view(&self) -> FailureView {
        self.view()
    }
}

/// The recognised architecture tags, in the order they are tried.
pub open spec fn spec_extract_architecture(stderr: Seq<char>) -> Option<Seq<char>> {
    if spec_contains(stderr, "aarch64-darwin"@) {
        Some("aarch64-darwin"@)
    } else if spec_contains(stderr, "x86_64-darwin"@) {
        Some("x86_64-darwin"@)
    } else if spec_contains(stderr, "x86_64-linux"@) {
        Some("x86_64-linux"@)
    } else if spec_contains(stderr, "aarch64-linux"@) {
        Some("aarch64-linux"@)
    } else if spec_contains(stderr, "i686-linux"@) {
        Some("i686-linux"@)
    } else {
        None
    }
}

/// Searches `stderr` for a known architecture tag.
pub fn extract_architecture(stderr: &str) -> (r: Option<String>)
    ensures
        r.deep_view() == spec_extract_architecture(stderr@),
{
    if contains_str(stderr, "aarch64-darwin") {
        Some("aarch64-darwin".to_owned())
    } else if contains_str(stderr, "x86_64-darwin") {
        Some("x86_64-darwin".to_owned())
    } else if contains_str(stderr, "x86_64-linux") {
        Some("x86_64-linux".to_owned())
    } else if contains_str(stderr, "aarch64-linux") {
        Some("aarch64-linux".to_owned())
    } else if contains_str(stderr, "i686-linux") {
        Some("i686-linux".to_owned())
    } else {
        None
    }
}

/// One failure line with surrounding whitespace and a leading `error:`
/// marker removed.
pub open spec fn spec_clean_line(line: Seq<char>) -> Seq<char> {
    let t = spec_trim(line);
    if spec_starts_with(t, "error:"@) {
        spec_trim(t.skip("error:"@.len() as int))
    } else {
        t
    }
}

/// The non-blank lines of a failure report, each cleaned by
/// `spec_clean_line`, in order.
pub open spec fn spec_clean_lines(lines: Seq<Seq<char>>) -> Seq<Seq<char>>
    decreases lines.len(),
{
    if lines.len() == 0 {
        Seq::<Seq<char>>::empty()
    } else {
        let init = spec_clean_lines(lines.drop_last());
        if spec_trim(lines.last()).len() == 0 {
            init
        } else {
            init.push(spec_clean_line(lines.last()))
        }
    }
}

/// A failure report collapsed to a single line: blank lines dropped, each
/// remaining line trimmed and stripped of a leading `error:` marker, the
/// results joined with single spaces.
pub open spec fn spec_extract_error_message(stderr: Seq<char>) -> Seq<char> {
    spec_join_with(spec_clean_lines(spec_split(stderr, '\n')), " "@)
}

/// Collapses a failure report to a single line.
pub fn extract_error_message(stderr: &str) -> (r: String)
    ensures
        r@ == spec_extract_error_message(stderr@),
{
    let lines = split_str(stderr, '\n');
    let mut cleaned: Vec<String> = Vec::new();
    let mut i: usize = 0;
    proof {
        assert(lines.deep_view().take(0) =~= Seq::<Seq<char>>::empty());
    }
    while i < lines.len()
        invariant
            0 <= i <= lines.len(),
            cleaned.deep_view() == spec_clean_lines(lines.deep_view().take(i as int)),
        decreases lines.len() - i,
    {
        proof {
            assert(lines.deep_view().take(i + 1).drop_last() =~= lines.deep_view().take(i as int));
            assert(lines.deep_view().take(i + 1).last() == lines@[i as int]@);
        }
        let trimmed = trim_str(lines[i].as_str());
        let tlen = trimmed.unicode_len();
        if tlen > 0 {
            let marker = "error:";
            let mlen = marker.unicode_len();
            let cleaned_line = if starts_with_str(trimmed, marker) {
                trim_str(trimmed.substring_char(mlen, tlen))
            } else {
                trimmed
            };
            proof {
                if spec_starts_with(trimmed@, "error:"@) {
                    assert(trimmed@.subrange(mlen as int, tlen as int) =~= trimmed@.skip(
                        mlen as int,
                    ));
                }
            }
            let ghost old_cleaned = cleaned.deep_view();
            cleaned.push(cleaned_line.to_owned());
            proof {
                assert(cleaned.deep_view() =~= old_cleaned.push(spec_clean_line(
                    lines@[i as int]@,
                )));
            }
        }
        i += 1;
    }
    proof {
        assert(lines.deep_view().take(lines.len() as int) =~= lines.deep_view());
    }
    join_with(&cleaned, " ")
}

/// The classification of one failure: an ordered pattern table over the
/// evaluator's stderr text, first match wins.
pub open spec fn spec_classify(package: Seq<char>, stderr: Seq<char>) -> FailureView {
    if spec_contains(stderr, "does not provide attribute"@) || spec_contains(
        stderr,
        "does not provide"@,
    ) {
        FailureView::PackageNotFound { package }
    } else if spec_contains(stderr, "is not available on the requested hostPlatform"@)
        || spec_contains(stderr, "not available on the requested hostPlatform"@) {
        FailureView::ArchitectureUnsupported {
            package,
            arch: match spec_extract_architecture(stderr) {
                Some(arch) => arch,
                None => "unknown"@,
            },
        }
    } else if spec_contains(stderr, "unsupported system"@) || spec_contains(
        stderr,
        "is not supported"@,
    ) {
        FailureView::ArchitectureUnsupported {
            package,
            arch: match spec_extract_architecture(stderr) {
                Some(arch) => arch,
                None => "unknown"@,
            },
        }
    } else {
        FailureView::UnknownError { package, message: spec_extract_error_message(stderr) }
    }
}

/// Classifies the evaluator's failure output for `package`.
pub fn classify_nix_eval_error(package: &str, stderr: &str) -> (r: ValidationError)
    ensures
        r@ == spec_classify(package@, stderr@),
{
    if contains_str(stderr, "does not provide attribute") || contains_str(
        stderr,
        "does not provide",
    ) {
        return ValidationError::PackageNotFound { package: package.to_owned() };
    }
    if contains_str(stderr, "is not available on the requested hostPlatform") || contains_str(
        stderr,
        "not available on the requested hostPlatform",
    ) {
        let arch = match extract_architecture(stderr) {
            Some(arch) => arch,
            None => "unknown".to_owned(),
        };
        return ValidationError::ArchitectureUnsupported { package: package.to_owned(), arch };
    }
    if contains_str(stderr, "unsupported system") || contains_str(stderr, "is not supported") {
        let arch = match extract_architecture(stderr) {
            Some(arch) => arch,
            None => "unknown".to_owned(),
        };
        return ValidationError::ArchitectureUnsupported { package: package.to_owned(), arch };
    }
    ValidationError::UnknownError { package: package.to_owned(), message: extract_error_message(
        stderr,
    ) }
}

/// Classifier determinism: classification is a pure function of the package
/// name and the failure text — equal inputs always yield the same
/// `FailureView`, across any two calls.
pub proof fn lemma_classifier_deterministic(
    p1: Seq<char>,
    s1: Seq<char>,
    p2: Seq<char>,
    s2: Seq<char>,
)
    requires
        p1 == p2,
        s1 == s2,
    ensures
        spec_classify(p1, s1) == spec_classify(p2, s2),
{
}

} // verus!
