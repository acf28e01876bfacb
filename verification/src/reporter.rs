//! Rendering of a `ValidationResult` into a human-readable report.
//!
//! Failures are grouped by kind, and architecture failures further by
//! architecture; groups appear in a fixed order (not-found, then one
//! section per architecture in first-seen order, then unknown). The
//! functions build pure text; printing is the caller's business.

use vstd::prelude::*;
use vstd::string::*;

use crate::error_classifier::FailureView;
use crate::errors::{spec_validation_error_describe, ValidationError};
use crate::text::{spec_decimal, usize_to_string};
use crate::validator::ValidationResult;

verus! {

/// The success line: a check mark and the count of validated packages.
pub open spec fn spec_success_message(count: int) -> Seq<char> {
    "✓ All "@ + spec_decimal(count) + " package(s) validated successfully!\n"@
}

/// Renders the success line for `count` validated packages.
pub fn format_success_message(count: usize) -> (r: String)
    ensures
        r@ == spec_success_message(count as int),
{
    let mut out = "✓ All ".to_owned();
    let digits = usize_to_string(count);
    out.append(digits.as_str());
    out.append(" package(s) validated successfully!\n");
    out
}

/// The packages of the `PackageNotFound` failures, in order.
pub open spec fn spec_not_found_packages(errs: Seq<FailureView>) -> Seq<Seq<char>>
    decreases errs.len(),
{
    if errs.len() == 0 {
        Seq::<Seq<char>>::empty()
    } else {
        let init = spec_not_found_packages(errs.drop_last());
        match errs.last() {
            FailureView::PackageNotFound { package } => init.push(package),
            _ => init,
        }
    }
}

/// The `(package, arch)` pairs of the `ArchitectureUnsupported` failures,
/// in order.
pub open spec fn spec_arch_entries(errs: Seq<FailureView>) -> Seq<(Seq<char>, Seq<char>)>
    decreases errs.len(),
{
    if errs.len() == 0 {
        Seq::<(Seq<char>, Seq<char>)>::empty()
    } else {
        let init = spec_arch_entries(errs.drop_last());
        match errs.last() {
            FailureView::ArchitectureUnsupported { package, arch } => init.push((package, arch)),
            _ => init,
        }
    }
}

/// The `(package, message)` pairs of the `UnknownError` failures, in order.
pub open spec fn spec_unknown_entries(errs: Seq<FailureView>) -> Seq<(Seq<char>, Seq<char>)>
    decreases errs.len(),
{
    if errs.len() == 0 {
        Seq::<(Seq<char>, Seq<char>)>::empty()
    } else {
        let init = spec_unknown_entries(errs.drop_last());
        match errs.last() {
            FailureView::UnknownError { package, message } => init.push((package, message)),
            _ => init,
        }
    }
}

/// Separates failures into the three kinds, keeping each kind's order.
pub fn group_errors(errors: &Vec<ValidationError>) -> (r: (
    Vec<String>,
    Vec<(String, String)>,
    Vec<(String, String)>,
))
    ensures
        r.0.deep_view() == spec_not_found_packages(errors.deep_view()),
        r.1.deep_view() == spec_arch_entries(errors.deep_view()),
        r.2.deep_view() == spec_unknown_entries(errors.deep_view()),
{
    let mut not_found: Vec<String> = Vec::new();
    let mut arch_unsupported: Vec<(String, String)> = Vec::new();
    let mut unknown: Vec<(String, String)> = Vec::new();
    let mut i: usize = 0;
    proof {
        assert(errors.deep_view().take(0) =~= Seq::<FailureView>::empty());
        assert(not_found.deep_view() =~= spec_not_found_packages(errors.deep_view().take(0)));
        assert(arch_unsupported.deep_view() =~= spec_arch_entries(errors.deep_view().take(0)));
        assert(unknown.deep_view() =~= spec_unknown_entries(errors.deep_view().take(0)));
    }
    while i < errors.len()
        invariant
            0 <= i <= errors.len(),
            not_found.deep_view() == spec_not_found_packages(errors.deep_view().take(i as int)),
            arch_unsupported.deep_view() == spec_arch_entries(errors.deep_view().take(i as int)),
            unknown.deep_view() == spec_unknown_entries(errors.deep_view().take(i as int)),
        decreases errors.len() - i,
    {
        proof {
            assert(errors.deep_view().take(i + 1).drop_last() =~= errors.deep_view().take(
                i as int,
            ));
            assert(errors.deep_view().take(i + 1).last() == errors@[i as int]@);
        }
        match &errors[i] {
            ValidationError::PackageNotFound { package } => {
                let ghost old_dv = not_found.deep_view();
                not_found.push(package.clone());
                proof {
                    assert(not_found.deep_view() =~= old_dv.push(package@));
                }
            },
            ValidationError::ArchitectureUnsupported { package, arch } => {
                let ghost old_dv = arch_unsupported.deep_view();
                arch_unsupported.push((package.clone(), arch.clone()));
                proof {
                    assert(arch_unsupported.deep_view() =~= old_dv.push((package@, arch@)));
                }
            },
            ValidationError::UnknownError { package, message } => {
                let ghost old_dv = unknown.deep_view();
                unknown.push((package.clone(), message.clone()));
                proof {
                    assert(unknown.deep_view() =~= old_dv.push((package@, message@)));
                }
            },
        }
        i += 1;
    }
    proof {
        assert(errors.deep_view().take(errors.len() as int) =~= errors.deep_view());
    }
    (not_found, arch_unsupported, unknown)
}

/// One `- item` line per element.
pub open spec fn spec_bullet_lines(items: Seq<Seq<char>>) -> Seq<char>
    decreases items.len(),
{
    if items.len() == 0 {
        Seq::<char>::empty()
    } else {
        spec_bullet_lines(items.drop_last()) + "- "@ + items.last() + "\n"@
    }
}

/// Appends one `- item` line per element of `items` to `out`.
fn append_bullet_lines(out: &mut String, items: &Vec<String>)
    ensures
        final(out)@ == old(out)@ + spec_bullet_lines(items.deep_view()),
{
    let mut i: usize = 0;
    proof {
        assert(items.deep_view().take(0) =~= Seq::<Seq<char>>::empty());
        assert(old(out)@ + spec_bullet_lines(items.deep_view().take(0)) =~= old(out)@);
    }
    while i < items.len()
        invariant
            0 <= i <= items.len(),
            out@ == old(out)@ + spec_bullet_lines(items.deep_view().take(i as int)),
        decreases items.len() - i,
    {
        proof {
            assert(items.deep_view().take(i + 1).drop_last() =~= items.deep_view().take(i as int));
            assert(items.deep_view().take(i + 1).last() == items@[i as int]@);
        }
        out.append("- ");
        out.append(items[i].as_str());
        out.append("\n");
        i += 1;
    }
    proof {
        assert(items.deep_view().take(items.len() as int) =~= items.deep_view());
    }
}

/// The not-found section: heading, explanation, one line per package, and
/// a reference link.
pub open spec fn spec_format_package_not_found(packages: Seq<Seq<char>>) -> Seq<char> {
    "LazyNix Linting Error: PACKAGE_NOT_FOUND\n"@
        + "LazyNix could not find package from registry\n\n"@ + spec_bullet_lines(packages)
        + "\nSee: https://search.nixos.org/packages\n"@
}

/// Renders the not-found section for `packages`.
pub fn format_package_not_found_error(packages: &Vec<String>) -> (r: String)
    ensures
        r@ == spec_format_package_not_found(packages.deep_view()),
{
    let mut out = "LazyNix Linting Error: PACKAGE_NOT_FOUND\n".to_owned();
    out.append("LazyNix could not find package from registry\n\n");
    append_bullet_lines(&mut out, packages);
    out.append("\nSee: https://search.nixos.org/packages\n");
    out
}

/// The architectures named by `entries`, each once, in first-seen order.
pub open spec fn spec_distinct_archs(entries: Seq<(Seq<char>, Seq<char>)>) -> Seq<Seq<char>>
    decreases entries.len(),
{
    if entries.len() == 0 {
        Seq::<Seq<char>>::empty()
    } else {
        let init = spec_distinct_archs(entries.drop_last());
        if init.contains(entries.last().1) {
            init
        } else {
            init.push(entries.last().1)
        }
    }
}

/// The packages of the entries whose architecture is `arch`, in order.
pub open spec fn spec_packages_for_arch(
    entries: Seq<(Seq<char>, Seq<char>)>,
    arch: Seq<char>,
) -> Seq<Seq<char>>
    decreases entries.len(),
{
    if entries.len() == 0 {
        Seq::<Seq<char>>::empty()
    } else {
        let init = spec_packages_for_arch(entries.drop_last(), arch);
        if entries.last().1 == arch {
            init.push(entries.last().0)
        } else {
            init
        }
    }
}

/// The section for one architecture: heading, explanation naming the
/// architecture, one line per package, and a reference link.
pub open spec fn spec_arch_section(
    arch: Seq<char>,
    entries: Seq<(Seq<char>, Seq<char>)>,
) -> Seq<char> {
    "LazyNix Linting Error: PACKAGE_DOES_NOT_PROVIDE_TO_SELECTED_ARCHITECTURE\n"@
        + "LazyNix could not find package FOR YOUR ARCHITECTURE ("@ + arch + ")\n\n"@
        + spec_bullet_lines(spec_packages_for_arch(entries, arch))
        + "\nSee: https://search.nixos.org/packages\n"@
}

/// One section per architecture, in the order of `archs`.
pub open spec fn spec_arch_sections(
    archs: Seq<Seq<char>>,
    entries: Seq<(Seq<char>, Seq<char>)>,
) -> Seq<char>
    decreases archs.len(),
{
    if archs.len() == 0 {
        Seq::<char>::empty()
    } else {
        spec_arch_sections(archs.drop_last(), entries) + spec_arch_section(archs.last(), entries)
    }
}

/// The whole architecture-unsupported report: one section per distinct
/// architecture, in first-seen order, so that all packages unsupported on
/// the same architecture share one heading.
pub open spec fn spec_format_arch_unsupported(entries: Seq<(Seq<char>, Seq<char>)>) -> Seq<char> {
    spec_arch_sections(spec_distinct_archs(entries), entries)
}

/// Collects the packages of `entries` whose architecture equals `arch`.
fn packages_for_arch(entries: &Vec<(String, String)>, arch: &String) -> (r: Vec<String>)
    ensures
        r.deep_view() == spec_packages_for_arch(entries.deep_view(), arch@),
{
    let mut packages: Vec<String> = Vec::new();
    let mut i: usize = 0;
    proof {
        assert(entries.deep_view().take(0) =~= Seq::<(Seq<char>, Seq<char>)>::empty());
        assert(packages.deep_view() =~= spec_packages_for_arch(
            entries.deep_view().take(0),
            arch@,
        ));
    }
    while i < entries.len()
        invariant
            0 <= i <= entries.len(),
            packages.deep_view() == spec_packages_for_arch(
                entries.deep_view().take(i as int),
                arch@,
            ),
        decreases entries.len() - i,
    {
        proof {
            assert(entries.deep_view().take(i + 1).drop_last() =~= entries.deep_view().take(
                i as int,
            ));
            assert(entries.deep_view().take(i + 1).last() == entries@[i as int].deep_view());
        }
        if entries[i].1.eq(arch) {
            let ghost old_dv = packages.deep_view();
            packages.push(entries[i].0.clone());
            proof {
                assert(packages.deep_view() =~= old_dv.push(entries@[i as int].0@));
            }
        }
        i += 1;
    }
    proof {
        assert(entries.deep_view().take(entries.len() as int) =~= entries.deep_view());
    }
    packages
}

/// Reports whether `v` holds a string equal to `s`.
fn contains_string(v: &Vec<String>, s: &String) -> (r: bool)
    ensures
        r == v.deep_view().contains(s@),
{
    let mut j: usize = 0;
    while j < v.len()
        invariant
            0 <= j <= v.len(),
            forall|k: int| 0 <= k < j ==> v.deep_view()[k] != s@,
        decreases v.len() - j,
    {
        if v[j].eq(s) {
            proof {
                assert(v.deep_view()[j as int] == s@);
            }
            return true;
        }
        proof {
            assert(v.deep_view()[j as int] == v@[j as int]@);
        }
        j += 1;
    }
    proof {
        assert(forall|k: int| 0 <= k < v.deep_view().len() ==> v.deep_view()[k] != s@);
    }
    false
}

/// Collects the architectures of `entries`, each once, in first-seen
/// order.
fn distinct_archs(entries: &Vec<(String, String)>) -> (r: Vec<String>)
    ensures
        r.deep_view() == spec_distinct_archs(entries.deep_view()),
{
    let mut archs: Vec<String> = Vec::new();
    let mut i: usize = 0;
    proof {
        assert(entries.deep_view().take(0) =~= Seq::<(Seq<char>, Seq<char>)>::empty());
        assert(archs.deep_view() =~= spec_distinct_archs(entries.deep_view().take(0)));
    }
    while i < entries.len()
        invariant
            0 <= i <= entries.len(),
            archs.deep_view() == spec_distinct_archs(entries.deep_view().take(i as int)),
        decreases entries.len() - i,
    {
        proof {
            assert(entries.deep_view().take(i + 1).drop_last() =~= entries.deep_view().take(
                i as int,
            ));
            assert(entries.deep_view().take(i + 1).last() == entries@[i as int].deep_view());
        }
        let seen = contains_string(&archs, &entries[i].1);
        if !seen {
            let ghost old_dv = archs.deep_view();
            archs.push(entries[i].1.clone());
            proof {
                assert(archs.deep_view() =~= old_dv.push(entries@[i as int].1@));
            }
        }
        i += 1;
    }
    proof {
        assert(entries.deep_view().take(entries.len() as int) =~= entries.deep_view());
    }
    archs
}

/// Renders the architecture-unsupported report for `packages`, grouping
/// the entries by architecture in first-seen order.
pub fn format_architecture_unsupported_error(packages: &Vec<(String, String)>) -> (r: String)
    ensures
        r@ == spec_format_arch_unsupported(packages.deep_view()),
{
    let archs = distinct_archs(packages);
    let mut out = String::new();
    let mut i: usize = 0;
    proof {
        assert(archs.deep_view().take(0) =~= Seq::<Seq<char>>::empty());
        assert(out@ =~= spec_arch_sections(archs.deep_view().take(0), packages.deep_view()));
    }
    while i < archs.len()
        invariant
            0 <= i <= archs.len(),
            archs.deep_view() == spec_distinct_archs(packages.deep_view()),
            out@ == spec_arch_sections(archs.deep_view().take(i as int), packages.deep_view()),
        decreases archs.len() - i,
    {
        proof {
            assert(archs.deep_view().take(i + 1).drop_last() =~= archs.deep_view().take(i as int));
            assert(archs.deep_view().take(i + 1).last() == archs@[i as int]@);
        }
        out.append("LazyNix Linting Error: PACKAGE_DOES_NOT_PROVIDE_TO_SELECTED_ARCHITECTURE\n");
        out.append("LazyNix could not find package FOR YOUR ARCHITECTURE (");
        out.append(archs[i].as_str());
        out.append(")\n\n");
        let group = packages_for_arch(packages, &archs[i]);
        append_bullet_lines(&mut out, &group);
        out.append("\nSee: https://search.nixos.org/packages\n");
        i += 1;
    }
    proof {
        assert(archs.deep_view().take(archs.len() as int) =~= archs.deep_view());
    }
    out
}

/// One `- package: message` line per entry.
pub open spec fn spec_unknown_lines(entries: Seq<(Seq<char>, Seq<char>)>) -> Seq<char>
    decreases entries.len(),
{
    if entries.len() == 0 {
        Seq::<char>::empty()
    } else {
        spec_unknown_lines(entries.drop_last()) + "- "@ + entries.last().0 + ": "@
            + entries.last().1 + "\n"@
    }
}

/// The unknown-failure section: heading, explanation, one line per entry,
/// and a blank line.
pub open spec fn spec_format_unknown(entries: Seq<(Seq<char>, Seq<char>)>) -> Seq<char> {
    "LazyNix Linting Error: UNKNOWN_ERROR\n"@ + "LazyNix encountered unexpected errors\n\n"@
        + spec_unknown_lines(entries) + "\n"@
}

/// Renders the unknown-failure section for `errors`.
pub fn format_unknown_errors(errors: &Vec<(String, String)>) -> (r: String)
    ensures
        r@ == spec_format_unknown(errors.deep_view()),
{
    let mut out = "LazyNix Linting Error: UNKNOWN_ERROR\n".to_owned();
    out.append("LazyNix encountered unexpected errors\n\n");
    let mut i: usize = 0;
    proof {
        assert(errors.deep_view().take(0) =~= Seq::<(Seq<char>, Seq<char>)>::empty());
        assert(out@ + spec_unknown_lines(errors.deep_view().take(0)) =~= out@);
    }
    let ghost header = out@;
    while i < errors.len()
        invariant
            0 <= i <= errors.len(),
            out@ == header + spec_unknown_lines(errors.deep_view().take(i as int)),
        decreases errors.len() - i,
    {
        proof {
            assert(errors.deep_view().take(i + 1).drop_last() =~= errors.deep_view().take(
                i as int,
            ));
            assert(errors.deep_view().take(i + 1).last() == errors@[i as int].deep_view());
        }
        out.append("- ");
        out.append(errors[i].0.as_str());
        out.append(": ");
        out.append(errors[i].1.as_str());
        out.append("\n");
        i += 1;
    }
    proof {
        assert(errors.deep_view().take(errors.len() as int) =~= errors.deep_view());
    }
    out.append("\n");
    out
}

/// The full report for one validation run: the success line when nothing
/// failed, otherwise the three kind sections in fixed order, each present
/// only when non-empty.
pub open spec fn spec_format_validation_result(
    errs: Seq<FailureView>,
    valid_count: int,
) -> Seq<char> {
    if errs.len() == 0 {
        spec_success_message(valid_count)
    } else {
        let not_found = spec_not_found_packages(errs);
        let arch_entries = spec_arch_entries(errs);
        let unknown = spec_unknown_entries(errs);
        (if not_found.len() > 0 {
            spec_format_package_not_found(not_found) + "\n"@
        } else {
            Seq::<char>::empty()
        }) + (if arch_entries.len() > 0 {
            spec_format_arch_unsupported(arch_entries) + "\n"@
        } else {
            Seq::<char>::empty()
        }) + (if unknown.len() > 0 {
            spec_format_unknown(unknown)
        } else {
            Seq::<char>::empty()
        })
    }
}

/// Renders the validation report: a success line when every package
/// validated, otherwise the grouped failure sections.
pub fn format_validation_result(result: &ValidationResult) -> (r: String)
    ensures
        r@ == spec_format_validation_result(
            result.errors.deep_view(),
            result.valid_packages@.len() as int,
        ),
{
    if result.errors.is_empty() {
        return format_success_message(result.valid_packages.len());
    }
    let (not_found, arch_unsupported, unknown) = group_errors(&result.errors);
    let mut out = String::new();
    if !not_found.is_empty() {
        let section = format_package_not_found_error(&not_found);
        out.append(section.as_str());
        out.append("\n");
    }
    if !arch_unsupported.is_empty() {
        let section = format_architecture_unsupported_error(&arch_unsupported);
        out.append(section.as_str());
        out.append("\n");
    }
    if !unknown.is_empty() {
        let section = format_unknown_errors(&unknown);
        out.append(section.as_str());
    }
    proof {
        assert(out@ =~= spec_format_validation_result(
            result.errors.deep_view(),
            result.valid_packages@.len() as int,
        ));
    }
    out
}

/// One structured dump line per failure.
pub open spec fn spec_describe_lines(errs: Seq<ValidationError>) -> Seq<char>
    decreases errs.len(),
{
    if errs.len() == 0 {
        Seq::<char>::empty()
    } else {
        spec_describe_lines(errs.drop_last()) + spec_validation_error_describe(errs.last())
            + "\n"@
    }
}

/// The verbose report: the normal report, then — when anything failed — a
/// diagnostic section dumping every failure's structured representation.
pub open spec fn spec_format_validation_result_verbose(
    errs: Seq<ValidationError>,
    errs_view: Seq<FailureView>,
    valid_count: int,
) -> Seq<char> {
    if errs.len() == 0 {
        spec_format_validation_result(errs_view, valid_count)
    } else {
        spec_format_validation_result(errs_view, valid_count)
            + "\n--- Verbose Error Details ---\n"@ + spec_describe_lines(errs)
    }
}

/// Renders the validation report with a trailing diagnostic dump of every
/// failure. The dump is purely additive: the normal report comes first,
/// unchanged.
pub fn format_validation_result_verbose(result: &ValidationResult) -> (r: String)
    ensures
        r@ == spec_format_validation_result_verbose(
            result.errors@,
            result.errors.deep_view(),
            result.valid_packages@.len() as int,
        ),
{
    let mut out = format_validation_result(result);
    if !result.errors.is_empty() {
        out.append("\n--- Verbose Error Details ---\n");
        let mut i: usize = 0;
        let ghost prefix = out@;
        proof {
            assert(result.errors@.take(0) =~= Seq::<ValidationError>::empty());
            assert(out@ + spec_describe_lines(result.errors@.take(0)) =~= out@);
        }
        while i < result.errors.len()
            invariant
                0 <= i <= result.errors.len(),
                out@ == prefix + spec_describe_lines(result.errors@.take(i as int)),
            decreases result.errors.len() - i,
        {
            proof {
                assert(result.errors@.take(i + 1).drop_last() =~= result.errors@.take(i as int));
                assert(result.errors@.take(i + 1).last() == result.errors@[i as int]);
            }
            let line = result.errors[i].describe();
            out.append(line.as_str());
            out.append("\n");
            i += 1;
        }
        proof {
            assert(result.errors@.take(result.errors.len() as int) =~= result.errors@);
        }
    }
    out
}

} // verus!
