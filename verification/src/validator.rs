//! Aggregation of per-package evaluation outcomes into one partitioned
//! result.
//!
//! The evaluator runs outside the library, one invocation per package; the
//! functions here take those outcomes and decide, for each package, which
//! bucket it lands in. Aggregation preserves the order in which outcomes
//! are handed in, but callers fanning work out across workers may hand
//! them in any order.

use vstd::prelude::*;
use vstd::string::*;

use crate::error_classifier::{classify_nix_eval_error, spec_classify, FailureView};
use crate::errors::{spec_linter_error_message, LinterError, ValidationError};
use crate::nix_eval::NixEvalResult;

verus! {

/// The partitioned result of validating a list of packages.
#[derive(Debug, Clone)]
pub struct ValidationResult {
    /// Packages that passed validation, in the order their outcomes were
    /// aggregated.
    pub valid_packages: Vec<String>,
    /// One structured error per failed package, in the same order.
    pub errors: Vec<ValidationError>,
}

/// What one package's evaluation decided: `Ok` when the package is valid,
/// otherwise the classified failure.
pub open spec fn spec_assess(
    package: Seq<char>,
    eval: Result<NixEvalResult, LinterError>,
) -> Option<FailureView> {
    match eval {
        Ok(out) => if out.success {
            None
        } else {
            Some(spec_classify(package, out.stderr@))
        },
        Err(e) => Some(
            FailureView::UnknownError { package, message: spec_linter_error_message(e) },
        ),
    }
}

/// Decides one package's fate from its raw evaluation outcome: success
/// yields `Ok`, an unsuccessful evaluation is classified from its stderr
/// text, and a failure to invoke or decode becomes an `UnknownError`
/// carrying the invocation error's message.
pub fn classify_eval_outcome(package: &str, eval: &Result<NixEvalResult, LinterError>) -> (r:
    Result<(), ValidationError>)
    ensures
        r is Ok <==> spec_assess(package@, *eval) is None,
        r is Err ==> Some(r->Err_0@) == spec_assess(package@, *eval),
{
    match eval {
        Ok(out) => {
            if out.success {
                Ok(())
            } else {
                Err(classify_nix_eval_error(package, out.stderr.as_str()))
            }
        },
        Err(e) => Err(
            ValidationError::UnknownError { package: package.to_owned(), message: e.message() },
        ),
    }
}

/// Copies a `ValidationError`; the copy has the same view. (The derived
/// `Clone` is opaque to the verifier, so the fields are copied by hand.)
fn clone_error(e: &ValidationError) -> (r: ValidationError)
    ensures
        r@ == e@,
{
    match e {
        ValidationError::PackageNotFound { package } => ValidationError::PackageNotFound {
            package: package.clone(),
        },
        ValidationError::ArchitectureUnsupported { package, arch } =>
            ValidationError::ArchitectureUnsupported { package: package.clone(), arch: arch.clone() },
        ValidationError::UnknownError { package, message } => ValidationError::UnknownError {
            package: package.clone(),
            message: message.clone(),
        },
    }
}

/// The names, in order, of the outcomes that succeeded.
pub open spec fn spec_valid_names(rs: Seq<(String, Result<(), ValidationError>)>) -> Seq<
    Seq<char>,
>
    decreases rs.len(),
{
    if rs.len() == 0 {
        Seq::<Seq<char>>::empty()
    } else {
        let init = spec_valid_names(rs.drop_last());
        if rs.last().1 is Ok {
            init.push(rs.last().0@)
        } else {
            init
        }
    }
}

/// The failures, in order, of the outcomes that did not succeed.
pub open spec fn spec_failures(rs: Seq<(String, Result<(), ValidationError>)>) -> Seq<FailureView>
    decreases rs.len(),
{
    if rs.len() == 0 {
        Seq::<FailureView>::empty()
    } else {
        let init = spec_failures(rs.drop_last());
        match rs.last().1 {
            Ok(_) => init,
            Err(e) => init.push(e@),
        }
    }
}

/// Aggregates per-package outcomes into a single partitioned result. Each
/// outcome lands in exactly one bucket, in the order handed in.
pub fn collect_validation_results(results: Vec<(String, Result<(), ValidationError>)>) -> (r:
    ValidationResult)
    ensures
        r.valid_packages.deep_view() == spec_valid_names(results@),
        r.errors.deep_view() == spec_failures(results@),
        r.valid_packages@.len() + r.errors@.len() == results@.len(),
{
    let mut valid_packages: Vec<String> = Vec::new();
    let mut errors: Vec<ValidationError> = Vec::new();
    let mut i: usize = 0;
    proof {
        assert(results@.take(0) =~= Seq::<(String, Result<(), ValidationError>)>::empty());
        assert(valid_packages.deep_view() =~= spec_valid_names(results@.take(0)));
        assert(errors.deep_view() =~= spec_failures(results@.take(0)));
    }
    while i < results.len()
        invariant
            0 <= i <= results.len(),
            valid_packages.deep_view() == spec_valid_names(results@.take(i as int)),
            errors.deep_view() == spec_failures(results@.take(i as int)),
            valid_packages@.len() + errors@.len() == i,
        decreases results.len() - i,
    {
        proof {
            assert(results@.take(i + 1).drop_last() =~= results@.take(i as int));
            assert(results@.take(i + 1).last() == results@[i as int]);
        }
        let (package, outcome) = &results[i];
        match outcome {
            Ok(_) => {
                let ghost old_valid = valid_packages.deep_view();
                valid_packages.push(package.clone());
                proof {
                    assert(valid_packages.deep_view() =~= old_valid.push(
                        results@[i as int].0@,
                    ));
                }
            },
            Err(e) => {
                let ghost old_errors = errors.deep_view();
                errors.push(clone_error(e));
                proof {
                    assert(errors.deep_view() =~= old_errors.push(results@[i as int].1->Err_0@));
                }
            },
        }
        i += 1;
    }
    proof {
        assert(results@.take(results.len() as int) =~= results@);
    }
    ValidationResult { valid_packages, errors }
}

/// Partition invariant: for any outcome list, the two buckets together
/// account for every entry — their lengths sum to the input's length, every
/// successful entry's name is among the valid names, every failed entry's
/// classified error is among the failures, and nothing else is in either
/// bucket.
pub proof fn lemma_partition_invariant(rs: Seq<(String, Result<(), ValidationError>)>)
    ensures
        spec_valid_names(rs).len() + spec_failures(rs).len() == rs.len(),
        forall|i: int|
            0 <= i < rs.len() && rs[i].1 is Ok ==> spec_valid_names(rs).contains(
                #[trigger] rs[i].0@,
            ),
        forall|i: int|
            0 <= i < rs.len() && rs[i].1 is Err ==> spec_failures(rs).contains(
                #[trigger] (rs[i].1->Err_0@),
            ),
        forall|n: Seq<char>|
            spec_valid_names(rs).contains(n) ==> exists|i: int|
                0 <= i < rs.len() && #[trigger] rs[i].0@ == n && rs[i].1 is Ok,
        forall|f: FailureView|
            spec_failures(rs).contains(f) ==> exists|i: int|
                0 <= i < rs.len() && rs[i].1 is Err && #[trigger] (rs[i].1->Err_0@) == f,
    decreases rs.len(),
{
    if rs.len() > 0 {
        let init = rs.drop_last();
        lemma_partition_invariant(init);
        assert(forall|i: int| 0 <= i < init.len() ==> init[i] == rs[i]);
        assert forall|i: int| 0 <= i < rs.len() && rs[i].1 is Ok implies spec_valid_names(
            rs,
        ).contains(#[trigger] rs[i].0@) by {
            if i < rs.len() - 1 {
                assert(spec_valid_names(init).contains(rs[i].0@));
                let j = choose|j: int|
                    0 <= j < spec_valid_names(init).len() && spec_valid_names(init)[j] == rs[
                        i
                    ].0@;
                if rs.last().1 is Ok {
                    assert(spec_valid_names(rs)[j] == rs[i].0@);
                } else {
                    assert(spec_valid_names(rs)[j] == rs[i].0@);
                }
            } else {
                assert(spec_valid_names(rs).last() == rs[i].0@);
            }
        }
        assert forall|i: int| 0 <= i < rs.len() && rs[i].1 is Err implies spec_failures(
            rs,
        ).contains(#[trigger] (rs[i].1->Err_0@)) by {
            if i < rs.len() - 1 {
                assert(spec_failures(init).contains(rs[i].1->Err_0@));
                let j = choose|j: int|
                    0 <= j < spec_failures(init).len() && spec_failures(init)[j] == rs[
                        i
                    ].1->Err_0@;
                assert(spec_failures(rs)[j] == rs[i].1->Err_0@);
            } else {
                assert(spec_failures(rs).last() == rs[i].1->Err_0@);
            }
        }
        assert forall|n: Seq<char>| spec_valid_names(rs).contains(n) implies exists|i: int|
            0 <= i < rs.len() && #[trigger] rs[i].0@ == n && rs[i].1 is Ok by {
            let j = choose|j: int|
                0 <= j < spec_valid_names(rs).len() && spec_valid_names(rs)[j] == n;
            if rs.last().1 is Ok && j == spec_valid_names(rs).len() - 1 {
                assert(rs[rs.len() - 1].0@ == n && rs[rs.len() - 1].1 is Ok);
            } else {
                assert(spec_valid_names(init).contains(n));
            }
        }
        assert forall|f: FailureView| spec_failures(rs).contains(f) implies exists|i: int|
            0 <= i < rs.len() && rs[i].1 is Err && #[trigger] (rs[i].1->Err_0@) == f by {
            let j = choose|j: int| 0 <= j < spec_failures(rs).len() && spec_failures(rs)[j] == f;
            if rs.last().1 is Err && j == spec_failures(rs).len() - 1 {
                assert(rs[rs.len() - 1].1 is Err && rs[rs.len() - 1].1->Err_0@ == f);
            } else {
                assert(spec_failures(init).contains(f));
            }
        }
    }
}

/// Idempotence of aggregation: against a stable oracle the same outcome
/// list always yields the same partition — both buckets are functions of
/// the outcomes alone.
pub proof fn lemma_aggregation_idempotent(
    rs1: Seq<(String, Result<(), ValidationError>)>,
    rs2: Seq<(String, Result<(), ValidationError>)>,
)
    requires
        rs1 == rs2,
    ensures
        spec_valid_names(rs1) == spec_valid_names(rs2),
        spec_failures(rs1) == spec_failures(rs2),
{
}

} // verus!
