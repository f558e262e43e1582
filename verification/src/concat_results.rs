//! Joining the outcomes of validating many fields into one outcome.

use crate::error::ValidationError;
use crate::error::ValidationErrors;
use vstd::prelude::*;

verus! {

/// All the errors carried by a sequence of validation outcomes, in outcome
/// order, each failing outcome contributing its own errors in their order.
pub open spec fn flatten_errors<Key>(
    results: Seq<Result<(), ValidationErrors<Key>>>,
) -> Seq<ValidationError<Key>>
    decreases results.len(),
{
    if results.len() == 0 {
        Seq::empty()
    } else {
        flatten_errors(results.drop_last()) + (match results.last() {
            Ok(()) => Seq::empty(),
            Err(errors) => errors.errors@,
        })
    }
}

/// Flattening distributes over concatenation: joining the outcomes of two
/// passes one after the other collects the same errors, in the same order,
/// as joining all the outcomes in one pass.
pub proof fn lemma_flatten_errors_add<Key>(
    left: Seq<Result<(), ValidationErrors<Key>>>,
    right: Seq<Result<(), ValidationErrors<Key>>>,
)
    ensures
        flatten_errors(left + right) == flatten_errors(left) + flatten_errors(right),
    decreases right.len(),
{
    if right.len() == 0 {
        assert(left + right =~= left);
        assert(flatten_errors(left) + flatten_errors(right) =~= flatten_errors(left));
    } else {
        lemma_flatten_errors_add(left, right.drop_last());
        assert((left + right).drop_last() =~= left + right.drop_last());
        assert((left + right).last() == right.last());
        assert(flatten_errors(left) + flatten_errors(right) =~= flatten_errors(left)
            + flatten_errors(right.drop_last()) + (match right.last() {
            Ok(()) => Seq::<ValidationError<Key>>::empty(),
            Err(errors) => errors.errors@,
        }));
    }
}

/// The total number of errors carried by a sequence of validation
/// outcomes, successes counting for nothing.
pub open spec fn total_error_len<Key>(
    results: Seq<Result<(), ValidationErrors<Key>>>,
) -> nat
    decreases results.len(),
{
    if results.len() == 0 {
        0
    } else {
        total_error_len(results.drop_last()) + (match results.last() {
            Ok(()) => 0,
            Err(errors) => errors.errors@.len(),
        })
    }
}

/// The flattened error list is exactly as long as the sum of the
/// individual outcomes' error lists.
pub proof fn lemma_flatten_errors_len<Key>(results: Seq<Result<(), ValidationErrors<Key>>>)
    ensures
        flatten_errors(results).len() == total_error_len(results),
    decreases results.len(),
{
    if results.len() > 0 {
        lemma_flatten_errors_len(results.drop_last());
    }
}

/// Success comes exactly from a run of successes: when every failing
/// outcome carries at least one error, the flattened error list is empty
/// if and only if every outcome succeeded.
pub proof fn lemma_flatten_errors_empty_iff_all_ok<Key>(
    results: Seq<Result<(), ValidationErrors<Key>>>,
)
    requires
        forall|i: int|
            0 <= i < results.len() ==> ((#[trigger] results[i]) matches Err(errors)
                ==> errors.errors@.len() > 0),
    ensures
        (flatten_errors(results).len() == 0) <==> (forall|i: int|
            0 <= i < results.len() ==> (#[trigger] results[i]) is Ok),
    decreases results.len(),
{
    if results.len() > 0 {
        let rest = results.drop_last();
        assert(results.last() == results[results.len() - 1]);
        assert(forall|i: int| 0 <= i < rest.len() ==> #[trigger] rest[i] == results[i]);
        lemma_flatten_errors_empty_iff_all_ok(rest);
        if flatten_errors(results).len() == 0 {
            assert(results[results.len() - 1] is Ok);
            assert(flatten_errors(rest).len() == 0);
            assert forall|i: int| 0 <= i < results.len() implies (#[trigger] results[i]) is Ok by {
                if i < results.len() - 1 {
                    assert(rest[i] == results[i]);
                }
            }
        } else {
            if forall|i: int| 0 <= i < results.len() ==> (#[trigger] results[i]) is Ok {
                assert(results[results.len() - 1] is Ok);
                assert forall|i: int| 0 <= i < rest.len() implies (#[trigger] rest[i]) is Ok by {
                    assert(rest[i] == results[i]);
                }
                assert(flatten_errors(rest).len() == 0);
                assert(flatten_errors(results).len() == 0);
            }
        }
    }
}

/// Join validation results, concatenating any errors they may contain. If
/// any of the results holds an error, the call returns an `Err` carrying
/// all the errors from all the results, in input order.
pub fn concat_results<Key>(results: Vec<Result<(), ValidationErrors<Key>>>) -> (r: Result<
    (),
    ValidationErrors<Key>,
>)
    ensures
        r is Ok <==> flatten_errors(results@).len() == 0,
        r matches Err(all_errors) ==> all_errors.errors@ == flatten_errors(results@),
{
    let ghost all_results = results@;
    let mut remaining = results;
    let mut all_errors: ValidationErrors<Key> = ValidationErrors::default();
    let ghost mut done: int = 0;

    proof {
        assert(all_results.take(0) =~= Seq::<Result<(), ValidationErrors<Key>>>::empty());
        assert(all_results.skip(0) =~= all_results);
    }
    while remaining.len() > 0
        invariant
            0 <= done,
            done + remaining@.len() == all_results.len(),
            remaining@ == all_results.skip(done),
            all_errors.errors@ == flatten_errors(all_results.take(done)),
        decreases remaining@.len(),
    {
        proof {
            assert(all_results.take(done + 1).drop_last() =~= all_results.take(done));
            assert(all_results.take(done + 1).last() == all_results[done]);
            assert(remaining@[0] == all_results[done]);
        }
        let result = remaining.remove(0);
        if let Err(errors) = result {
            all_errors.extend(errors);
        }
        proof {
            assert(all_errors.errors@ =~= flatten_errors(all_results.take(done + 1)));
            assert(all_results.skip(done).remove(0) =~= all_results.skip(done + 1));
            done = done + 1;
        }
    }
    proof {
        assert(all_results.take(all_results.len() as int) =~= all_results);
    }

    if !all_errors.is_empty() {
        Err(all_errors)
    } else {
        Ok(())
    }
}

} // verus!
