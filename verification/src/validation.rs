//! The contract of one validation rule.

use crate::error::ValidationError;
use crate::error::ValidationErrors;
use vstd::prelude::*;

verus! {

/// The errors a validation outcome carries: none on success, the failure's
/// own errors otherwise.
pub open spec fn failure_errors<Key>(
    outcome: Result<(), Seq<ValidationError<Key>>>,
) -> Seq<ValidationError<Key>> {
    match outcome {
        Ok(()) => Seq::empty(),
        Err(errors) => errors,
    }
}

/// Whether an executable validation outcome is the given
/// specification-level outcome: success exactly when the specification
/// says success, and on failure exactly the errors the specification
/// gives, in their order.
pub open spec fn outcome_matches<Key>(
    outcome: Result<(), ValidationErrors<Key>>,
    spec_outcome: Result<(), Seq<ValidationError<Key>>>,
) -> bool {
    &&& (outcome is Ok) == (spec_outcome is Ok)
    &&& (outcome matches Err(errors) ==> spec_outcome matches Err(spec_errors)
        && errors.errors@ == spec_errors)
}

/// A rule that can validate a value of a given `Value` type held by a form
/// field named by a `Key`.
///
/// `spec_validate` is the rule's own statement of which inputs it accepts
/// and which errors it reports; `validate_value` must return exactly that
/// outcome.
pub trait Validation<Value, Key> {
    /// The outcome this rule gives to `value` held by the field `key`:
    /// success, or the errors it reports, in order.
    spec fn spec_validate(&self, value: Value, key: Key) -> Result<(), Seq<ValidationError<Key>>>;

    /// Validate a given form field referenced by a given `Key`, that
    /// contains a given `Value`; returns the errors if there are any.
    fn validate_value(&self, value: &Value, key: &Key) -> (r: Result<(), ValidationErrors<Key>>)
        ensures
            outcome_matches(r, self.spec_validate(*value, *key)),
    ;
}

} // verus!
