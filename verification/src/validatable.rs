//! The contract of an item, such as a whole form, that can be validated.

use crate::error::ValidationError;
use crate::error::ValidationErrors;
use crate::validation::failure_errors;
use crate::validation::outcome_matches;
use vstd::prelude::*;

verus! {

/// An item that can be validated.
///
/// `spec_validate` is the item's own statement of when it is valid and
/// which errors it reports; `validate` must return exactly that outcome.
pub trait Validatable<Key> {
    /// The outcome of validating this item: success, or the errors it
    /// reports, in order.
    spec fn spec_validate(&self) -> Result<(), Seq<ValidationError<Key>>>;

    /// Validate this item. Returns `Ok(())` if no errors were encountered,
    /// and returns `Err(ValidationErrors)` if any errors were encountered.
    fn validate(&self) -> (r: Result<(), ValidationErrors<Key>>)
        ensures
            outcome_matches(r, self.spec_validate()),
    ;

    /// Validate this item. Returns an empty `ValidationErrors` if no errors
    /// were encountered during validation.
    fn validate_or_empty(&self) -> (r: ValidationErrors<Key>)
        ensures
            r.errors@ == failure_errors(self.spec_validate()),
    {
        match self.validate() {
            Ok(()) => ValidationErrors::default(),
            Err(errors) => errors,
        }
    }
}

} // verus!
