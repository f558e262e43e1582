//! An ordered collection of validation rules for one kind of value.

use crate::concat_results::flatten_errors;
use crate::error::ValidationError;
use crate::error::ValidationErrors;
use crate::validation::failure_errors;
use crate::validation::outcome_matches;
use crate::validation::Validation;
use crate::validator_fn::ValidatorFn;
use vstd::prelude::*;
use vstd::std_specs::cmp::PartialEqSpec;

verus! {

/// The errors that a list of rules reports for `value` held by the field
/// `key`: each rule's own errors in their own order, rule after rule in
/// registration order, successes contributing nothing.
pub open spec fn rules_failures<Value, Key, R: Validation<Value, Key>>(
    rules: Seq<ValidatorFn<Value, Key, R>>,
    value: Value,
    key: Key,
) -> Seq<ValidationError<Key>>
    decreases rules.len(),
{
    if rules.len() == 0 {
        Seq::empty()
    } else {
        rules_failures(rules.drop_last(), value, key) + failure_errors(
            rules.last().spec_validate(value, key),
        )
    }
}

/// The identity tokens of a list of rules, in order.
pub open spec fn rule_ids<Value, Key, R: Validation<Value, Key>>(
    rules: Seq<ValidatorFn<Value, Key, R>>,
) -> Seq<u128> {
    rules.map_values(|rule: ValidatorFn<Value, Key, R>| rule.spec_id())
}

/// Validates a particular type of value; can contain many validation
/// rules. Generally used with a single key for all contained rules.
///
/// Running a validator runs every rule, in the order they were added, and
/// unions their errors in that order: a failing rule never hides a later
/// rule's findings.
pub struct Validator<Value, Key, R> where R: Validation<Value, Key> {
    /// The rules this validator applies, in the order they were added.
    pub validations: Vec<ValidatorFn<Value, Key, R>>,
}

impl<Value, Key, R: Validation<Value, Key>> Validator<Value, Key, R> {
    /// Create a new `Validator` with no rules.
    pub fn new() -> (r: Self)
        ensures
            r.validations@ == Seq::<ValidatorFn<Value, Key, R>>::empty(),
    {
        Validator { validations: Vec::new() }
    }

    /// A factory method to add a validation rule to this validator, after
    /// all the rules already added.
    pub fn validation(self, validator_fn: ValidatorFn<Value, Key, R>) -> (r: Self)
        ensures
            r.validations@ == self.validations@.push(validator_fn),
    {
        let mut updated = self;
        updated.validations.push(validator_fn);
        updated
    }
}

impl<Value, Key, R: Validation<Value, Key>> Validation<Value, Key> for Validator<Value, Key, R> {
    /// Success when every rule accepts the input; otherwise every rule's
    /// errors, in registration order.
    open spec fn spec_validate(&self, value: Value, key: Key) -> Result<
        (),
        Seq<ValidationError<Key>>,
    > {
        if rules_failures(self.validations@, value, key).len() == 0 {
            Ok(())
        } else {
            Err(rules_failures(self.validations@, value, key))
        }
    }

    /// Runs every rule in insertion order against `(value, key)`; collects
    /// failures by extending an accumulator in rule order; returns success
    /// only if the accumulator stayed empty.
    fn validate_value(&self, value: &Value, key: &Key) -> (r: Result<(), ValidationErrors<Key>>) {
        let mut errors: ValidationErrors<Key> = ValidationErrors::default();

        proof {
            assert(self.validations@.take(0) =~= Seq::<ValidatorFn<Value, Key, R>>::empty());
        }
        for i in 0..self.validations.len()
            invariant
                errors.errors@ == rules_failures(self.validations@.take(i as int), *value, *key),
        {
            proof {
                assert(self.validations@.take(i as int + 1).drop_last() =~= self.validations@.take(
                    i as int,
                ));
                assert(self.validations@.take(i as int + 1).last() == self.validations@[i as int]);
            }
            if let Err(new_errors) = self.validations[i].validate_value(value, key) {
                errors.extend(new_errors);
            }
            proof {
                assert(errors.errors@ =~= rules_failures(
                    self.validations@.take(i as int + 1),
                    *value,
                    *key,
                ));
            }
        }
        proof {
            assert(self.validations@.take(self.validations@.len() as int) =~= self.validations@);
        }

        if !errors.is_empty() {
            Err(errors)
        } else {
            Ok(())
        }
    }
}

impl<Value, Key, R: Validation<Value, Key>> Default for Validator<Value, Key, R> {
    /// The empty validator, which accepts every input.
    fn default() -> (r: Self)
        ensures
            r.validations@ == Seq::<ValidatorFn<Value, Key, R>>::empty(),
    {
        Validator::new()
    }
}

impl<Value, Key, R: Validation<Value, Key>> Clone for Validator<Value, Key, R> {
    /// A copy holding equal rules in the same order: every rule is shared
    /// with the original and keeps its identity token.
    fn clone(&self) -> (r: Self)
        ensures
            r.validations@ == self.validations@,
    {
        let mut validations: Vec<ValidatorFn<Value, Key, R>> = Vec::new();
        proof {
            assert(self.validations@.take(0) =~= Seq::<ValidatorFn<Value, Key, R>>::empty());
        }
        for i in 0..self.validations.len()
            invariant
                validations@ == self.validations@.take(i as int),
        {
            proof {
                assert(self.validations@.take(i as int + 1) =~= self.validations@.take(
                    i as int,
                ).push(self.validations@[i as int]));
            }
            validations.push(self.validations[i].clone());
        }
        proof {
            assert(self.validations@.take(self.validations@.len() as int) =~= self.validations@);
        }
        Validator { validations }
    }
}

impl<Value, Key, R: Validation<Value, Key>> PartialEq for Validator<Value, Key, R> {
    /// Two validators are equal exactly when they hold the same number of
    /// rules and each positional pair of rules carries the same identity
    /// token.
    fn eq(&self, other: &Self) -> (r: bool) {
        if self.validations.len() == other.validations.len() {
            let mut all_validations_same = true;
            for i in 0..self.validations.len()
                invariant
                    self.validations@.len() == other.validations@.len(),
                    all_validations_same == (forall|j: int|
                        0 <= j < i ==> self.validations@[j].spec_id()
                            == other.validations@[j].spec_id()),
            {
                all_validations_same = all_validations_same && self.validations[i].eq(
                    &other.validations[i],
                );
            }
            proof {
                if all_validations_same {
                    assert(rule_ids(self.validations@) =~= rule_ids(other.validations@));
                } else {
                    assert(rule_ids(self.validations@).len() == self.validations@.len());
                    let j = choose|j: int|
                        0 <= j < self.validations@.len() && self.validations@[j].spec_id()
                            != other.validations@[j].spec_id();
                    assert(rule_ids(self.validations@)[j] != rule_ids(other.validations@)[j]);
                }
            }
            all_validations_same
        } else {
            proof {
                assert(rule_ids(self.validations@).len() == self.validations@.len());
                assert(rule_ids(other.validations@).len() == other.validations@.len());
            }
            false
        }
    }
}

impl<Value, Key, R: Validation<Value, Key>> vstd::std_specs::cmp::PartialEqSpecImpl for Validator<Value, Key, R> {
    open spec fn obeys_eq_spec() -> bool {
        true
    }

    open spec fn eq_spec(&self, other: &Self) -> bool {
        rule_ids(self.validations@) == rule_ids(other.validations@)
    }
}

/// Aggregation depends only on the per-rule outcomes, in registration
/// order: if each outcome in a list is the outcome of the rule at the
/// same position — however and in whatever order the outcomes were
/// computed — then flattening the list, as `concat_results` does, gives
/// exactly the error list that running the rules one after the other
/// gives.
pub proof fn lemma_flatten_of_rule_outcomes<Value, Key, R: Validation<Value, Key>>(
    rules: Seq<ValidatorFn<Value, Key, R>>,
    outcomes: Seq<Result<(), ValidationErrors<Key>>>,
    value: Value,
    key: Key,
)
    requires
        outcomes.len() == rules.len(),
        forall|i: int|
            0 <= i < rules.len() ==> outcome_matches(
                #[trigger] outcomes[i],
                rules[i].spec_validate(value, key),
            ),
    ensures
        flatten_errors(outcomes) == rules_failures(rules, value, key),
    decreases rules.len(),
{
    if rules.len() > 0 {
        let rules_rest = rules.drop_last();
        let outcomes_rest = outcomes.drop_last();
        assert(forall|i: int| 0 <= i < rules_rest.len() ==> #[trigger] rules_rest[i] == rules[i]);
        assert(forall|i: int|
            0 <= i < outcomes_rest.len() ==> #[trigger] outcomes_rest[i] == outcomes[i]);
        lemma_flatten_of_rule_outcomes(rules_rest, outcomes_rest, value, key);
        assert(outcomes[outcomes.len() - 1] == outcomes.last());
        assert(flatten_errors(outcomes) =~= rules_failures(rules, value, key));
    }
}

/// Validator equality is positional rule identity: two validators are
/// equal exactly when they hold the same number of rules and the rules at
/// each position carry the same identity token.
pub proof fn lemma_validator_eq_is_pairwise_rule_identity<Value, Key, R: Validation<Value, Key>>(
    left: Validator<Value, Key, R>,
    right: Validator<Value, Key, R>,
)
    ensures
        left.eq_spec(&right) <==> (left.validations@.len() == right.validations@.len() && (forall|
            i: int,
        |
            0 <= i < left.validations@.len() ==> left.validations@[i].spec_id()
                == right.validations@[i].spec_id())),
{
    assert(rule_ids(left.validations@).len() == left.validations@.len());
    assert(rule_ids(right.validations@).len() == right.validations@.len());
    if left.validations@.len() == right.validations@.len() && (forall|i: int|
        0 <= i < left.validations@.len() ==> left.validations@[i].spec_id()
            == right.validations@[i].spec_id()) {
        assert(rule_ids(left.validations@) =~= rule_ids(right.validations@));
    }
    if left.eq_spec(&right) {
        assert forall|i: int| 0 <= i < left.validations@.len() implies left.validations@[i].spec_id()
            == right.validations@[i].spec_id() by {
            assert(rule_ids(left.validations@)[i] == rule_ids(right.validations@)[i]);
        }
    }
}

} // verus!
