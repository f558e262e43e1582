//! One validation rule paired with an identity token.

use crate::error::ValidationErrors;
use crate::shared::rc_dup;
use crate::validation::Validation;
use std::marker::PhantomData;
use std::rc::Rc;
use vstd::prelude::*;
use vstd::std_specs::cmp::PartialEqSpec;

verus! {

/// Relies on `uuid::Uuid::new_v4` for a freshly generated random
/// 128-bit identity token. Nothing is promised of the value: in
/// particular, two calls may in principle return the same token.
#[verifier::external_body]
pub(crate) fn fresh_token() -> (t: u128) {
    uuid::Uuid::new_v4().as_u128()
}

/// A rule to perform validation on a form field, paired with a
/// process-unique identity token.
///
/// Two `ValidatorFn`s are compared by token alone: separately constructed
/// rules are distinct even when they behave identically, while every
/// shared copy of one rule equals the original.
pub struct ValidatorFn<Value, Key, R> where R: Validation<Value, Key> {
    rule: Rc<R>,
    id: u128,
    value_type: PhantomData<Value>,
    key_type: PhantomData<Key>,
}

impl<Value, Key, R: Validation<Value, Key>> ValidatorFn<Value, Key, R> {
    /// The rule this `ValidatorFn` applies.
    pub closed spec fn spec_rule(&self) -> R {
        *self.rule
    }

    /// The identity token of this `ValidatorFn`.
    pub closed spec fn spec_id(&self) -> u128 {
        self.id
    }

    /// Create a new `ValidatorFn` wrapping the given rule, with a fresh
    /// identity token.
    pub fn new(rule: R) -> (r: Self)
        ensures
            r.spec_rule() == rule,
    {
        ValidatorFn {
            rule: Rc::new(rule),
            id: fresh_token(),
            value_type: PhantomData,
            key_type: PhantomData,
        }
    }

    /// The identity token of this `ValidatorFn`.
    pub fn id(&self) -> (r: u128)
        ensures
            r == self.spec_id(),
    {
        self.id
    }
}

impl<Value, Key, R: Validation<Value, Key>> Validation<Value, Key> for ValidatorFn<
    Value,
    Key,
    R,
> {
    /// The outcome of the wrapped rule, unchanged.
    open spec fn spec_validate(&self, value: Value, key: Key) -> Result<
        (),
        Seq<crate::error::ValidationError<Key>>,
    > {
        self.spec_rule().spec_validate(value, key)
    }

    /// Applies the wrapped rule and returns its result unchanged.
    fn validate_value(&self, value: &Value, key: &Key) -> (r: Result<(), ValidationErrors<Key>>) {
        (*self.rule).validate_value(value, key)
    }
}

impl<Value, Key, R: Validation<Value, Key>> Clone for ValidatorFn<Value, Key, R> {
    /// A copy sharing the same rule and carrying the same identity token,
    /// so that the copy equals the original.
    fn clone(&self) -> (r: Self)
        ensures
            r == *self,
    {
        ValidatorFn {
            rule: rc_dup(&self.rule),
            id: self.id,
            value_type: PhantomData,
            key_type: PhantomData,
        }
    }
}

impl<Value, Key, R: Validation<Value, Key>> PartialEq for ValidatorFn<Value, Key, R> {
    /// Identity-based equality: two `ValidatorFn`s are equal exactly when
    /// they carry the same identity token.
    fn eq(&self, other: &Self) -> (r: bool) {
        self.id == other.id
    }
}

impl<Value, Key, R: Validation<Value, Key>> vstd::std_specs::cmp::PartialEqSpecImpl for ValidatorFn<Value, Key, R> {
    open spec fn obeys_eq_spec() -> bool {
        true
    }

    open spec fn eq_spec(&self, other: &Self) -> bool {
        self.spec_id() == other.spec_id()
    }
}

/// A `ValidatorFn` always equals itself: identity-based equality is
/// reflexive, and in particular every shared copy of a rule equals the
/// original.
pub proof fn lemma_validator_fn_eq_reflexive<Value, Key, R: Validation<Value, Key>>(
    rule: ValidatorFn<Value, Key, R>,
)
    ensures
        rule.eq_spec(&rule),
{
}

} // verus!
