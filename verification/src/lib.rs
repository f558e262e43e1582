//! A small composable library for validating the fields of a form.
//!
//! A form type implements `Validatable`: its `validate` method runs one
//! validator per field and joins the per-field outcomes with
//! `concat_results`. Each validator holds an ordered list of rules; every
//! rule reports either success or a `ValidationErrors` collection, and a
//! validator unions the error collections of all of its rules, in rule
//! order.

pub mod concat_results;
pub mod error;
pub mod key;
mod shared;
pub mod validatable;
pub mod validation;
pub mod validator;
pub mod validator_fn;

pub use concat_results::concat_results;
pub use error::MessagePart;
pub use error::ValidationError;
pub use error::ValidationErrors;
pub use key::FieldKey;
pub use validatable::Validatable;
pub use validation::Validation;
pub use validator::Validator;
pub use validator_fn::ValidatorFn;
