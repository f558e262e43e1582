//! The key that names a form field.
//!
//! A key is an opaque, comparable identifier: two keys name the same field
//! exactly when they render to the same text. `FieldKey` makes that text the
//! specification-level identity of a key, so that error lookup and message
//! rendering can be specified over one model.

use vstd::prelude::*;

verus! {

/// An identifier for a form field, modelled by the text it renders to.
pub trait FieldKey: Sized {
    /// The text that identifies this key.
    spec fn text(&self) -> Seq<char>;

    /// Two keys name the same field exactly when their texts are equal.
    fn key_eq(&self, other: &Self) -> (r: bool)
        ensures
            r == (self.text() == other.text()),
    ;

    /// An equal copy of this key.
    fn dup(&self) -> (r: Self)
        ensures
            r == *self,
    ;

    /// The key's text, for use in error messages.
    fn render(&self) -> (r: String)
        ensures
            r@ == self.text(),
    ;
}

impl FieldKey for String {
    open spec fn text(&self) -> Seq<char> {
        self@
    }

    fn key_eq(&self, other: &Self) -> (r: bool) {
        self.eq(other)
    }

    fn dup(&self) -> (r: Self) {
        self.clone()
    }

    fn render(&self) -> (r: String) {
        self.clone()
    }
}

} // verus!
