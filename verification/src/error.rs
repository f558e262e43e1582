//! Errors produced when a form field fails validation.
//!
//! A `ValidationError` names the offending field, carries a stable error
//! category, and holds its message as a template that is only rendered when
//! the message is requested. A `ValidationErrors` is the ordered collection
//! of such errors that one validation pass produces.

use crate::key::FieldKey;
use crate::shared::rc_dup;
use std::rc::Rc;
use vstd::prelude::*;

verus! {

/// One piece of an error message: literal text, or the name of the field
/// the error is about, filled in when the message is rendered.
pub enum MessagePart {
    /// Literal text, emitted as it stands.
    Text(String),
    /// The rendered text of the error's field key.
    FieldName,
}

/// The text one message part renders to, for a field whose key renders to
/// `key_text`.
pub open spec fn part_text(part: MessagePart, key_text: Seq<char>) -> Seq<char> {
    match part {
        MessagePart::Text(text) => text@,
        MessagePart::FieldName => key_text,
    }
}

/// The text a whole message template renders to, for a field whose key
/// renders to `key_text`: the texts of its parts, in order.
pub open spec fn parts_text(parts: Seq<MessagePart>, key_text: Seq<char>) -> Seq<char>
    decreases parts.len(),
{
    if parts.len() == 0 {
        Seq::empty()
    } else {
        parts_text(parts.drop_last(), key_text) + part_text(parts.last(), key_text)
    }
}

/// An error associated with a form field.
pub struct ValidationError<Key> {
    /// The key for the field that this validation error is associated with.
    pub key: Key,
    /// An identifier for the type of error this is.
    pub type_id: &'static str,
    /// Template that produces the error message, shared by all copies of
    /// this error.
    pub message: Rc<Vec<MessagePart>>,
}

impl<Key> ValidationError<Key> {
    /// The message template of this error.
    pub open spec fn message_parts(&self) -> Seq<MessagePart> {
        self.message@
    }

    /// The message this error renders to, for a field whose key renders to
    /// `key_text`.
    pub open spec fn spec_message(&self, key_text: Seq<char>) -> Seq<char> {
        parts_text(self.message_parts(), key_text)
    }

    /// Create a new `ValidationError` with a generic message, and specify
    /// the `type_id` which allows the error type to be identified
    /// programmatically.
    pub fn new(key: Key, type_id: &'static str) -> (r: Self)
        ensures
            r.key == key,
            r.type_id == type_id,
            forall|key_text: Seq<char>| r.spec_message(key_text) == "Validation error"@,
    {
        let text = String::from_str("Validation error");
        let ghost text_view = text@;
        let mut parts: Vec<MessagePart> = Vec::new();
        parts.push(MessagePart::Text(text));
        let r = ValidationError { key, type_id, message: Rc::new(parts) };
        proof {
            assert forall|key_text: Seq<char>|
                r.spec_message(key_text) == "Validation error"@ by {
                assert(r.message_parts().drop_last() =~= Seq::<MessagePart>::empty());
                assert(parts_text(Seq::<MessagePart>::empty(), key_text) == Seq::<char>::empty());
                assert(r.spec_message(key_text) =~= text_view);
            }
        }
        r
    }

    /// Factory method to set the message for this error to a constant text.
    pub fn message(self, message: String) -> (r: Self)
        ensures
            r.key == self.key,
            r.type_id == self.type_id,
            forall|key_text: Seq<char>| r.spec_message(key_text) == message@,
    {
        let ghost text = message@;
        let mut parts: Vec<MessagePart> = Vec::new();
        parts.push(MessagePart::Text(message));
        let r = ValidationError { key: self.key, type_id: self.type_id, message: Rc::new(parts) };
        proof {
            assert forall|key_text: Seq<char>| r.spec_message(key_text) == text by {
                assert(r.message_parts().drop_last() =~= Seq::<MessagePart>::empty());
                assert(parts_text(Seq::<MessagePart>::empty(), key_text)
                    == Seq::<char>::empty());
                assert(r.spec_message(key_text) =~= text);
            }
        }
        r
    }

    /// Factory method to set the message for this error from a template
    /// that is rendered lazily, each time the message is requested, with
    /// the field's key filled in for every `MessagePart::FieldName`.
    pub fn with_message(self, message: Vec<MessagePart>) -> (r: Self)
        ensures
            r.key == self.key,
            r.type_id == self.type_id,
            r.message_parts() == message@,
    {
        ValidationError { key: self.key, type_id: self.type_id, message: Rc::new(message) }
    }
}

impl<Key: FieldKey> ValidationError<Key> {
    /// Get the message for this error, rendered with the key it stores.
    pub fn get_message(&self) -> (s: String)
        ensures
            s@ == self.spec_message(self.key.text()),
    {
        let mut s = String::new();
        let ghost key_text = self.key.text();
        let parts: &Vec<MessagePart> = &*self.message;
        proof {
            assert(parts@.take(0) =~= Seq::<MessagePart>::empty());
        }
        for i in 0..parts.len()
            invariant
                key_text == self.key.text(),
                s@ == parts_text(parts@.take(i as int), key_text),
        {
            proof {
                assert(parts@.take(i as int + 1).drop_last() =~= parts@.take(i as int));
                assert(parts@.take(i as int + 1).last() == parts@[i as int]);
            }
            match &parts[i] {
                MessagePart::Text(text) => {
                    s.append(text.as_str());
                },
                MessagePart::FieldName => {
                    let rendered = self.key.render();
                    s.append(rendered.as_str());
                },
            }
            proof {
                assert(s@ =~= parts_text(parts@.take(i as int + 1), key_text));
            }
        }
        proof {
            assert(parts@.take(parts@.len() as int) =~= parts@);
        }
        s
    }
}

impl<Key: FieldKey> Clone for ValidationError<Key> {
    /// An equal copy of this error: same key, same category, and the same
    /// shared message template.
    fn clone(&self) -> (r: Self)
        ensures
            r == *self,
    {
        ValidationError {
            key: self.key.dup(),
            type_id: self.type_id,
            message: rc_dup(&self.message),
        }
    }
}

/// The errors of `errors` whose key renders to `key_text`, in their
/// original relative order.
pub open spec fn errors_for<Key: FieldKey>(
    errors: Seq<ValidationError<Key>>,
    key_text: Seq<char>,
) -> Seq<ValidationError<Key>>
    decreases errors.len(),
{
    if errors.len() == 0 {
        Seq::empty()
    } else {
        let rest = errors_for(errors.drop_last(), key_text);
        if errors.last().key.text() == key_text {
            rest.push(errors.last())
        } else {
            rest
        }
    }
}

/// The diagnostic text a collection of errors renders to: each error's
/// message, joined by a comma and a space, in collection order.
pub open spec fn errors_text<Key: FieldKey>(errors: Seq<ValidationError<Key>>) -> Seq<char>
    decreases errors.len(),
{
    if errors.len() == 0 {
        Seq::empty()
    } else if errors.len() == 1 {
        errors[0].spec_message(errors[0].key.text())
    } else {
        errors_text(errors.drop_last()) + ", "@ + errors.last().spec_message(
            errors.last().key.text(),
        )
    }
}

/// A collection of `ValidationError`s as a result of validating the fields
/// of a form. Insertion order is preserved and duplicates are kept.
pub struct ValidationErrors<Key> {
    /// The errors, in the order they were collected.
    pub errors: Vec<ValidationError<Key>>,
}

impl<Key> ValidationErrors<Key> {
    /// Create a new `ValidationErrors` holding the given errors, in order.
    pub fn new(errors: Vec<ValidationError<Key>>) -> (r: Self)
        ensures
            r.errors == errors,
    {
        ValidationErrors { errors }
    }

    /// Returns true if there are no errors in this collection.
    pub fn is_empty(&self) -> (r: bool)
        ensures
            r == (self.errors@.len() == 0),
    {
        self.errors.len() == 0
    }

    /// The number of errors in this collection.
    pub fn len(&self) -> (r: usize)
        ensures
            r == self.errors@.len(),
    {
        self.errors.len()
    }

    /// Extend this collection of errors with the contents of another
    /// collection, appending the other's errors after this one's.
    pub fn extend(&mut self, errors: ValidationErrors<Key>)
        ensures
            final(self).errors@ == old(self).errors@ + errors.errors@,
    {
        let mut other = errors;
        self.errors.append(&mut other.errors);
    }
}

impl<Key: FieldKey> ValidationErrors<Key> {
    /// Get errors associated with the specified field key, or `None` if
    /// there are no errors for that field. The matching errors keep their
    /// relative order.
    pub fn get(&self, key: &Key) -> (r: Option<ValidationErrors<Key>>)
        ensures
            match r {
                Some(matched) => matched.errors@ == errors_for(self.errors@, key.text())
                    && matched.errors@.len() > 0,
                None => errors_for(self.errors@, key.text()).len() == 0,
            },
    {
        let mut matched: Vec<ValidationError<Key>> = Vec::new();
        proof {
            assert(self.errors@.take(0) =~= Seq::<ValidationError<Key>>::empty());
        }
        for i in 0..self.errors.len()
            invariant
                matched@ == errors_for(self.errors@.take(i as int), key.text()),
        {
            proof {
                assert(self.errors@.take(i as int + 1).drop_last() =~= self.errors@.take(
                    i as int,
                ));
                assert(self.errors@.take(i as int + 1).last() == self.errors@[i as int]);
            }
            let error = &self.errors[i];
            if error.key.key_eq(key) {
                matched.push(error.clone());
            }
        }
        proof {
            assert(self.errors@.take(self.errors@.len() as int) =~= self.errors@);
        }
        if matched.len() > 0 {
            Some(ValidationErrors::new(matched))
        } else {
            None
        }
    }

    /// The diagnostic text of this collection: every error's message,
    /// joined by a comma and a space, in collection order.
    pub fn to_text(&self) -> (s: String)
        ensures
            s@ == errors_text(self.errors@),
    {
        let mut s = String::new();
        proof {
            assert(self.errors@.take(0) =~= Seq::<ValidationError<Key>>::empty());
        }
        for i in 0..self.errors.len()
            invariant
                s@ == errors_text(self.errors@.take(i as int)),
        {
            proof {
                assert(self.errors@.take(i as int + 1).drop_last() =~= self.errors@.take(
                    i as int,
                ));
                assert(self.errors@.take(i as int + 1).last() == self.errors@[i as int]);
                assert(self.errors@.take(i as int + 1)[0] == self.errors@[0]);
            }
            if i > 0 {
                s.append(", ");
            }
            let message = self.errors[i].get_message();
            s.append(message.as_str());
            proof {
                if i == 0 {
                    assert(s@ =~= errors_text(self.errors@.take(1)));
                }
            }
        }
        proof {
            assert(self.errors@.take(self.errors@.len() as int) =~= self.errors@);
        }
        s
    }
}

impl<Key: FieldKey> Clone for ValidationErrors<Key> {
    /// A copy of this collection holding equal errors in the same order.
    fn clone(&self) -> (r: Self)
        ensures
            r.errors@ == self.errors@,
    {
        let mut errors: Vec<ValidationError<Key>> = Vec::new();
        proof {
            assert(self.errors@.take(0) =~= Seq::<ValidationError<Key>>::empty());
        }
        for i in 0..self.errors.len()
            invariant
                errors@ == self.errors@.take(i as int),
        {
            proof {
                assert(self.errors@.take(i as int + 1) =~= self.errors@.take(i as int).push(
                    self.errors@[i as int],
                ));
            }
            errors.push(self.errors[i].clone());
        }
        proof {
            assert(self.errors@.take(self.errors@.len() as int) =~= self.errors@);
        }
        ValidationErrors { errors }
    }
}

impl<Key> Default for ValidationErrors<Key> {
    /// The empty collection: the identity element for `extend`.
    fn default() -> (r: Self)
        ensures
            r.errors@ == Seq::<ValidationError<Key>>::empty(),
    {
        ValidationErrors { errors: Vec::new() }
    }
}

} // verus!
