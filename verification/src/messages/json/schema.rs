//! What it means for a message to conform to a schema.
//!
//! A schema is an ordered list of field rules. A message conforms when it
//! reads as an object and every rule holds of it; otherwise the outcome is
//! the failure of the first rule, in the schema's order, that does not hold.

use vstd::prelude::*;
use vstd::utf8::{decode_utf8, encode_utf8, valid_utf8};
use crate::messages::{AlicaMessageJsonValidator, Outcome, ValidationFailure, outcomes};
use crate::messages::json::document::{
    Document,
    Members,
    dumped,
    has_overlong_fraction,
    member,
    parse_outcome,
};

verus! {

/// What a rule asks of the field's value.
pub enum Check {
    /// The value is a string.
    Text,
    /// The value is a number in integral representation.
    Integer,
    /// The value is a boolean.
    Boolean,
    /// The value is an array whose elements are all integers.
    IntegerList,
    /// The value, written out as bytes, is accepted by a validator.
    Nested(spec_fn(Seq<u8>) -> Outcome),
    /// The value is an array, and each element, written out as bytes, is
    /// accepted by a validator.
    NestedList(spec_fn(Seq<u8>) -> Outcome),
}

impl Check {
    /// The check that a validator accepts the value.
    pub open spec fn by<V: AlicaMessageJsonValidator + ?Sized>(validator: &V) -> Check {
        Check::Nested(outcomes(validator))
    }

    /// The check that the value is an array and a validator accepts each of
    /// its elements.
    pub open spec fn each_by<V: AlicaMessageJsonValidator + ?Sized>(validator: &V) -> Check {
        Check::NestedList(outcomes(validator))
    }
}

/// One required field and what is asked of its value.
pub struct FieldRule {
    pub name: Seq<char>,
    pub check: Check,
}

/// An ordered list of field rules.
pub type Schema = Seq<FieldRule>;

/// The bytes that a nested validator is handed for a document.
pub open spec fn bytes_of(document: Document) -> Seq<u8> {
    encode_utf8(dumped(document))
}

/// The document is a number in integral representation: its mantissa stands
/// for it as it is, with exponent zero.
pub open spec fn is_integer(document: Document) -> bool {
    document matches Document::Number { exponent, .. } && exponent == 0
}

/// Every element is a number in integral representation.
pub open spec fn all_integers(items: Seq<Document>) -> bool {
    forall|i: int| 0 <= i < items.len() ==> is_integer(#[trigger] items[i])
}

/// A malformed field: the field's name followed by what is wrong with it.
pub open spec fn malformed(name: Seq<char>, complaint: Seq<char>) -> Outcome {
    Err(ValidationFailure::InvalidFormat(name + complaint))
}

/// The outcome of handing the elements from `start` on to a validator, one
/// by one: the failure of the first element it rejects, if it rejects any.
pub open spec fn items_outcome(
    items: Seq<Document>,
    validator: spec_fn(Seq<u8>) -> Outcome,
    start: int,
) -> Outcome
    decreases items.len() - start,
{
    if 0 <= start < items.len() {
        match validator(bytes_of(items[start])) {
            Err(failure) => Err(failure),
            Ok(_) => items_outcome(items, validator, start + 1),
        }
    } else {
        Ok(())
    }
}

/// The outcome of one check on a value that is present.
pub open spec fn value_outcome(document: Document, name: Seq<char>, check: Check) -> Outcome {
    match check {
        Check::Text => if document is Text {
            Ok(())
        } else {
            malformed(name, " is no string"@)
        },
        Check::Integer => if is_integer(document) {
            Ok(())
        } else {
            malformed(name, " is no integer"@)
        },
        Check::Boolean => if document is Boolean {
            Ok(())
        } else {
            malformed(name, " is no boolean"@)
        },
        Check::IntegerList => match document {
            Document::Array(items) => if all_integers(items) {
                Ok(())
            } else {
                malformed(name, " contains a non integer entry"@)
            },
            _ => malformed(name, " is no array"@),
        },
        Check::Nested(validator) => validator(bytes_of(document)),
        Check::NestedList(validator) => match document {
            Document::Array(items) => items_outcome(items, validator, 0),
            _ => malformed(name, " is no array"@),
        },
    }
}

/// The outcome of one rule on the members of an object: the field is
/// missing, or its value is checked.
pub open spec fn check_outcome(members: Members, name: Seq<char>, check: Check) -> Outcome {
    match member(members, name) {
        None => Err(ValidationFailure::MissingField(name)),
        Some(document) => value_outcome(document, name, check),
    }
}

/// The outcome of the rules from `start` on, in order: the failure of the
/// first rule that does not hold, if there is one.
pub open spec fn rules_outcome(members: Members, schema: Schema, start: int) -> Outcome
    decreases schema.len() - start,
{
    if 0 <= start < schema.len() {
        match check_outcome(members, schema[start].name, schema[start].check) {
            Err(failure) => Err(failure),
            Ok(_) => rules_outcome(members, schema, start + 1),
        }
    } else {
        Ok(())
    }
}

/// Reading a message as an object: its members, or why it is no object.
pub open spec fn read_object(message: Seq<u8>) -> Result<Members, ValidationFailure> {
    if !valid_utf8(message) {
        Err(ValidationFailure::InvalidFormat("Message is no UTF-8 string"@))
    } else if has_overlong_fraction(message) {
        Err(ValidationFailure::InvalidFormat("Message is no JSON structure"@))
    } else {
        match parse_outcome(decode_utf8(message)) {
            None => Err(ValidationFailure::InvalidFormat("Message is no JSON structure"@)),
            Some(Document::Object(members)) => Ok(members),
            Some(_) => Err(ValidationFailure::InvalidFormat("Root of message is no object"@)),
        }
    }
}

/// The outcome of validating a message against a schema.
pub open spec fn message_outcome(schema: Schema, message: Seq<u8>) -> Outcome {
    match read_object(message) {
        Err(failure) => Err(failure),
        Ok(members) => rules_outcome(members, schema, 0),
    }
}

} // verus!
