//! The checks that schemas are composed of: each asks one thing of one
//! field of an object.

use vstd::prelude::*;
use crate::messages::{
    AlicaMessageJsonValidator,
    AlicaMessageValidationError,
    AlicaMessageValidationResult,
    ValidationFailure,
    outcome_of,
    outcomes,
};
use crate::messages::json::CapnZeroIdValidator;
use crate::messages::json::document::{
    Document,
    array_items,
    as_bool,
    as_i64,
    as_str,
    document_of,
    documents_of,
    dump,
    get,
    is_not_a_number,
    member,
    members_of,
    number_parts,
};
use crate::messages::json::schema::{
    Check,
    bytes_of,
    check_outcome,
    is_integer,
    items_outcome,
    malformed,
};

verus! {

/// The failure for a field that is absent.
fn missing(field: &str) -> (error: AlicaMessageValidationError)
    ensures
        error@ == ValidationFailure::MissingField(field@),
{
    AlicaMessageValidationError::MissingField(field.to_owned())
}

/// The failure for a field that is present but malformed.
fn invalid(field: &str, complaint: &str) -> (error: AlicaMessageValidationError)
    ensures
        Err::<(), ValidationFailure>(error@) == malformed(field@, complaint@),
{
    let mut description = field.to_owned();
    description.append(complaint);
    AlicaMessageValidationError::InvalidFormat(description)
}

/// Whether a value is a number in integral representation.
fn holds_integer(value: &::json::JsonValue) -> (integral: bool)
    ensures
        integral == is_integer(document_of(*value)),
{
    if is_not_a_number(value) {
        return false;
    }
    match number_parts(value) {
        Some((false, 0x8000_0000_0000_0000, 0)) => true,
        _ => as_i64(value).is_some(),
    }
}

/// Checks that `field` is present in `container` and holds a string.
pub fn validate_string_field(container: &::json::object::Object, field: &str) -> (result:
    AlicaMessageValidationResult)
    ensures
        outcome_of(result) == check_outcome(members_of(*container), field@, Check::Text),
{
    match get(container, field) {
        None => Err(missing(field)),
        Some(value) => match as_str(value) {
            Some(_) => Ok(()),
            None => Err(invalid(field, " is no string")),
        },
    }
}

/// Checks that `field` is present in `container` and holds a number in
/// integral representation.
pub fn validate_integer_field(container: &::json::object::Object, field: &str) -> (result:
    AlicaMessageValidationResult)
    ensures
        outcome_of(result) == check_outcome(members_of(*container), field@, Check::Integer),
{
    match get(container, field) {
        None => Err(missing(field)),
        Some(value) => if holds_integer(value) {
            Ok(())
        } else {
            Err(invalid(field, " is no integer"))
        },
    }
}

/// Checks that `field` is present in `container` and holds a boolean.
pub fn validate_boolean_field(container: &::json::object::Object, field: &str) -> (result:
    AlicaMessageValidationResult)
    ensures
        outcome_of(result) == check_outcome(members_of(*container), field@, Check::Boolean),
{
    match get(container, field) {
        None => Err(missing(field)),
        Some(value) => match as_bool(value) {
            Some(_) => Ok(()),
            None => Err(invalid(field, " is no boolean")),
        },
    }
}

/// Checks that `field` is present in `container` and holds the identifier
/// of an agent or entity. The value is written out as bytes and judged by a
/// [`CapnZeroIdValidator`], whose failure is returned as it is.
pub fn validate_capnzero_id_field(container: &::json::object::Object, field: &str) -> (result:
    AlicaMessageValidationResult)
    ensures
        outcome_of(result) == check_outcome(
            members_of(*container),
            field@,
            Check::by(&CapnZeroIdValidator {  }),
        ),
{
    match get(container, field) {
        Some(id) => CapnZeroIdValidator::new().validate(dump(id).as_str().as_bytes()),
        None => Err(missing(field)),
    }
}

/// Checks that `field` is present in `container` and holds an array of
/// integers. The elements are looked at front to back, up to the first that
/// is no integer.
#[verifier::loop_isolation(false)]
pub fn validate_integer_list_field(container: &::json::object::Object, field: &str) -> (result:
    AlicaMessageValidationResult)
    ensures
        outcome_of(result) == check_outcome(members_of(*container), field@, Check::IntegerList),
{
    match get(container, field) {
        None => Err(missing(field)),
        Some(field_json) => match array_items(field_json) {
            None => Err(invalid(field, " is no array")),
            Some(array_json) => {
                let ghost items = documents_of(array_json@);
                let mut i: usize = 0;
                while i < array_json.len()
                    invariant
                        i <= array_json.len(),
                        items == documents_of(array_json@),
                        forall|k: int| 0 <= k < i ==> is_integer(#[trigger] items[k]),
                    decreases array_json.len() - i,
                {
                    if !holds_integer(&array_json[i]) {
                        assert(!is_integer(items[i as int]));
                        return Err(invalid(field, " contains a non integer entry"));
                    }
                    i = i + 1;
                }
                Ok(())
            },
        },
    }
}

/// Checks that `field` is present in `container` and holds an array whose
/// elements `validator` all accepts. Each element is written out as bytes
/// and handed to the validator, front to back; the first failure ends the
/// check and is returned as the validator gave it.
///
/// Of a validator that states what it does, the outcome is stated exactly.
/// Of any other, what does not depend on it: the field is missing, it is no
/// array, or it is an array without elements.
#[verifier::loop_isolation(false)]
pub fn validate_list_field_with_complex_components<V: AlicaMessageJsonValidator + ?Sized>(
    container: &::json::object::Object,
    field: &str,
    validator: &V,
) -> (result: AlicaMessageValidationResult)
    ensures
        validator.is_specified() ==> outcome_of(result) == check_outcome(
            members_of(*container),
            field@,
            Check::each_by(validator),
        ),
        member(members_of(*container), field@) is None ==> outcome_of(result) == Err::<
            (),
            ValidationFailure,
        >(ValidationFailure::MissingField(field@)),
        member(members_of(*container), field@) matches Some(document) && !(document is Array)
            ==> outcome_of(result) == malformed(field@, " is no array"@),
        member(members_of(*container), field@) matches Some(Document::Array(items)) && items.len()
            == 0 ==> result is Ok,
{
    match get(container, field) {
        None => Err(missing(field)),
        Some(field_json) => match array_items(field_json) {
            None => Err(invalid(field, " is no array")),
            Some(array_json) => {
                let ghost items = documents_of(array_json@);
                let ghost accepts = outcomes(validator);
                let mut i: usize = 0;
                while i < array_json.len()
                    invariant
                        i <= array_json.len(),
                        validator.is_specified() ==> items_outcome(items, accepts, 0)
                            == items_outcome(items, accepts, i as int),
                    decreases array_json.len() - i,
                {
                    let entry = dump(&array_json[i]);
                    let result = validator.validate(entry.as_str().as_bytes());
                    assert(validator.is_specified() ==> outcome_of(result) == accepts(
                        bytes_of(items[i as int]),
                    ));
                    if result.is_err() {
                        return result;
                    }
                    i = i + 1;
                }
                Ok(())
            },
        },
    }
}

} // verus!
