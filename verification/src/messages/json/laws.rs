//! What holds of every schema, and so of every validator whose outcome is
//! that of a schema.

use vstd::prelude::*;
use vstd::utf8::{decode_utf8, valid_utf8};
use crate::messages::{Outcome, ValidationFailure};
use crate::messages::json::document::{Document, Members, member, parse_outcome};
use crate::messages::json::schema::{
    Check,
    Schema,
    all_integers,
    bytes_of,
    check_outcome,
    is_integer,
    items_outcome,
    message_outcome,
    read_object,
    rules_outcome,
    value_outcome,
};

verus! {

/// The rule at position `i` holds of the members.
pub open spec fn rule_holds(members: Members, schema: Schema, i: int) -> bool {
    check_outcome(members, schema[i].name, schema[i].check) is Ok
}

/// The value is of another type than the check asks for: no string where a
/// string is asked for, no integer where an integer is, no boolean where a
/// boolean is, no array, or an array with an element that is no integer,
/// where a list is.
pub open spec fn has_wrong_type(document: Document, check: Check) -> bool {
    match check {
        Check::Text => !(document is Text),
        Check::Integer => !is_integer(document),
        Check::Boolean => !(document is Boolean),
        Check::IntegerList => match document {
            Document::Array(items) => !all_integers(items),
            _ => true,
        },
        Check::Nested(_) => false,
        Check::NestedList(_) => !(document is Array),
    }
}

/// Where the rules from `start` up to `i` hold and the rule at `i` does not,
/// the outcome from `start` on is the failure of the rule at `i`.
proof fn lemma_failing_rule_from(members: Members, schema: Schema, start: int, i: int)
    requires
        0 <= start <= i < schema.len(),
        forall|j: int| start <= j < i ==> rule_holds(members, schema, j),
        !rule_holds(members, schema, i),
    ensures
        rules_outcome(members, schema, start) == check_outcome(
            members,
            schema[i].name,
            schema[i].check,
        ),
    decreases i - start,
{
    if start < i {
        assert(rule_holds(members, schema, start));
        lemma_failing_rule_from(members, schema, start + 1, i);
    }
}

/// The rules are checked in the order of the schema, and the first that
/// does not hold decides: where the rules before position `i` hold and the
/// rule at `i` does not, the outcome is the failure of that rule, whatever
/// the later rules would say.
pub proof fn lemma_first_failing_rule_decides(members: Members, schema: Schema, i: int)
    requires
        0 <= i < schema.len(),
        forall|j: int| 0 <= j < i ==> rule_holds(members, schema, j),
        !rule_holds(members, schema, i),
    ensures
        rules_outcome(members, schema, 0) == check_outcome(
            members,
            schema[i].name,
            schema[i].check,
        ),
{
    lemma_failing_rule_from(members, schema, 0, i);
}

/// Where every rule from `start` on holds, the outcome from there on is
/// valid.
proof fn lemma_all_rules_hold(members: Members, schema: Schema, start: int)
    requires
        0 <= start,
        forall|j: int| start <= j < schema.len() ==> rule_holds(members, schema, j),
    ensures
        rules_outcome(members, schema, start) == Ok::<(), ValidationFailure>(()),
    decreases schema.len() - start,
{
    if start < schema.len() {
        assert(rule_holds(members, schema, start));
        lemma_all_rules_hold(members, schema, start + 1);
    }
}

/// A message that reads as an object of which every rule of the schema
/// holds is valid.
pub proof fn lemma_complete_message_is_valid(schema: Schema, message: Seq<u8>)
    requires
        read_object(message) is Ok,
        forall|j: int|
            0 <= j < schema.len() ==> rule_holds(read_object(message)->Ok_0, schema, j),
    ensures
        message_outcome(schema, message) == Ok::<(), ValidationFailure>(()),
{
    lemma_all_rules_hold(read_object(message)->Ok_0, schema, 0);
}

/// Two objects that hold the same under every name of the schema have the
/// same outcome from `start` on.
proof fn lemma_same_fields_from(schema: Schema, first: Members, second: Members, start: int)
    requires
        0 <= start,
        forall|j: int|
            0 <= j < schema.len() ==> member(first, #[trigger] schema[j].name) == member(
                second,
                schema[j].name,
            ),
    ensures
        rules_outcome(first, schema, start) == rules_outcome(second, schema, start),
    decreases schema.len() - start,
{
    if start < schema.len() {
        assert(member(first, schema[start].name) == member(second, schema[start].name));
        lemma_same_fields_from(schema, first, second, start + 1);
    }
}

/// Fields that the schema does not name are ignored: two messages that read
/// as objects which hold the same value, or none, under every name of the
/// schema have the same outcome, whatever else they hold.
pub proof fn lemma_unknown_fields_are_ignored(schema: Schema, first: Seq<u8>, second: Seq<u8>)
    requires
        read_object(first) is Ok,
        read_object(second) is Ok,
        forall|j: int|
            0 <= j < schema.len() ==> member(
                read_object(first)->Ok_0,
                #[trigger] schema[j].name,
            ) == member(read_object(second)->Ok_0, schema[j].name),
    ensures
        message_outcome(schema, first) == message_outcome(schema, second),
{
    lemma_same_fields_from(schema, read_object(first)->Ok_0, read_object(second)->Ok_0, 0);
}

/// The members with one more behind them.
pub open spec fn with_extra(members: Members, name: Seq<char>, value: Document) -> Members {
    members.push((name, value))
}

/// The members without those of one name.
pub open spec fn without(members: Members, name: Seq<char>) -> Members
    decreases members.len(),
{
    if members.len() == 0 {
        members
    } else if members[0].0 == name {
        without(members.drop_first(), name)
    } else {
        seq![members[0]] + without(members.drop_first(), name)
    }
}

/// The members with another value under one name.
pub open spec fn with_value(members: Members, name: Seq<char>, value: Document) -> Members {
    members.map_values(
        |entry: (Seq<char>, Document)|
            if entry.0 == name {
                (entry.0, value)
            } else {
                entry
            },
    )
}

/// No two rules of the schema have the same name.
pub open spec fn has_distinct_names(schema: Schema) -> bool {
    forall|i: int, j: int|
        0 <= i < schema.len() && 0 <= j < schema.len() && i != j ==> schema[i].name
            != schema[j].name
}

/// One more member under a new name changes nothing under any other name.
proof fn lemma_member_with_extra(members: Members, name: Seq<char>, value: Document, key: Seq<char>)
    requires
        key != name,
    ensures
        member(with_extra(members, name, value), key) == member(members, key),
    decreases members.len(),
{
    let longer = with_extra(members, name, value);
    if members.len() == 0 {
        assert(longer.drop_first() =~= members);
    } else {
        assert(longer.drop_first() =~= with_extra(members.drop_first(), name, value));
        lemma_member_with_extra(members.drop_first(), name, value, key);
    }
}

/// Without the members of one name there is none under that name, and what
/// is under any other name is as before.
proof fn lemma_member_without(members: Members, name: Seq<char>, key: Seq<char>)
    ensures
        member(without(members, name), key) == if key == name {
            None
        } else {
            member(members, key)
        },
    decreases members.len(),
{
    if members.len() > 0 {
        lemma_member_without(members.drop_first(), name, key);
        if members[0].0 != name {
            let rest = without(members.drop_first(), name);
            assert((seq![members[0]] + rest).drop_first() =~= rest);
        }
    }
}

/// With another value under one name, that value is under the name where
/// there was one before, and what is under any other name is as before.
proof fn lemma_member_with_value(
    members: Members,
    name: Seq<char>,
    value: Document,
    key: Seq<char>,
)
    ensures
        member(with_value(members, name, value), key) == if key == name && member(
            members,
            name,
        ) is Some {
            Some(value)
        } else {
            member(members, key)
        },
    decreases members.len(),
{
    if members.len() > 0 {
        assert(with_value(members, name, value).drop_first() =~= with_value(
            members.drop_first(),
            name,
            value,
        ));
        lemma_member_with_value(members.drop_first(), name, value, key);
    }
}

/// A field that the schema does not name is ignored: an object of which
/// every rule holds stays valid with one more member under a name that is
/// none of the schema's, whatever its value, and any object has the same
/// outcome with it as without it.
pub proof fn lemma_extra_field_is_ignored(
    schema: Schema,
    members: Members,
    name: Seq<char>,
    value: Document,
)
    requires
        forall|j: int| 0 <= j < schema.len() ==> #[trigger] schema[j].name != name,
    ensures
        rules_outcome(with_extra(members, name, value), schema, 0) == rules_outcome(
            members,
            schema,
            0,
        ),
{
    assert forall|j: int| 0 <= j < schema.len() implies member(
        with_extra(members, name, value),
        #[trigger] schema[j].name,
    ) == member(members, schema[j].name) by {
        lemma_member_with_extra(members, name, value, schema[j].name);
    }
    lemma_same_fields_from(schema, with_extra(members, name, value), members, 0);
}

/// Removing one field of the schema from an object of which every rule
/// holds, and nothing else, gives an object that is invalid with that field
/// reported as missing.
pub proof fn lemma_removed_field_is_missing(schema: Schema, members: Members, i: int)
    requires
        has_distinct_names(schema),
        0 <= i < schema.len(),
        forall|j: int| 0 <= j < schema.len() ==> rule_holds(members, schema, j),
    ensures
        rules_outcome(without(members, schema[i].name), schema, 0) == Err::<(), ValidationFailure>(
            ValidationFailure::MissingField(schema[i].name),
        ),
{
    let removed = without(members, schema[i].name);
    lemma_member_without(members, schema[i].name, schema[i].name);
    assert forall|j: int| 0 <= j < i implies rule_holds(removed, schema, j) by {
        lemma_member_without(members, schema[i].name, schema[j].name);
        assert(rule_holds(members, schema, j));
    }
    lemma_first_failing_rule_decides(removed, schema, i);
}

/// Putting a value of the wrong type under one field of the schema in an
/// object of which every rule holds, and changing nothing else, gives an
/// object that is invalid for its format.
pub proof fn lemma_value_of_wrong_type_is_invalid_format(
    schema: Schema,
    members: Members,
    i: int,
    value: Document,
)
    requires
        has_distinct_names(schema),
        0 <= i < schema.len(),
        forall|j: int| 0 <= j < schema.len() ==> rule_holds(members, schema, j),
        has_wrong_type(value, schema[i].check),
    ensures
        rules_outcome(with_value(members, schema[i].name, value), schema, 0) matches Err(
            ValidationFailure::InvalidFormat(_),
        ),
{
    let changed = with_value(members, schema[i].name, value);
    assert(rule_holds(members, schema, i));
    lemma_member_with_value(members, schema[i].name, value, schema[i].name);
    assert forall|j: int| 0 <= j < i implies rule_holds(changed, schema, j) by {
        lemma_member_with_value(members, schema[i].name, value, schema[j].name);
        assert(rule_holds(members, schema, j));
    }
    lemma_first_failing_rule_decides(changed, schema, i);
}

/// A message that lacks one field of the schema, and of which every other
/// rule holds, is invalid with that field reported as missing.
pub proof fn lemma_missing_field_is_reported(schema: Schema, message: Seq<u8>, i: int)
    requires
        read_object(message) is Ok,
        0 <= i < schema.len(),
        member(read_object(message)->Ok_0, schema[i].name) is None,
        forall|j: int|
            0 <= j < schema.len() && j != i ==> rule_holds(read_object(message)->Ok_0, schema, j),
    ensures
        message_outcome(schema, message) == Err::<(), ValidationFailure>(
            ValidationFailure::MissingField(schema[i].name),
        ),
{
    lemma_first_failing_rule_decides(read_object(message)->Ok_0, schema, i);
}

/// A message in which one field of the schema holds a value of the wrong
/// type, and of which every other rule holds, is invalid for its format.
pub proof fn lemma_wrong_type_is_invalid_format(schema: Schema, message: Seq<u8>, i: int)
    requires
        read_object(message) is Ok,
        0 <= i < schema.len(),
        member(read_object(message)->Ok_0, schema[i].name) matches Some(document)
            && has_wrong_type(document, schema[i].check),
        forall|j: int|
            0 <= j < schema.len() && j != i ==> rule_holds(read_object(message)->Ok_0, schema, j),
    ensures
        message_outcome(schema, message) matches Err(ValidationFailure::InvalidFormat(_)),
{
    lemma_first_failing_rule_decides(read_object(message)->Ok_0, schema, i);
}

/// Bytes that are not UTF-8 text are invalid for their format, whatever the
/// schema.
pub proof fn lemma_non_utf8_is_invalid_format(schema: Schema, message: Seq<u8>)
    requires
        !valid_utf8(message),
    ensures
        message_outcome(schema, message) == Err::<(), ValidationFailure>(
            ValidationFailure::InvalidFormat("Message is no UTF-8 string"@),
        ),
{
}

/// An empty message, and a text that is no well-formed document, are
/// invalid for their format and never for a missing field, whatever the
/// schema.
pub proof fn lemma_malformed_is_invalid_format(schema: Schema, message: Seq<u8>)
    requires
        message.len() == 0 || (valid_utf8(message) && parse_outcome(decode_utf8(message)) is None),
    ensures
        message_outcome(schema, message) == Err::<(), ValidationFailure>(
            ValidationFailure::InvalidFormat("Message is no JSON structure"@),
        ),
{
    if message.len() == 0 {
        assert(valid_utf8(message));
        assert(decode_utf8(message).len() == 0);
    }
}

/// A message that does not read as an object is never invalid for a missing
/// field.
pub proof fn lemma_unreadable_is_invalid_format(schema: Schema, message: Seq<u8>)
    requires
        read_object(message) is Err,
    ensures
        message_outcome(schema, message) matches Err(ValidationFailure::InvalidFormat(_)),
{
}

/// Where the validator accepts the elements from `start` up to `first` and
/// rejects the one at `first`, the outcome from `start` on is the failure of
/// that element.
proof fn lemma_rejected_element_from(
    items: Seq<Document>,
    validator: spec_fn(Seq<u8>) -> Outcome,
    start: int,
    first: int,
)
    requires
        0 <= start <= first < items.len(),
        forall|j: int| start <= j < first ==> validator(bytes_of(#[trigger] items[j])) is Ok,
        validator(bytes_of(items[first])) is Err,
    ensures
        items_outcome(items, validator, start) == validator(bytes_of(items[first])),
    decreases first - start,
{
    if start < first {
        assert(validator(bytes_of(items[start])) is Ok);
        lemma_rejected_element_from(items, validator, start + 1, first);
    }
}

/// A list is checked front to back and no further than its first failure:
/// of two elements that the validator rejects, the failure of the one that
/// comes first in the array is the outcome, where no element before it is
/// rejected.
pub proof fn lemma_list_is_fail_fast(
    name: Seq<char>,
    items: Seq<Document>,
    validator: spec_fn(Seq<u8>) -> Outcome,
    first: int,
    second: int,
)
    requires
        0 <= first < second < items.len(),
        forall|j: int| 0 <= j < first ==> validator(bytes_of(#[trigger] items[j])) is Ok,
        validator(bytes_of(items[first])) is Err,
        validator(bytes_of(items[second])) is Err,
    ensures
        value_outcome(Document::Array(items), name, Check::NestedList(validator)) == validator(
            bytes_of(items[first]),
        ),
{
    lemma_rejected_element_from(items, validator, 0, first);
}

} // verus!
