use alica_messages::messages::json::helper::{exceeds_fraction_limit, parse_object};
use alica_messages::messages::json::validation::{
    validate_boolean_field, validate_capnzero_id_field, validate_integer_field,
    validate_integer_list_field, validate_list_field_with_complex_components,
    validate_string_field,
};
use alica_messages::messages::json::{
    AlicaEngineInfoValidator, AllocationAuthorityInfoValidator, CapnZeroIdValidator,
    EntryPointRobotValidator, PlanTreeInfoValidator, RoleSwitchValidator, SolverResultValidator,
    SolverVarValidator, SyncDataValidator, SyncReadyValidator, SyncTalkValidator,
};
use alica_messages::messages::{
    AlicaMessageJsonValidator, AlicaMessageValidationError, AlicaMessageValidationResult,
};

fn invalid_format(result: AlicaMessageValidationResult) -> String {
    match result {
        Err(AlicaMessageValidationError::InvalidFormat(description)) => description,
        Err(AlicaMessageValidationError::MissingField(field)) => {
            panic!("missing field {} where an invalid format is expected", field)
        }
        Ok(()) => panic!("valid where an invalid format is expected"),
    }
}

fn missing_field(result: AlicaMessageValidationResult) -> String {
    match result {
        Err(AlicaMessageValidationError::MissingField(field)) => field,
        Err(AlicaMessageValidationError::InvalidFormat(description)) => {
            panic!("invalid format ({}) where a missing field is expected", description)
        }
        Ok(()) => panic!("valid where a missing field is expected"),
    }
}

fn container(text: &str) -> json::object::Object {
    match parse_object(text.as_bytes()) {
        Ok(object) => object,
        Err(_) => panic!("the text is expected to be an object"),
    }
}

fn validators() -> Vec<Box<dyn AlicaMessageJsonValidator>> {
    vec![
        Box::new(AlicaEngineInfoValidator::new()),
        Box::new(AllocationAuthorityInfoValidator::new()),
        Box::new(EntryPointRobotValidator::new()),
        Box::new(PlanTreeInfoValidator::new()),
        Box::new(RoleSwitchValidator::new()),
        Box::new(SolverResultValidator::new()),
        Box::new(SolverVarValidator::new()),
        Box::new(SyncReadyValidator::new()),
        Box::new(SyncTalkValidator::new()),
        Box::new(SyncDataValidator::new()),
        Box::new(CapnZeroIdValidator::new()),
    ]
}

#[test]
fn bytes_that_are_no_utf8_are_an_invalid_format_for_every_validator() {
    let message = vec![0x7b, 0xff, 0x7d];

    for validator in validators() {
        assert_eq!(invalid_format(validator.validate(&message)), "Message is no UTF-8 string")
    }
}

#[test]
fn an_empty_message_is_an_invalid_format_for_every_validator() {
    for validator in validators() {
        assert_eq!(invalid_format(validator.validate(b"")), "Message is no JSON structure")
    }
}

#[test]
fn a_malformed_message_is_an_invalid_format_for_every_validator() {
    for validator in validators() {
        assert_eq!(
            invalid_format(validator.validate(b"{\"kind\":0,")),
            "Message is no JSON structure"
        )
    }
}

#[test]
fn a_message_that_is_no_object_is_an_invalid_format_for_every_validator() {
    for message in ["[]", "1", "\"text\"", "true", "null"] {
        for validator in validators() {
            assert_eq!(
                invalid_format(validator.validate(message.as_bytes())),
                "Root of message is no object"
            )
        }
    }
}

#[test]
fn parsing_tells_the_three_failures_apart() {
    assert!(parse_object(b"{}").is_ok());
    assert_eq!(invalid_format(parse_object(&[0xc3]).map(|_| ())), "Message is no UTF-8 string");
    assert_eq!(invalid_format(parse_object(b"{").map(|_| ())), "Message is no JSON structure");
    assert_eq!(invalid_format(parse_object(b"[1]").map(|_| ())), "Root of message is no object");
}

fn identifier_with(extra: &str) -> String {
    format!("{{\"kind\":0,\"value\":\"id\",\"extra\":{}}}", extra)
}

#[test]
fn a_fraction_with_more_digits_than_the_parser_counts_is_no_json_structure() {
    let within = identifier_with(&format!("0.{}", "0".repeat(32768)));
    let beyond = identifier_with(&format!("0.{}", "0".repeat(32769)));
    let negative = identifier_with(&format!("-0.{}", "0".repeat(32769)));

    assert!(!exceeds_fraction_limit(within.as_bytes()));
    assert!(exceeds_fraction_limit(beyond.as_bytes()));
    assert!(exceeds_fraction_limit(negative.as_bytes()));
    assert!(CapnZeroIdValidator::new().validate(within.as_bytes()).is_ok());
    assert_eq!(
        invalid_format(CapnZeroIdValidator::new().validate(beyond.as_bytes())),
        "Message is no JSON structure"
    );
    assert_eq!(
        invalid_format(CapnZeroIdValidator::new().validate(negative.as_bytes())),
        "Message is no JSON structure"
    );
}

#[test]
fn the_digits_behind_the_zeros_are_counted_as_far_as_the_mantissa_takes_them() {
    let within = identifier_with(&format!("0.{}123456789", "0".repeat(32759)));
    let beyond = identifier_with(&format!("0.{}123456789", "0".repeat(32760)));
    let passed_over = identifier_with(&format!("0.{}{}", "0".repeat(32748), "9".repeat(40)));
    let taken = identifier_with(&format!("0.{}{}", "0".repeat(32749), "1".repeat(40)));

    assert!(!exceeds_fraction_limit(within.as_bytes()));
    assert!(exceeds_fraction_limit(beyond.as_bytes()));
    assert!(!exceeds_fraction_limit(passed_over.as_bytes()));
    assert!(exceeds_fraction_limit(taken.as_bytes()));
    assert!(CapnZeroIdValidator::new().validate(within.as_bytes()).is_ok());
    assert!(CapnZeroIdValidator::new().validate(passed_over.as_bytes()).is_ok());
}

#[test]
fn zeros_in_a_string_are_not_counted() {
    let plain = identifier_with(&format!("\"0.{}\"", "0".repeat(40000)));
    let escaped = identifier_with(&format!("\"a\\\"0.{}\"", "0".repeat(40000)));
    let value = format!("{{\"kind\":0,\"value\":\"0.{}\"}}", "0".repeat(40000));

    for text in [plain, escaped, value] {
        assert!(!exceeds_fraction_limit(text.as_bytes()));
        assert!(CapnZeroIdValidator::new().validate(text.as_bytes()).is_ok());
    }
}

#[test]
fn zeros_behind_another_integer_part_are_not_counted() {
    for number in [
        format!("1.{}", "0".repeat(40000)),
        format!("-10.{}", "0".repeat(40000)),
        format!("1{}", "0".repeat(40)),
        format!("0.5{}", "0".repeat(40000)),
        format!("[0,0.{}]", "0".repeat(32768)),
    ] {
        let text = identifier_with(&number);

        assert!(!exceeds_fraction_limit(text.as_bytes()));
        assert!(CapnZeroIdValidator::new().validate(text.as_bytes()).is_ok());
    }
}

#[test]
fn a_valid_message_stays_valid_with_zeros_in_an_unknown_member() {
    let message = format!(
        "{{\"id\":0,\"value\":[1,2],\"note\":\"1.{}\",\"ratio\":2.{}}}",
        "0".repeat(33000),
        "0".repeat(33000)
    );

    assert!(SolverVarValidator::new().validate(message.as_bytes()).is_ok())
}

#[test]
fn a_string_field_must_be_present_and_a_string() {
    let object = container("{\"name\":\"n\",\"count\":1,\"flag\":true,\"none\":null}");

    assert!(validate_string_field(&object, "name").is_ok());
    assert_eq!(missing_field(validate_string_field(&object, "other")), "other");
    assert_eq!(invalid_format(validate_string_field(&object, "count")), "count is no string");
    assert_eq!(invalid_format(validate_string_field(&object, "flag")), "flag is no string");
    assert_eq!(invalid_format(validate_string_field(&object, "none")), "none is no string");
}

#[test]
fn an_integer_field_must_be_present_and_integral() {
    let object = container(
        "{\"a\":1,\"b\":-7,\"c\":1.5,\"d\":\"1\",\"e\":1e2,\"f\":0,\"g\":true,\"h\":[1],\"i\":100}",
    );

    assert!(validate_integer_field(&object, "a").is_ok());
    assert!(validate_integer_field(&object, "b").is_ok());
    assert!(validate_integer_field(&object, "f").is_ok());
    assert!(validate_integer_field(&object, "i").is_ok());
    assert_eq!(missing_field(validate_integer_field(&object, "z")), "z");
    assert_eq!(invalid_format(validate_integer_field(&object, "c")), "c is no integer");
    assert_eq!(invalid_format(validate_integer_field(&object, "d")), "d is no integer");
    assert_eq!(invalid_format(validate_integer_field(&object, "e")), "e is no integer");
    assert_eq!(invalid_format(validate_integer_field(&object, "g")), "g is no integer");
    assert_eq!(invalid_format(validate_integer_field(&object, "h")), "h is no integer");
}

#[test]
fn the_least_and_the_greatest_integers_are_integers() {
    let object = container(
        "{\"least\":-9223372036854775808,\"greatest\":9223372036854775807,\"wide\":18446744073709551615}",
    );

    assert!(validate_integer_field(&object, "least").is_ok());
    assert!(validate_integer_field(&object, "greatest").is_ok());
    assert!(validate_integer_field(&object, "wide").is_ok());
}

#[test]
fn an_integer_is_a_number_whose_exponent_is_zero() {
    let object = container("{\"a\":1.0,\"b\":1.5e1,\"c\":1e0,\"d\":10e-1,\"e\":-0,\"f\":0.0}");

    assert_eq!(invalid_format(validate_integer_field(&object, "a")), "a is no integer");
    assert!(validate_integer_field(&object, "b").is_ok());
    assert!(validate_integer_field(&object, "c").is_ok());
    assert_eq!(invalid_format(validate_integer_field(&object, "d")), "d is no integer");
    assert!(validate_integer_field(&object, "e").is_ok());
    assert_eq!(invalid_format(validate_integer_field(&object, "f")), "f is no integer");
}

#[test]
fn a_number_without_value_is_no_integer() {
    let mut object = json::object::Object::new();
    object.insert("nan", json::JsonValue::from(f64::NAN));
    object.insert("ids", json::JsonValue::Array(vec![json::JsonValue::from(1), json::JsonValue::from(f64::NAN)]));

    assert_eq!(invalid_format(validate_integer_field(&object, "nan")), "nan is no integer");
    assert_eq!(
        invalid_format(validate_integer_list_field(&object, "ids")),
        "ids contains a non integer entry"
    );
}

#[test]
fn a_boolean_field_must_be_present_and_a_boolean() {
    let object = container("{\"yes\":true,\"no\":false,\"one\":1,\"text\":\"true\"}");

    assert!(validate_boolean_field(&object, "yes").is_ok());
    assert!(validate_boolean_field(&object, "no").is_ok());
    assert_eq!(missing_field(validate_boolean_field(&object, "other")), "other");
    assert_eq!(invalid_format(validate_boolean_field(&object, "one")), "one is no boolean");
    assert_eq!(invalid_format(validate_boolean_field(&object, "text")), "text is no boolean");
}

#[test]
fn an_integer_list_must_be_an_array_of_integers() {
    let object = container(
        "{\"empty\":[],\"ids\":[1,2,3],\"mixed\":[1,\"2\",3],\"halves\":[0.5],\"one\":1,\"map\":{}}",
    );

    assert!(validate_integer_list_field(&object, "empty").is_ok());
    assert!(validate_integer_list_field(&object, "ids").is_ok());
    assert_eq!(missing_field(validate_integer_list_field(&object, "other")), "other");
    assert_eq!(
        invalid_format(validate_integer_list_field(&object, "mixed")),
        "mixed contains a non integer entry"
    );
    assert_eq!(
        invalid_format(validate_integer_list_field(&object, "halves")),
        "halves contains a non integer entry"
    );
    assert_eq!(invalid_format(validate_integer_list_field(&object, "one")), "one is no array");
    assert_eq!(invalid_format(validate_integer_list_field(&object, "map")), "map is no array");
}

#[test]
fn an_identifier_field_is_judged_as_an_identifier() {
    let object = container(
        "{\"id\":{\"kind\":1,\"value\":\"a\"},\"untyped\":{\"value\":\"a\"},\"named\":{\"kind\":\"1\",\"value\":\"a\"},\"flat\":7}",
    );

    assert!(validate_capnzero_id_field(&object, "id").is_ok());
    assert_eq!(missing_field(validate_capnzero_id_field(&object, "other")), "other");
    assert_eq!(missing_field(validate_capnzero_id_field(&object, "untyped")), "kind");
    assert_eq!(invalid_format(validate_capnzero_id_field(&object, "named")), "kind is no integer");
    assert_eq!(
        invalid_format(validate_capnzero_id_field(&object, "flat")),
        "Root of message is no object"
    );
}

#[test]
fn an_identifier_holds_a_kind_and_a_value() {
    let validator = CapnZeroIdValidator::new();

    assert!(validator.validate(b"{\"kind\":0,\"value\":\"id\"}").is_ok());
    assert_eq!(missing_field(validator.validate(b"{\"value\":\"id\"}")), "kind");
    assert_eq!(missing_field(validator.validate(b"{\"kind\":0}")), "value");
    assert_eq!(missing_field(validator.validate(b"{\"type\":0,\"value\":\"id\"}")), "kind");
    assert_eq!(
        invalid_format(validator.validate(b"{\"kind\":\"0\",\"value\":\"id\"}")),
        "kind is no integer"
    );
    assert_eq!(
        invalid_format(validator.validate(b"{\"kind\":0,\"value\":1}")),
        "value is no string"
    );
}

#[test]
fn a_list_of_documents_must_be_an_array_that_the_validator_accepts() {
    let object = container(
        "{\"empty\":[],\"ids\":[{\"kind\":1,\"value\":\"a\"}],\"numbers\":[1],\"one\":1}",
    );
    let validator = CapnZeroIdValidator::new();

    assert!(validate_list_field_with_complex_components(&object, "empty", &validator).is_ok());
    assert!(validate_list_field_with_complex_components(&object, "ids", &validator).is_ok());
    assert_eq!(
        missing_field(validate_list_field_with_complex_components(&object, "other", &validator)),
        "other"
    );
    assert_eq!(
        invalid_format(validate_list_field_with_complex_components(&object, "numbers", &validator)),
        "Root of message is no object"
    );
    assert_eq!(
        invalid_format(validate_list_field_with_complex_components(&object, "one", &validator)),
        "one is no array"
    );
}

#[test]
fn a_list_reports_the_first_of_two_invalid_elements() {
    let message = "{\"entrypoint\":0,\"robots\":[{\"kind\":1,\"value\":\"a\"},{\"kind\":1},{\"value\":\"c\"}]}";

    let result = EntryPointRobotValidator::new().validate(message.as_bytes());

    assert_eq!(missing_field(result), "value")
}

#[test]
fn a_list_reports_the_first_invalid_element_whatever_comes_later() {
    let message = "{\"entrypoint\":0,\"robots\":[{\"value\":\"c\"},{\"kind\":1}]}";

    let result = EntryPointRobotValidator::new().validate(message.as_bytes());

    assert_eq!(missing_field(result), "kind")
}

#[test]
fn the_first_failing_field_is_reported_and_no_later_one() {
    let message = "{\"robotId\":{\"kind\":0,\"value\":\"r1\"},\"transitionId\":\"1\",\"transitionHolds\":1}";

    let result = SyncDataValidator::new().validate(message.as_bytes());

    assert_eq!(invalid_format(result), "transitionId is no integer")
}

#[test]
fn unknown_fields_are_ignored() {
    let message = "{\"unknown\":[1,{\"a\":null}],\"kind\":0,\"more\":\"x\",\"value\":\"id\",\"last\":1.5}";

    assert!(CapnZeroIdValidator::new().validate(message.as_bytes()).is_ok())
}

#[test]
fn the_last_of_two_members_with_one_name_counts() {
    let message = "{\"kind\":\"zero\",\"value\":\"id\",\"kind\":0}";

    assert!(CapnZeroIdValidator::new().validate(message.as_bytes()).is_ok())
}

#[test]
fn a_failure_has_a_text() {
    let missing = AlicaMessageValidationError::MissingField("ack".to_string());
    let invalid = AlicaMessageValidationError::InvalidFormat("ack is no boolean".to_string());

    assert_eq!(missing.message(), "Required field missing: ack");
    assert_eq!(invalid.message(), "ack is no boolean");

    let missing_text: String = missing.into();
    let invalid_text: String = invalid.into();
    assert_eq!(missing_text, "Required field missing: ack");
    assert_eq!(invalid_text, "ack is no boolean");
}

#[test]
fn an_allocation_authority_info_holds_entry_point_robots() {
    let valid = "{\"senderId\":{\"kind\":0,\"value\":\"id\"},\"planId\":1,\"parentState\":2,\"planType\":3,\"authority\":{\"kind\":1,\"value\":\"a\"},\"entrypointRobots\":[{\"entrypoint\":0,\"robots\":[{\"kind\":1,\"value\":\"r\"}]}]}";
    let invalid = "{\"senderId\":{\"kind\":0,\"value\":\"id\"},\"planId\":1,\"parentState\":2,\"planType\":3,\"authority\":{\"kind\":1,\"value\":\"a\"},\"entrypointRobots\":[{\"entrypoint\":0,\"robots\":[{\"kind\":1}]}]}";

    assert!(AllocationAuthorityInfoValidator::new().validate(valid.as_bytes()).is_ok());
    assert_eq!(
        missing_field(AllocationAuthorityInfoValidator::new().validate(invalid.as_bytes())),
        "value"
    );
}
