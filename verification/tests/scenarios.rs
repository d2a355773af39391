use alica_messages::messages::json::{EntryPointRobotValidator, SyncDataValidator};
use alica_messages::messages::{AlicaMessageJsonValidator, AlicaMessageValidationError};

fn object(members: Vec<(&str, json::JsonValue)>) -> json::JsonValue {
    let mut object = json::JsonValue::new_object();
    for (key, value) in members {
        object[key] = value;
    }
    object
}

fn id(kind: i32, value: &str) -> json::JsonValue {
    object(vec![("kind", kind.into()), ("value", value.into())])
}

#[test]
fn a_complete_synchronization_data_record_is_valid() {
    let record = object(vec![
        ("robotId", id(0, "r1")),
        ("transitionId", 1.into()),
        ("transitionHolds", true.into()),
        ("ack", true.into()),
    ])
    .dump();

    assert!(SyncDataValidator::new().validate(record.as_bytes()).is_ok())
}

#[test]
fn a_synchronization_data_record_without_ack_misses_ack() {
    let record = object(vec![
        ("robotId", id(0, "r1")),
        ("transitionId", 1.into()),
        ("transitionHolds", true.into()),
    ])
    .dump();

    match SyncDataValidator::new().validate(record.as_bytes()) {
        Err(AlicaMessageValidationError::MissingField(field)) => assert_eq!(field, "ack"),
        _ => panic!("a missing field is expected"),
    }
}

#[test]
fn a_synchronization_data_record_with_a_string_for_the_transition_is_malformed() {
    let record = object(vec![
        ("robotId", id(0, "r1")),
        ("transitionId", "1".into()),
        ("transitionHolds", true.into()),
        ("ack", true.into()),
    ])
    .dump();

    match SyncDataValidator::new().validate(record.as_bytes()) {
        Err(AlicaMessageValidationError::InvalidFormat(description)) => {
            assert_eq!(description, "transitionId is no integer")
        }
        _ => panic!("an invalid format is expected"),
    }
}

#[test]
fn an_entry_point_with_two_robots_is_valid() {
    let binding = object(vec![
        ("entrypoint", 0.into()),
        ("robots", json::JsonValue::Array(vec![id(1, "a"), id(1, "b")])),
    ])
    .dump();

    assert!(EntryPointRobotValidator::new().validate(binding.as_bytes()).is_ok())
}

#[test]
fn an_entry_point_whose_first_robot_has_no_value_misses_value() {
    let binding = object(vec![
        ("entrypoint", 0.into()),
        (
            "robots",
            json::JsonValue::Array(vec![object(vec![("kind", 1.into())]), id(1, "b")]),
        ),
    ])
    .dump();

    match EntryPointRobotValidator::new().validate(binding.as_bytes()) {
        Err(AlicaMessageValidationError::MissingField(field)) => assert_eq!(field, "value"),
        _ => panic!("a missing field is expected"),
    }
}
