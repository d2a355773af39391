use alica_messages::messages::json::helper::parse_object;
use alica_messages::messages::json::validation::validate_list_field_with_complex_components;
use alica_messages::messages::{
    AlicaMessageJsonValidator, AlicaMessageValidationError, AlicaMessageValidationResult,
};

struct RejectsEverything;

impl AlicaMessageJsonValidator for RejectsEverything {
    fn validate(&self, message: &[u8]) -> AlicaMessageValidationResult {
        Err(AlicaMessageValidationError::InvalidFormat(
            String::from_utf8_lossy(message).into_owned(),
        ))
    }
}

#[test]
fn an_injected_validator_is_handed_each_element_as_bytes() {
    let container = parse_object(b"{\"items\":[{\"a\":1},{\"b\":2}]}").ok().unwrap();

    let result = validate_list_field_with_complex_components(&container, "items", &RejectsEverything);

    match result {
        Err(AlicaMessageValidationError::InvalidFormat(description)) => {
            assert_eq!(description, "{\"a\":1}")
        }
        _ => panic!("the first element's failure is expected"),
    }
}
