use alica_messages::payloads::pipe_separated::{parse_timestamp, Format};
use alica_messages::payloads::{Error, Parser, ParsingResult, Serializer, TransactionPayload};

fn invalid_payload(result: ParsingResult) -> String {
    match result {
        Err(Error::InvalidPayload(description)) => description,
        Err(Error::InvalidTimestamp) => panic!("invalid timestamp where an invalid payload is expected"),
        Ok(_) => panic!("a payload where an invalid payload is expected"),
    }
}

#[test]
fn each_missing_field_is_named() {
    let format = Format::new();

    assert_eq!(invalid_payload(format.deserialize(&[0xff, 0x7c])), "Payload is not a string");
    assert_eq!(invalid_payload(format.deserialize(b"")), "Payload contains no message type");
    assert_eq!(invalid_payload(format.deserialize(b"id")), "Payload contains no message type");
    assert_eq!(invalid_payload(format.deserialize(b"id|type")), "Payload contains no message");
    assert_eq!(invalid_payload(format.deserialize(b"id|type|msg")), "Payload contains no timestamp");
}

#[test]
fn a_timestamp_that_is_no_number_is_an_invalid_timestamp() {
    let format = Format::new();

    for payload in [
        "id|type|msg|",
        "id|type|msg|x",
        "id|type|msg|-1",
        "id|type|msg|+",
        "id|type|msg| 1",
        "id|type|msg|1 ",
        "id|type|msg|1.0",
        "id|type|msg|1_000",
        "id|type|msg|18446744073709551616",
        "id|type|msg||1",
    ] {
        assert!(matches!(format.deserialize(payload.as_bytes()), Err(Error::InvalidTimestamp)))
    }
}

#[test]
fn a_timestamp_is_a_decimal_number_with_an_optional_plus() {
    assert_eq!(parse_timestamp(b"0"), Some(0));
    assert_eq!(parse_timestamp(b"007"), Some(7));
    assert_eq!(parse_timestamp(b"+5"), Some(5));
    assert_eq!(parse_timestamp(b"684948894984"), Some(684948894984));
    assert_eq!(parse_timestamp(b"18446744073709551615"), Some(u64::MAX));
    assert_eq!(parse_timestamp(b"18446744073709551616"), None);
    assert_eq!(parse_timestamp(b"99999999999999999999"), None);
    assert_eq!(parse_timestamp(b""), None);
    assert_eq!(parse_timestamp(b"+"), None);
    assert_eq!(parse_timestamp(b"++1"), None);
    assert_eq!(parse_timestamp(b"-0"), None);
    assert_eq!(parse_timestamp(b"12a"), None);
}

#[test]
fn the_timestamp_reads_as_the_standard_library_reads_it() {
    for text in ["0", "007", "+5", "+", "", "-0", "1e3", "18446744073709551615", "18446744073709551616", "٣"] {
        assert_eq!(parse_timestamp(text.as_bytes()), text.parse::<u64>().ok())
    }
}

#[test]
fn fields_behind_the_fourth_are_not_looked_at() {
    let payload = Format::new().deserialize("id|type|msg|1|more|\u{e9}".as_bytes()).expect("a payload");

    assert_eq!(payload, TransactionPayload::new("id", "type", b"msg", 1))
}

#[test]
fn fields_may_be_empty_and_hold_any_text() {
    let payload = Format::new().deserialize("|t\u{e9}|\u{4e16}\u{754c} {}|42".as_bytes()).expect("a payload");

    assert_eq!(payload.agent_id, "");
    assert_eq!(payload.message_type, "t\u{e9}");
    assert_eq!(payload.message_bytes, "\u{4e16}\u{754c} {}".as_bytes().to_vec());
    assert_eq!(payload.timestamp, 42);
}

#[test]
fn a_payload_is_written_as_four_fields() {
    let payload = TransactionPayload::new("r1", "move", b"{\"x\":1}", 1234567890);

    let bytes = Format::new().serialize(&payload).expect("bytes");

    assert_eq!(bytes, b"r1|move|{\"x\":1}|1234567890".to_vec())
}

#[test]
fn the_greatest_timestamp_is_written_in_full() {
    let payload = TransactionPayload::new("", "", b"", u64::MAX);

    let bytes = Format::new().serialize(&payload).expect("bytes");

    assert_eq!(bytes, b"|||18446744073709551615".to_vec())
}

#[test]
fn a_message_that_is_no_utf8_is_not_written() {
    let payload = TransactionPayload::new("r1", "move", &[0xff], 1);

    match Format::new().serialize(&payload) {
        Err(Error::InvalidPayload(description)) => assert_eq!(description, "Message is not a UTF8 String"),
        _ => panic!("an invalid payload is expected"),
    }
}

#[test]
fn a_written_payload_reads_back() {
    let payload = TransactionPayload::new("r\u{e9}1", "move", "{\"x\":\"\u{4e16}\"}".as_bytes(), 987654321);

    let bytes = Format::new().serialize(&payload).expect("bytes");

    assert_eq!(Format::new().deserialize(&bytes).expect("a payload"), payload)
}

#[test]
fn the_format_is_a_parser_and_a_serializer() {
    let format = Format::default();
    let parser: &dyn Parser = &format;
    let serializer: &dyn Serializer = &format;
    let payload = TransactionPayload::new("id", "type", b"msg", 7);

    let bytes = serializer.serialize(&payload).expect("bytes");

    assert_eq!(bytes, b"id|type|msg|7".to_vec());
    assert_eq!(parser.parse(&bytes).expect("a payload"), payload);
}

#[test]
fn a_payload_failure_has_a_text() {
    assert_eq!(Error::InvalidTimestamp.message(), "Payload contains invalid timestamp");
    assert_eq!(Error::InvalidPayload("Payload is not a string".to_string()).message(), "Payload is not a string");
}

#[test]
fn the_default_payload_is_empty() {
    assert_eq!(TransactionPayload::default(), TransactionPayload::new("", "", b"", 0))
}
