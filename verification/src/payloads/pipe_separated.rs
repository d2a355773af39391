//! The payload written as four fields with a `|` between them: the agent's
//! id, the type of the message, the message and the timestamp in decimal.

use vstd::prelude::*;
use vstd::slice::slice_to_vec;
use vstd::string::StringSliceAdditionalSpecFns;
use vstd::utf8::{
    decode_utf8,
    decode_utf8_encode_utf8,
    encode_utf8,
    encode_utf8_decode_utf8,
    encode_utf8_valid_utf8,
    is_char_boundary,
    is_char_boundary_iff_not_is_continuation_byte,
    is_char_boundary_start_end_of_seq,
    valid_utf8,
};
use crate::payloads::{
    Error,
    Parser,
    ParsingResult,
    PayloadFailure,
    PayloadView,
    SerializationResult,
    Serializer,
    TransactionPayload,
};
use crate::text::{decimal, from_utf8, to_decimal};

verus! {

/// The byte that stands between two fields: `|`.
pub const SEPARATOR: u8 = 0x7C;

/// The position of the first separator at or after `start`, or the length
/// of `bytes` where there is none.
pub open spec fn first_separator(bytes: Seq<u8>, start: int) -> int
    decreases bytes.len() - start,
{
    if 0 <= start < bytes.len() {
        if bytes[start] == SEPARATOR {
            start
        } else {
            first_separator(bytes, start + 1)
        }
    } else {
        bytes.len() as int
    }
}

/// The field at position `k`, counted from 0, of bytes split at the
/// separators. There is always a first field; there is a next one for each
/// separator.
pub open spec fn field(bytes: Seq<u8>, k: nat) -> Option<Seq<u8>>
    decreases k,
{
    let end = first_separator(bytes, 0);
    if k == 0 {
        Some(bytes.subrange(0, end))
    } else if end < bytes.len() {
        field(bytes.subrange(end + 1, bytes.len() as int), (k - 1) as nat)
    } else {
        None
    }
}

/// The byte is a decimal digit.
pub open spec fn is_digit(byte: u8) -> bool {
    0x30 <= byte <= 0x39
}

/// The number that a sequence of decimal digits stands for.
pub open spec fn digits_value(digits: Seq<u8>) -> nat
    decreases digits.len(),
{
    if digits.len() == 0 {
        0
    } else {
        digits_value(digits.drop_last()) * 10 + (digits.last() - 0x30) as nat
    }
}

/// The number that a text stands for: at least one decimal digit and
/// nothing else, of a value that fits 64 bits.
pub open spec fn number_of(digits: Seq<u8>) -> Option<u64> {
    if digits.len() > 0 && (forall|i: int| 0 <= i < digits.len() ==> is_digit(#[trigger] digits[i]))
        && digits_value(digits) <= u64::MAX {
        Some(digits_value(digits) as u64)
    } else {
        None
    }
}

/// The timestamp that a field stands for: the number behind an optional `+`.
pub open spec fn timestamp_of(text: Seq<u8>) -> Option<u64> {
    if text.len() > 0 && text[0] == 0x2B {
        number_of(text.drop_first())
    } else {
        number_of(text)
    }
}

/// A payload that cannot be read, with the reason.
pub open spec fn unreadable(reason: Seq<char>) -> Result<PayloadView, PayloadFailure> {
    Err(PayloadFailure::InvalidPayload(reason))
}

/// The payload that bytes stand for, or why they stand for none.
///
/// The bytes must be UTF-8 text with at least four fields; fields after the
/// fourth are not looked at.
pub open spec fn deserialized(bytes: Seq<u8>) -> Result<PayloadView, PayloadFailure> {
    if !valid_utf8(bytes) {
        unreadable("Payload is not a string"@)
    } else if field(bytes, 1) is None {
        unreadable("Payload contains no message type"@)
    } else if field(bytes, 2) is None {
        unreadable("Payload contains no message"@)
    } else if field(bytes, 3) is None {
        unreadable("Payload contains no timestamp"@)
    } else {
        match timestamp_of(field(bytes, 3)->0) {
            None => Err(PayloadFailure::InvalidTimestamp),
            Some(timestamp) => Ok(
                PayloadView {
                    agent_id: decode_utf8(field(bytes, 0)->0),
                    message_type: decode_utf8(field(bytes, 1)->0),
                    message_bytes: field(bytes, 2)->0,
                    timestamp,
                },
            ),
        }
    }
}

/// The bytes that a payload is written as: its four fields with a separator
/// between them.
pub open spec fn serialized(payload: PayloadView) -> Seq<u8> {
    encode_utf8(payload.agent_id) + seq![SEPARATOR] + encode_utf8(payload.message_type)
        + seq![SEPARATOR] + payload.message_bytes + seq![SEPARATOR] + encode_utf8(
        decimal(payload.timestamp as nat),
    )
}

/// Finds the first separator in `bytes`.
fn find_separator(bytes: &[u8]) -> (end: usize)
    ensures
        end == first_separator(bytes@, 0),
        end <= bytes@.len(),
        end < bytes@.len() ==> bytes@[end as int] == SEPARATOR,
{
    let mut i: usize = 0;
    while i < bytes.len() && bytes[i] != SEPARATOR
        invariant
            i <= bytes.len(),
            first_separator(bytes@, 0) == first_separator(bytes@, i as int),
        decreases bytes.len() - i,
    {
        i = i + 1;
    }
    i
}

/// Splits a text at its first separator: the field before it, and the text
/// behind it where there is a separator.
fn split_field(text: &str) -> (parts: (&str, Option<&str>))
    ensures
        parts.0.spec_bytes() == text.spec_bytes().subrange(
            0,
            first_separator(text.spec_bytes(), 0),
        ),
        match parts.1 {
            None => first_separator(text.spec_bytes(), 0) == text.spec_bytes().len(),
            Some(rest) => first_separator(text.spec_bytes(), 0) < text.spec_bytes().len()
                && rest.spec_bytes() == text.spec_bytes().subrange(
                first_separator(text.spec_bytes(), 0) + 1,
                text.spec_bytes().len() as int,
            ),
        },
{
    let bytes = text.as_bytes();
    let end = find_separator(bytes);
    proof {
        encode_utf8_valid_utf8(text@);
        is_char_boundary_start_end_of_seq(bytes@);
        if end < bytes@.len() {
            is_char_boundary_iff_not_is_continuation_byte(bytes@, end as int);
        }
    }
    let (head, tail) = text.split_at(end);
    if end == bytes.len() {
        (head, None)
    } else {
        proof {
            encode_utf8_valid_utf8(tail@);
            reveal_with_fuel(is_char_boundary, 2);
            assert(tail.spec_bytes()[0] == SEPARATOR);
            assert(is_char_boundary(tail.spec_bytes(), 1));
        }
        let (_, rest) = tail.split_at(1);
        assert(rest.spec_bytes() =~= text.spec_bytes().subrange(
            end + 1,
            text.spec_bytes().len() as int,
        ));
        (head, Some(rest))
    }
}

/// The digits of a longer number stand for at least as much as the first
/// digits of it.
proof fn lemma_digits_value_grows(digits: Seq<u8>, k: int)
    requires
        0 <= k <= digits.len(),
        forall|i: int| 0 <= i < digits.len() ==> is_digit(#[trigger] digits[i]),
    ensures
        digits_value(digits.subrange(0, k)) <= digits_value(digits),
    decreases digits.len(),
{
    if k == digits.len() {
        assert(digits.subrange(0, k) =~= digits);
    } else {
        lemma_digits_value_grows(digits.drop_last(), k);
        assert(digits.drop_last().subrange(0, k) =~= digits.subrange(0, k));
    }
}

/// Reads a number from its decimal digits.
fn parse_number(digits: &[u8]) -> (number: Option<u64>)
    ensures
        number == number_of(digits@),
{
    if digits.len() == 0 {
        return None;
    }
    let mut value: u64 = 0;
    let mut i: usize = 0;
    while i < digits.len()
        invariant
            i <= digits.len(),
            forall|k: int| 0 <= k < i ==> is_digit(#[trigger] digits@[k]),
            value == digits_value(digits@.subrange(0, i as int)),
        decreases digits.len() - i,
    {
        let byte = digits[i];
        if byte < 0x30 || byte > 0x39 {
            assert(!is_digit(digits@[i as int]));
            return None;
        }
        let ghost longer = digits@.subrange(0, i + 1);
        assert(longer.drop_last() =~= digits@.subrange(0, i as int));
        assert(digits_value(longer) == value * 10 + (byte - 0x30));
        proof {
            if forall|k: int| 0 <= k < digits@.len() ==> is_digit(#[trigger] digits@[k]) {
                lemma_digits_value_grows(digits@, i + 1);
            }
        }
        let shifted = match value.checked_mul(10) {
            Some(shifted) => shifted,
            None => {
                return None;
            },
        };
        value = match shifted.checked_add((byte - 0x30) as u64) {
            Some(sum) => sum,
            None => {
                return None;
            },
        };
        i = i + 1;
    }
    assert(digits@.subrange(0, i as int) =~= digits@);
    Some(value)
}

/// Reads a timestamp from a field.
pub fn parse_timestamp(text: &[u8]) -> (timestamp: Option<u64>)
    ensures
        timestamp == timestamp_of(text@),
{
    if text.len() > 0 && text[0] == 0x2B {
        assert(text@.subrange(1, text@.len() as int) =~= text@.drop_first());
        parse_number(vstd::slice::slice_subrange(text, 1, text.len()))
    } else {
        parse_number(text)
    }
}

/// Appends `bytes` to `output`.
fn append_bytes(output: &mut Vec<u8>, bytes: &[u8])
    ensures
        final(output)@ == old(output)@ + bytes@,
{
    let mut i: usize = 0;
    while i < bytes.len()
        invariant
            i <= bytes.len(),
            output@ == old(output)@ + bytes@.subrange(0, i as int),
        decreases bytes.len() - i,
    {
        output.push(bytes[i]);
        assert(output@ =~= old(output)@ + bytes@.subrange(0, i + 1));
        i = i + 1;
    }
    assert(bytes@.subrange(0, i as int) =~= bytes@);
}

/// The format that writes a payload as four fields with a `|` between them.
pub struct Format {}

impl Format {
    pub fn new() -> (format: Self)
        ensures
            format == (Format {  }),
    {
        Format {  }
    }

    /// Writes a payload as bytes.
    ///
    /// The message must be UTF-8 text; the other fields are written as they
    /// are, the timestamp in decimal. A field that holds a `|` is written
    /// with it.
    pub fn serialize(&self, payload: &TransactionPayload) -> (result: SerializationResult)
        ensures
            match result {
                Ok(bytes) => valid_utf8(payload.message_bytes@) && bytes@ == serialized(payload@),
                Err(error) => !valid_utf8(payload.message_bytes@) && error@
                    == PayloadFailure::InvalidPayload("Message is not a UTF8 String"@),
            },
    {
        if from_utf8(slice_to_vec(payload.message_bytes.as_slice())).is_none() {
            return Err(Error::InvalidPayload("Message is not a UTF8 String".to_owned()));
        }
        let mut output: Vec<u8> = Vec::new();
        append_bytes(&mut output, payload.agent_id.as_str().as_bytes());
        output.push(SEPARATOR);
        append_bytes(&mut output, payload.message_type.as_str().as_bytes());
        output.push(SEPARATOR);
        append_bytes(&mut output, payload.message_bytes.as_slice());
        output.push(SEPARATOR);
        append_bytes(&mut output, to_decimal(payload.timestamp).as_str().as_bytes());
        assert(output@ =~= serialized(payload@));
        Ok(output)
    }

    /// Reads a payload from bytes.
    ///
    /// The bytes must be UTF-8 text that holds at least three `|`. What
    /// stands before the first is the agent's id, between the first and the
    /// second the type of the message, between the second and the third the
    /// message, and behind the third, up to the next `|` if there is one, the
    /// timestamp.
    pub fn deserialize(&self, bytes: &[u8]) -> (result: ParsingResult)
        ensures
            match result {
                Ok(payload) => deserialized(bytes@) == Ok::<PayloadView, PayloadFailure>(payload@),
                Err(error) => deserialized(bytes@) == Err::<PayloadView, PayloadFailure>(error@),
            },
    {
        let payload = match from_utf8(slice_to_vec(bytes)) {
            Some(payload) => payload,
            None => {
                return Err(Error::InvalidPayload("Payload is not a string".to_owned()));
            },
        };
        proof {
            decode_utf8_encode_utf8(bytes@);
            reveal_with_fuel(field, 4);
        }
        let (agent_id, content) = split_field(payload.as_str());
        let (message_type, content) = match content {
            Some(content) => split_field(content),
            None => {
                return Err(Error::InvalidPayload("Payload contains no message type".to_owned()));
            },
        };
        let (message, content) = match content {
            Some(content) => split_field(content),
            None => {
                return Err(Error::InvalidPayload("Payload contains no message".to_owned()));
            },
        };
        let (timestamp, _) = match content {
            Some(content) => split_field(content),
            None => {
                return Err(Error::InvalidPayload("Payload contains no timestamp".to_owned()));
            },
        };
        let timestamp = match parse_timestamp(timestamp.as_bytes()) {
            Some(timestamp) => timestamp,
            None => {
                return Err(Error::InvalidTimestamp);
            },
        };
        proof {
            encode_utf8_decode_utf8(agent_id@);
            encode_utf8_decode_utf8(message_type@);
        }
        Ok(TransactionPayload::new(agent_id, message_type, message.as_bytes(), timestamp))
    }
}

impl Default for Format {
    fn default() -> (format: Self)
        ensures
            format == (Format {  }),
    {
        Format {  }
    }
}

impl Parser for Format {
    /// Reads a payload as [`Format::deserialize`] does.
    fn parse(&self, bytes: &[u8]) -> (result: ParsingResult)
        ensures
            match result {
                Ok(payload) => deserialized(bytes@) == Ok::<PayloadView, PayloadFailure>(payload@),
                Err(error) => deserialized(bytes@) == Err::<PayloadView, PayloadFailure>(error@),
            },
    {
        self.deserialize(bytes)
    }
}

impl Serializer for Format {
    /// Writes a payload as [`Format::serialize`] does.
    fn serialize(&self, payload: &TransactionPayload) -> (result: SerializationResult)
        ensures
            match result {
                Ok(bytes) => valid_utf8(payload.message_bytes@) && bytes@ == serialized(payload@),
                Err(error) => !valid_utf8(payload.message_bytes@) && error@
                    == PayloadFailure::InvalidPayload("Message is not a UTF8 String"@),
            },
    {
        Format::serialize(self, payload)
    }
}

} // verus!
