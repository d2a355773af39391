//! Reading a raw message as a JSON object.

use vstd::prelude::*;
use vstd::slice::slice_to_vec;
use vstd::utf8::decode_utf8_encode_utf8;
use crate::messages::{AlicaMessageValidationError, ValidationFailure};
use crate::messages::json::document::{
    Members,
    FRACTION_DIGITS_LIMIT,
    Place,
    Scan,
    has_overlong_fraction,
    is_number_byte,
    into_object,
    members_of,
    parse,
    scan,
    scan_at,
    scan_digit,
    scan_step,
};
use crate::messages::json::schema::read_object;
use crate::text::from_utf8;

verus! {

/// The scan behind one more digit of a fraction.
fn count_digit(state: Scan, byte: u8) -> (next: Scan)
    requires
        0x30 <= byte <= 0x39,
    ensures
        next == scan_digit(state, byte),
{
    let shifted = match state.mantissa.checked_mul(10) {
        Some(shifted) => shifted,
        None => {
            return state;
        },
    };
    let mantissa = match shifted.checked_add((byte - 0x30) as u64) {
        Some(mantissa) => mantissa,
        None => {
            return state;
        },
    };
    Scan {
        place: Place::Fraction,
        mantissa,
        counted: if state.counted < FRACTION_DIGITS_LIMIT {
            state.counted + 1
        } else {
            state.counted
        },
        exhausted: state.exhausted || state.counted >= FRACTION_DIGITS_LIMIT,
    }
}

/// Whether a byte can stand in a number.
fn can_stand_in_number(byte: u8) -> (can: bool)
    ensures
        can == is_number_byte(byte),
{
    (0x30 <= byte && byte <= 0x39) || byte == 0x2E || byte == 0x2B || byte == 0x2D || byte == 0x45
        || byte == 0x65
}

/// The scan at another place.
fn moved(state: Scan, place: Place) -> (next: Scan)
    ensures
        next == scan_at(state, place),
{
    Scan { place, mantissa: state.mantissa, counted: state.counted, exhausted: state.exhausted }
}

/// The scan behind one more byte.
fn step(state: Scan, byte: u8) -> (next: Scan)
    ensures
        next == scan_step(state, byte),
{
    match state.place {
        Place::Text => if byte == 0x5C {
            moved(state, Place::Escape)
        } else if byte == 0x22 {
            moved(state, Place::Between)
        } else {
            state
        },
        Place::Escape => moved(state, Place::Text),
        Place::Between => if byte == 0x22 {
            moved(state, Place::Text)
        } else if byte == 0x30 {
            moved(state, Place::Zero)
        } else if 0x31 <= byte && byte <= 0x39 {
            moved(state, Place::Number)
        } else {
            state
        },
        Place::Zero => if byte == 0x22 {
            moved(state, Place::Text)
        } else if byte == 0x2E {
            Scan { place: Place::Fraction, mantissa: 0, counted: 0, exhausted: state.exhausted }
        } else if can_stand_in_number(byte) {
            moved(state, Place::Number)
        } else {
            moved(state, Place::Between)
        },
        Place::Fraction => if byte == 0x22 {
            moved(state, Place::Text)
        } else if 0x30 <= byte && byte <= 0x39 {
            count_digit(state, byte)
        } else if can_stand_in_number(byte) {
            moved(state, Place::Number)
        } else {
            moved(state, Place::Between)
        },
        Place::Number => if byte == 0x22 {
            moved(state, Place::Text)
        } else if can_stand_in_number(byte) {
            state
        } else {
            moved(state, Place::Between)
        },
    }
}

/// Whether some number in `bytes` has a fraction with more digits than the
/// parser can count.
pub fn exceeds_fraction_limit(bytes: &[u8]) -> (exceeds: bool)
    ensures
        exceeds == has_overlong_fraction(bytes@),
{
    let mut state = Scan { place: Place::Between, mantissa: 0, counted: 0, exhausted: false };
    let mut i: usize = 0;
    while i < bytes.len()
        invariant
            i <= bytes.len(),
            state == scan(bytes@, i as int),
        decreases bytes.len() - i,
    {
        state = step(state, bytes[i]);
        i = i + 1;
    }
    state.exhausted
}

/// Reads a message as a JSON object.
///
/// The bytes must be UTF-8 text, the text one well-formed JSON value, and
/// that value an object; each of the three is told apart in the failure. A
/// number with a fraction of more digits than the parser can count is
/// beyond the parser, and a text that holds one is no JSON structure.
/// Nothing is returned of a message that is no object.
pub fn parse_object(data: &[u8]) -> (result: Result<
    ::json::object::Object,
    AlicaMessageValidationError,
>)
    ensures
        match result {
            Ok(object) => read_object(data@) == Ok::<Members, ValidationFailure>(
                members_of(object),
            ),
            Err(error) => read_object(data@) == Err::<Members, ValidationFailure>(error@),
        },
{
    let raw_message = match from_utf8(slice_to_vec(data)) {
        Some(text) => text,
        None => {
            return Err(
                AlicaMessageValidationError::InvalidFormat("Message is no UTF-8 string".to_owned()),
            );
        },
    };
    if exceeds_fraction_limit(data) {
        return Err(
            AlicaMessageValidationError::InvalidFormat("Message is no JSON structure".to_owned()),
        );
    }
    proof {
        decode_utf8_encode_utf8(data@);
    }
    let root_value = match parse(raw_message.as_str()) {
        Ok(value) => value,
        Err(_) => {
            return Err(
                AlicaMessageValidationError::InvalidFormat(
                    "Message is no JSON structure".to_owned(),
                ),
            );
        },
    };
    match into_object(root_value) {
        Some(root_object) => Ok(root_object),
        None => Err(
            AlicaMessageValidationError::InvalidFormat("Root of message is no object".to_owned()),
        ),
    }
}

} // verus!
