//! The structured document behind a message, and what the JSON parser and
//! serializer are taken to do with it.
//!
//! Parsing and serializing are done by the `json` crate. Its values are
//! opaque here; [`Document`] is the mathematical value that one of them
//! stands for, and the items below state, without proof, how each operation
//! of the crate that this library calls relates to that value.

use vstd::prelude::*;
use vstd::string::StringSliceAdditionalSpecFns;

verus! {

/// `json::JsonValue`: a JSON value of any kind, carried through as it is.
#[verifier::external_type_specification]
#[verifier::external_body]
pub struct ExJsonValue(::json::JsonValue);

/// `json::object::Object`: a JSON object, carried through as it is.
#[verifier::external_type_specification]
#[verifier::external_body]
pub struct ExObject(::json::object::Object);

/// `json::Error`, under its other name `json::JsonError`: why a text is no
/// JSON. Nothing is read from it.
#[verifier::external_type_specification]
#[verifier::external_body]
pub struct ExJsonError(::json::JsonError);

/// A structured document: a scalar, an array of documents, or an object
/// whose members are kept in their order of first insertion.
pub enum Document {
    Null,
    Text(Seq<char>),
    /// A decimal number `±mantissa · 10^exponent`.
    Number { positive: bool, mantissa: u64, exponent: i16 },
    /// A number that holds no value (the `json` crate's `NaN`).
    NotANumber,
    Boolean(bool),
    Array(Seq<Document>),
    Object(Seq<(Seq<char>, Document)>),
}

/// The members of an object: each key with its value, in order.
pub type Members = Seq<(Seq<char>, Document)>;

/// The document that a value of the `json` crate stands for.
pub uninterp spec fn document_of(value: ::json::JsonValue) -> Document;

/// The members that an object of the `json` crate holds.
pub uninterp spec fn members_of(object: ::json::object::Object) -> Members;

/// The document that `json::parse` reads from a text, if it reads one.
pub uninterp spec fn parsed(text: Seq<char>) -> Option<Document>;

/// The text that `JsonValue::dump` writes for a document.
pub uninterp spec fn dumped(document: Document) -> Seq<char>;

/// The documents that a sequence of values stands for, one for one.
pub open spec fn documents_of(values: Seq<::json::JsonValue>) -> Seq<Document> {
    values.map_values(|value: ::json::JsonValue| document_of(value))
}

/// The value under `key`, if the members hold one. An object never holds a
/// key twice, so the first member under the key is the only one.
pub open spec fn member(members: Members, key: Seq<char>) -> Option<Document>
    decreases members.len(),
{
    if members.len() == 0 {
        None
    } else if members[0].0 == key {
        Some(members[0].1)
    } else {
        member(members.drop_first(), key)
    }
}

/// Where a scan of a JSON text stands behind one of its bytes.
#[derive(Clone, Copy)]
pub enum Place {
    /// Outside any string and any number.
    Between,
    /// Inside a string.
    Text,
    /// Inside a string, behind a backslash.
    Escape,
    /// Behind a `0` that is the whole integer part of a number.
    Zero,
    /// Among the digits of the fraction that follows such a `0`.
    Fraction,
    /// Anywhere else in a number.
    Number,
}

/// What a scan of a JSON text has found so far.
#[derive(Clone, Copy)]
pub struct Scan {
    /// Where the scan stands.
    pub place: Place,
    /// The digits of the fraction at hand that the parser takes into its
    /// mantissa, as a number.
    pub mantissa: u64,
    /// How many digits of the fraction at hand the parser has counted.
    pub counted: u32,
    /// Whether some fraction had more digits counted than the parser can
    /// count.
    pub exhausted: bool,
}

/// The number of digits of a fraction that the parser can count: it counts
/// them downwards from zero in a 16-bit exponent.
pub const FRACTION_DIGITS_LIMIT: u32 = 32768;

/// The scan before the first byte.
pub open spec fn scan_start() -> Scan {
    Scan { place: Place::Between, mantissa: 0, counted: 0, exhausted: false }
}

/// The scan at another place, with what it has found unchanged.
pub open spec fn scan_at(scan: Scan, place: Place) -> Scan {
    Scan { place, mantissa: scan.mantissa, counted: scan.counted, exhausted: scan.exhausted }
}

/// The scan behind one more digit of a fraction. The parser takes a digit
/// into its mantissa, and counts it, as long as the mantissa stays within 64
/// bits; it passes over a digit that does not fit.
pub open spec fn scan_digit(scan: Scan, byte: u8) -> Scan {
    let mantissa = scan.mantissa * 10 + (byte - 0x30);
    if mantissa <= u64::MAX {
        Scan {
            place: Place::Fraction,
            mantissa: mantissa as u64,
            counted: if scan.counted < FRACTION_DIGITS_LIMIT {
                (scan.counted + 1) as u32
            } else {
                scan.counted
            },
            exhausted: scan.exhausted || scan.counted >= FRACTION_DIGITS_LIMIT,
        }
    } else {
        scan
    }
}

/// The scan behind one more byte.
///
/// Strings are passed over, with a backslash taking the byte behind it
/// along. Outside strings a `0` that follows no other part of a number is the
/// whole integer part of one, and the digits behind its decimal point are
/// counted as the parser counts them. Any other number is passed over: its
/// mantissa is not zero, so the parser counts twenty digits of it at most.
pub open spec fn scan_step(scan: Scan, byte: u8) -> Scan {
    match scan.place {
        Place::Text => if byte == 0x5C {
            scan_at(scan, Place::Escape)
        } else if byte == 0x22 {
            scan_at(scan, Place::Between)
        } else {
            scan
        },
        Place::Escape => scan_at(scan, Place::Text),
        Place::Between => if byte == 0x22 {
            scan_at(scan, Place::Text)
        } else if byte == 0x30 {
            scan_at(scan, Place::Zero)
        } else if 0x31 <= byte <= 0x39 {
            scan_at(scan, Place::Number)
        } else {
            scan
        },
        Place::Zero => if byte == 0x22 {
            scan_at(scan, Place::Text)
        } else if byte == 0x2E {
            Scan { place: Place::Fraction, mantissa: 0, counted: 0, exhausted: scan.exhausted }
        } else if is_number_byte(byte) {
            scan_at(scan, Place::Number)
        } else {
            scan_at(scan, Place::Between)
        },
        Place::Fraction => if byte == 0x22 {
            scan_at(scan, Place::Text)
        } else if 0x30 <= byte <= 0x39 {
            scan_digit(scan, byte)
        } else if is_number_byte(byte) {
            scan_at(scan, Place::Number)
        } else {
            scan_at(scan, Place::Between)
        },
        Place::Number => if byte == 0x22 {
            scan_at(scan, Place::Text)
        } else if is_number_byte(byte) {
            scan
        } else {
            scan_at(scan, Place::Between)
        },
    }
}

/// The byte can stand in a number: a digit, the decimal point, the sign of
/// an exponent or its mark.
pub open spec fn is_number_byte(byte: u8) -> bool {
    0x30 <= byte <= 0x39 || byte == 0x2E || byte == 0x2B || byte == 0x2D || byte == 0x45 || byte
        == 0x65
}

/// The scan behind the first `end` bytes.
pub open spec fn scan(bytes: Seq<u8>, end: int) -> Scan
    decreases end,
{
    if 0 < end <= bytes.len() {
        scan_step(scan(bytes, end - 1), bytes[end - 1])
    } else {
        scan_start()
    }
}

/// Some number in `bytes` has a fraction with more digits than the parser
/// can count: its integer part is `0`, and of the digits behind its decimal
/// point the parser counts more than [`FRACTION_DIGITS_LIMIT`].
///
/// Of a text that is well-formed JSON this holds exactly where the parser's
/// count gives out. Of a text that is not, it may hold where the parser
/// would give up before it comes to the number.
pub open spec fn has_overlong_fraction(bytes: Seq<u8>) -> bool {
    scan(bytes, bytes.len() as int).exhausted
}

/// What parsing a text gives: nothing for the empty text, and otherwise what
/// `json::parse` reads from it.
pub open spec fn parse_outcome(text: Seq<char>) -> Option<Document> {
    if text.len() == 0 {
        None
    } else {
        parsed(text)
    }
}

/// `json::parse`: reads one JSON value from the whole text. The result is a
/// function of the text alone; an empty text is never a value. Texts with a
/// fraction of more digits than the parser can count are left out: its count
/// overflows on them.
#[verifier::external_body]
pub(crate) fn parse(source: &str) -> (result: Result<::json::JsonValue, ::json::JsonError>)
    requires
        !has_overlong_fraction(source.spec_bytes()),
    ensures
        match result {
            Ok(value) => source@.len() > 0 && parsed(source@) == Some(document_of(value)),
            Err(_) => source@.len() == 0 || parsed(source@) is None,
        },
{
    ::json::parse(source)
}

/// `JsonValue::dump`: writes the value as compact JSON text. The text is a
/// function of the document that the value stands for.
#[verifier::external_body]
pub(crate) fn dump(value: &::json::JsonValue) -> (text: String)
    ensures
        text@ == dumped(document_of(*value)),
{
    value.dump()
}

/// `JsonValue::as_str`: the text of a string value, nothing for any other.
#[verifier::external_body]
pub(crate) fn as_str(value: &::json::JsonValue) -> (text: Option<&str>)
    ensures
        match text {
            Some(text) => document_of(*value) == Document::Text(text@),
            None => !(document_of(*value) is Text),
        },
{
    value.as_str()
}

/// `JsonValue::as_bool`: the value of a boolean, nothing for any other.
#[verifier::external_body]
pub(crate) fn as_bool(value: &::json::JsonValue) -> (flag: Option<bool>)
    ensures
        match flag {
            Some(flag) => document_of(*value) == Document::Boolean(flag),
            None => !(document_of(*value) is Boolean),
        },
{
    value.as_bool()
}

/// The one number whose conversion to `i64` negates the least `i64`.
pub open spec fn is_least_integer(document: Document) -> bool {
    document == (Document::Number {
        positive: false,
        mantissa: 0x8000_0000_0000_0000,
        exponent: 0,
    })
}

/// The integer that a number with exponent zero converts to: its mantissa,
/// read as a two's complement `i64`, with the number's sign. A number that
/// holds no value converts to zero; a number with another exponent, and any
/// value that is no number, converts to nothing.
pub open spec fn integer_of(document: Document) -> Option<int> {
    match document {
        Document::Number { positive, mantissa, exponent } => if exponent == 0 {
            let magnitude = if mantissa < 0x8000_0000_0000_0000 {
                mantissa as int
            } else {
                mantissa - 0x1_0000_0000_0000_0000
            };
            Some(if positive { magnitude } else { -magnitude })
        } else {
            None
        },
        Document::NotANumber => Some(0),
        _ => None,
    }
}

/// `JsonValue::as_i64`: the integer of a number whose exponent is zero,
/// nothing for a number with another exponent or a value that is no number.
/// The one number on which the conversion overflows is left out.
#[verifier::external_body]
pub(crate) fn as_i64(value: &::json::JsonValue) -> (integer: Option<i64>)
    requires
        !is_least_integer(document_of(*value)),
    ensures
        match integer {
            Some(integer) => integer_of(document_of(*value)) == Some(integer as int),
            None => integer_of(document_of(*value)) is None,
        },
{
    value.as_i64()
}

/// `Object::get`: the value stored under `key`, nothing where the object
/// holds no such key.
#[verifier::external_body]
pub(crate) fn get<'a>(object: &'a ::json::object::Object, key: &str) -> (value: Option<
    &'a ::json::JsonValue,
>)
    ensures
        match value {
            Some(value) => member(members_of(*object), key@) == Some(document_of(*value)),
            None => member(members_of(*object), key@) is None,
        },
{
    object.get(key)
}

/// The sign, mantissa and exponent of a number. A number that holds no value
/// has the parts of a negative zero.
pub open spec fn parts_of(document: Document) -> Option<(bool, u64, i16)> {
    match document {
        Document::Number { positive, mantissa, exponent } => Some((positive, mantissa, exponent)),
        Document::NotANumber => Some((false, 0, 0)),
        _ => None,
    }
}

/// `Number::as_parts` on the number inside a value: its sign, mantissa and
/// exponent, nothing for a value that is no number.
#[verifier::external_body]
pub(crate) fn number_parts(value: &::json::JsonValue) -> (parts: Option<(bool, u64, i16)>)
    ensures
        parts == parts_of(document_of(*value)),
{
    match value {
        ::json::JsonValue::Number(number) => Some(number.as_parts()),
        _ => None,
    }
}

/// `Number::is_nan` on the number inside a value: whether the value is a
/// number that holds no value.
#[verifier::external_body]
pub(crate) fn is_not_a_number(value: &::json::JsonValue) -> (nan: bool)
    ensures
        nan == (document_of(*value) is NotANumber),
{
    match value {
        ::json::JsonValue::Number(number) => number.is_nan(),
        _ => false,
    }
}

/// The elements of an array value, nothing for a value that is no array.
#[verifier::external_body]
pub(crate) fn array_items(value: &::json::JsonValue) -> (items: Option<&Vec<::json::JsonValue>>)
    ensures
        match items {
            Some(items) => document_of(*value) == Document::Array(documents_of(items@)),
            None => !(document_of(*value) is Array),
        },
{
    match value {
        ::json::JsonValue::Array(items) => Some(items),
        _ => None,
    }
}

/// The object inside a value, nothing for a value that is no object.
#[verifier::external_body]
pub(crate) fn into_object(value: ::json::JsonValue) -> (object: Option<::json::object::Object>)
    ensures
        match object {
            Some(object) => document_of(value) == Document::Object(members_of(object)),
            None => !(document_of(value) is Object),
        },
{
    match value {
        ::json::JsonValue::Object(object) => Some(object),
        _ => None,
    }
}

} // verus!
