//! What holds of the pipe-separated format.

use vstd::prelude::*;
use vstd::utf8::{
    encode_utf8,
    encode_utf8_decode_utf8,
    encode_utf8_valid_utf8,
    is_ascii_chars,
    is_ascii_chars_encode_utf8,
    valid_utf8,
    valid_utf8_concat,
};
use crate::payloads::{PayloadFailure, PayloadView};
use crate::payloads::pipe_separated::{
    SEPARATOR,
    deserialized,
    digits_value,
    field,
    first_separator,
    is_digit,
    serialized,
    timestamp_of,
};
use crate::text::{decimal, digits};

verus! {

/// No byte is a separator.
pub open spec fn has_no_separator(bytes: Seq<u8>) -> bool {
    forall|i: int| 0 <= i < bytes.len() ==> #[trigger] bytes[i] != SEPARATOR
}

/// A number written in decimal is at least one character long, and each
/// character is the digit of its place.
proof fn lemma_decimal_is_digits(n: nat)
    ensures
        decimal(n).len() > 0,
        is_ascii_chars(decimal(n)),
        forall|i: int| 0 <= i < decimal(n).len() ==> is_digit(#[trigger] decimal(n)[i] as u8),
        decimal(n).last() as u8 == 0x30 + n % 10,
    decreases n,
{
    if n >= 10 {
        lemma_decimal_is_digits(n / 10);
    }
}

/// The bytes of a number written in decimal are digits that stand for the
/// number.
proof fn lemma_decimal_bytes(n: nat)
    ensures
        encode_utf8(decimal(n)).len() == decimal(n).len(),
        encode_utf8(decimal(n)).len() > 0,
        forall|i: int|
            0 <= i < encode_utf8(decimal(n)).len() ==> is_digit(
                #[trigger] encode_utf8(decimal(n))[i],
            ),
        digits_value(encode_utf8(decimal(n))) == n,
    decreases n,
{
    let text = decimal(n);
    let bytes = encode_utf8(text);
    lemma_decimal_is_digits(n);
    is_ascii_chars_encode_utf8(text);
    assert forall|i: int| 0 <= i < bytes.len() implies is_digit(#[trigger] bytes[i]) by {
        assert(bytes[i] == text[i] as u8);
    }
    assert(bytes.last() == text.last() as u8);
    if n < 10 {
        assert(bytes.drop_last() =~= Seq::<u8>::empty());
        assert(digits_value(bytes.drop_last()) == 0);
    } else {
        let shorter = decimal(n / 10);
        lemma_decimal_bytes(n / 10);
        lemma_decimal_is_digits(n / 10);
        is_ascii_chars_encode_utf8(shorter);
        assert(text.drop_last() =~= shorter);
        assert(bytes.drop_last() =~= encode_utf8(shorter)) by {
            assert forall|i: int| 0 <= i < shorter.len() implies bytes.drop_last()[i]
                == encode_utf8(shorter)[i] by {
                assert(bytes[i] == text[i] as u8);
                assert(encode_utf8(shorter)[i] == shorter[i] as u8);
            }
        }
    }
}

/// A timestamp written in decimal reads back as itself.
pub proof fn lemma_timestamp_reads_back(timestamp: u64)
    ensures
        timestamp_of(encode_utf8(decimal(timestamp as nat))) == Some(timestamp),
        has_no_separator(encode_utf8(decimal(timestamp as nat))),
{
    lemma_decimal_bytes(timestamp as nat);
    let bytes = encode_utf8(decimal(timestamp as nat));
    assert(is_digit(bytes[0]));
    assert forall|i: int| 0 <= i < bytes.len() implies #[trigger] bytes[i] != SEPARATOR by {
        assert(is_digit(bytes[i]));
    }
}

/// Where no byte from `start` up to `end` is a separator, the first
/// separator from `start` on is the first from `end` on.
proof fn lemma_first_separator_skips(bytes: Seq<u8>, start: int, end: int)
    requires
        0 <= start <= end <= bytes.len(),
        forall|i: int| start <= i < end ==> #[trigger] bytes[i] != SEPARATOR,
    ensures
        first_separator(bytes, start) == first_separator(bytes, end),
    decreases end - start,
{
    if start < end {
        lemma_first_separator_skips(bytes, start + 1, end);
    }
}

/// A field without a separator, followed by a separator and more bytes,
/// ends at that separator, and the more bytes are what is behind it.
proof fn lemma_first_field(head: Seq<u8>, rest: Seq<u8>)
    requires
        has_no_separator(head),
    ensures
        first_separator(head + seq![SEPARATOR] + rest, 0) == head.len(),
        (head + seq![SEPARATOR] + rest).subrange(0, head.len() as int) == head,
        (head + seq![SEPARATOR] + rest).subrange(
            head.len() as int + 1,
            (head + seq![SEPARATOR] + rest).len() as int,
        ) == rest,
{
    let bytes = head + seq![SEPARATOR] + rest;
    assert forall|i: int| 0 <= i < head.len() implies #[trigger] bytes[i] != SEPARATOR by {
        assert(bytes[i] == head[i]);
    }
    lemma_first_separator_skips(bytes, 0, head.len() as int);
    assert(bytes[head.len() as int] == SEPARATOR);
    assert(bytes.subrange(0, head.len() as int) =~= head);
    assert(bytes.subrange(head.len() as int + 1, bytes.len() as int) =~= rest);
}

/// A field without a separator and with nothing behind it ends where the
/// bytes end.
proof fn lemma_last_field(bytes: Seq<u8>)
    requires
        has_no_separator(bytes),
    ensures
        first_separator(bytes, 0) == bytes.len(),
        bytes.subrange(0, bytes.len() as int) == bytes,
{
    lemma_first_separator_skips(bytes, 0, bytes.len() as int);
    assert(bytes.subrange(0, bytes.len() as int) =~= bytes);
}

/// The separator alone is UTF-8 text.
proof fn lemma_separator_is_utf8()
    ensures
        valid_utf8(seq![SEPARATOR]),
{
    let text = seq!['|'];
    assert(is_ascii_chars(text));
    is_ascii_chars_encode_utf8(text);
    encode_utf8_valid_utf8(text);
    assert(encode_utf8(text) =~= seq![SEPARATOR]);
}

/// What is written reads back: a payload whose message is UTF-8 text, and
/// whose agent id, message type and message hold no separator, is read from
/// its serialized bytes as it was.
pub proof fn lemma_serialized_payload_reads_back(payload: PayloadView)
    requires
        valid_utf8(payload.message_bytes),
        has_no_separator(encode_utf8(payload.agent_id)),
        has_no_separator(encode_utf8(payload.message_type)),
        has_no_separator(payload.message_bytes),
    ensures
        deserialized(serialized(payload)) == Ok::<PayloadView, PayloadFailure>(payload),
{
    let agent_id = encode_utf8(payload.agent_id);
    let message_type = encode_utf8(payload.message_type);
    let message = payload.message_bytes;
    let timestamp = encode_utf8(decimal(payload.timestamp as nat));
    let separator = seq![SEPARATOR];
    let behind_message = timestamp;
    let behind_type = message + separator + behind_message;
    let behind_id = message_type + separator + behind_type;
    let bytes = agent_id + separator + behind_id;
    assert(bytes =~= serialized(payload));

    assert(valid_utf8(bytes)) by {
        lemma_separator_is_utf8();
        encode_utf8_valid_utf8(payload.agent_id);
        encode_utf8_valid_utf8(payload.message_type);
        encode_utf8_valid_utf8(decimal(payload.timestamp as nat));
        valid_utf8_concat(message, separator);
        valid_utf8_concat(message + separator, behind_message);
        valid_utf8_concat(message_type, separator);
        valid_utf8_concat(message_type + separator, behind_type);
        valid_utf8_concat(agent_id, separator);
        valid_utf8_concat(agent_id + separator, behind_id);
    }

    lemma_timestamp_reads_back(payload.timestamp);
    lemma_first_field(agent_id, behind_id);
    lemma_first_field(message_type, behind_type);
    lemma_first_field(message, behind_message);
    lemma_last_field(timestamp);
    reveal_with_fuel(field, 4);
    assert(field(bytes, 0) == Some(agent_id));
    assert(field(bytes, 1) == Some(message_type));
    assert(field(bytes, 2) == Some(message));
    assert(field(bytes, 3) == Some(timestamp));
    encode_utf8_decode_utf8(payload.agent_id);
    encode_utf8_decode_utf8(payload.message_type);
}

} // verus!
