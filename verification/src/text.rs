//! Header values are text: what the grammar cuts out of them at its
//! delimiters is text too.

use crate::bytes::first_index_of;
use crate::bytes::lemma_first_index_of_props;
use crate::bytes::lemma_skip_whitespace_props;
use crate::bytes::skip_whitespace;
use crate::bytes::text_of;
use crate::parse_utils::quoted_items;
use crate::parse_utils::signature_input;
use crate::parse_utils::EQUALS;
use crate::parse_utils::QUOTE;
use vstd::prelude::*;
use vstd::utf8::decode_utf8;
use vstd::utf8::decode_utf8_encode_utf8;
use vstd::utf8::encode_utf8;
use vstd::utf8::encode_utf8_valid_utf8;
use vstd::utf8::is_char_boundary;
use vstd::utf8::is_char_boundary_iff_not_is_continuation_byte;
use vstd::utf8::is_char_boundary_start_end_of_seq;
use vstd::utf8::length_of_first_scalar;
use vstd::utf8::pop_first_scalar;
use vstd::utf8::valid_utf8;
use vstd::utf8::valid_utf8_split;

verus! {

/// In valid UTF-8 a byte below `0x80` is a character of its own: a
/// character begins at it, and the next one behind it.
pub proof fn lemma_ascii_byte_is_a_character(bytes: Seq<u8>, at: int)
    requires
        valid_utf8(bytes),
        0 <= at < bytes.len(),
        bytes[at] < 0x80,
    ensures
        is_char_boundary(bytes, at),
        is_char_boundary(bytes, at + 1),
    decreases bytes.len(),
{
    is_char_boundary_iff_not_is_continuation_byte(bytes, at);
    if at == 0 {
        reveal_with_fuel(is_char_boundary, 2);
    } else {
        let first = length_of_first_scalar(bytes);
        let rest = pop_first_scalar(bytes);
        reveal_with_fuel(is_char_boundary, 2);
        assert(is_char_boundary(rest, at - first));
        assert(rest[at - first] == bytes[at]);
        lemma_ascii_byte_is_a_character(rest, at - first);
    }
}

/// What stands between two bytes below `0x80` in valid UTF-8 is valid
/// UTF-8.
pub proof fn lemma_between_ascii_bytes_is_text(bytes: Seq<u8>, open: int, close: int)
    requires
        valid_utf8(bytes),
        0 <= open < close < bytes.len(),
        bytes[open] < 0x80,
        bytes[close] < 0x80,
    ensures
        valid_utf8(bytes.subrange(open + 1, close)),
{
    lemma_ascii_byte_is_a_character(bytes, close);
    valid_utf8_split(bytes, close);
    let head = bytes.subrange(0, close);
    if open + 1 < close {
        lemma_ascii_byte_is_a_character(bytes, open);
        is_char_boundary_iff_not_is_continuation_byte(bytes, open + 1);
        assert(head[open + 1] == bytes[open + 1]);
        is_char_boundary_iff_not_is_continuation_byte(head, open + 1);
    } else {
        is_char_boundary_start_end_of_seq(head);
    }
    valid_utf8_split(head, open + 1);
    assert(head.subrange(open + 1, head.len() as int) =~= bytes.subrange(open + 1, close));
}

/// The items that are read out of valid UTF-8 are valid UTF-8.
pub proof fn lemma_quoted_items_are_text(s: Seq<u8>, from: int)
    requires
        valid_utf8(s),
        0 <= from <= s.len(),
    ensures
        quoted_items(s, from) matches Some((items, _)) ==> forall|i: int|
            0 <= i < items.len() ==> valid_utf8(#[trigger] items[i]),
    decreases s.len() - from,
{
    let open = skip_whitespace(s, from);
    lemma_skip_whitespace_props(s, from);
    if open < s.len() && s[open] == QUOTE {
        let close = first_index_of(s, QUOTE, open + 1);
        lemma_first_index_of_props(s, QUOTE, open + 1);
        if close < s.len() {
            lemma_between_ascii_bytes_is_text(s, open, close);
            lemma_quoted_items_are_text(s, close + 1);
        }
    }
}

/// The components that a `signature-input` header lists are text: each is
/// the UTF-8 encoding of the text it stands for, so that a failure for a
/// missing header reports the name as it is listed.
pub proof fn law_components_are_text(header: Seq<char>)
    ensures
        signature_input(encode_utf8(header)) matches Ok(input) ==> forall|i: int|
            0 <= i < input.components.len() ==> valid_utf8(#[trigger] input.components[i])
                && text_of(input.components[i]) == decode_utf8(input.components[i])
                && encode_utf8(text_of(input.components[i])) == input.components[i],
{
    let s = encode_utf8(header);
    encode_utf8_valid_utf8(header);
    if signature_input(s) is Ok {
        let input = signature_input(s).unwrap();
        let eq = first_index_of(s, EQUALS, 0);
        lemma_first_index_of_props(s, EQUALS, 0);
        let open = skip_whitespace(s, eq + 1);
        lemma_skip_whitespace_props(s, eq + 1);
        lemma_quoted_items_are_text(s, open + 1);
        assert forall|i: int| 0 <= i < input.components.len() implies valid_utf8(
            #[trigger] input.components[i],
        ) && text_of(input.components[i]) == decode_utf8(input.components[i]) && encode_utf8(
            text_of(input.components[i]),
        ) == input.components[i] by {
            decode_utf8_encode_utf8(input.components[i]);
        }
    }
}

} // verus!
