//! How the lexer reads a string literal: the characters between the quotes
//! are the text of the token, whatever characters they are.

use crate::laws::lemma_encoding_of_joined_texts;
use crate::lexer::{byte_at, scan, skip_blank, string_end, string_text, Lexeme};
use crate::token::{textual, TokenKind};
use vstd::prelude::*;
use vstd::utf8::{
    char_is_scalar, char_u32_cast, encode_scalar, encode_utf8, encode_utf8_decode_utf8,
    encode_utf8_valid_utf8, is_ascii_chars, is_ascii_chars_encode_utf8,
};

verus! {

/// No byte of the UTF-8 encoding of a character other than the double
/// quote is the byte of the double quote.
pub proof fn lemma_quote_free_scalar(scalar: u32)
    requires
        scalar != 0x22,
    ensures
        forall|i: int| 0 <= i < encode_scalar(scalar).len() ==> encode_scalar(scalar)[i] != 0x22,
{
    assert((scalar & 0x7F) as u8 != 0x22u8 || scalar > 0x7F) by (bit_vector)
        requires
            scalar != 0x22,
    ;
    assert(0xC0u8 | ((scalar >> 6) & 0x1F) as u8 != 0x22u8) by (bit_vector);
    assert(0xE0u8 | ((scalar >> 12) & 0x0F) as u8 != 0x22u8) by (bit_vector);
    assert(0xF0u8 | ((scalar >> 18) & 0x7) as u8 != 0x22u8) by (bit_vector);
    assert(0x80u8 | (scalar & 0x3F) as u8 != 0x22u8) by (bit_vector);
    assert(0x80u8 | ((scalar >> 6) & 0x3F) as u8 != 0x22u8) by (bit_vector);
    assert(0x80u8 | ((scalar >> 12) & 0x3F) as u8 != 0x22u8) by (bit_vector);
}

/// The UTF-8 encoding of a text without double quotes holds no byte of a
/// double quote.
pub proof fn lemma_quote_free(body: Seq<char>)
    requires
        forall|i: int| 0 <= i < body.len() ==> body[i] != '"',
    ensures
        forall|j: int| 0 <= j < encode_utf8(body).len() ==> encode_utf8(body)[j] != 0x22,
    decreases body.len(),
{
    if body.len() > 0 {
        let head = encode_scalar(body[0] as u32);
        let tail = encode_utf8(body.drop_first());
        assert(body[0] != '"');
        char_is_scalar(body[0]);
        if body[0] as u32 == 0x22 {
            char_u32_cast(body[0], 0x22u32);
            char_u32_cast('"', 0x22u32);
        }
        assert(body[0] as u32 != 0x22);
        lemma_quote_free_scalar(body[0] as u32);
        assert forall|i: int| 0 <= i < body.drop_first().len() implies body.drop_first()[i]
            != '"' by {
            assert(body.drop_first()[i] == body[i + 1]);
        }
        lemma_quote_free(body.drop_first());
        assert(encode_utf8(body) == head + tail);
        assert forall|j: int| 0 <= j < encode_utf8(body).len() implies encode_utf8(body)[j]
            != 0x22 by {
            if j < head.len() {
                assert((head + tail)[j] == head[j]);
            } else {
                assert((head + tail)[j] == tail[j - head.len()]);
            }
        }
    }
}

/// The body of a string ends at the first double quote.
pub proof fn lemma_string_ends_at_the_quote(input: Seq<u8>, pos: int, end: int)
    requires
        0 <= pos <= end < input.len(),
        forall|i: int| pos <= i < end ==> input[i] != 0x22,
        input[end] == 0x22,
    ensures
        string_end(input, pos) == end,
    decreases end - pos,
{
    if pos < end {
        lemma_string_ends_at_the_quote(input, pos + 1, end);
    }
}

/// The UTF-8 encoding of a double quote is one byte.
pub proof fn lemma_encoded_quote()
    ensures
        encode_utf8(seq!['"']) == seq![0x22u8],
{
    let chars = seq!['"'];
    assert(is_ascii_chars(chars));
    is_ascii_chars_encode_utf8(chars);
    assert(chars[0] as u8 == 0x22u8);
    assert(encode_utf8(chars) =~= seq![0x22u8]);
}

/// A text without double quotes, written between double quotes, is read as
/// the string literal of that text, up to the end of the input.
pub proof fn law_string_literal(body: Seq<char>)
    requires
        forall|i: int| 0 <= i < body.len() ==> body[i] != '"',
    ensures
        scan(encode_utf8(seq!['"'] + body + seq!['"']), 0) == (Lexeme {
            token: textual(TokenKind::ConstStr, body),
            next: encode_utf8(seq!['"'] + body + seq!['"']).len() as int,
        }),
{
    reveal(scan);
    let quote = seq![0x22u8];
    let inner = encode_utf8(body);
    let bytes = encode_utf8(seq!['"'] + body + seq!['"']);
    lemma_encoded_quote();
    lemma_encoding_of_joined_texts(seq!['"'], body);
    lemma_encoding_of_joined_texts(seq!['"'] + body, seq!['"']);
    assert(bytes == quote + inner + quote);
    let end = 1 + inner.len() as int;
    assert(bytes.len() == end + 1);
    assert(bytes[0] == 0x22);
    assert(bytes[end] == 0x22);
    lemma_quote_free(body);
    assert forall|i: int| 1 <= i < end implies bytes[i] != 0x22 by {
        assert(bytes[i] == inner[i - 1]);
    }
    lemma_string_ends_at_the_quote(bytes, 1, end);
    assert(bytes.subrange(1, end) =~= inner);
    encode_utf8_valid_utf8(body);
    encode_utf8_decode_utf8(body);
    assert(string_text(inner) == body);
    assert(skip_blank(bytes, 0, false) == 0);
    assert(byte_at(bytes, 0) == 0x22);
}

} // verus!
