//! How the lexer reads what the printer writes: the decimal form of a
//! number is read back as that number.

use crate::lexer::{byte_at, digits_end, digits_value, is_digit, scan, skip_blank, Lexeme};
use crate::text::decimal_digits;
use crate::token::{integer, plain, TokenKind};
use vstd::prelude::*;
use vstd::utf8::{encode_utf8, is_ascii_chars, is_ascii_chars_encode_utf8};

verus! {

/// The byte of a decimal digit.
pub open spec fn digit_byte(d: int) -> u8 {
    (0x30 + d) as u8
}

/// The bytes of the decimal digits of a number.
pub open spec fn numeral(n: nat) -> Seq<u8>
    decreases n,
{
    if n < 10 {
        seq![digit_byte(n as int)]
    } else {
        numeral(n / 10).push(digit_byte((n % 10) as int))
    }
}

/// A numeral has at least one byte, and all its bytes are digits.
pub proof fn lemma_numeral_is_digits(n: nat)
    ensures
        numeral(n).len() >= 1,
        forall|i: int| 0 <= i < numeral(n).len() ==> is_digit(#[trigger] numeral(n)[i]),
    decreases n,
{
    if n >= 10 {
        lemma_numeral_is_digits(n / 10);
    }
}

/// The decimal digits of a number are ASCII characters, one for each byte
/// of the numeral.
pub proof fn lemma_digits_are_ascii(n: nat)
    ensures
        is_ascii_chars(decimal_digits(n)),
        decimal_digits(n).len() == numeral(n).len(),
        forall|i: int|
            0 <= i < numeral(n).len() ==> (#[trigger] decimal_digits(n)[i]) as u8 == numeral(n)[i],
    decreases n,
{
    if n >= 10 {
        lemma_digits_are_ascii(n / 10);
    }
}

/// The UTF-8 encoding of the decimal digits of a number is its numeral.
pub proof fn lemma_encoded_digits(n: nat)
    ensures
        encode_utf8(decimal_digits(n)) == numeral(n),
{
    lemma_digits_are_ascii(n);
    is_ascii_chars_encode_utf8(decimal_digits(n));
    assert(encode_utf8(decimal_digits(n)) =~= numeral(n));
}

/// The UTF-8 encoding of a minus sign is one byte.
pub proof fn lemma_encoded_minus()
    ensures
        encode_utf8(seq!['-']) == seq![0x2du8],
{
    let chars = seq!['-'];
    assert(is_ascii_chars(chars));
    is_ascii_chars_encode_utf8(chars);
    assert(chars[0] as u8 == 0x2du8);
    assert(encode_utf8(chars) =~= seq![0x2du8]);
}

/// Whether the input holds the bytes `bytes` from `pos` to its end.
pub open spec fn ends_with(input: Seq<u8>, pos: int, bytes: Seq<u8>) -> bool {
    &&& 0 <= pos
    &&& input.len() == pos + bytes.len()
    &&& forall|i: int| 0 <= i < bytes.len() ==> input[pos + i] == #[trigger] bytes[i]
}

/// The digits of a numeral write its number.
pub proof fn lemma_value_of_numeral(input: Seq<u8>, pos: int, n: nat)
    requires
        0 <= pos,
        pos + numeral(n).len() <= input.len(),
        forall|i: int| 0 <= i < numeral(n).len() ==> input[pos + i] == #[trigger] numeral(n)[i],
    ensures
        digits_value(input, pos, pos + numeral(n).len()) == n,
    decreases n,
{
    let k = numeral(n).len() as int;
    if n < 10 {
        assert(numeral(n)[0] == digit_byte(n as int));
        assert(input[pos] == digit_byte(n as int));
        assert(digits_value(input, pos, pos) == 0);
        assert(byte_at(input, pos + 1 - 1) == digit_byte(n as int));
    } else {
        let shorter = numeral(n / 10);
        assert(numeral(n) == shorter.push(digit_byte((n % 10) as int)));
        assert forall|i: int| 0 <= i < shorter.len() implies input[pos + i] == #[trigger] shorter[i] by {
            assert(numeral(n)[i] == shorter[i]);
        }
        lemma_value_of_numeral(input, pos, n / 10);
        assert(numeral(n)[k - 1] == digit_byte((n % 10) as int));
        assert(input[pos + (k - 1)] == numeral(n)[k - 1]);
        assert(byte_at(input, pos + k - 1) == digit_byte((n % 10) as int));
        assert(digits_value(input, pos, pos + k) == digits_value(input, pos, pos + k - 1) * 10
            + (byte_at(input, pos + k - 1) - 0x30) as nat);
    }
}

/// A run of digits that reaches the end of the input ends there.
pub proof fn lemma_digits_run_to_the_end(input: Seq<u8>, pos: int)
    requires
        0 <= pos <= input.len(),
        forall|i: int| pos <= i < input.len() ==> is_digit(#[trigger] input[i]),
    ensures
        digits_end(input, pos) == input.len(),
    decreases input.len() - pos,
{
    if pos < input.len() {
        assert(is_digit(input[pos]));
        lemma_digits_run_to_the_end(input, pos + 1);
    }
}

/// Where the input ends with a numeral, the lexer reads the number of the
/// numeral up to the end of the input.
pub proof fn lemma_scan_numeral(input: Seq<u8>, pos: int, n: nat)
    requires
        ends_with(input, pos, numeral(n)),
        n <= i128::MAX,
    ensures
        scan(input, pos) == (Lexeme { token: integer(n as i128), next: input.len() as int }),
{
    reveal(scan);
    lemma_numeral_is_digits(n);
    assert(is_digit(numeral(n)[0]));
    assert(input[pos + 0] == numeral(n)[0]);
    assert(is_digit(input[pos]));
    assert(skip_blank(input, pos, false) == pos);
    assert forall|i: int| pos <= i < input.len() implies is_digit(#[trigger] input[i]) by {
        assert(input[pos + (i - pos)] == numeral(n)[i - pos]);
    }
    lemma_digits_run_to_the_end(input, pos);
    lemma_value_of_numeral(input, pos, n);
    assert(byte_at(input, pos) == input[pos]);
}

/// At the end of the input the lexer reads the end of input and stays.
pub proof fn lemma_scan_at_the_end(input: Seq<u8>)
    ensures
        scan(input, input.len() as int) == (Lexeme {
            token: plain(TokenKind::Eof),
            next: input.len() as int,
        }),
{
    reveal(scan);
    assert(skip_blank(input, input.len() as int, false) == input.len());
}

/// A minus sign before a digit is read as the minus operator.
pub proof fn lemma_scan_minus(input: Seq<u8>, n: nat)
    requires
        input.len() >= 1,
        input[0] == 0x2d,
        ends_with(input, 1, numeral(n)),
    ensures
        scan(input, 0) == (Lexeme { token: plain(TokenKind::Minus), next: 1 }),
{
    reveal(scan);
    lemma_numeral_is_digits(n);
    assert(input[1int + 0] == numeral(n)[0]);
    assert(is_digit(input[1]));
    assert(skip_blank(input, 0, false) == 0);
    assert(byte_at(input, 0) == 0x2d);
    assert(byte_at(input, 1) == input[1]);
}

} // verus!
