//! How the lexer reads the two boolean literals.

use crate::lexer::{
    ascii_text, byte_at, is_letter, scan, skip_blank, word_end, word_token, Lexeme,
};
use crate::token::boolean;
use vstd::prelude::*;
use vstd::utf8::{encode_utf8, is_ascii_chars, is_ascii_chars_encode_utf8};

verus! {

/// A run of letters that reaches the end of the input ends there.
pub proof fn lemma_word_runs_to_the_end(input: Seq<u8>, pos: int)
    requires
        0 <= pos <= input.len(),
        forall|i: int| pos <= i < input.len() ==> is_letter(#[trigger] input[i]),
    ensures
        word_end(input, pos) == input.len(),
    decreases input.len() - pos,
{
    if pos < input.len() {
        assert(is_letter(input[pos]));
        lemma_word_runs_to_the_end(input, pos + 1);
    }
}

/// An input of letters only is read as one word.
pub proof fn lemma_scan_word(input: Seq<u8>)
    requires
        input.len() >= 1,
        forall|i: int| 0 <= i < input.len() ==> is_letter(#[trigger] input[i]),
    ensures
        scan(input, 0) == (Lexeme {
            token: word_token(ascii_text(input)),
            next: input.len() as int,
        }),
{
    reveal(scan);
    assert(is_letter(input[0]));
    assert(skip_blank(input, 0, false) == 0);
    lemma_word_runs_to_the_end(input, 0);
    assert(input.subrange(0, input.len() as int) =~= input);
    assert(byte_at(input, 0) == input[0]);
}

/// The text `true` is read as the boolean literal of that name.
pub proof fn lemma_scan_true()
    ensures
        scan(encode_utf8("true"@), 0) == (Lexeme { token: boolean(true), next: 4 }),
        encode_utf8("true"@).len() == 4,
{
    reveal_strlit("true");
    reveal_strlit("fun");
    reveal_strlit("let");
    reveal_strlit("if");
    reveal_strlit("elif");
    reveal_strlit("else");
    reveal_strlit("return");
    let chars = "true"@;
    assert(is_ascii_chars(chars));
    is_ascii_chars_encode_utf8(chars);
    let bytes = encode_utf8(chars);
    assert(bytes[0] == 0x74u8 && bytes[1] == 0x72u8 && bytes[2] == 0x75u8 && bytes[3] == 0x65u8);
    lemma_scan_word(bytes);
    assert(ascii_text(bytes) =~= chars);
    assert(chars != "fun"@ && chars != "let"@ && chars != "if"@ && chars != "return"@) by {
        assert(chars.len() == 4);
    }
    assert(chars != "elif"@) by {
        assert(chars[0] != "elif"@[0]);
    }
    assert(chars != "else"@) by {
        assert(chars[0] != "else"@[0]);
    }
}

/// The text `false` is read as the boolean literal of that name.
pub proof fn lemma_scan_false()
    ensures
        scan(encode_utf8("false"@), 0) == (Lexeme { token: boolean(false), next: 5 }),
        encode_utf8("false"@).len() == 5,
{
    reveal_strlit("false");
    reveal_strlit("true");
    reveal_strlit("fun");
    reveal_strlit("let");
    reveal_strlit("if");
    reveal_strlit("elif");
    reveal_strlit("else");
    reveal_strlit("return");
    let chars = "false"@;
    assert(is_ascii_chars(chars));
    is_ascii_chars_encode_utf8(chars);
    let bytes = encode_utf8(chars);
    assert(bytes[0] == 0x66u8 && bytes[1] == 0x61u8 && bytes[2] == 0x6cu8 && bytes[3] == 0x73u8
        && bytes[4] == 0x65u8);
    lemma_scan_word(bytes);
    assert(ascii_text(bytes) =~= chars);
    assert(chars != "fun"@ && chars != "let"@ && chars != "if"@ && chars != "return"@ && chars
        != "elif"@ && chars != "else"@ && chars != "true"@) by {
        assert(chars.len() == 5);
    }
}

} // verus!
