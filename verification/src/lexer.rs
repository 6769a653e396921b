//! The lexer: a single pass over the bytes of the source text that hands out
//! one token per call.
//!
//! What the lexer returns is fixed by the specification function [`scan`]:
//! the token that starts at a position of the input, blanks and comments
//! skipped, and the position right after it.

use crate::text::{push_char, same_text};
use crate::token::{
    boolean, integer, plain, textual, token_view, Token, TokenKind, TokenView,
};
use vstd::prelude::*;
use vstd::slice::slice_subrange;
use vstd::string::*;
use vstd::utf8::{decode_utf8, encode_utf8, valid_utf8};

verus! {

/// The byte at a position of the input, or the NUL byte past its end.
pub open spec fn byte_at(input: Seq<u8>, pos: int) -> u8 {
    if 0 <= pos < input.len() {
        input[pos]
    } else {
        0
    }
}

/// Space, tab, line feed and carriage return separate tokens.
pub open spec fn is_whitespace(b: u8) -> bool {
    b == 0x20 || b == 0x09 || b == 0x0a || b == 0x0d
}

/// An ASCII letter or an underscore starts an identifier.
pub open spec fn is_letter(b: u8) -> bool {
    (0x41 <= b <= 0x5a) || (0x61 <= b <= 0x7a) || b == 0x5f
}

/// An ASCII decimal digit.
pub open spec fn is_digit(b: u8) -> bool {
    0x30 <= b <= 0x39
}

/// The position of the first byte at or after `pos` that is neither blank
/// nor part of a comment. A comment runs from `//` to the end of its line;
/// `in_comment` says that `pos` lies inside one.
pub open spec fn skip_blank(input: Seq<u8>, pos: int, in_comment: bool) -> int
    decreases input.len() - pos,
{
    if pos < 0 || pos >= input.len() {
        pos
    } else if in_comment {
        skip_blank(input, pos + 1, input[pos] != 0x0a)
    } else if is_whitespace(input[pos]) {
        skip_blank(input, pos + 1, false)
    } else if input[pos] == 0x2f && byte_at(input, pos + 1) == 0x2f {
        skip_blank(input, pos + 2, true)
    } else {
        pos
    }
}

/// The position right after the run of letters, digits and underscores that
/// starts at `pos`.
pub open spec fn word_end(input: Seq<u8>, pos: int) -> int
    decreases input.len() - pos,
{
    if 0 <= pos < input.len() && (is_letter(input[pos]) || is_digit(input[pos])) {
        word_end(input, pos + 1)
    } else {
        pos
    }
}

/// The position right after the run of digits that starts at `pos`.
pub open spec fn digits_end(input: Seq<u8>, pos: int) -> int
    decreases input.len() - pos,
{
    if 0 <= pos < input.len() && is_digit(input[pos]) {
        digits_end(input, pos + 1)
    } else {
        pos
    }
}

/// The position of the first double quote at or after `pos`, or the end of
/// the input where there is none.
pub open spec fn string_end(input: Seq<u8>, pos: int) -> int
    decreases input.len() - pos,
{
    if 0 <= pos < input.len() && input[pos] != 0x22 {
        string_end(input, pos + 1)
    } else {
        pos
    }
}

/// The number that the decimal digits `input[start..end]` write.
pub open spec fn digits_value(input: Seq<u8>, start: int, end: int) -> nat
    decreases end - start,
{
    if end <= start {
        0
    } else {
        digits_value(input, start, end - 1) * 10 + (byte_at(input, end - 1) - 0x30) as nat
    }
}

/// The characters of a run of ASCII bytes.
pub open spec fn ascii_text(bytes: Seq<u8>) -> Seq<char> {
    Seq::new(bytes.len(), |i: int| bytes[i] as char)
}

/// The text that a run of bytes decodes to as UTF-8, with each malformed
/// part replaced by U+FFFD. It names the result of `String::from_utf8_lossy`.
pub uninterp spec fn lossy_text(bytes: Seq<u8>) -> Seq<char>;

/// The text of the body of a string literal: the characters that its bytes
/// encode. Bytes that are no UTF-8, which no text holds, are decoded with
/// replacement characters.
pub open spec fn string_text(bytes: Seq<u8>) -> Seq<char> {
    if valid_utf8(bytes) {
        decode_utf8(bytes)
    } else {
        lossy_text(bytes)
    }
}

/// The token of a word: a keyword, a boolean literal, or an identifier.
pub open spec fn word_token(text: Seq<char>) -> TokenView {
    if text == "fun"@ {
        plain(TokenKind::Fun)
    } else if text == "let"@ {
        plain(TokenKind::Let)
    } else if text == "if"@ {
        plain(TokenKind::If)
    } else if text == "elif"@ {
        plain(TokenKind::Elif)
    } else if text == "else"@ {
        plain(TokenKind::Else)
    } else if text == "return"@ {
        plain(TokenKind::Return)
    } else if text == "true"@ {
        boolean(true)
    } else if text == "false"@ {
        boolean(false)
    } else if text == "int"@ {
        plain(TokenKind::Int)
    } else if text == "str"@ {
        plain(TokenKind::Str)
    } else if text == "bool"@ {
        plain(TokenKind::Bool)
    } else if text == "arr"@ {
        plain(TokenKind::Arr)
    } else if text == "and"@ {
        plain(TokenKind::And)
    } else if text == "or"@ {
        plain(TokenKind::Or)
    } else if text == "not"@ {
        plain(TokenKind::Not)
    } else if text == "break"@ {
        plain(TokenKind::Break)
    } else {
        textual(TokenKind::Id, text)
    }
}

/// A token together with the position right after it.
pub struct Lexeme {
    pub token: TokenView,
    pub next: int,
}

/// An operator of one byte, or of two where the byte `second` follows.
pub open spec fn operator_at(pos: int, follower: u8, second: u8, long: TokenKind, short: TokenKind)
    -> Lexeme {
    if follower == second {
        Lexeme { token: plain(long), next: pos + 2 }
    } else {
        Lexeme { token: plain(short), next: pos + 1 }
    }
}

/// The token that starts exactly at `pos`, where `pos` holds neither a
/// blank nor the start of a comment.
///
/// A NUL byte, like the end of the input, is the end of the text: the token
/// there is `Eof` and the position does not move past it. A number too
/// large for 128 bits is an invalid token that carries its digits.
pub open spec fn token_at(input: Seq<u8>, pos: int) -> Lexeme {
    let c = byte_at(input, pos);
    let d = byte_at(input, pos + 1);
    if c == 0 {
        Lexeme { token: plain(TokenKind::Eof), next: pos }
    } else if c == 0x2b {
        if d == 0x3d {
            Lexeme { token: plain(TokenKind::SumAsig), next: pos + 2 }
        } else {
            operator_at(pos, d, 0x2b, TokenKind::Inc, TokenKind::Plus)
        }
    } else if c == 0x2d {
        if d == 0x3d {
            Lexeme { token: plain(TokenKind::MinAsig), next: pos + 2 }
        } else if d == 0x3e {
            Lexeme { token: plain(TokenKind::Arrow), next: pos + 2 }
        } else {
            operator_at(pos, d, 0x2d, TokenKind::Dec, TokenKind::Minus)
        }
    } else if c == 0x2a {
        operator_at(pos, d, 0x3d, TokenKind::MulAsig, TokenKind::Mult)
    } else if c == 0x2f {
        operator_at(pos, d, 0x3d, TokenKind::DivAsig, TokenKind::Div)
    } else if c == 0x25 {
        Lexeme { token: plain(TokenKind::Mod), next: pos + 1 }
    } else if c == 0x3c {
        operator_at(pos, d, 0x3d, TokenKind::Le, TokenKind::Lt)
    } else if c == 0x3e {
        operator_at(pos, d, 0x3d, TokenKind::Ge, TokenKind::Gt)
    } else if c == 0x21 {
        if d == 0x3d {
            Lexeme { token: plain(TokenKind::Neq), next: pos + 2 }
        } else {
            Lexeme { token: textual(TokenKind::Invalid, seq!['!']), next: pos + 1 }
        }
    } else if c == 0x3d {
        operator_at(pos, d, 0x3d, TokenKind::Eq, TokenKind::Assig)
    } else if c == 0x22 {
        let end = string_end(input, pos + 1);
        Lexeme {
            token: textual(TokenKind::ConstStr, string_text(input.subrange(pos + 1, end))),
            next: if end < input.len() {
                end + 1
            } else {
                end
            },
        }
    } else if c == 0x2c {
        Lexeme { token: plain(TokenKind::Coma), next: pos + 1 }
    } else if c == 0x3b {
        Lexeme { token: plain(TokenKind::Semicolon), next: pos + 1 }
    } else if c == 0x3a {
        Lexeme { token: plain(TokenKind::Colon), next: pos + 1 }
    } else if c == 0x28 {
        Lexeme { token: plain(TokenKind::Opar), next: pos + 1 }
    } else if c == 0x29 {
        Lexeme { token: plain(TokenKind::Cpar), next: pos + 1 }
    } else if c == 0x7b {
        Lexeme { token: plain(TokenKind::Okey), next: pos + 1 }
    } else if c == 0x7d {
        Lexeme { token: plain(TokenKind::Ckey), next: pos + 1 }
    } else if c == 0x5b {
        Lexeme { token: plain(TokenKind::Obrac), next: pos + 1 }
    } else if c == 0x5d {
        Lexeme { token: plain(TokenKind::Cbrac), next: pos + 1 }
    } else if is_letter(c) {
        let end = word_end(input, pos);
        Lexeme { token: word_token(ascii_text(input.subrange(pos, end))), next: end }
    } else if is_digit(c) {
        let end = digits_end(input, pos);
        let value = digits_value(input, pos, end);
        Lexeme {
            token: if value <= i128::MAX {
                integer(value as i128)
            } else {
                textual(TokenKind::Invalid, ascii_text(input.subrange(pos, end)))
            },
            next: end,
        }
    } else {
        Lexeme { token: textual(TokenKind::Invalid, seq![c as char]), next: pos + 1 }
    }
}

/// The next token at or after `pos`: blanks and comments are skipped, then
/// the token is read.
#[verifier::opaque]
pub open spec fn scan(input: Seq<u8>, pos: int) -> Lexeme {
    token_at(input, skip_blank(input, pos, false))
}

/// Skipping blanks never moves backwards nor past the end of the input.
pub proof fn lemma_skip_blank_bounds(input: Seq<u8>, pos: int, in_comment: bool)
    requires
        0 <= pos <= input.len(),
    ensures
        pos <= skip_blank(input, pos, in_comment) <= input.len(),
    decreases input.len() - pos,
{
    if pos < input.len() {
        if in_comment {
            lemma_skip_blank_bounds(input, pos + 1, input[pos] != 0x0a);
        } else if is_whitespace(input[pos]) {
            lemma_skip_blank_bounds(input, pos + 1, false);
        } else if input[pos] == 0x2f && byte_at(input, pos + 1) == 0x2f {
            lemma_skip_blank_bounds(input, pos + 2, true);
        }
    }
}

/// Where skipping stops outside a comment, there is no blank and no comment.
pub proof fn lemma_skip_blank_stops(input: Seq<u8>, pos: int, in_comment: bool)
    requires
        0 <= pos <= input.len(),
    ensures
        skip_blank(input, skip_blank(input, pos, in_comment), false) == skip_blank(
            input,
            pos,
            in_comment,
        ),
    decreases input.len() - pos,
{
    if pos < input.len() {
        if in_comment {
            lemma_skip_blank_stops(input, pos + 1, input[pos] != 0x0a);
        } else if is_whitespace(input[pos]) {
            lemma_skip_blank_stops(input, pos + 1, false);
        } else if input[pos] == 0x2f && byte_at(input, pos + 1) == 0x2f {
            lemma_skip_blank_stops(input, pos + 2, true);
        }
    }
}

/// A run of word bytes ends inside the input.
pub proof fn lemma_word_end_bounds(input: Seq<u8>, pos: int)
    requires
        0 <= pos <= input.len(),
    ensures
        pos <= word_end(input, pos) <= input.len(),
    decreases input.len() - pos,
{
    if pos < input.len() && (is_letter(input[pos]) || is_digit(input[pos])) {
        lemma_word_end_bounds(input, pos + 1);
    }
}

/// A run of digits ends inside the input.
pub proof fn lemma_digits_end_bounds(input: Seq<u8>, pos: int)
    requires
        0 <= pos <= input.len(),
    ensures
        pos <= digits_end(input, pos) <= input.len(),
    decreases input.len() - pos,
{
    if pos < input.len() && is_digit(input[pos]) {
        lemma_digits_end_bounds(input, pos + 1);
    }
}

/// The body of a string ends inside the input.
pub proof fn lemma_string_end_bounds(input: Seq<u8>, pos: int)
    requires
        0 <= pos <= input.len(),
    ensures
        pos <= string_end(input, pos) <= input.len(),
    decreases input.len() - pos,
{
    if pos < input.len() && input[pos] != 0x22 {
        lemma_string_end_bounds(input, pos + 1);
    }
}

/// Reading a token never moves backwards nor past the end of the input,
/// and every token but `Eof` takes at least one byte.
pub proof fn lemma_scan_advances(input: Seq<u8>, pos: int)
    requires
        0 <= pos <= input.len(),
    ensures
        pos <= scan(input, pos).next <= input.len(),
        scan(input, pos).token.kind != TokenKind::Eof ==> pos < scan(input, pos).next,
{
    reveal(scan);
    lemma_skip_blank_bounds(input, pos, false);
    let p = skip_blank(input, pos, false);
    let c = byte_at(input, p);
    if c != 0 {
        lemma_word_end_bounds(input, p + 1);
        lemma_digits_end_bounds(input, p + 1);
        lemma_string_end_bounds(input, p + 1);
    }
}

/// Once the lexer has returned `Eof` it stays where it is and returns `Eof`
/// again.
pub proof fn lemma_eof_is_final(input: Seq<u8>, pos: int)
    requires
        0 <= pos <= input.len(),
        scan(input, pos).token.kind == TokenKind::Eof,
    ensures
        scan(input, scan(input, pos).next) == scan(input, pos),
{
    reveal(scan);
    lemma_skip_blank_bounds(input, pos, false);
    lemma_skip_blank_stops(input, pos, false);
    let p = skip_blank(input, pos, false);
    let c = byte_at(input, p);
    if c != 0 {
        lemma_word_end_bounds(input, p + 1);
        lemma_digits_end_bounds(input, p + 1);
        lemma_string_end_bounds(input, p + 1);
    }
}

/// The state of a lexer: the bytes it reads and how far it has read.
pub struct LexerView {
    pub input: Seq<u8>,
    pub position: int,
}

/// The lexer takes a string and divides it into tokens.
pub struct Lexer {
    /// The bytes of the source text.
    input: Vec<u8>,
    /// The position of the next byte to read.
    position: usize,
}

/// Decodes a run of bytes as UTF-8 text.
///
/// Trusted: stands for `String::from_utf8_lossy` of the standard library.
/// Its result is a function of the bytes alone and is named [`lossy_text`];
/// the documentation says that well-formed UTF-8 is decoded as it stands.
#[verifier::external_body]
fn decode_lossy(bytes: &[u8]) -> (text: String)
    ensures
        text@ == lossy_text(bytes@),
        valid_utf8(bytes@) ==> text@ == decode_utf8(bytes@),
{
    String::from_utf8_lossy(bytes).into_owned()
}

fn byte_is_whitespace(b: u8) -> (r: bool)
    ensures
        r == is_whitespace(b),
{
    b == 0x20 || b == 0x09 || b == 0x0a || b == 0x0d
}

fn byte_is_letter(b: u8) -> (r: bool)
    ensures
        r == is_letter(b),
{
    (0x41 <= b && b <= 0x5a) || (0x61 <= b && b <= 0x7a) || b == 0x5f
}

fn byte_is_digit(b: u8) -> (r: bool)
    ensures
        r == is_digit(b),
{
    0x30 <= b && b <= 0x39
}

/// The token of a word: see [`word_token`].
fn lookup_word(text: String) -> (token: Token)
    ensures
        token@ == word_token(text@),
{
    proof {
        reveal(token_view);
    }
    let word = text.as_str();
    if same_text(word, "fun") {
        Token::Fun
    } else if same_text(word, "let") {
        Token::Let
    } else if same_text(word, "if") {
        Token::If
    } else if same_text(word, "elif") {
        Token::Elif
    } else if same_text(word, "else") {
        Token::Else
    } else if same_text(word, "return") {
        Token::Return
    } else if same_text(word, "true") {
        Token::ConstBool(true)
    } else if same_text(word, "false") {
        Token::ConstBool(false)
    } else if same_text(word, "int") {
        Token::Int
    } else if same_text(word, "str") {
        Token::Str
    } else if same_text(word, "bool") {
        Token::Bool
    } else if same_text(word, "arr") {
        Token::Arr
    } else if same_text(word, "and") {
        Token::And
    } else if same_text(word, "or") {
        Token::Or
    } else if same_text(word, "not") {
        Token::Not
    } else if same_text(word, "break") {
        Token::Break
    } else {
        Token::Id(text)
    }
}

impl View for Lexer {
    type V = LexerView;

    closed spec fn view(&self) -> LexerView {
        LexerView { input: self.input@, position: self.position as int }
    }
}

impl Lexer {
    /// Whether the position lies inside the input or at its end. Every
    /// lexer that `new` makes is valid, and `next_token` keeps it so.
    pub closed spec fn wf(&self) -> bool {
        self.position <= self.input.len()
    }

    /// The position of a valid lexer lies inside its input or at its end.
    pub proof fn lemma_wf(&self)
        requires
            self.wf(),
        ensures
            0 <= self@.position <= self@.input.len(),
    {
    }

    /// A lexer at the start of the given source text. It reads the UTF-8
    /// bytes of the text.
    pub fn new(input: String) -> (lexer: Lexer)
        ensures
            lexer.wf(),
            lexer@.input == encode_utf8(input@),
            lexer@.position == 0,
    {
        Lexer { input: input.as_str().as_bytes_vec(), position: 0 }
    }

    /// The byte under the cursor, or NUL at the end of the input.
    fn current(&self) -> (b: u8)
        ensures
            b == byte_at(self@.input, self@.position),
    {
        if self.position < self.input.len() {
            self.input[self.position]
        } else {
            0
        }
    }

    /// The byte after the one under the cursor, or NUL where there is none.
    fn peek_char(&self) -> (b: u8)
        ensures
            b == byte_at(self@.input, self@.position + 1),
    {
        if self.position < self.input.len() && self.position + 1 < self.input.len() {
            self.input[self.position + 1]
        } else {
            0
        }
    }

    /// Moves the cursor one byte forward, unless it is at the end.
    fn read_char(&mut self)
        requires
            old(self).wf(),
        ensures
            final(self).wf(),
            final(self)@.input == old(self)@.input,
            final(self)@.position == if old(self)@.position < old(self)@.input.len() {
                old(self)@.position + 1
            } else {
                old(self)@.position
            },
    {
        if self.position < self.input.len() {
            self.position += 1;
        }
    }

    /// Moves the cursor to the next byte that is neither blank nor part of
    /// a comment.
    fn skip_whitespace(&mut self)
        requires
            old(self).wf(),
        ensures
            final(self).wf(),
            final(self)@.input == old(self)@.input,
            final(self)@.position == skip_blank(old(self)@.input, old(self)@.position, false),
    {
        let mut in_comment = false;
        loop
            invariant
                self.wf(),
                self.input@ == old(self).input@,
                skip_blank(self.input@, self.position as int, in_comment) == skip_blank(
                    old(self).input@,
                    old(self).position as int,
                    false,
                ),
            ensures
                self.position as int == skip_blank(
                    old(self).input@,
                    old(self).position as int,
                    false,
                ),
            decreases self.input.len() - self.position,
        {
            if self.position >= self.input.len() {
                break ;
            }
            let b = self.input[self.position];
            if in_comment {
                in_comment = b != 0x0a;
                self.position += 1;
            } else if byte_is_whitespace(b) {
                self.position += 1;
            } else if b == 0x2f && self.peek_char() == 0x2f {
                in_comment = true;
                self.position += 2;
            } else {
                break ;
            }
        }
    }

    /// Reads the word under the cursor and returns its text.
    fn read_identifier(&mut self) -> (text: String)
        requires
            old(self).wf(),
        ensures
            final(self).wf(),
            final(self)@.input == old(self)@.input,
            final(self)@.position == word_end(old(self)@.input, old(self)@.position),
            text@ == ascii_text(
                old(self)@.input.subrange(old(self)@.position, final(self)@.position),
            ),
    {
        let mut text = String::new();
        let ghost start = self.position as int;
        while self.position < self.input.len() && (byte_is_letter(self.input[self.position])
            || byte_is_digit(self.input[self.position]))
            invariant
                self.wf(),
                self.input@ == old(self).input@,
                start == old(self).position,
                start <= self.position,
                word_end(self.input@, self.position as int) == word_end(self.input@, start),
                text@ == ascii_text(self.input@.subrange(start, self.position as int)),
            decreases self.input.len() - self.position,
        {
            push_char(&mut text, self.input[self.position] as char);
            self.position += 1;
            assert(text@ =~= ascii_text(self.input@.subrange(start, self.position as int)));
        }
        text
    }

    /// Reads the digits under the cursor and returns their value, or
    /// nothing where it does not fit in 128 bits.
    fn read_number(&mut self) -> (value: Option<i128>)
        requires
            old(self).wf(),
        ensures
            final(self).wf(),
            final(self)@.input == old(self)@.input,
            final(self)@.position == digits_end(old(self)@.input, old(self)@.position),
            match value {
                Some(v) => v == digits_value(
                    old(self)@.input,
                    old(self)@.position,
                    final(self)@.position,
                ),
                None => digits_value(
                    old(self)@.input,
                    old(self)@.position,
                    final(self)@.position,
                ) > i128::MAX,
            },
    {
        let ghost start = self.position as int;
        let mut value: Option<i128> = Some(0);
        while self.position < self.input.len() && byte_is_digit(self.input[self.position])
            invariant
                self.wf(),
                self.input@ == old(self).input@,
                start == old(self).position,
                start <= self.position,
                digits_end(self.input@, self.position as int) == digits_end(self.input@, start),
                forall|i: int| start <= i < self.position ==> is_digit(byte_at(self.input@, i)),
                match value {
                    Some(v) => 0 <= v && v == digits_value(
                        self.input@,
                        start,
                        self.position as int,
                    ),
                    None => digits_value(self.input@, start, self.position as int) > i128::MAX,
                },
            decreases self.input.len() - self.position,
        {
            let digit = (self.input[self.position] - 0x30) as i128;
            let ghost before = digits_value(self.input@, start, self.position as int);
            value = match value {
                Some(v) => match v.checked_mul(10) {
                    Some(tens) => tens.checked_add(digit),
                    None => None,
                },
                None => None,
            };
            self.position += 1;
            proof {
                assert(digits_value(self.input@, start, self.position as int) == before * 10
                    + digit);
            }
        }
        value
    }

    /// The text of the bytes from `start` up to the cursor, which hold
    /// ASCII only.
    fn text_since(&self, start: usize) -> (text: String)
        requires
            self.wf(),
            start <= self@.position,
        ensures
            text@ == ascii_text(self@.input.subrange(start as int, self@.position)),
    {
        let mut text = String::new();
        let mut i = start;
        while i < self.position
            invariant
                self.wf(),
                start <= i <= self.position,
                text@ == ascii_text(self.input@.subrange(start as int, i as int)),
            decreases self.position - i,
        {
            push_char(&mut text, self.input[i] as char);
            i += 1;
            assert(text@ =~= ascii_text(self.input@.subrange(start as int, i as int)));
        }
        text
    }

    /// Reads the body of a string, whose opening quote lies under the
    /// cursor, and moves past the closing quote where there is one.
    fn read_string(&mut self) -> (text: String)
        requires
            old(self).wf(),
            byte_at(old(self)@.input, old(self)@.position) == 0x22,
        ensures
            final(self).wf(),
            final(self)@.input == old(self)@.input,
            text@ == token_at(old(self)@.input, old(self)@.position).token.text,
            final(self)@.position == token_at(old(self)@.input, old(self)@.position).next,
    {
        self.position += 1;
        let start = self.position;
        while self.position < self.input.len() && self.input[self.position] != 0x22
            invariant
                self.wf(),
                self.input@ == old(self).input@,
                start == old(self).position + 1,
                start <= self.position,
                string_end(self.input@, self.position as int) == string_end(
                    self.input@,
                    start as int,
                ),
            decreases self.input.len() - self.position,
        {
            self.position += 1;
        }
        let text = decode_lossy(slice_subrange(self.input.as_slice(), start, self.position));
        if self.position < self.input.len() {
            self.position += 1;
        }
        text
    }

    /// Consumes `width` bytes and returns `token`.
    fn take(&mut self, width: usize, token: Token) -> (out: Token)
        requires
            old(self).wf(),
            old(self)@.position + width <= old(self)@.input.len(),
        ensures
            final(self).wf(),
            out == token,
            final(self)@.input == old(self)@.input,
            final(self)@.position == old(self)@.position + width,
    {
        self.position += width;
        token
    }

    /// A token of one byte, or of two where `second` follows.
    fn take_operator(&mut self, second: u8, long: Token, short: Token) -> (out: Token)
        requires
            old(self).wf(),
            byte_at(old(self)@.input, old(self)@.position) != 0,
            second != 0,
        ensures
            final(self).wf(),
            final(self)@.input == old(self)@.input,
            byte_at(old(self)@.input, old(self)@.position + 1) == second ==> out == long
                && final(self)@.position == old(self)@.position + 2,
            byte_at(old(self)@.input, old(self)@.position + 1) != second ==> out == short
                && final(self)@.position == old(self)@.position + 1,
    {
        if self.peek_char() == second {
            self.take(2, long)
        } else {
            self.take(1, short)
        }
    }

    /// Returns the next token of the input and moves the cursor right after
    /// it. After `Eof` it returns `Eof` again.
    pub fn next_token(&mut self) -> (token: Token)
        requires
            old(self).wf(),
        ensures
            final(self).wf(),
            final(self)@.input == old(self)@.input,
            token@ == scan(old(self)@.input, old(self)@.position).token,
            final(self)@.position == scan(old(self)@.input, old(self)@.position).next,
    {
        proof {
            reveal(scan);
            reveal(token_view);
        }
        self.skip_whitespace();
        let c = self.current();
        let d = self.peek_char();
        if c == 0 {
            Token::Eof
        } else if c == 0x2b {
            if d == 0x3d {
                self.take(2, Token::SumAsig)
            } else {
                self.take_operator(0x2b, Token::Inc, Token::Plus)
            }
        } else if c == 0x2d {
            if d == 0x3d {
                self.take(2, Token::MinAsig)
            } else if d == 0x3e {
                self.take(2, Token::Arrow)
            } else {
                self.take_operator(0x2d, Token::Dec, Token::Minus)
            }
        } else if c == 0x2a {
            self.take_operator(0x3d, Token::MulAsig, Token::Mult)
        } else if c == 0x2f {
            self.take_operator(0x3d, Token::DivAsig, Token::Div)
        } else if c == 0x25 {
            self.take(1, Token::Mod)
        } else if c == 0x3c {
            self.take_operator(0x3d, Token::Le, Token::Lt)
        } else if c == 0x3e {
            self.take_operator(0x3d, Token::Ge, Token::Gt)
        } else if c == 0x21 {
            if d == 0x3d {
                self.take(2, Token::Neq)
            } else {
                let mut text = String::new();
                push_char(&mut text, '!');
                assert(text@ =~= seq!['!']);
                self.take(1, Token::Invalid(text))
            }
        } else if c == 0x3d {
            self.take_operator(0x3d, Token::Eq, Token::Assig)
        } else if c == 0x22 {
            Token::ConstStr(self.read_string())
        } else if c == 0x2c {
            self.take(1, Token::Coma)
        } else if c == 0x3b {
            self.take(1, Token::Semicolon)
        } else if c == 0x3a {
            self.take(1, Token::Colon)
        } else if c == 0x28 {
            self.take(1, Token::Opar)
        } else if c == 0x29 {
            self.take(1, Token::Cpar)
        } else if c == 0x7b {
            self.take(1, Token::Okey)
        } else if c == 0x7d {
            self.take(1, Token::Ckey)
        } else if c == 0x5b {
            self.take(1, Token::Obrac)
        } else if c == 0x5d {
            self.take(1, Token::Cbrac)
        } else if byte_is_letter(c) {
            lookup_word(self.read_identifier())
        } else if byte_is_digit(c) {
            let start = self.position;
            match self.read_number() {
                Some(value) => Token::ConstInt(value),
                None => Token::Invalid(self.text_since(start)),
            }
        } else {
            let mut text = String::new();
            push_char(&mut text, c as char);
            assert(text@ =~= seq![c as char]);
            self.take(1, Token::Invalid(text))
        }
    }
}

} // verus!
