use halcon::lexer::Lexer;
use halcon::token::{Token, TokenKind};

fn tokens(input: &str) -> Vec<Token> {
    let mut lexer = Lexer::new(input.to_string());
    let mut out = vec![];
    loop {
        let token = lexer.next_token();
        let end = token == Token::Eof;
        out.push(token);
        if end {
            return out;
        }
    }
}

#[test]
fn test_eof_repeats() {
    let mut lexer = Lexer::new("a".to_string());
    assert_eq!(lexer.next_token(), Token::Id("a".to_string()));
    assert_eq!(lexer.next_token(), Token::Eof);
    assert_eq!(lexer.next_token(), Token::Eof);
    assert_eq!(lexer.next_token(), Token::Eof);
}

#[test]
fn test_empty_input_is_eof() {
    assert_eq!(tokens(""), vec![Token::Eof]);
    assert_eq!(tokens("  \t\r\n "), vec![Token::Eof]);
}

#[test]
fn test_nul_byte_ends_the_text() {
    let mut lexer = Lexer::new("1\u{0}2".to_string());
    assert_eq!(lexer.next_token(), Token::ConstInt(1));
    assert_eq!(lexer.next_token(), Token::Eof);
    assert_eq!(lexer.next_token(), Token::Eof);
}

#[test]
fn test_all_operators() {
    assert_eq!(
        tokens("+ ++ += - -- -= -> * *= / /= % < <= > >= != = =="),
        vec![
            Token::Plus,
            Token::Inc,
            Token::SumAsig,
            Token::Minus,
            Token::Dec,
            Token::MinAsig,
            Token::Arrow,
            Token::Mult,
            Token::MulAsig,
            Token::Div,
            Token::DivAsig,
            Token::Mod,
            Token::Lt,
            Token::Le,
            Token::Gt,
            Token::Ge,
            Token::Neq,
            Token::Assig,
            Token::Eq,
            Token::Eof,
        ]
    );
}

#[test]
fn test_bare_bang_is_invalid() {
    assert_eq!(
        tokens("!a"),
        vec![Token::Invalid("!".to_string()), Token::Id("a".to_string()), Token::Eof]
    );
}

#[test]
fn test_other_bytes_are_invalid_and_lexing_goes_on() {
    assert_eq!(
        tokens("@ 1 # x"),
        vec![
            Token::Invalid("@".to_string()),
            Token::ConstInt(1),
            Token::Invalid("#".to_string()),
            Token::Id("x".to_string()),
            Token::Eof,
        ]
    );
}

#[test]
fn test_form_feed_is_no_whitespace() {
    assert_eq!(tokens("\u{c}"), vec![Token::Invalid("\u{c}".to_string()), Token::Eof]);
}

#[test]
fn test_keywords() {
    assert_eq!(
        tokens("fun let if elif else return true false int str bool arr and or not break"),
        vec![
            Token::Fun,
            Token::Let,
            Token::If,
            Token::Elif,
            Token::Else,
            Token::Return,
            Token::ConstBool(true),
            Token::ConstBool(false),
            Token::Int,
            Token::Str,
            Token::Bool,
            Token::Arr,
            Token::And,
            Token::Or,
            Token::Not,
            Token::Break,
            Token::Eof,
        ]
    );
}

#[test]
fn test_reserved_words_are_identifiers() {
    assert_eq!(
        tokens("for loop while"),
        vec![
            Token::Id("for".to_string()),
            Token::Id("loop".to_string()),
            Token::Id("while".to_string()),
            Token::Eof,
        ]
    );
}

#[test]
fn test_identifiers_with_digits_and_underscores() {
    assert_eq!(
        tokens("_a1 b_2c let1"),
        vec![
            Token::Id("_a1".to_string()),
            Token::Id("b_2c".to_string()),
            Token::Id("let1".to_string()),
            Token::Eof,
        ]
    );
}

#[test]
fn test_number_followed_by_letters() {
    assert_eq!(
        tokens("12ab"),
        vec![Token::ConstInt(12), Token::Id("ab".to_string()), Token::Eof]
    );
}

#[test]
fn test_largest_integer() {
    assert_eq!(
        tokens("170141183460469231731687303715884105727"),
        vec![Token::ConstInt(i128::MAX), Token::Eof]
    );
    assert_eq!(tokens("007"), vec![Token::ConstInt(7), Token::Eof]);
}

#[test]
fn test_integer_too_large_is_invalid() {
    assert_eq!(
        tokens("170141183460469231731687303715884105728 1"),
        vec![
            Token::Invalid("170141183460469231731687303715884105728".to_string()),
            Token::ConstInt(1),
            Token::Eof,
        ]
    );
}

#[test]
fn test_strings() {
    assert_eq!(
        tokens(r#""" "a b" "x"y"#),
        vec![
            Token::ConstStr("".to_string()),
            Token::ConstStr("a b".to_string()),
            Token::ConstStr("x".to_string()),
            Token::Id("y".to_string()),
            Token::Eof,
        ]
    );
}

#[test]
fn test_string_without_escapes() {
    assert_eq!(
        tokens(r#""a\n""#),
        vec![Token::ConstStr("a\\n".to_string()), Token::Eof]
    );
}

#[test]
fn test_unterminated_string_runs_to_the_end() {
    assert_eq!(tokens("\"abc"), vec![Token::ConstStr("abc".to_string()), Token::Eof]);
    assert_eq!(tokens("\""), vec![Token::ConstStr("".to_string()), Token::Eof]);
}

#[test]
fn test_string_with_text_beyond_ascii() {
    assert_eq!(
        tokens("\"h\u{e9}llo \u{4e16}\u{754c}\" 1"),
        vec![
            Token::ConstStr("h\u{e9}llo \u{4e16}\u{754c}".to_string()),
            Token::ConstInt(1),
            Token::Eof,
        ]
    );
}

#[test]
fn test_comments_run_to_the_end_of_the_line() {
    assert_eq!(
        tokens("1 // two three\n4 //"),
        vec![Token::ConstInt(1), Token::ConstInt(4), Token::Eof]
    );
    assert_eq!(
        tokens("a / b /= c"),
        vec![
            Token::Id("a".to_string()),
            Token::Div,
            Token::Id("b".to_string()),
            Token::DivAsig,
            Token::Id("c".to_string()),
            Token::Eof,
        ]
    );
}

#[test]
fn test_token_kind() {
    assert_eq!(Token::Id("a".to_string()).kind(), TokenKind::Id);
    assert_eq!(Token::ConstInt(3).kind(), TokenKind::ConstInt);
    assert_eq!(Token::Semicolon.kind(), TokenKind::Semicolon);
    assert!(Token::Eof.is(TokenKind::Eof));
    assert!(!Token::Eof.is(TokenKind::Ckey));
}

#[test]
fn test_token_literal() {
    assert_eq!(Token::Id("abc".to_string()).literal(), "abc");
    assert_eq!(Token::ConstInt(-42).literal(), "-42");
    assert_eq!(Token::ConstInt(0).literal(), "0");
    assert_eq!(Token::ConstStr("a b".to_string()).literal(), "a b");
    assert_eq!(Token::ConstBool(true).literal(), "true");
    assert_eq!(Token::ConstBool(false).literal(), "false");
    assert_eq!(Token::Not.literal(), "not");
    assert_eq!(Token::Minus.literal(), "-");
    assert_eq!(Token::Le.literal(), "<=");
    assert_eq!(Token::Fun.literal(), "fun");
    assert_eq!(Token::Okey.literal(), "{");
    assert_eq!(Token::Eof.literal(), "");
    assert_eq!(Token::Invalid("@".to_string()).literal(), "@");
}

#[test]
fn test_token_describe() {
    assert_eq!(Token::Cpar.describe(), "Cpar");
    assert_eq!(Token::Semicolon.describe(), "Semicolon");
    assert_eq!(Token::Id("x".to_string()).describe(), "Id(\"x\")");
    assert_eq!(Token::ConstInt(5).describe(), "ConstInt(5)");
    assert_eq!(Token::ConstBool(false).describe(), "ConstBool(false)");
    assert_eq!(Token::ConstStr("s".to_string()).describe(), "ConstStr(\"s\")");
    assert_eq!(Token::Invalid("!".to_string()).describe(), "Invalid(\"!\")");
}

#[test]
fn test_token_payloads() {
    assert_eq!(Token::ConstInt(9).number(), 9);
    assert_eq!(Token::Plus.number(), 0);
    assert!(Token::ConstBool(true).flag());
    assert!(!Token::Id("true".to_string()).flag());
    assert_eq!(Token::ConstStr("q".to_string()).text(), "q");
    assert_eq!(Token::Plus.text(), "");
}

#[test]
fn test_token_same_and_clone() {
    let a = Token::Id("a".to_string());
    assert!(a.same(&a.clone()));
    assert_eq!(a.clone(), a);
    assert!(!a.same(&Token::Id("b".to_string())));
    assert!(!a.same(&Token::ConstStr("a".to_string())));
    assert!(Token::Plus.same(&Token::Plus));
    assert!(!Token::Plus.same(&Token::Minus));
    assert!(Token::ConstInt(1).same(&Token::ConstInt(1)));
    assert!(!Token::ConstInt(1).same(&Token::ConstInt(2)));
    assert!(!Token::ConstBool(true).same(&Token::ConstBool(false)));
}
