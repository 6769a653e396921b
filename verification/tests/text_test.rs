use halcon::precedence::{get_precedence_from_token, Precedence};
use halcon::text::{
    join2, join3, push_decimal, push_signed_decimal, same_text, signed_decimal_string,
    unsigned_decimal_string,
};
use halcon::token::TokenKind;
use std::cmp::Ordering;

#[test]
fn test_decimal_of_signed_integers() {
    assert_eq!(signed_decimal_string(0), "0");
    assert_eq!(signed_decimal_string(7), "7");
    assert_eq!(signed_decimal_string(10), "10");
    assert_eq!(signed_decimal_string(-1), "-1");
    assert_eq!(signed_decimal_string(1234567890), "1234567890");
    assert_eq!(signed_decimal_string(i128::MAX), "170141183460469231731687303715884105727");
    assert_eq!(signed_decimal_string(i128::MIN), "-170141183460469231731687303715884105728");
}

#[test]
fn test_decimal_of_lengths() {
    assert_eq!(unsigned_decimal_string(0), "0");
    assert_eq!(unsigned_decimal_string(905), "905");
}

#[test]
fn test_push_decimal_appends() {
    let mut s = String::from("n=");
    push_decimal(&mut s, 120);
    assert_eq!(s, "n=120");
    push_signed_decimal(&mut s, -3);
    assert_eq!(s, "n=120-3");
}

#[test]
fn test_same_text() {
    assert!(same_text("", ""));
    assert!(same_text("abc", "abc"));
    assert!(!same_text("abc", "abd"));
    assert!(!same_text("abc", "ab"));
    assert!(same_text("h\u{e9}", "h\u{e9}"));
    assert!(!same_text("h\u{e9}", "he"));
}

#[test]
fn test_joins() {
    assert_eq!(join2("ab", "cd"), "abcd");
    assert_eq!(join3("a", "", "c"), "ac");
}

#[test]
fn test_precedence_ladder() {
    let ladder = vec![
        Precedence::Lowest,
        Precedence::Assig,
        Precedence::Equals,
        Precedence::LessGreater,
        Precedence::Sum,
        Precedence::Product,
        Precedence::Prefix,
        Precedence::Call,
        Precedence::Index,
    ];
    for (i, low) in ladder.iter().enumerate() {
        assert_eq!(low.rank() as usize, i);
        for (j, high) in ladder.iter().enumerate() {
            assert_eq!(low.cmp(high), i.cmp(&j));
            assert_eq!(low.binds_less_than(high), i < j);
        }
    }
    assert_eq!(Precedence::Sum.cmp(&Precedence::Product), Ordering::Less);
    assert_eq!(Precedence::Index.cmp(&Precedence::Call), Ordering::Greater);
}

#[test]
fn test_precedence_of_tokens() {
    assert_eq!(get_precedence_from_token(TokenKind::Assig), Precedence::Assig);
    assert_eq!(get_precedence_from_token(TokenKind::DivAsig), Precedence::Assig);
    assert_eq!(get_precedence_from_token(TokenKind::Eq), Precedence::Equals);
    assert_eq!(get_precedence_from_token(TokenKind::Neq), Precedence::Equals);
    assert_eq!(get_precedence_from_token(TokenKind::Le), Precedence::LessGreater);
    assert_eq!(get_precedence_from_token(TokenKind::Plus), Precedence::Sum);
    assert_eq!(get_precedence_from_token(TokenKind::Minus), Precedence::Sum);
    assert_eq!(get_precedence_from_token(TokenKind::Mod), Precedence::Product);
    assert_eq!(get_precedence_from_token(TokenKind::Opar), Precedence::Call);
    assert_eq!(get_precedence_from_token(TokenKind::Obrac), Precedence::Index);
    assert_eq!(get_precedence_from_token(TokenKind::Semicolon), Precedence::Lowest);
    assert_eq!(get_precedence_from_token(TokenKind::Eof), Precedence::Lowest);
}
