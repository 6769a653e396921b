use halcon::ast::{AstNode, Operation};
use halcon::lexer::Lexer;
use halcon::parser::Parser;
use halcon::token::Token;

fn parse(input: &str) -> (AstNode, Vec<String>) {
    let mut parser = Parser::new(Lexer::new(input.to_string()));
    let program = parser.parse_program();
    (program, parser.errors())
}

fn rendered(input: &str) -> String {
    let (program, errors) = parse(input);
    assert_eq!(errors, Vec::<String>::new());
    program.string()
}

fn statements(program: AstNode) -> Vec<AstNode> {
    match program {
        AstNode::Program(program) => program.statements,
        other => panic!("expected a program, got {:?}", other),
    }
}

#[test]
fn test_every_token_is_consumed() {
    for input in ["", "1", "let x = 1; x + 1", "if (a) { b } else { c }", "}", "(1;", "let = 1;", "fun(x", "1 2 3"] {
        let mut parser = Parser::new(Lexer::new(input.to_string()));
        parser.parse_program();
        assert!(parser.at_end(), "tokens left of {:?}", input);
    }
    let parser = Parser::new(Lexer::new("1".to_string()));
    assert!(!parser.at_end());
    let parser = Parser::new(Lexer::new(" // nothing".to_string()));
    assert!(parser.at_end());
}

#[test]
fn test_empty_program() {
    let (program, errors) = parse("");
    assert!(errors.is_empty());
    assert_eq!(statements(program).len(), 0);
    let (program, _) = parse("");
    assert_eq!(program.string(), "");
    assert_eq!(program.token_literal(), "");
}

#[test]
fn test_rendering_groups_every_operator() {
    assert_eq!(rendered("-a * b"), "((-a) * b)");
    assert_eq!(rendered("a + b * c"), "(a + (b * c))");
    assert_eq!(rendered("a % b + c"), "((a % b) + c)");
    assert_eq!(rendered("a <= b == c >= d"), "((a <= b) == (c >= d))");
    assert_eq!(rendered("a[1][2]"), "((a[1])[2])");
    assert_eq!(rendered("f(1)(2)"), "f(1)(2)");
}

#[test]
fn test_rendering_of_statements() {
    assert_eq!(rendered("let x = 1 + 2;"), "let x = (1 + 2);");
    assert_eq!(rendered("return a;"), "return a;");
    assert_eq!(rendered("a += 2;"), "a = 2;");
    assert_eq!(rendered("break;"), "break");
    assert_eq!(rendered("\"text\""), "text");
}

#[test]
fn test_rendering_of_literals() {
    assert_eq!(rendered("[]"), "[]");
    assert_eq!(rendered("[1, a, \"b\"]"), "[1, a, b]");
    assert_eq!(rendered("{}"), "{}");
    assert_eq!(rendered("{1: 2, a: b + c}"), "{1: 2, a: (b + c)}");
    assert_eq!(rendered("fun() {}"), "fun() {}");
    assert_eq!(rendered("fun(x, y) { x; y }"), "fun(x, y) {xy}");
}

#[test]
fn test_rendering_of_if() {
    assert_eq!(rendered("if (a) { b }"), "ifa b");
    assert_eq!(rendered("if (a < b) { c } else { d }"), "if(a < b) c else d");
    assert_eq!(
        rendered("if (a) { b } elif (c) { d } elif (e) { f } else { g }"),
        "ifa b elif c d elif e f else g"
    );
}

#[test]
fn test_token_literals_of_nodes() {
    let (program, _) = parse("let x = 5;");
    assert_eq!(program.token_literal(), "let");
    let (program, _) = parse("a + b");
    assert_eq!(program.token_literal(), "+");
    let (program, _) = parse("not a");
    assert_eq!(program.token_literal(), "not");
    let (program, _) = parse("[1]");
    assert_eq!(program.token_literal(), "[");
    let (program, _) = parse("break");
    assert_eq!(program.token_literal(), "break");
}

#[test]
fn test_missing_closing_parenthesis() {
    let (_, errors) = parse("(1;");
    assert_eq!(errors, vec!["expected Cpar, actual Semicolon".to_string()]);
}

#[test]
fn test_missing_name_in_let() {
    let (program, errors) = parse("let 5 = 3;");
    assert_eq!(errors[0], "expected Id, actual ConstInt(5)");
    assert!(statements(program).iter().all(|s| !matches!(s, AstNode::LetStatement(_))));
}

#[test]
fn test_no_prefix_function() {
    let (program, errors) = parse("}");
    assert_eq!(errors, vec!["No prefix function for Ckey found".to_string()]);
    assert_eq!(statements(program).len(), 0);
    let (_, errors) = parse("1 + ;");
    assert_eq!(errors, vec!["No prefix function for Semicolon found".to_string()]);
    let (_, errors) = parse("@");
    assert_eq!(errors, vec!["No prefix function for Invalid(\"@\") found".to_string()]);
}

#[test]
fn test_assignment_needs_a_name() {
    let (program, errors) = parse("1 = 2;");
    assert_eq!(errors[0], "1 cant be assigned to");
    assert!(statements(program).iter().all(|s| !matches!(s, AstNode::Assignation(_))));
    let (_, errors) = parse("a + b = 2;");
    assert_eq!(errors[0], "(a + b) cant be assigned to");
}

#[test]
fn test_parsing_goes_on_after_an_error() {
    let (program, errors) = parse("let = 1; let y = 2;");
    assert!(!errors.is_empty());
    let statements = statements(program);
    assert!(statements.iter().any(|s| match s {
        AstNode::LetStatement(l) => l.name.token_literal() == "y",
        _ => false,
    }));
}

#[test]
fn test_unfinished_input_ends() {
    for input in ["fun", "fun(", "if", "if (", "if (a", "[", "[1,", "{", "{1", "{1:", "(", "a(", "a[", "-", "not", "let", "let x", "let x =", "return", "1 +", "a =", "{1: 2,", "fun(x", "if (a) { b } elif", "if (a) { b } else"] {
        let (_, errors) = parse(input);
        assert!(!errors.is_empty(), "no error for {:?}", input);
    }
}

#[test]
fn test_break_statement() {
    let (program, errors) = parse("break; 1");
    assert!(errors.is_empty());
    let statements = statements(program);
    assert!(matches!(statements[0], AstNode::Break));
}

#[test]
fn test_dict_literal_key_occurs_once() {
    let (program, errors) = parse("{1: 2, a: 3, 1: 4}");
    assert!(errors.is_empty());
    let statements = statements(program);
    match &statements[0] {
        AstNode::DictLiteral(dict) => {
            assert_eq!(dict.pairs.len(), 2);
            assert_eq!(dict.pairs[0].0.string(), "1");
            assert_eq!(dict.pairs[0].1.string(), "4");
            assert_eq!(dict.pairs[1].0.string(), "a");
            assert_eq!(dict.pairs[1].1.string(), "3");
        }
        other => panic!("expected a dictionary literal, got {:?}", other),
    }
}

#[test]
fn test_compound_assignment_keeps_its_operation() {
    let (program, _) = parse("a *= b + 1");
    match &statements(program)[0] {
        AstNode::Assignation(assignation) => {
            assert_eq!(assignation.operation, Operation::Mult);
            assert_eq!(assignation.token, Token::MulAsig);
            assert_eq!(assignation.value.string(), "(b + 1)");
        }
        other => panic!("expected an assignment, got {:?}", other),
    }
}

#[test]
fn test_same_and_clone_of_trees() {
    let (a, _) = parse("let f = fun(x) { if (x) { [1, {2: 3}] } elif (y) { -x } else { f(x)[0] } };");
    let (b, _) = parse("let f = fun(x) { if (x) { [1, {2: 3}] } elif (y) { -x } else { f(x)[0] } };");
    let (c, _) = parse("let f = fun(x) { if (x) { [1, {2: 4}] } elif (y) { -x } else { f(x)[0] } };");
    assert!(a.same(&b));
    assert!(a.same(&a.clone()));
    assert_eq!(a.clone(), a);
    assert!(!a.same(&c));
    assert_eq!(a.string(), a.clone().string());
}
