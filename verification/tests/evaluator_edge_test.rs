use halcon::ast::{AstNode, BlockStatement, IntegerLiteral, Node, Program, StringLiteral};
use halcon::environment::Environment;
use halcon::evaluator::{is_error, is_truthy, unwrap_return_value, Evaluator, DEFAULT_CALL_DEPTH};
use halcon::lexer::Lexer;
use halcon::object::{
    Array, Boolean, Dict, Error, Integer, Object, ObjectType, ReturnValue, StringObject,
};
use halcon::parser::Parser;
use halcon::token::Token;

fn run(input: &str) -> ObjectType {
    let mut parser = Parser::new(Lexer::new(input.to_string()));
    let program = parser.parse_program();
    assert_eq!(parser.errors(), Vec::<String>::new());
    let mut evaluator = Evaluator::new();
    evaluator.eval(program)
}

fn shown(input: &str) -> String {
    run(input).inspect()
}

fn text_of<N: Node>(node: &N) -> (String, String) {
    (Node::token_literal(node), Node::string(node))
}

fn show<O: Object>(value: &O) -> (String, String) {
    (Object::object_type(value), Object::inspect(value))
}

fn integer(value: i128) -> ObjectType {
    ObjectType::Integer(Integer { value })
}

#[test]
fn test_end_to_end_scenarios() {
    assert_eq!(shown("5 + 5 * 2"), "15");
    assert_eq!(shown("(5 + 10 * 2 + 15 / 3) * 2 + -10"), "50");
    assert_eq!(shown(r#""Hello" + " " + "world""#), "Hello world");
    assert_eq!(shown("if (1 > 2) { 10 } else { 20 }"), "20");
    assert_eq!(
        shown("let factorial = fun(n) { if (n == 0) { 1 } else { n * factorial(n - 1) } }; factorial(5);"),
        "120"
    );
    assert_eq!(
        shown("let new_adder = fun(x) { fun(y) { x + y } }; let add_two = new_adder(2); add_two(2)"),
        "4"
    );
    assert_eq!(shown("5 + true;"), "ERROR: type mismatch: INTEGER + BOOLEAN");
    assert_eq!(shown("foobar;"), "ERROR: identifier not found: foobar");
    assert_eq!(shown(r#"len("hello world")"#), "11");
    assert_eq!(shown(r#"{"one": 1, "two": 2}["one"]"#), "1");
    assert_eq!(shown(r#"{"one": 1}["bar"]"#), "null");
    assert_eq!(shown("[1, 2, 3][3]"), "ERROR: index: 3 out of bounds: 3");
    assert_eq!(shown("{[1]: 1}"), "ERROR: unusable as hash key: ARRAY");
}

#[test]
fn test_error_stops_the_program() {
    assert_eq!(shown("5 + true; 5;"), "ERROR: type mismatch: INTEGER + BOOLEAN");
}

#[test]
fn test_empty_program_is_null() {
    assert_eq!(shown(""), "null");
    assert_eq!(shown("if (true) {}"), "null");
    assert_eq!(shown("fun() {}()"), "null");
}

#[test]
fn test_integer_round_trip() {
    for n in [0i128, 1, 9, 10, 123456789, i128::MAX, -1, -10, -987654321, i128::MIN + 1] {
        let text = integer(n).inspect();
        assert_eq!(text, n.to_string());
        match run(&text) {
            ObjectType::Integer(value) => assert_eq!(value.value, n),
            other => panic!("expected an integer, got {:?}", other),
        }
    }
}

#[test]
fn test_boolean_round_trip() {
    for b in [true, false] {
        let text = ObjectType::Boolean(Boolean { value: b }).inspect();
        assert_eq!(text, if b { "true" } else { "false" });
        match run(&text) {
            ObjectType::Boolean(value) => assert_eq!(value.value, b),
            other => panic!("expected a boolean, got {:?}", other),
        }
    }
}

#[test]
fn test_infix_results_round_trip() {
    for input in ["7 * 6", "3 - 10", "100 / 7", "-7 / 2", "2 < 3", "2 >= 3", "4 == 4", "4 != 4"] {
        let first = run(input);
        let second = run(&first.inspect());
        assert_eq!(first, second);
    }
}

#[test]
fn test_not_twice_keeps_truthiness() {
    for input in ["true", "false", "5", "0", "\"\"", "\"a\"", "[]", "{}", "if (false) {1}", "fun(x) {x}", "len"] {
        let value = run(input);
        let twice = run(&format!("not not {}", input));
        match twice {
            ObjectType::Boolean(b) => assert_eq!(b.value, is_truthy(&value)),
            other => panic!("expected a boolean, got {:?}", other),
        }
    }
}

#[test]
fn test_truthiness() {
    assert!(is_truthy(&ObjectType::Boolean(Boolean { value: true })));
    assert!(!is_truthy(&ObjectType::Boolean(Boolean { value: false })));
    assert!(!is_truthy(&ObjectType::Null));
    assert!(is_truthy(&integer(0)));
    assert!(is_truthy(&ObjectType::String(StringObject { value: String::new() })));
    assert!(is_truthy(&ObjectType::Error(Error { message: String::new() })));
}

#[test]
fn test_len_adds_up() {
    assert_eq!(shown(r#"len("")"#), "0");
    assert_eq!(shown("len([])"), "0");
    assert_eq!(shown("len([1, [2, 3], 4])"), "3");
    for (s, t) in [("", ""), ("a", ""), ("", "bc"), ("hello", " world"), ("h\u{e9}", "\u{4e16}")] {
        let both = shown(&format!("len(\"{}\" + \"{}\")", s, t));
        let sum = shown(&format!("len(\"{}\") + len(\"{}\")", s, t));
        assert_eq!(both, sum);
        assert_eq!(both, (s.len() + t.len()).to_string());
    }
}

#[test]
fn test_first_last_rest_push() {
    assert_eq!(shown("first([7, 8, 9])"), "7");
    assert_eq!(shown("last([7, 8, 9])"), "9");
    assert_eq!(shown("rest([7, 8, 9])"), "[8, 9]");
    assert_eq!(shown("rest([7])"), "[]");
    assert_eq!(shown("first([])"), "null");
    assert_eq!(shown("last([])"), "null");
    assert_eq!(shown("rest([])"), "null");
    assert_eq!(shown("push([], 1)"), "[1]");
    assert_eq!(shown("push([1, 2], [3])"), "[1, 2, [3]]");
    assert_eq!(shown("len(push([1, 2], 3))"), "3");
    assert_eq!(shown("last(push([1, 2], 3))"), "3");
    assert_eq!(shown("let a = [1]; push(a, 2); a"), "[1]");
    assert_eq!(shown(r#"first("hello")"#), "h");
    assert_eq!(shown(r#"last("hello")"#), "o");
    assert_eq!(shown(r#"rest("hello")"#), "ello");
    assert_eq!(shown(r#"first("")"#), "null");
    assert_eq!(shown(r#"last("")"#), "null");
    assert_eq!(shown(r#"rest("")"#), "null");
    assert_eq!(shown("first(\"\u{e9}t\u{e9}\")"), "\u{e9}");
    assert_eq!(shown("last(\"\u{e9}t\u{e9}\")"), "\u{e9}");
    assert_eq!(shown("rest(\"\u{e9}t\u{e9}\")"), "t\u{e9}");
}

#[test]
fn test_builtin_errors() {
    assert_eq!(shown("len()"), "ERROR: wrong number of arguments. got: 0, want: 1");
    assert_eq!(shown("first(1, 2)"), "ERROR: wrong number of arguments. got: 2, want: 1");
    assert_eq!(shown("last()"), "ERROR: wrong number of arguments. got: 0, want: 1");
    assert_eq!(shown("rest(1, 2, 3)"), "ERROR: wrong number of arguments. got: 3, want: 1");
    assert_eq!(shown("push([1])"), "ERROR: wrong number of arguments. got: 1, want: 2");
    assert_eq!(shown("len(true)"), "ERROR: argument to len not supported, got BOOLEAN");
    assert_eq!(shown("first(1)"), "ERROR: argument to first not supported, got INTEGER");
    assert_eq!(shown("last({})"), "ERROR: argument to first not supported, got DICT");
    assert_eq!(shown("rest(len)"), "ERROR: argument to first not supported, got BUILTIN");
    assert_eq!(shown("push(1, 2)"), "ERROR: argument to first not supported, got INTEGER");
    assert_eq!(shown("len(foo)"), "ERROR: identifier not found: foo");
}

#[test]
fn test_index_out_of_range() {
    assert_eq!(shown("[1, 2, 3][-1]"), "ERROR: index: -1 out of bounds: 3");
    assert_eq!(shown("[][0]"), "ERROR: index: 0 out of bounds: 0");
    assert_eq!(shown("[1][1]"), "ERROR: index: 1 out of bounds: 1");
    assert_eq!(
        shown("[1][170141183460469231731687303715884105727]"),
        "ERROR: index: 170141183460469231731687303715884105727 out of bounds: 1"
    );
}

#[test]
fn test_index_operator_not_supported() {
    assert_eq!(shown("5[0]"), "ERROR: index operator not supported: INTEGER");
    assert_eq!(shown("\"abc\"[0]"), "ERROR: index operator not supported: STRING");
    assert_eq!(shown("[1][true]"), "ERROR: index operator not supported: ARRAY");
}

#[test]
fn test_dict_miss_is_null() {
    assert_eq!(shown("{}[1]"), "null");
    assert_eq!(shown("{1: 2}[2]"), "null");
    assert_eq!(shown("{1: 2}[\"1\"]"), "null");
    assert_eq!(shown("{true: 2}[1]"), "null");
}

#[test]
fn test_unhashable_keys() {
    assert_eq!(shown("{[1]: 1}"), "ERROR: unusable as hash key: ARRAY");
    assert_eq!(shown("{fun(x) {x}: 1}"), "ERROR: unusable as hash key: FUNCTION");
    assert_eq!(shown("{{}: 1}"), "ERROR: unusable as hash key: DICT");
    assert_eq!(shown("{len: 1}"), "ERROR: unusable as hash key: BUILTIN");
    assert_eq!(shown("{foo: 1}"), "ERROR: unusable as hash key: ERROR");
    assert_eq!(shown("{}[[1]]"), "ERROR: unusable as hash key: ARRAY");
    assert_eq!(shown("{}[fun() {}]"), "ERROR: unusable as hash key: FUNCTION");
    assert_eq!(shown("{}[{}]"), "ERROR: unusable as hash key: DICT");
    assert_eq!(shown("{}[len]"), "ERROR: unusable as hash key: BUILTIN");
}

#[test]
fn test_dict_value_error_is_passed_on() {
    assert_eq!(shown("{1: foo}"), "ERROR: identifier not found: foo");
}

#[test]
fn test_dict_keeps_insertion_order() {
    assert_eq!(shown(r#"{"b": 1, "a": 2, 3: 4, true: 5}"#), "{b: 1, a: 2, 3: 4, true: 5}");
    assert_eq!(shown("let k = 1; {k: 1, 1: 2, 2: 3}"), "{1: 2, 2: 3}");
    assert_eq!(shown("{if (false) {1}: 7}[if (false) {1}]"), "7");
}

#[test]
fn test_calling_a_non_function() {
    assert_eq!(shown("5(1)"), "ERROR: not a function INTEGER");
    assert_eq!(shown("\"f\"()"), "ERROR: not a function STRING");
    assert_eq!(shown("let x = true; x(1, 2)"), "ERROR: not a function BOOLEAN");
    assert_eq!(shown("[1](0)"), "ERROR: not a function ARRAY");
}

#[test]
fn test_call_errors() {
    assert_eq!(shown("foo(1)"), "ERROR: identifier not found: foo");
    assert_eq!(shown("len(1 + true)"), "ERROR: type mismatch: INTEGER + BOOLEAN");
    assert_eq!(
        shown("fun(x, y) { x }(1)"),
        "ERROR: wrong number of arguments. got: 1, want: 2"
    );
    assert_eq!(shown("fun(x) { x }(1, 2)"), "1");
}

#[test]
fn test_division() {
    assert_eq!(shown("7 / 2"), "3");
    assert_eq!(shown("-7 / 2"), "-3");
    assert_eq!(shown("7 / -2"), "-3");
    assert_eq!(shown("-7 / -2"), "3");
    assert_eq!(shown("7 % 3"), "1");
    assert_eq!(shown("-7 % 3"), "-1");
    assert_eq!(shown("7 % -3"), "1");
    assert_eq!(shown("-7 % -3"), "-1");
    assert_eq!(shown("7 % -1"), "0");
    assert_eq!(shown("0 / 5"), "0");
}

#[test]
fn test_division_by_zero_is_an_error() {
    assert_eq!(shown("1 / 0"), "ERROR: division by zero");
    assert_eq!(shown("1 % 0"), "ERROR: division by zero");
    assert_eq!(shown("0 / 0"), "ERROR: division by zero");
}

#[test]
fn test_integer_overflow_is_an_error() {
    let max = "170141183460469231731687303715884105727";
    assert_eq!(shown(&format!("{} + 1", max)), "ERROR: integer overflow");
    assert_eq!(shown(&format!("-{} - 2", max)), "ERROR: integer overflow");
    assert_eq!(shown(&format!("{} * 2", max)), "ERROR: integer overflow");
    assert_eq!(shown(&format!("(-{} - 1) / -1", max)), "ERROR: integer overflow");
    assert_eq!(shown(&format!("-(-{} - 1)", max)), "ERROR: integer overflow");
    assert_eq!(shown(&format!("(-{} - 1) % -1", max)), "0");
    assert_eq!(shown(&format!("-{} - 1", max)), "-170141183460469231731687303715884105728");
}

#[test]
fn test_operators_on_other_types() {
    assert_eq!(shown("[1] == [1]"), "true");
    assert_eq!(shown("[1] != [1]"), "false");
    assert_eq!(shown("[1] == [2]"), "false");
    assert_eq!(shown("if (false) {1} == if (false) {2}"), "true");
    assert_eq!(shown("[1] + [2]"), "ERROR: unknown operator: ARRAY + ARRAY");
    assert_eq!(shown("true < false"), "ERROR: unknown operator: BOOLEAN < BOOLEAN");
    assert_eq!(shown("\"a\" == \"a\""), "ERROR: unknown operator: STRING == STRING");
    assert_eq!(shown("\"a\" + 1"), "ERROR: type mismatch: STRING + INTEGER");
    assert_eq!(shown("1 + \"a\""), "ERROR: type mismatch: INTEGER + STRING");
    assert_eq!(shown("-\"a\""), "ERROR: unknown operator: -STRING");
    assert_eq!(shown("-[1]"), "ERROR: unknown operator: -ARRAY");
    assert_eq!(shown("-(if (false) {1})"), "ERROR: unknown operator: -NULL");
}

#[test]
fn test_elif_branches() {
    let program = "let f = fun(x) { if (x == 1) { \"one\" } elif (x == 2) { \"two\" } elif (x == 3) { \"three\" } else { \"many\" } };";
    assert_eq!(shown(&format!("{} f(1)", program)), "one");
    assert_eq!(shown(&format!("{} f(2)", program)), "two");
    assert_eq!(shown(&format!("{} f(3)", program)), "three");
    assert_eq!(shown(&format!("{} f(4)", program)), "many");
    assert_eq!(shown("if (false) { 1 } elif (false) { 2 }"), "null");
    assert_eq!(shown("if (false) { 1 } elif (foo) { 2 } else { 3 }"), "ERROR: identifier not found: foo");
    assert_eq!(shown("if (foo) { 1 }"), "ERROR: identifier not found: foo");
}

#[test]
fn test_return_leaves_nested_blocks() {
    assert_eq!(shown("let f = fun() { if (true) { if (true) { return 1; } return 2; } return 3; }; f()"), "1");
    assert_eq!(shown("let f = fun() { return 1; 2 }; f() + 1"), "2");
}

#[test]
fn test_assignment_and_increment() {
    assert_eq!(shown("let a = 1; a = 5; a"), "5");
    assert_eq!(shown("a = 5; a"), "5");
    assert_eq!(shown("let a = 4; a += 2; a"), "6");
    assert_eq!(shown("let a = 4; a -= 6; a"), "-2");
    assert_eq!(shown("let a = 4; a *= 3; a"), "12");
    assert_eq!(shown("let a = 7; a /= 2; a"), "3");
    assert_eq!(shown("let a = 7; a /= 2"), "3");
    assert_eq!(shown("let a = \"x\"; a += \"y\"; a"), "xy");
    assert_eq!(shown("let a = 1; a++; a"), "2");
    assert_eq!(shown("let a = 1; a++"), "2");
    assert_eq!(shown("let a = 1; a--; a--; a"), "-1");
    assert_eq!(shown("b += 1"), "ERROR: identifier not found: b");
    assert_eq!(shown("b++"), "ERROR: identifier not found: b");
    assert_eq!(shown("let a = true; a++"), "ERROR: type mismatch: BOOLEAN + INTEGER");
    assert_eq!(shown("let a = true; a++; a"), "ERROR: type mismatch: BOOLEAN + INTEGER");
    assert_eq!(shown("let a = 1; a /= 0; a"), "ERROR: division by zero");
    assert_eq!(shown("let a = 1; a = foo"), "ERROR: identifier not found: foo");
}

#[test]
fn test_break_is_an_error() {
    assert_eq!(shown("break; 1"), "ERROR: break outside of a loop");
}

#[test]
fn test_closures_share_their_scope() {
    assert_eq!(
        shown("let make = fun() { let n = 0; fun() { n += 1; n } }; let next = make(); next(); next()"),
        "1"
    );
    assert_eq!(shown("let x = 1; let f = fun() { x }; let x = 2; f()"), "2");
    assert_eq!(shown("let f = fun() { g() }; let g = fun() { 7 }; f()"), "7");
    assert_eq!(shown("let f = fun(x) { let y = x; y }; f(1); y"), "ERROR: identifier not found: y");
    assert_eq!(shown("let x = 1; let f = fun(x) { x + 1 }; f(5) + x"), "7");
}

#[test]
fn test_higher_order_functions() {
    assert_eq!(
        shown("let twice = fun(f, x) { f(f(x)) }; twice(fun(x) { x * 3 }, 2)"),
        "18"
    );
    assert_eq!(
        shown("let map = fun(a, f) { if (len(a) == 0) { [] } else { rest(push(map(rest(a), f), 0)); } }; len(map([1, 2, 3], len))"),
        "0"
    );
    assert_eq!(
        shown("let sum = fun(a) { if (len(a) == 0) { 0 } else { first(a) + sum(rest(a)) } }; sum([1, 2, 3, 4])"),
        "10"
    );
}

#[test]
fn test_names_shadow_builtins() {
    assert_eq!(shown("let len = fun(x) { 42 }; len([])"), "42");
    assert_eq!(shown("len"), "BUILTIN");
    assert_eq!(shown("[len, first, last, rest, push]"), "[BUILTIN, BUILTIN, BUILTIN, BUILTIN, BUILTIN]");
}

#[test]
fn test_call_depth_is_bounded() {
    assert_eq!(shown("let f = fun(x) { f(x + 1) }; f(0)"), "ERROR: call depth exceeded");
    let source = "let count = fun(n) { if (n == 0) { 0 } else { 1 + count(n - 1) } }; count(DEPTH)";
    let ok = source.replace("DEPTH", &(DEFAULT_CALL_DEPTH - 1).to_string());
    let too_deep = source.replace("DEPTH", &DEFAULT_CALL_DEPTH.to_string());
    assert_eq!(shown(&ok), (DEFAULT_CALL_DEPTH - 1).to_string());
    assert_eq!(shown(&too_deep), "ERROR: call depth exceeded");
}

#[test]
fn test_call_depth_can_be_set() {
    let mut parser = Parser::new(Lexer::new(
        "let count = fun(n) { if (n == 0) { 0 } else { 1 + count(n - 1) } }; [count(2), count(3)]"
            .to_string(),
    ));
    let program = parser.parse_program();
    let mut evaluator = Evaluator::with_call_depth(Environment::new(), 3);
    assert_eq!(evaluator.call_depth, 3);
    assert_eq!(evaluator.eval(program).inspect(), "ERROR: call depth exceeded");
    let mut evaluator = Evaluator::with_call_depth(Environment::new(), 0);
    let mut parser = Parser::new(Lexer::new("fun() { 1 }()".to_string()));
    assert_eq!(evaluator.eval(parser.parse_program()).inspect(), "ERROR: call depth exceeded");
    let mut parser = Parser::new(Lexer::new("len([1]) + 1".to_string()));
    assert_eq!(evaluator.eval(parser.parse_program()).inspect(), "2");
}

#[test]
fn test_environment_outlives_an_evaluation() {
    let mut evaluator = Evaluator::new();
    let mut first = Parser::new(Lexer::new("let a = 20; let inc = fun(x) { x + a };".to_string()));
    evaluator.eval(first.parse_program());
    let mut second = Parser::new(Lexer::new("inc(1)".to_string()));
    assert_eq!(evaluator.eval(second.parse_program()).inspect(), "21");
    let mut third = Evaluator::new_env(evaluator.env);
    let mut parser = Parser::new(Lexer::new("a".to_string()));
    assert_eq!(third.eval(parser.parse_program()).inspect(), "20");
}

#[test]
fn test_environment_get_and_set() {
    let mut env = Environment::new();
    assert!(env.get("a".to_string()).is_none());
    env.set("a", integer(1));
    env.set("b", integer(2));
    env.set("a", integer(3));
    assert_eq!(env.get("a".to_string()), Some(integer(3)));
    assert_eq!(env.get("b".to_string()), Some(integer(2)));
    let outer = env.current();
    env.enclose(outer);
    assert_eq!(env.get("a".to_string()), Some(integer(3)));
    env.set("a", integer(9));
    assert_eq!(env.get("a".to_string()), Some(integer(9)));
    env.enter(outer);
    assert_eq!(env.get("a".to_string()), Some(integer(3)));
    env.enclose(1000);
    assert!(env.get("a".to_string()).is_none());
}

#[test]
fn test_inspect_forms() {
    assert_eq!(shown("[1, \"a\", true, [2], {3: 4}]"), "[1, a, true, [2], {3: 4}]");
    assert_eq!(shown("fun(x, y) { x + y; }"), "fn(x, y) {(x + y)}");
    assert_eq!(shown("fun() { }"), "fn() {}");
    assert_eq!(shown("if (false) { 1 }"), "null");
    assert_eq!(
        ObjectType::Return(ReturnValue { value: Box::new(integer(5)) }).inspect(),
        "5"
    );
    assert_eq!(ObjectType::Error(Error { message: "m".to_string() }).inspect(), "ERROR: m");
    assert_eq!(ObjectType::Array(Array { elements: vec![] }).inspect(), "[]");
    assert_eq!(Dict::new().inspect(), "{}");
}

#[test]
fn test_object_types() {
    assert_eq!(run("1").object_type(), "INTEGER");
    assert_eq!(run("true").object_type(), "BOOLEAN");
    assert_eq!(run("\"s\"").object_type(), "STRING");
    assert_eq!(run("if (false) {1}").object_type(), "NULL");
    assert_eq!(run("[1]").object_type(), "ARRAY");
    assert_eq!(run("{}").object_type(), "DICT");
    assert_eq!(run("fun() {}").object_type(), "FUNCTION");
    assert_eq!(run("len").object_type(), "BUILTIN");
    assert_eq!(run("x").object_type(), "ERROR");
    assert_eq!(
        ObjectType::Return(ReturnValue { value: Box::new(ObjectType::Null) }).object_type(),
        "RETURN"
    );
    assert_eq!(Integer { value: 1 }.object_type(), "INTEGER");
    assert_eq!(Integer { value: 1 }.inspect(), "1");
    assert_eq!(Boolean { value: true }.inspect(), "true");
    assert_eq!(StringObject { value: "s".to_string() }.inspect(), "s");
}

#[test]
fn test_helpers_on_values() {
    assert!(is_error(&run("x")));
    assert!(!is_error(&run("1")));
    let wrapped = ObjectType::Return(ReturnValue { value: Box::new(integer(5)) });
    assert_eq!(unwrap_return_value(wrapped), integer(5));
    assert_eq!(unwrap_return_value(integer(6)), integer(6));
    let value = run("[1, {2: [3]}, fun(x) { x }]");
    assert_eq!(value.clone(), value);
}

#[test]
fn test_dict_get_and_insert() {
    let mut dict = Dict::new();
    assert_eq!(dict.len(), 0);
    assert!(dict.insert(integer(1), integer(10)));
    assert!(dict.insert(ObjectType::Null, integer(20)));
    assert!(dict.insert(integer(1), integer(30)));
    assert!(!dict.insert(ObjectType::Array(Array { elements: vec![] }), integer(40)));
    assert_eq!(dict.len(), 2);
    assert_eq!(dict.get(&integer(1)), Some(integer(30)));
    assert_eq!(dict.get(&ObjectType::Null), Some(integer(20)));
    assert_eq!(dict.get(&integer(2)), None);
    assert_eq!(dict.get(&ObjectType::Array(Array { elements: vec![] })), None);
    assert_eq!(dict.inspect(), "{1: 30, null: 20}");
}

#[test]
fn test_operators_called_directly() {
    assert_eq!(
        Evaluator::eval_prefix_expression("~", integer(1)).inspect(),
        "ERROR: unknown operator: ~ INTEGER"
    );
    assert_eq!(Evaluator::eval_prefix_expression("not", ObjectType::Null).inspect(), "true");
    assert_eq!(Evaluator::eval_prefix_expression("-", integer(5)).inspect(), "-5");
    assert_eq!(
        Evaluator::eval_infix_integer_expression(1, "^", 2).inspect(),
        "ERROR: unknown operator: INTEGER ^ INTEGER"
    );
    assert_eq!(Evaluator::eval_infix_integer_expression(6, "*", 7).inspect(), "42");
    assert_eq!(Evaluator::eval_infix_string_expression("a", "+", "b").inspect(), "ab");
    assert_eq!(
        Evaluator::eval_infix_string_expression("a", "*", "b").inspect(),
        "ERROR: unknown operator: STRING * STRING"
    );
    assert_eq!(
        Evaluator::eval_infix_expression(ObjectType::Null, "==", ObjectType::Null).inspect(),
        "true"
    );
    assert_eq!(
        Evaluator::eval_index_expression(
            ObjectType::Array(Array { elements: vec![integer(4), integer(5)] }),
            integer(1)
        )
        .inspect(),
        "5"
    );
}

#[test]
fn test_trees_built_by_hand() {
    let mut evaluator = Evaluator::new();
    let odd = AstNode::IntegerLiteral(IntegerLiteral { token: Token::Plus });
    assert_eq!(evaluator.eval(odd).inspect(), "0");
    let text = AstNode::StringLiteral(StringLiteral { token: Token::Id("name".to_string()) });
    assert_eq!(evaluator.eval(text).inspect(), "name");
    let block = AstNode::BlockStatement(BlockStatement { token: Token::Okey, statements: vec![] });
    assert_eq!(evaluator.eval(block).inspect(), "null");
    let program = AstNode::Program(Program { statements: vec![AstNode::Break] });
    assert_eq!(evaluator.eval(program).inspect(), "ERROR: break outside of a loop");
}

#[test]
fn test_interpret_reports_parse_errors() {
    let mut evaluator = Evaluator::new();
    assert_eq!(evaluator.interpret("let a = 3;".to_string()).map(|v| v.inspect()), Ok("3".to_string()));
    assert_eq!(
        evaluator.interpret("let = 4; (a".to_string()),
        Err(vec![
            "expected Id, actual Assig".to_string(),
            "No prefix function for Assig found".to_string(),
            "expected Cpar, actual Eof".to_string(),
        ])
    );
    assert_eq!(evaluator.interpret("a + 1".to_string()).map(|v| v.inspect()), Ok("4".to_string()));
    assert_eq!(
        halcon::interpreter::run("1 + 2 * 3".to_string()).map(|v| v.inspect()),
        Ok("7".to_string())
    );
    assert_eq!(
        halcon::interpreter::run("}".to_string()),
        Err(vec!["No prefix function for Ckey found".to_string()])
    );
}

#[test]
fn test_traits_agree_with_the_methods() {
    let mut parser = Parser::new(Lexer::new("let x = [1, 2];".to_string()));
    let program = parser.parse_program();
    assert_eq!(text_of(&program), ("let".to_string(), "let x = [1, 2];".to_string()));
    assert_eq!(show(&run("[1, 2]")), ("ARRAY".to_string(), "[1, 2]".to_string()));
    assert_eq!(show(&Integer { value: 3 }), ("INTEGER".to_string(), "3".to_string()));
}
