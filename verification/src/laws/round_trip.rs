//! What the printer writes, the interpreter reads back: the printed form of
//! an integer or a boolean parses and evaluates to that value.

use crate::ast::Ast;
use crate::environment::EnvironmentView;
use crate::interpreter::{interpret, parse_source};
use crate::laws::lemma_encoding_of_joined_texts;
use crate::laws::numerals::{
    ends_with, lemma_encoded_digits, lemma_encoded_minus, lemma_scan_at_the_end,
    lemma_scan_minus, lemma_scan_numeral, numeral,
};
use crate::laws::parsing::{
    at_last_literal, lemma_literal_expression, lemma_negative_expression,
    lemma_program_of_one_expression, literal_node,
};
use crate::laws::words::{lemma_scan_false, lemma_scan_true};
use crate::object::{inspect, Val};
use crate::precedence::Precedence;
use crate::semantics::{
    eval, eval_infix_integer_expression, eval_prefix_expression, eval_program, Outcome,
};
use crate::syntax::{lemma_next_token, lemma_start, next_token, start};
use crate::text::{decimal, decimal_digits};
use crate::token::{boolean, integer, kind_spelling, plain, TokenKind, TokenView};
use vstd::prelude::*;
use vstd::utf8::encode_utf8;

verus! {

/// A program of one statement whose value is neither returned nor an
/// error evaluates to what the statement evaluates to.
pub proof fn lemma_eval_program_of_one(node: Ast, env: EnvironmentView, depth: nat)
    requires
        !(eval(node, env, depth).value is Return),
        !(eval(node, env, depth).value is Error),
    ensures
        eval(Ast::Program { statements: seq![node] }, env, depth) == eval(node, env, depth),
{
    let statements = seq![node];
    let step = eval(node, env, depth);
    assert(statements[0] == node);
    assert(eval_program(statements, 1, step.value, step.env, depth) == step);
    assert(eval_program(statements, 0, Val::Null, env, depth) == eval_program(
        statements,
        1,
        step.value,
        step.env,
        depth,
    ));
    assert(eval(Ast::Program { statements }, env, depth) == eval_program(
        statements,
        0,
        Val::Null,
        env,
        depth,
    ));
}

/// A program of one literal evaluates to the value of the literal and
/// leaves the environment as it is.
pub proof fn lemma_eval_literal_program(token: TokenView, env: EnvironmentView, depth: nat)
    ensures
        eval(
            Ast::Program { statements: seq![Ast::IntegerLiteral { token }] },
            env,
            depth,
        ) == (Outcome { value: Val::Integer(token.number), env }),
        eval(Ast::Program { statements: seq![Ast::Boolean { token }] }, env, depth) == (Outcome {
            value: Val::Boolean(token.flag),
            env,
        }),
{
    assert(eval(Ast::IntegerLiteral { token }, env, depth) == (Outcome {
        value: Val::Integer(token.number),
        env,
    }));
    assert(eval(Ast::Boolean { token }, env, depth) == (Outcome {
        value: Val::Boolean(token.flag),
        env,
    }));
    lemma_eval_program_of_one(Ast::IntegerLiteral { token }, env, depth);
    lemma_eval_program_of_one(Ast::Boolean { token }, env, depth);
}

/// A program of one literal behind a minus sign evaluates to the negated
/// number.
pub proof fn lemma_eval_negative_program(
    token: TokenView,
    right: TokenView,
    env: EnvironmentView,
    depth: nat,
)
    requires
        right.number != i128::MIN,
    ensures
        eval(
            Ast::Program {
                statements: seq![
                    Ast::PrefixExpression {
                        token,
                        operator: "-"@,
                        right: Box::new(Ast::IntegerLiteral { token: right }),
                    },
                ],
            },
            env,
            depth,
        ) == (Outcome { value: Val::Integer((-right.number) as i128), env }),
{
    reveal_strlit("-");
    reveal_strlit("not");
    assert("-"@ != "not"@) by {
        assert("-"@.len() != "not"@.len());
    }
    assert(eval_prefix_expression("-"@, Val::Integer(right.number)) == Val::Integer(
        (-right.number) as i128,
    ));
    let operand = Ast::IntegerLiteral { token: right };
    assert(eval(operand, env, depth) == (Outcome { value: Val::Integer(right.number), env }));
    let node = Ast::PrefixExpression { token, operator: "-"@, right: Box::new(operand) };
    assert(eval(node, env, depth) == (Outcome {
        value: Val::Integer((-right.number) as i128),
        env,
    }));
    lemma_eval_program_of_one(node, env, depth);
}

/// The printed form of an integer, parsed and evaluated in any
/// environment, is that integer, and the environment stays as it is.
/// The least integer is left out: the digits behind its minus sign write
/// a number that is too large to be read.
pub proof fn law_integer_round_trip(n: i128, env: EnvironmentView, depth: nat)
    requires
        n != i128::MIN,
    ensures
        inspect(Val::Integer(n)) == decimal(n as int),
        interpret(inspect(Val::Integer(n)), env, depth) == Ok::<Outcome, Seq<Seq<char>>>(
            Outcome { value: Val::Integer(n), env },
        ),
{
    let source = inspect(Val::Integer(n));
    let bytes = encode_utf8(source);
    if n >= 0 {
        let m = n as nat;
        lemma_encoded_digits(m);
        assert(bytes == numeral(m));
        assert(ends_with(bytes, 0, numeral(m)));
        lemma_scan_numeral(bytes, 0, m);
        lemma_scan_at_the_end(bytes);
        lemma_start(bytes, 0);
        let s = start(bytes, 0);
        assert(s.current == integer(n));
        assert(s.peek == plain(TokenKind::Eof));
        assert(at_last_literal(s));
        lemma_literal_expression(s, Precedence::Lowest);
        lemma_program_of_one_expression(s, literal_node(s), s);
        lemma_eval_literal_program(s.current, env, depth);
        assert(parse_source(source).state.errors.len() == 0);
    } else {
        let m = (-n) as nat;
        lemma_encoded_digits(m);
        lemma_encoded_minus();
        lemma_encoding_of_joined_texts(seq!['-'], decimal_digits(m));
        assert(bytes == seq![0x2du8] + numeral(m));
        assert(ends_with(bytes, 1, numeral(m)));
        lemma_scan_minus(bytes, m);
        lemma_scan_numeral(bytes, 1, m);
        lemma_scan_at_the_end(bytes);
        lemma_start(bytes, 0);
        let s = start(bytes, 0);
        assert(s.current == plain(TokenKind::Minus));
        assert(s.peek == integer(m as i128));
        lemma_next_token(s);
        let s1 = next_token(s);
        assert(s1.peek == plain(TokenKind::Eof));
        assert(at_last_literal(s1));
        lemma_negative_expression(s);
        let node = Ast::PrefixExpression {
            token: s.current,
            operator: s.current.literal(),
            right: Box::new(literal_node(s1)),
        };
        lemma_program_of_one_expression(s, node, s1);
        assert(s.current.literal() == "-"@) by {
            reveal(TokenView::literal);
            reveal(kind_spelling);
        }
        lemma_eval_negative_program(s.current, s1.current, env, depth);
        assert(parse_source(source).state.errors.len() == 0);
    }
}

/// The printed form of a boolean, parsed and evaluated in any environment,
/// is that boolean, and the environment stays as it is.
pub proof fn law_boolean_round_trip(b: bool, env: EnvironmentView, depth: nat)
    ensures
        inspect(Val::Boolean(b)) == (if b {
            "true"@
        } else {
            "false"@
        }),
        interpret(inspect(Val::Boolean(b)), env, depth) == Ok::<Outcome, Seq<Seq<char>>>(
            Outcome { value: Val::Boolean(b), env },
        ),
{
    let source = inspect(Val::Boolean(b));
    let bytes = encode_utf8(source);
    if b {
        lemma_scan_true();
    } else {
        lemma_scan_false();
    }
    lemma_scan_at_the_end(bytes);
    lemma_start(bytes, 0);
    let s = start(bytes, 0);
    assert(s.current == boolean(b));
    assert(s.peek == plain(TokenKind::Eof));
    assert(at_last_literal(s));
    lemma_literal_expression(s, Precedence::Lowest);
    lemma_program_of_one_expression(s, literal_node(s), s);
    lemma_eval_literal_program(s.current, env, depth);
    assert(parse_source(source).state.errors.len() == 0);
}

/// The result of an infix operator between two integers, where it is no
/// error and not the least integer, is an integer or a boolean whose
/// printed form is read back as that result.
pub proof fn law_integer_infix_round_trip(
    left: i128,
    operator: Seq<char>,
    right: i128,
    env: EnvironmentView,
    depth: nat,
)
    requires
        !(eval_infix_integer_expression(left, operator, right) is Error),
        eval_infix_integer_expression(left, operator, right) != Val::Integer(i128::MIN),
    ensures
        interpret(
            inspect(eval_infix_integer_expression(left, operator, right)),
            env,
            depth,
        ) == Ok::<Outcome, Seq<Seq<char>>>(
            Outcome { value: eval_infix_integer_expression(left, operator, right), env },
        ),
{
    let value = eval_infix_integer_expression(left, operator, right);
    match value {
        Val::Integer(n) => {
            law_integer_round_trip(n, env, depth);
        },
        Val::Boolean(b) => {
            law_boolean_round_trip(b, env, depth);
        },
        _ => {},
    }
}

} // verus!
