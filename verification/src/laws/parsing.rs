//! How the parser reads the simplest programs: one literal, or one literal
//! behind a minus sign.

use crate::ast::Ast;
use crate::precedence::{precedence_of, Precedence};
use crate::syntax::{
    execute_prefix_parse_function, follows, lemma_next_token, next_token, parse_expression,
    parse_expression_from, parse_prefix_expression, parse_program, parse_program_from,
    parse_statement, parsed, skip_semicolon, ParserView,
};
use crate::token::TokenKind;
use vstd::prelude::*;

verus! {

/// The node of an integer or boolean literal.
pub open spec fn literal_node(s: ParserView) -> Ast {
    if s.current.kind == TokenKind::ConstInt {
        Ast::IntegerLiteral { token: s.current }
    } else {
        Ast::Boolean { token: s.current }
    }
}

/// Whether the window holds an integer or boolean literal that the end of
/// input follows.
pub open spec fn at_last_literal(s: ParserView) -> bool {
    &&& s.wf()
    &&& s.current.kind == TokenKind::ConstInt || s.current.kind == TokenKind::ConstBool
    &&& s.peek.kind == TokenKind::Eof
}

/// A literal that the end of input follows is an expression by itself, at
/// every precedence.
pub proof fn lemma_literal_expression(s: ParserView, precedence: Precedence)
    requires
        at_last_literal(s),
    ensures
        parse_expression(s, precedence) == parsed(literal_node(s), s),
{
    reveal(parse_expression);
    reveal(execute_prefix_parse_function);
    reveal(parse_expression_from);
    assert(follows(s, s));
    assert(precedence_of(TokenKind::Eof) == Precedence::Lowest);
}

/// A minus sign before a last literal is a prefix expression.
pub proof fn lemma_negative_expression(s: ParserView)
    requires
        s.wf(),
        s.current.kind == TokenKind::Minus,
        at_last_literal(next_token(s)),
    ensures
        parse_expression(s, Precedence::Lowest) == parsed(
            Ast::PrefixExpression {
                token: s.current,
                operator: s.current.literal(),
                right: Box::new(literal_node(next_token(s))),
            },
            next_token(s),
        ),
{
    reveal(parse_expression);
    reveal(execute_prefix_parse_function);
    reveal(parse_prefix_expression);
    reveal(parse_expression_from);
    lemma_next_token(s);
    lemma_literal_expression(next_token(s), Precedence::Prefix);
    assert(precedence_of(TokenKind::Eof) == Precedence::Lowest);
}

/// An expression that the end of input follows is a program of one
/// statement, parsed without errors.
pub proof fn lemma_program_of_one_expression(s: ParserView, node: Ast, after: ParserView)
    requires
        s.wf(),
        s.current.kind != TokenKind::Eof,
        s.current.kind != TokenKind::Let,
        s.current.kind != TokenKind::Return,
        s.current.kind != TokenKind::Break,
        parse_expression(s, Precedence::Lowest) == parsed(node, after),
        after.wf(),
        after.peek.kind == TokenKind::Eof,
    ensures
        parse_program(s) == parsed(Ast::Program { statements: seq![node] }, next_token(after)),
        next_token(after).errors == after.errors,
{
    reveal(parse_statement);
    reveal(parse_expression);
    reveal(skip_semicolon);
    reveal_with_fuel(parse_program_from, 2);
    lemma_next_token(after);
    assert(Seq::<Ast>::empty().push(node) =~= seq![node]);
    assert(parse_statement(s) == parsed(node, after));
    let s1 = next_token(after);
    assert(s1.current.kind == TokenKind::Eof);
    assert(parse_program_from(s1, seq![node]) == parsed(Ast::Program { statements: seq![node] }, s1));
}

} // verus!
