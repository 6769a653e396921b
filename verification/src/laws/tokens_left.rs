//! No production of the parser ever adds to the tokens that are left: the
//! state that a production leaves follows the state it started in. This is
//! what lets the productions call one another without end in sight, and
//! why parsing a program always ends at the end of input.

use crate::ast::{Ast, Block};
use crate::precedence::{precedence_of, Precedence};
use crate::syntax::{
    execute_infix_parse_function, execute_prefix_parse_function, expect_peek, follows,
    is_binary_operator, lemma_expect_peek, lemma_next_token, lemma_window, lemma_with_error,
    next_token, no_infix_fn_error, no_prefix_function_error, not_assignable_error,
    not_assignation_error, operation_of, parse_array_literal, parse_assignation_expression,
    parse_block_from, parse_block_statement, parse_branch, parse_call_expression,
    parse_dict_literal, parse_elifs, parse_expression, parse_expression_from,
    parse_expression_list, parse_expression_list_from, parse_function_literal,
    parse_function_parameters, parse_grouped_expression, parse_identifier, parse_if_expression,
    parse_index_expression, parse_infix_expression, parse_let_statement, parse_more_parameters,
    parse_pairs, parse_prefix_expression, parse_program, parse_program_from,
    parse_return_statement, parse_statement, progress, skip_semicolon, ParserView,
};
use crate::token::{TokenKind, TokenView};
use vstd::prelude::*;

verus! {

/// Taking a semicolon that may follow adds no tokens.
pub proof fn lemma_skip_semicolon(s: ParserView)
    requires
        s.wf(),
    ensures
        follows(s, skip_semicolon(s)),
{
    reveal(skip_semicolon);
    lemma_next_token(s);
}

/// A name adds no tokens.
pub proof fn lemma_identifier(s: ParserView)
    requires
        s.wf(),
    ensures
        follows(s, parse_identifier(s).state),
{
    lemma_next_token(s);
}

/// The parameters after the first add no tokens.
pub proof fn lemma_more_parameters(s: ParserView, parameters: Seq<TokenView>)
    requires
        s.wf(),
    ensures
        follows(s, parse_more_parameters(s, parameters).state),
    decreases s.fuel(),
{
    reveal(parse_more_parameters);
    if s.peek.kind == TokenKind::Coma {
        lemma_window(s);
        lemma_next_token(s);
        lemma_next_token(next_token(s));
        let s1 = next_token(next_token(s));
        lemma_more_parameters(s1, parameters.push(s1.current));
    } else {
        lemma_expect_peek(s, TokenKind::Cpar);
    }
}

/// The parameters of a function literal take at least one token.
pub proof fn lemma_function_parameters(s: ParserView)
    requires
        s.wf(),
        s.current.kind != TokenKind::Eof,
    ensures
        progress(s, parse_function_parameters(s).state),
{
    lemma_next_token(s);
    if s.peek.kind != TokenKind::Cpar {
        let s1 = next_token(s);
        lemma_more_parameters(s1, seq![s1.current]);
    }
}

/// The branches of an `if` that follow the first add no tokens.
pub proof fn lemma_elifs(s: ParserView, elifs: Seq<(Ast, Block)>)
    requires
        s.wf(),
    ensures
        follows(s, parse_elifs(s, elifs).state),
    decreases s.fuel(), 2int,
{
    reveal(parse_elifs);
    reveal(parse_branch);
    if s.peek.kind == TokenKind::Elif {
        lemma_window(s);
        lemma_next_token(s);
        let s1 = next_token(s);
        lemma_branch(s1);
        let branch = parse_branch(s1);
        if branch.result is Some {
            lemma_elifs(branch.state, elifs.push(branch.result->0));
        }
    }
}

/// The pairs of a dictionary literal add no tokens.
pub proof fn lemma_pairs(s: ParserView, pairs: Seq<(Ast, Ast)>)
    requires
        s.wf(),
        s.current.kind != TokenKind::Eof,
    ensures
        follows(s, parse_pairs(s, pairs).state),
    decreases s.fuel(), 2int,
{
    reveal(parse_pairs);
    reveal(parse_expression);
    if s.peek.kind != TokenKind::Ckey {
        lemma_next_token(s);
        let s1 = next_token(s);
        lemma_expression(s1, Precedence::Lowest);
        let key = parse_expression(s1, Precedence::Lowest);
        if key.result is Some {
            lemma_expect_peek(key.state, TokenKind::Colon);
            let s2 = next_token(expect_peek(key.state, TokenKind::Colon).state);
            lemma_expression(s2, Precedence::Lowest);
            let value = parse_expression(s2, Precedence::Lowest);
            if value.result is Some {
                if value.state.peek.kind != TokenKind::Ckey {
                    lemma_expect_peek(value.state, TokenKind::Coma);
                    let comma = expect_peek(value.state, TokenKind::Coma);
                    if comma.matched {
                        lemma_pairs(
                            comma.state,
                            crate::assoc::bind(pairs, key.result->0, value.result->0),
                        );
                    }
                } else {
                    lemma_expect_peek(value.state, TokenKind::Ckey);
                }
            }
        }
    } else {
        lemma_expect_peek(s, TokenKind::Ckey);
    }
}

/// The expressions of a list that follow the first add no tokens.
pub proof fn lemma_expression_list_from(s: ParserView, end: TokenKind, nodes: Seq<Ast>)
    requires
        s.wf(),
    ensures
        follows(s, parse_expression_list_from(s, end, nodes).state),
    decreases s.fuel(), 2int,
{
    reveal(parse_expression_list_from);
    reveal(parse_expression);
    if s.peek.kind == TokenKind::Coma {
        lemma_window(s);
        lemma_next_token(s);
        lemma_next_token(next_token(s));
        let s1 = next_token(next_token(s));
        lemma_expression(s1, Precedence::Lowest);
        let more = parse_expression(s1, Precedence::Lowest);
        if more.result is Some {
            lemma_expression_list_from(more.state, end, nodes.push(more.result->0));
        }
    } else {
        lemma_expect_peek(s, end);
    }
}

/// A condition with its block takes at least one token.
pub proof fn lemma_branch(s: ParserView)
    requires
        s.wf(),
        s.current.kind != TokenKind::Eof,
    ensures
        progress(s, parse_branch(s).state),
    decreases s.fuel(), 3int,
{
    reveal(parse_branch);
    reveal(parse_expression);
    reveal(parse_block_statement);
    lemma_expect_peek(s, TokenKind::Opar);
    let s1 = next_token(expect_peek(s, TokenKind::Opar).state);
    lemma_expression(s1, Precedence::Lowest);
    let condition = parse_expression(s1, Precedence::Lowest);
    if condition.result is Some {
        lemma_expect_peek(condition.state, TokenKind::Cpar);
        let s2 = expect_peek(condition.state, TokenKind::Cpar).state;
        lemma_expect_peek(s2, TokenKind::Okey);
        let s3 = expect_peek(s2, TokenKind::Okey).state;
        lemma_block_statement(s3);
    }
}

/// A list of expressions adds no tokens.
pub proof fn lemma_expression_list(s: ParserView, end: TokenKind)
    requires
        s.wf(),
        s.current.kind != TokenKind::Eof,
    ensures
        follows(s, parse_expression_list(s, end).state),
    decreases s.fuel(), 3int,
{
    reveal(parse_expression_list);
    reveal(parse_expression_list_from);
    reveal(parse_expression);
    lemma_next_token(s);
    if s.peek.kind != end {
        let s1 = next_token(s);
        lemma_expression(s1, Precedence::Lowest);
        let first = parse_expression(s1, Precedence::Lowest);
        if first.result is Some {
            lemma_expression_list_from(first.state, end, seq![first.result->0]);
        }
    }
}

/// A prefix expression adds no tokens.
pub proof fn lemma_prefix_expression(s: ParserView)
    requires
        s.wf(),
        s.current.kind != TokenKind::Eof,
    ensures
        follows(s, parse_prefix_expression(s).state),
    decreases s.fuel(), 4int,
{
    reveal(parse_prefix_expression);
    reveal(parse_expression);
    lemma_next_token(s);
    lemma_expression(next_token(s), Precedence::Prefix);
}

/// A group adds no tokens.
pub proof fn lemma_grouped_expression(s: ParserView)
    requires
        s.wf(),
        s.current.kind != TokenKind::Eof,
    ensures
        follows(s, parse_grouped_expression(s).state),
    decreases s.fuel(), 4int,
{
    reveal(parse_grouped_expression);
    reveal(parse_expression);
    lemma_next_token(s);
    lemma_expression(next_token(s), Precedence::Lowest);
    let inner = parse_expression(next_token(s), Precedence::Lowest);
    if inner.result is Some {
        lemma_expect_peek(inner.state, TokenKind::Cpar);
    }
}

/// An `if` adds no tokens.
pub proof fn lemma_if_expression(s: ParserView)
    requires
        s.wf(),
        s.current.kind != TokenKind::Eof,
    ensures
        follows(s, parse_if_expression(s).state),
    decreases s.fuel(), 4int,
{
    reveal(parse_if_expression);
    reveal(parse_branch);
    reveal(parse_elifs);
    reveal(parse_block_statement);
    lemma_branch(s);
    let first = parse_branch(s);
    if first.result is Some {
        lemma_elifs(first.state, Seq::empty());
        let elifs = parse_elifs(first.state, Seq::empty());
        if elifs.result is Some && elifs.state.peek.kind == TokenKind::Else {
            lemma_next_token(elifs.state);
            lemma_expect_peek(next_token(elifs.state), TokenKind::Okey);
            lemma_block_statement(expect_peek(next_token(elifs.state), TokenKind::Okey).state);
        }
    }
}

/// A function literal adds no tokens.
pub proof fn lemma_function_literal(s: ParserView)
    requires
        s.wf(),
        s.current.kind != TokenKind::Eof,
    ensures
        follows(s, parse_function_literal(s).state),
    decreases s.fuel(), 4int,
{
    reveal(parse_function_literal);
    reveal(parse_block_statement);
    lemma_expect_peek(s, TokenKind::Opar);
    let s1 = expect_peek(s, TokenKind::Opar).state;
    lemma_function_parameters(s1);
    let parameters = parse_function_parameters(s1);
    if parameters.result is Some {
        lemma_expect_peek(parameters.state, TokenKind::Okey);
        lemma_block_statement(expect_peek(parameters.state, TokenKind::Okey).state);
    }
}

/// An array literal adds no tokens.
pub proof fn lemma_array_literal(s: ParserView)
    requires
        s.wf(),
        s.current.kind != TokenKind::Eof,
    ensures
        follows(s, parse_array_literal(s).state),
    decreases s.fuel(), 4int,
{
    reveal(parse_array_literal);
    reveal(parse_expression_list);
    lemma_expression_list(s, TokenKind::Cbrac);
}

/// A dictionary literal adds no tokens.
pub proof fn lemma_dict_literal(s: ParserView)
    requires
        s.wf(),
        s.current.kind != TokenKind::Eof,
    ensures
        follows(s, parse_dict_literal(s).state),
    decreases s.fuel(), 4int,
{
    reveal(parse_dict_literal);
    reveal(parse_pairs);
    lemma_pairs(s, Seq::empty());
}

/// A binary operation adds no tokens.
pub proof fn lemma_infix_expression(s: ParserView, left: Ast)
    requires
        s.wf(),
        s.current.kind != TokenKind::Eof,
    ensures
        follows(s, parse_infix_expression(s, left).state),
    decreases s.fuel(), 4int,
{
    reveal(parse_infix_expression);
    reveal(parse_expression);
    lemma_next_token(s);
    lemma_expression(next_token(s), precedence_of(s.current.kind));
}

/// An assignment adds no tokens.
pub proof fn lemma_assignation_expression(s: ParserView, left: Ast)
    requires
        s.wf(),
        s.current.kind != TokenKind::Eof,
    ensures
        follows(s, parse_assignation_expression(s, left).state),
    decreases s.fuel(), 4int,
{
    reveal(parse_assignation_expression);
    reveal(parse_expression);
    lemma_next_token(s);
    lemma_with_error(s, not_assignation_error(s.current));
    lemma_with_error(s, not_assignable_error(left));
    if left is Identifier && operation_of(s.current.kind) is Some {
        lemma_expression(next_token(s), Precedence::Lowest);
        let value = parse_expression(next_token(s), Precedence::Lowest);
        if value.result is Some {
            lemma_skip_semicolon(value.state);
        }
    }
}

/// An index adds no tokens.
pub proof fn lemma_index_expression(s: ParserView, left: Ast)
    requires
        s.wf(),
        s.current.kind != TokenKind::Eof,
    ensures
        follows(s, parse_index_expression(s, left).state),
    decreases s.fuel(), 4int,
{
    reveal(parse_index_expression);
    reveal(parse_expression);
    lemma_next_token(s);
    lemma_expression(next_token(s), Precedence::Lowest);
    let index = parse_expression(next_token(s), Precedence::Lowest);
    if index.result is Some {
        lemma_expect_peek(index.state, TokenKind::Cbrac);
    }
}

/// A call adds no tokens.
pub proof fn lemma_call_expression(s: ParserView, function: Ast)
    requires
        s.wf(),
        s.current.kind != TokenKind::Eof,
    ensures
        follows(s, parse_call_expression(s, function).state),
    decreases s.fuel(), 4int,
{
    reveal(parse_call_expression);
    reveal(parse_expression_list);
    lemma_expression_list(s, TokenKind::Cpar);
}

/// What a token starts adds no tokens.
pub proof fn lemma_prefix(s: ParserView)
    requires
        s.wf(),
    ensures
        follows(s, execute_prefix_parse_function(s).state),
    decreases s.fuel(), 5int,
{
    reveal(execute_prefix_parse_function);
    reveal(parse_prefix_expression);
    reveal(parse_grouped_expression);
    reveal(parse_if_expression);
    reveal(parse_function_literal);
    reveal(parse_array_literal);
    reveal(parse_dict_literal);
    lemma_with_error(s, no_prefix_function_error(s.current));
    match s.current.kind {
        TokenKind::Id => lemma_identifier(s),
        TokenKind::Not | TokenKind::Minus => lemma_prefix_expression(s),
        TokenKind::Opar => lemma_grouped_expression(s),
        TokenKind::If => lemma_if_expression(s),
        TokenKind::Fun => lemma_function_literal(s),
        TokenKind::Obrac => lemma_array_literal(s),
        TokenKind::Okey => lemma_dict_literal(s),
        _ => {},
    }
}

/// What a token continues an expression to adds no tokens.
pub proof fn lemma_infix(s: ParserView, left: Ast)
    requires
        s.wf(),
    ensures
        follows(s, execute_infix_parse_function(s, left).state),
    decreases s.fuel(), 5int,
{
    reveal(execute_infix_parse_function);
    reveal(parse_infix_expression);
    reveal(parse_assignation_expression);
    reveal(parse_call_expression);
    reveal(parse_index_expression);
    lemma_with_error(s, no_infix_fn_error(s.current));
    if s.current.kind == TokenKind::Eof {
    } else if is_binary_operator(s.current.kind) {
        lemma_infix_expression(s, left);
    } else if operation_of(s.current.kind) is Some {
        lemma_assignation_expression(s, left);
    } else if s.current.kind == TokenKind::Opar {
        lemma_call_expression(s, left);
    } else if s.current.kind == TokenKind::Obrac {
        lemma_index_expression(s, left);
    }
}

/// Continuing an expression to the right adds no tokens.
pub proof fn lemma_expression_from(s: ParserView, precedence: Precedence, left: Ast)
    requires
        s.wf(),
    ensures
        follows(s, parse_expression_from(s, precedence, left).state),
    decreases s.fuel(), 6int,
{
    reveal(parse_expression_from);
    reveal(execute_infix_parse_function);
    if s.peek.kind != TokenKind::Semicolon && precedence.level() < precedence_of(
        s.peek.kind,
    ).level() {
        lemma_window(s);
        lemma_next_token(s);
        let s1 = next_token(s);
        lemma_infix(s1, left);
        let longer = execute_infix_parse_function(s1, left);
        if longer.result is Some {
            lemma_expression_from(longer.state, precedence, longer.result->0);
        }
    }
}

/// An expression adds no tokens.
pub proof fn lemma_expression(s: ParserView, precedence: Precedence)
    requires
        s.wf(),
    ensures
        follows(s, parse_expression(s, precedence).state),
    decreases s.fuel(), 7int,
{
    reveal(parse_expression);
    reveal(execute_prefix_parse_function);
    reveal(parse_expression_from);
    lemma_prefix(s);
    let left = execute_prefix_parse_function(s);
    if left.result is Some {
        lemma_expression_from(left.state, precedence, left.result->0);
    }
}

/// A `let` adds no tokens.
pub proof fn lemma_let_statement(s: ParserView)
    requires
        s.wf(),
        s.current.kind != TokenKind::Eof,
    ensures
        follows(s, parse_let_statement(s).state),
    decreases s.fuel(), 8int,
{
    reveal(parse_let_statement);
    reveal(parse_expression);
    lemma_expect_peek(s, TokenKind::Id);
    let name = expect_peek(s, TokenKind::Id);
    if name.matched {
        lemma_next_token(s);
        lemma_expect_peek(name.state, TokenKind::Assig);
        let s1 = next_token(expect_peek(name.state, TokenKind::Assig).state);
        lemma_expression(s1, Precedence::Lowest);
        let value = parse_expression(s1, Precedence::Lowest);
        if value.result is Some {
            lemma_skip_semicolon(value.state);
        }
    }
}

/// A `return` adds no tokens.
pub proof fn lemma_return_statement(s: ParserView)
    requires
        s.wf(),
        s.current.kind != TokenKind::Eof,
    ensures
        follows(s, parse_return_statement(s).state),
    decreases s.fuel(), 8int,
{
    reveal(parse_return_statement);
    reveal(parse_expression);
    lemma_next_token(s);
    lemma_expression(next_token(s), Precedence::Lowest);
    let value = parse_expression(next_token(s), Precedence::Lowest);
    if value.result is Some {
        lemma_skip_semicolon(value.state);
    }
}

/// A statement adds no tokens.
pub proof fn lemma_statement(s: ParserView)
    requires
        s.wf(),
    ensures
        follows(s, parse_statement(s).state),
    decreases s.fuel(), 9int,
{
    reveal(parse_statement);
    reveal(parse_let_statement);
    reveal(parse_return_statement);
    reveal(parse_expression);
    lemma_next_token(s);
    if s.current.kind == TokenKind::Let {
        lemma_let_statement(s);
    } else if s.current.kind == TokenKind::Return {
        lemma_return_statement(s);
    } else if s.current.kind == TokenKind::Break {
    } else {
        lemma_expression(s, Precedence::Lowest);
        let expression = parse_expression(s, Precedence::Lowest);
        if expression.result is Some {
            lemma_skip_semicolon(expression.state);
        }
    }
}

/// The statements of a block add no tokens, and the block ends at a
/// closing brace or at the end of input unless a statement fails.
pub proof fn lemma_block_from(s: ParserView, token: TokenView, statements: Seq<Ast>)
    requires
        s.wf(),
    ensures
        follows(s, parse_block_from(s, token, statements).state),
        parse_block_from(s, token, statements).result is Some ==> {
            let end = parse_block_from(s, token, statements).state.current.kind;
            end == TokenKind::Ckey || end == TokenKind::Eof
        },
    decreases s.fuel(), 10int,
{
    reveal(parse_block_from);
    reveal(parse_statement);
    if !(s.current.kind == TokenKind::Ckey || s.current.kind == TokenKind::Eof) {
        lemma_statement(s);
        let statement = parse_statement(s);
        if statement.result is Some {
            lemma_window(statement.state);
            lemma_next_token(statement.state);
            let s1 = next_token(statement.state);
            if progress(s, s1) {
                lemma_block_from(s1, token, statements.push(statement.result->0));
            }
        }
    }
}

/// A block adds no tokens.
pub proof fn lemma_block_statement(s: ParserView)
    requires
        s.wf(),
    ensures
        follows(s, parse_block_statement(s).state),
    decreases s.fuel(), 11int,
{
    reveal(parse_block_statement);
    reveal(parse_block_from);
    lemma_next_token(s);
    lemma_block_from(next_token(s), s.current, Seq::empty());
}

/// The statements of a program add no tokens, and the program ends at the
/// end of input.
pub proof fn lemma_program_from(s: ParserView, statements: Seq<Ast>)
    requires
        s.wf(),
    ensures
        follows(s, parse_program_from(s, statements).state),
        parse_program_from(s, statements).result is Some,
        parse_program_from(s, statements).state.current.kind == TokenKind::Eof,
    decreases s.fuel(), 12int,
{
    reveal(parse_program_from);
    reveal(parse_statement);
    if s.current.kind != TokenKind::Eof {
        lemma_statement(s);
        let statement = parse_statement(s);
        lemma_window(statement.state);
        lemma_next_token(statement.state);
        let s1 = next_token(statement.state);
        let statements = match statement.result {
            Some(node) => statements.push(node),
            None => statements,
        };
        if progress(s, s1) {
            lemma_program_from(s1, statements);
        }
    }
}

/// Parsing a program always yields a program and ends with the window at
/// the end of input: every token was consumed, whether errors were found
/// or not.
pub proof fn law_every_token_is_consumed(s: ParserView)
    requires
        s.wf(),
    ensures
        parse_program(s).result is Some,
        parse_program(s).state.current.kind == TokenKind::Eof,
        follows(s, parse_program(s).state),
{
    lemma_program_from(s, Seq::empty());
}

} // verus!
