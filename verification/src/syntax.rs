//! What parsing means: the tree and the errors that a text parses to,
//! stated as specification functions over the state of a parser.
//!
//! The state of a parser is the input, the two tokens of its window, the
//! position of the lexer behind them and the errors recorded so far. Every
//! function takes a state and returns what it parsed, if anything, with the
//! state it left. The functions call one another as the productions of the
//! grammar do; that they end rests on the tokens that are left, which no
//! production ever adds to. Where a production goes on from the state that
//! another one left, it says so (`follows`, `progress`); that this always
//! holds is proved in `laws::tokens_left`.

use crate::assoc::bind;
use crate::ast::{render, Ast, Block, Operation};
use crate::lexer::{lemma_eof_is_final, lemma_scan_advances, scan};
use crate::precedence::{precedence_of, Precedence};
use crate::token::{kind_name, TokenKind, TokenView};
use vstd::prelude::*;

verus! {

/// The state of a parser.
pub struct ParserView {
    pub input: Seq<u8>,
    pub current: TokenView,
    pub peek: TokenView,
    pub position: int,
    pub errors: Seq<Seq<char>>,
}

/// What a production parsed, if anything, and the state it left.
pub struct Parsed<T> {
    pub result: Option<T>,
    pub state: ParserView,
}

/// Whether the expected token was there, and the state after the test.
pub struct Expected {
    pub matched: bool,
    pub state: ParserView,
}

impl ParserView {
    /// The lexer is inside its input, nothing follows the end of input in
    /// the window, and the lexer has nothing left once the window holds the
    /// end of input.
    #[verifier::opaque]
    pub open spec fn wf(self) -> bool {
        &&& 0 <= self.position <= self.input.len()
        &&& (self.current.kind == TokenKind::Eof ==> self.peek.kind == TokenKind::Eof)
        &&& (self.peek.kind == TokenKind::Eof ==> scan(self.input, self.position).token.kind
            == TokenKind::Eof)
    }

    /// A bound on the tokens that are left: those of the window that are not
    /// the end of input, and the bytes that the lexer has not read.
    #[verifier::opaque]
    pub open spec fn fuel(self) -> nat {
        ((if self.current.kind != TokenKind::Eof {
            1int
        } else {
            0int
        }) + (if self.peek.kind != TokenKind::Eof {
            1int
        } else {
            0int
        }) + (self.input.len() - self.position)) as nat
    }

    /// The state with one more error recorded.
    pub open spec fn with_error(self, message: Seq<char>) -> ParserView {
        ParserView { errors: self.errors.push(message), ..self }
    }
}

/// The state of a parser that was just made on a lexer at `position`: the
/// window holds the first two tokens.
pub open spec fn start(input: Seq<u8>, position: int) -> ParserView {
    let first = scan(input, position);
    let second = scan(input, first.next);
    ParserView {
        input,
        current: first.token,
        peek: second.token,
        position: second.next,
        errors: Seq::empty(),
    }
}

/// The state after the window moved one token forward.
pub open spec fn next_token(s: ParserView) -> ParserView {
    ParserView {
        current: s.peek,
        peek: scan(s.input, s.position).token,
        position: scan(s.input, s.position).next,
        ..s
    }
}

/// Whether `to` can follow `from` in a parse: it is valid, reads the same
/// input and has no more tokens left.
pub open spec fn follows(from: ParserView, to: ParserView) -> bool {
    &&& to.wf()
    &&& to.input == from.input
    &&& to.fuel() <= from.fuel()
}

/// Whether `to` follows `from` with fewer tokens left.
pub open spec fn progress(from: ParserView, to: ParserView) -> bool {
    &&& to.wf()
    &&& to.input == from.input
    &&& to.fuel() < from.fuel()
}

/// Moving the window keeps the state valid and never adds tokens; it
/// takes one away unless the window is at the end of input.
pub proof fn lemma_next_token(s: ParserView)
    requires
        s.wf(),
    ensures
        follows(s, next_token(s)),
        s.current.kind != TokenKind::Eof ==> progress(s, next_token(s)),
        next_token(s).errors == s.errors,
{
    reveal(ParserView::wf);
    reveal(ParserView::fuel);
    lemma_scan_advances(s.input, s.position);
    if scan(s.input, s.position).token.kind == TokenKind::Eof {
        lemma_eof_is_final(s.input, s.position);
    }
}

/// In a valid state nothing follows the end of input in the window, and
/// tokens are left as long as the window is not at the end of input.
pub proof fn lemma_window(s: ParserView)
    requires
        s.wf(),
    ensures
        s.current.kind == TokenKind::Eof ==> s.peek.kind == TokenKind::Eof,
{
    reveal(ParserView::wf);
    reveal(ParserView::fuel);
}

/// Recording an error changes neither the validity of a state nor the
/// tokens that are left.
pub proof fn lemma_with_error(s: ParserView, message: Seq<char>)
    requires
        s.wf(),
    ensures
        follows(s, s.with_error(message)),
        s.with_error(message).fuel() == s.fuel(),
{
    reveal(ParserView::wf);
    reveal(ParserView::fuel);
}

/// The state of a parser that was just made on a lexer inside its input is
/// valid.
pub proof fn lemma_start(input: Seq<u8>, position: int)
    requires
        0 <= position <= input.len(),
    ensures
        start(input, position).wf(),
{
    reveal(ParserView::wf);
    let first = scan(input, position);
    lemma_scan_advances(input, position);
    lemma_scan_advances(input, first.next);
    if first.token.kind == TokenKind::Eof {
        lemma_eof_is_final(input, position);
    }
    if scan(input, first.next).token.kind == TokenKind::Eof {
        lemma_eof_is_final(input, first.next);
    }
}

/// The error of a token that was expected and not found.
#[verifier::opaque]
pub open spec fn peek_error(kind: TokenKind, peek: TokenView) -> Seq<char> {
    "expected "@ + kind_name(kind) + ", actual "@ + peek.describe()
}

/// The error of a token that starts no expression.
#[verifier::opaque]
pub open spec fn no_prefix_function_error(token: TokenView) -> Seq<char> {
    "No prefix function for "@ + token.describe() + " found"@
}

/// The error of a token that continues no expression.
#[verifier::opaque]
pub open spec fn no_infix_fn_error(token: TokenView) -> Seq<char> {
    "No infix function for "@ + token.describe() + " found"@
}

/// The error of an assignment to something that is no name.
#[verifier::opaque]
pub open spec fn not_assignable_error(left: Ast) -> Seq<char> {
    render(left) + " cant be assigned to"@
}

/// The error of an assignment with a token that is no assignment.
#[verifier::opaque]
pub open spec fn not_assignation_error(token: TokenView) -> Seq<char> {
    token.literal() + " is not a valid assignation type"@
}

/// Tests the next token: where it has the expected tag the window moves
/// onto it, and where it has not an error is recorded.
pub open spec fn expect_peek(s: ParserView, kind: TokenKind) -> Expected {
    if s.peek.kind == kind {
        Expected { matched: true, state: next_token(s) }
    } else {
        Expected { matched: false, state: s.with_error(peek_error(kind, s.peek)) }
    }
}

/// The state after a semicolon that may follow is taken.
#[verifier::opaque]
pub open spec fn skip_semicolon(s: ParserView) -> ParserView {
    if s.peek.kind == TokenKind::Semicolon {
        next_token(s)
    } else {
        s
    }
}

/// Testing the next token keeps the state valid and never adds tokens.
pub proof fn lemma_expect_peek(s: ParserView, kind: TokenKind)
    requires
        s.wf(),
    ensures
        follows(s, expect_peek(s, kind).state),
        s.current.kind != TokenKind::Eof && kind != TokenKind::Eof ==> expect_peek(
            s,
            kind,
        ).state.current.kind != TokenKind::Eof,
        next_token(expect_peek(s, kind).state).wf(),
        follows(s, next_token(expect_peek(s, kind).state)),
        s.current.kind != TokenKind::Eof ==> progress(s, next_token(expect_peek(s, kind).state)),
{
    lemma_with_error(s, peek_error(kind, s.peek));
    lemma_next_token(s);
    lemma_next_token(expect_peek(s, kind).state);
}

/// Nothing was parsed: the production failed in the state `state`.
pub open spec fn failed<T>(state: ParserView) -> Parsed<T> {
    Parsed { result: None, state }
}

/// The production parsed `value` and left the state `state`.
pub open spec fn parsed<T>(value: T, state: ParserView) -> Parsed<T> {
    Parsed { result: Some(value), state }
}

/// The compound form of an assignment token.
pub open spec fn operation_of(kind: TokenKind) -> Option<Operation> {
    match kind {
        TokenKind::Assig => Some(Operation::Assig),
        TokenKind::SumAsig => Some(Operation::Sum),
        TokenKind::MinAsig => Some(Operation::Minus),
        TokenKind::MulAsig => Some(Operation::Mult),
        TokenKind::DivAsig => Some(Operation::Divide),
        _ => None,
    }
}

/// Whether a token is a binary operator.
pub open spec fn is_binary_operator(kind: TokenKind) -> bool {
    match kind {
        TokenKind::Eq
        | TokenKind::Neq
        | TokenKind::Lt
        | TokenKind::Gt
        | TokenKind::Ge
        | TokenKind::Le
        | TokenKind::Plus
        | TokenKind::Minus
        | TokenKind::Div
        | TokenKind::Mod
        | TokenKind::Mult => true,
        _ => false,
    }
}

/// A name, or the increment or decrement of a name where `++` or `--`
/// follows it.
pub open spec fn parse_identifier(s: ParserView) -> Parsed<Ast> {
    if s.peek.kind == TokenKind::Inc {
        parsed(Ast::PostIncrement { token: s.current }, next_token(s))
    } else if s.peek.kind == TokenKind::Dec {
        parsed(Ast::PostDecrement { token: s.current }, next_token(s))
    } else {
        parsed(Ast::Identifier { token: s.current }, s)
    }
}

/// The parameters of a function literal after the first, each behind a
/// comma.
#[verifier::opaque]
pub open spec fn parse_more_parameters(s: ParserView, parameters: Seq<TokenView>) -> Parsed<
    Seq<TokenView>,
>
    decreases s.fuel(),
    when s.wf()
{
    if s.peek.kind == TokenKind::Coma {
        let s1 = next_token(next_token(s));
        proof {
            lemma_next_token(s);
            lemma_next_token(next_token(s));
        }
        parse_more_parameters(s1, parameters.push(s1.current))
    } else {
        parsed(parameters, expect_peek(s, TokenKind::Cpar).state)
    }
}

/// The parameters of a function literal: nothing before a closing
/// parenthesis, else a token for each parameter, separated by commas, and
/// the closing parenthesis.
pub open spec fn parse_function_parameters(s: ParserView) -> Parsed<Seq<TokenView>> {
    if s.peek.kind == TokenKind::Cpar {
        parsed(Seq::empty(), next_token(s))
    } else {
        let s1 = next_token(s);
        parse_more_parameters(s1, seq![s1.current])
    }
}

/// The branches of an `if` that follow the first, each behind `elif`,
/// after the branches `elifs`.
#[verifier::opaque]
pub open spec fn parse_elifs(s: ParserView, elifs: Seq<(Ast, Block)>) -> Parsed<Seq<(Ast, Block)>>
    decreases s.fuel(), 2int,
    when s.wf()
{
    if s.peek.kind == TokenKind::Elif {
        proof {
            lemma_window(s);
            lemma_next_token(s);
        }
        let s1 = next_token(s);
        let branch = parse_branch(s1);
        match branch.result {
            None => failed(branch.state),
            Some(pair) => if follows(s1, branch.state) {
                parse_elifs(branch.state, elifs.push(pair))
            } else {
                failed(branch.state)
            },
        }
    } else {
        parsed(elifs, s)
    }
}

/// The pairs of a dictionary literal from the token after the current one
/// on, after the pairs `pairs`, and the closing brace. A key that occurs
/// again replaces the value it had.
#[verifier::opaque]
pub open spec fn parse_pairs(s: ParserView, pairs: Seq<(Ast, Ast)>) -> Parsed<Seq<(Ast, Ast)>>
    decreases s.fuel(), 2int,
    when s.wf() && s.current.kind != TokenKind::Eof
{
    if s.peek.kind != TokenKind::Ckey {
        proof {
            lemma_next_token(s);
        }
        let s1 = next_token(s);
        let key = parse_expression(s1, Precedence::Lowest);
        match key.result {
            None => failed(key.state),
            Some(key_node) => if follows(s1, key.state) {
                proof {
                    lemma_expect_peek(key.state, TokenKind::Colon);
                }
                let s2 = next_token(expect_peek(key.state, TokenKind::Colon).state);
                let value = parse_expression(s2, Precedence::Lowest);
                match value.result {
                    None => failed(value.state),
                    Some(value_node) => if follows(s2, value.state) {
                        let pairs = bind(pairs, key_node, value_node);
                        if value.state.peek.kind != TokenKind::Ckey {
                            let comma = expect_peek(value.state, TokenKind::Coma);
                            if !comma.matched {
                                failed(comma.state)
                            } else {
                                proof {
                                    lemma_next_token(value.state);
                                }
                                parse_pairs(comma.state, pairs)
                            }
                        } else {
                            parsed(pairs, expect_peek(value.state, TokenKind::Ckey).state)
                        }
                    } else {
                        failed(value.state)
                    },
                }
            } else {
                failed(key.state)
            },
        }
    } else {
        parsed(pairs, expect_peek(s, TokenKind::Ckey).state)
    }
}

/// The expressions of a list that follow the first, each behind a comma,
/// after the expressions `nodes`, and the token `end`; a missing `end` is
/// recorded and the list stands.
#[verifier::opaque]
pub open spec fn parse_expression_list_from(s: ParserView, end: TokenKind, nodes: Seq<Ast>)
    -> Parsed<Seq<Ast>>
    decreases s.fuel(), 2int,
    when s.wf()
{
    if s.peek.kind == TokenKind::Coma {
        proof {
            lemma_next_token(s);
            lemma_next_token(next_token(s));
        }
        let s1 = next_token(next_token(s));
        let more = parse_expression(s1, Precedence::Lowest);
        match more.result {
            None => failed(more.state),
            Some(node) => if follows(s1, more.state) {
                parse_expression_list_from(more.state, end, nodes.push(node))
            } else {
                failed(more.state)
            },
        }
    } else {
        parsed(nodes, expect_peek(s, end).state)
    }
}

/// A condition in parentheses followed by a block, from the token before
/// the opening parenthesis on. Missing marks are recorded and parsing goes
/// on.
#[verifier::opaque]
pub open spec fn parse_branch(s: ParserView) -> Parsed<(Ast, Block)>
    decreases s.fuel(), 3int,
    when s.wf() && s.current.kind != TokenKind::Eof
{
    proof {
        lemma_expect_peek(s, TokenKind::Opar);
    }
    let s1 = next_token(expect_peek(s, TokenKind::Opar).state);
    let condition = parse_expression(s1, Precedence::Lowest);
    match condition.result {
        None => failed(condition.state),
        Some(node) => if follows(s1, condition.state) {
            proof {
                lemma_expect_peek(condition.state, TokenKind::Cpar);
                lemma_expect_peek(
                    expect_peek(condition.state, TokenKind::Cpar).state,
                    TokenKind::Okey,
                );
            }
            let s2 = expect_peek(
                expect_peek(condition.state, TokenKind::Cpar).state,
                TokenKind::Okey,
            ).state;
            let block = parse_block_statement(s2);
            match block.result {
                None => failed(block.state),
                Some(body) => parsed((node, body), block.state),
            }
        } else {
            failed(condition.state)
        },
    }
}

/// A list of expressions separated by commas, from the token after the
/// current one up to the token `end`; nothing where `end` comes next.
#[verifier::opaque]
pub open spec fn parse_expression_list(s: ParserView, end: TokenKind) -> Parsed<Seq<Ast>>
    decreases s.fuel(), 3int,
    when s.wf() && s.current.kind != TokenKind::Eof
{
    if s.peek.kind == end {
        parsed(Seq::empty(), next_token(s))
    } else {
        proof {
            lemma_next_token(s);
        }
        let s1 = next_token(s);
        let first = parse_expression(s1, Precedence::Lowest);
        match first.result {
            None => failed(first.state),
            Some(node) => if follows(s1, first.state) {
                parse_expression_list_from(first.state, end, seq![node])
            } else {
                failed(first.state)
            },
        }
    }
}

/// `not <expression>` or `-<expression>`; the operand binds as a prefix.
#[verifier::opaque]
pub open spec fn parse_prefix_expression(s: ParserView) -> Parsed<Ast>
    decreases s.fuel(), 4int,
    when s.wf() && s.current.kind != TokenKind::Eof
{
    proof {
        lemma_next_token(s);
    }
    let right = parse_expression(next_token(s), Precedence::Prefix);
    match right.result {
        None => failed(right.state),
        Some(node) => parsed(
            Ast::PrefixExpression {
                token: s.current,
                operator: s.current.literal(),
                right: Box::new(node),
            },
            right.state,
        ),
    }
}

/// `( <expression> )`; a missing `)` is recorded and the expression
/// stands.
#[verifier::opaque]
pub open spec fn parse_grouped_expression(s: ParserView) -> Parsed<Ast>
    decreases s.fuel(), 4int,
    when s.wf() && s.current.kind != TokenKind::Eof
{
    proof {
        lemma_next_token(s);
    }
    let inner = parse_expression(next_token(s), Precedence::Lowest);
    match inner.result {
        None => failed(inner.state),
        Some(node) => parsed(node, expect_peek(inner.state, TokenKind::Cpar).state),
    }
}

/// `if (<condition>) {..}`, then `elif (<condition>) {..}` any number of
/// times, then `else {..}` or nothing.
#[verifier::opaque]
pub open spec fn parse_if_expression(s: ParserView) -> Parsed<Ast>
    decreases s.fuel(), 4int,
    when s.wf() && s.current.kind != TokenKind::Eof
{
    let first = parse_branch(s);
    match first.result {
        None => failed(first.state),
        Some(branch) => if progress(s, first.state) {
            let elifs = parse_elifs(first.state, Seq::empty());
            match elifs.result {
                None => failed(elifs.state),
                Some(branches) => if elifs.state.peek.kind == TokenKind::Else {
                    if progress(s, elifs.state) {
                        proof {
                            lemma_next_token(elifs.state);
                            lemma_expect_peek(next_token(elifs.state), TokenKind::Okey);
                        }
                        let s1 = expect_peek(next_token(elifs.state), TokenKind::Okey).state;
                        let alternative = parse_block_statement(s1);
                        match alternative.result {
                            None => failed(alternative.state),
                            Some(block) => parsed(
                                Ast::IfExpression {
                                    token: s.current,
                                    condition: Box::new(branch.0),
                                    consequence: branch.1,
                                    elifs: branches,
                                    alternative: Some(block),
                                },
                                alternative.state,
                            ),
                        }
                    } else {
                        failed(elifs.state)
                    }
                } else {
                    parsed(
                        Ast::IfExpression {
                            token: s.current,
                            condition: Box::new(branch.0),
                            consequence: branch.1,
                            elifs: branches,
                            alternative: None,
                        },
                        elifs.state,
                    )
                },
            }
        } else {
            failed(first.state)
        },
    }
}

/// `fun (<parameters>) {..}`. Missing marks are recorded and parsing goes
/// on.
#[verifier::opaque]
pub open spec fn parse_function_literal(s: ParserView) -> Parsed<Ast>
    decreases s.fuel(), 4int,
    when s.wf() && s.current.kind != TokenKind::Eof
{
    let parameters = parse_function_parameters(expect_peek(s, TokenKind::Opar).state);
    match parameters.result {
        None => failed(parameters.state),
        Some(names) => if progress(s, parameters.state) {
            proof {
                lemma_expect_peek(parameters.state, TokenKind::Okey);
            }
            let body = parse_block_statement(expect_peek(parameters.state, TokenKind::Okey).state);
            match body.result {
                None => failed(body.state),
                Some(block) => parsed(
                    Ast::FunctionLiteral { token: s.current, parameters: names, body: block },
                    body.state,
                ),
            }
        } else {
            failed(parameters.state)
        },
    }
}

/// `[<expression>, ..]`.
#[verifier::opaque]
pub open spec fn parse_array_literal(s: ParserView) -> Parsed<Ast>
    decreases s.fuel(), 4int,
    when s.wf() && s.current.kind != TokenKind::Eof
{
    let elements = parse_expression_list(s, TokenKind::Cbrac);
    match elements.result {
        None => failed(elements.state),
        Some(nodes) => parsed(
            Ast::ArrayLiteral { token: s.current, elements: nodes },
            elements.state,
        ),
    }
}

/// `{<key>: <value>, ..}`.
#[verifier::opaque]
pub open spec fn parse_dict_literal(s: ParserView) -> Parsed<Ast>
    decreases s.fuel(), 4int,
    when s.wf() && s.current.kind != TokenKind::Eof
{
    let pairs = parse_pairs(s, Seq::empty());
    match pairs.result {
        None => failed(pairs.state),
        Some(entries) => parsed(Ast::DictLiteral { token: s.current, pairs: entries }, pairs.state),
    }
}

/// `<left> <operator> <right>`; the right operand binds as the operator
/// does.
#[verifier::opaque]
pub open spec fn parse_infix_expression(s: ParserView, left: Ast) -> Parsed<Ast>
    decreases s.fuel(), 4int,
    when s.wf() && s.current.kind != TokenKind::Eof
{
    proof {
        lemma_next_token(s);
    }
    let right = parse_expression(next_token(s), precedence_of(s.current.kind));
    match right.result {
        None => failed(right.state),
        Some(node) => parsed(
            Ast::InfixExpression {
                token: s.current,
                left: Box::new(left),
                operator: s.current.literal(),
                right: Box::new(node),
            },
            right.state,
        ),
    }
}

/// `<name> = <expression>` and its compound forms, with the semicolon that
/// may follow. The left side must be a name.
#[verifier::opaque]
pub open spec fn parse_assignation_expression(s: ParserView, left: Ast) -> Parsed<Ast>
    decreases s.fuel(), 4int,
    when s.wf() && s.current.kind != TokenKind::Eof
{
    match left {
        Ast::Identifier { token: name } => match operation_of(s.current.kind) {
            None => failed(s.with_error(not_assignation_error(s.current))),
            Some(operation) => {
                proof {
                    lemma_next_token(s);
                }
                let value = parse_expression(next_token(s), Precedence::Lowest);
                match value.result {
                    None => failed(value.state),
                    Some(node) => parsed(
                        Ast::Assignation {
                            token: s.current,
                            name,
                            value: Box::new(node),
                            operation,
                        },
                        skip_semicolon(value.state),
                    ),
                }
            },
        },
        other => failed(s.with_error(not_assignable_error(other))),
    }
}

/// `<left>[<expression>]`; a missing `]` is recorded and the expression
/// stands.
#[verifier::opaque]
pub open spec fn parse_index_expression(s: ParserView, left: Ast) -> Parsed<Ast>
    decreases s.fuel(), 4int,
    when s.wf() && s.current.kind != TokenKind::Eof
{
    proof {
        lemma_next_token(s);
    }
    let index = parse_expression(next_token(s), Precedence::Lowest);
    match index.result {
        None => failed(index.state),
        Some(node) => parsed(
            Ast::IndexExpression { token: s.current, left: Box::new(left), index: Box::new(node) },
            expect_peek(index.state, TokenKind::Cbrac).state,
        ),
    }
}

/// `<function>(<expression>, ..)`.
#[verifier::opaque]
pub open spec fn parse_call_expression(s: ParserView, function: Ast) -> Parsed<Ast>
    decreases s.fuel(), 4int,
    when s.wf() && s.current.kind != TokenKind::Eof
{
    let arguments = parse_expression_list(s, TokenKind::Cpar);
    match arguments.result {
        None => failed(arguments.state),
        Some(nodes) => parsed(
            Ast::CallExpression {
                token: s.current,
                function: Box::new(function),
                arguments: nodes,
            },
            arguments.state,
        ),
    }
}

/// What the current token starts: a name, a literal, a prefix operator, a
/// group, an `if`, a function, an array or a dictionary. Any other token
/// starts nothing, which is recorded.
#[verifier::opaque]
pub open spec fn execute_prefix_parse_function(s: ParserView) -> Parsed<Ast>
    decreases s.fuel(), 5int,
    when s.wf()
{
    match s.current.kind {
        TokenKind::Id => parse_identifier(s),
        TokenKind::ConstInt => parsed(Ast::IntegerLiteral { token: s.current }, s),
        TokenKind::Not | TokenKind::Minus => parse_prefix_expression(s),
        TokenKind::ConstBool => parsed(Ast::Boolean { token: s.current }, s),
        TokenKind::Opar => parse_grouped_expression(s),
        TokenKind::If => parse_if_expression(s),
        TokenKind::Fun => parse_function_literal(s),
        TokenKind::ConstStr => parsed(Ast::StringLiteral { token: s.current }, s),
        TokenKind::Obrac => parse_array_literal(s),
        TokenKind::Okey => parse_dict_literal(s),
        _ => failed(s.with_error(no_prefix_function_error(s.current))),
    }
}

/// What the current token continues `left` to: a binary operation, an
/// assignment, a call or an index. Any other token continues nothing,
/// which is recorded.
#[verifier::opaque]
pub open spec fn execute_infix_parse_function(s: ParserView, left: Ast) -> Parsed<Ast>
    decreases s.fuel(), 5int,
    when s.wf()
{
    if s.current.kind == TokenKind::Eof {
        failed(s.with_error(no_infix_fn_error(s.current)))
    } else if is_binary_operator(s.current.kind) {
        parse_infix_expression(s, left)
    } else if operation_of(s.current.kind) is Some {
        parse_assignation_expression(s, left)
    } else if s.current.kind == TokenKind::Opar {
        parse_call_expression(s, left)
    } else if s.current.kind == TokenKind::Obrac {
        parse_index_expression(s, left)
    } else {
        failed(s.with_error(no_infix_fn_error(s.current)))
    }
}

/// The expression that starts with `left`, continued to the right as long
/// as the next token is no semicolon and binds more strongly than
/// `precedence`.
#[verifier::opaque]
pub open spec fn parse_expression_from(s: ParserView, precedence: Precedence, left: Ast)
    -> Parsed<Ast>
    decreases s.fuel(), 6int,
    when s.wf()
{
    if s.peek.kind != TokenKind::Semicolon && precedence.level() < precedence_of(
        s.peek.kind,
    ).level() {
        proof {
            lemma_window(s);
            lemma_next_token(s);
        }
        let s1 = next_token(s);
        let longer = execute_infix_parse_function(s1, left);
        match longer.result {
            None => longer,
            Some(node) => if follows(s1, longer.state) {
                parse_expression_from(longer.state, precedence, node)
            } else {
                longer
            },
        }
    } else {
        parsed(left, s)
    }
}

/// An expression whose operators bind more strongly than `precedence`:
/// what the current token starts, continued to the right as long as the
/// next token is an operator that binds more strongly.
#[verifier::opaque]
pub open spec fn parse_expression(s: ParserView, precedence: Precedence) -> Parsed<Ast>
    decreases s.fuel(), 7int,
    when s.wf()
{
    let left = execute_prefix_parse_function(s);
    match left.result {
        None => left,
        Some(node) => if follows(s, left.state) {
            parse_expression_from(left.state, precedence, node)
        } else {
            left
        },
    }
}

/// `let <name> = <expression>`, with the semicolon that may follow. The
/// name must be there; a missing `=` is recorded and parsing goes on.
#[verifier::opaque]
pub open spec fn parse_let_statement(s: ParserView) -> Parsed<Ast>
    decreases s.fuel(), 8int,
    when s.wf() && s.current.kind != TokenKind::Eof
{
    let name = expect_peek(s, TokenKind::Id);
    if !name.matched {
        failed(name.state)
    } else {
        let s1 = next_token(expect_peek(name.state, TokenKind::Assig).state);
        proof {
            lemma_next_token(s);
            lemma_expect_peek(name.state, TokenKind::Assig);
        }
        let value = parse_expression(s1, Precedence::Lowest);
        match value.result {
            None => failed(value.state),
            Some(node) => parsed(
                Ast::LetStatement {
                    token: s.current,
                    name: name.state.current,
                    value: Box::new(node),
                },
                skip_semicolon(value.state),
            ),
        }
    }
}

/// `return <expression>`, with the semicolon that may follow.
#[verifier::opaque]
pub open spec fn parse_return_statement(s: ParserView) -> Parsed<Ast>
    decreases s.fuel(), 8int,
    when s.wf() && s.current.kind != TokenKind::Eof
{
    proof {
        lemma_next_token(s);
    }
    let value = parse_expression(next_token(s), Precedence::Lowest);
    match value.result {
        None => failed(value.state),
        Some(node) => parsed(
            Ast::ReturnStatement { token: s.current, return_value: Box::new(node) },
            skip_semicolon(value.state),
        ),
    }
}

/// A statement: a `let`, a `return`, a `break`, or an expression with the
/// semicolon that may follow it.
#[verifier::opaque]
pub open spec fn parse_statement(s: ParserView) -> Parsed<Ast>
    decreases s.fuel(), 9int,
    when s.wf()
{
    if s.current.kind == TokenKind::Let {
        parse_let_statement(s)
    } else if s.current.kind == TokenKind::Return {
        parse_return_statement(s)
    } else if s.current.kind == TokenKind::Break {
        parsed(Ast::Break, next_token(s))
    } else {
        let expression = parse_expression(s, Precedence::Lowest);
        match expression.result {
            None => expression,
            Some(node) => parsed(node, skip_semicolon(expression.state)),
        }
    }
}

/// The statements of a block from the current token on, after the
/// statements `statements`. A statement that fails ends the block as a
/// failure.
#[verifier::opaque]
pub open spec fn parse_block_from(s: ParserView, token: TokenView, statements: Seq<Ast>)
    -> Parsed<Block>
    decreases s.fuel(), 10int,
    when s.wf()
{
    if s.current.kind == TokenKind::Ckey || s.current.kind == TokenKind::Eof {
        parsed(Block { token, statements }, s)
    } else {
        let statement = parse_statement(s);
        match statement.result {
            None => failed(statement.state),
            Some(node) => {
                let s1 = next_token(statement.state);
                if progress(s, s1) {
                    parse_block_from(s1, token, statements.push(node))
                } else {
                    parsed(Block { token, statements: statements.push(node) }, s1)
                }
            },
        }
    }
}

/// A block: the statements from the token after the current one up to a
/// closing brace or the end of input.
#[verifier::opaque]
pub open spec fn parse_block_statement(s: ParserView) -> Parsed<Block>
    decreases s.fuel(), 11int,
    when s.wf()
{
    proof {
        lemma_next_token(s);
    }
    parse_block_from(next_token(s), s.current, Seq::empty())
}

/// The statements of a program from the current token on, after the
/// statements `statements`. A statement that fails is left out. The window
/// moves one token on after every statement.
#[verifier::opaque]
pub open spec fn parse_program_from(s: ParserView, statements: Seq<Ast>) -> Parsed<Ast>
    decreases s.fuel(), 12int,
    when s.wf()
{
    if s.current.kind == TokenKind::Eof {
        parsed(Ast::Program { statements }, s)
    } else {
        let statement = parse_statement(s);
        let statements = match statement.result {
            Some(node) => statements.push(node),
            None => statements,
        };
        let s1 = next_token(statement.state);
        if progress(s, s1) {
            parse_program_from(s1, statements)
        } else {
            parsed(Ast::Program { statements }, s1)
        }
    }
}

/// The program that a text parses to, and the state that parsing leaves:
/// the window at the end of input, and every error recorded.
pub open spec fn parse_program(s: ParserView) -> Parsed<Ast> {
    parse_program_from(s, Seq::empty())
}

} // verus!
