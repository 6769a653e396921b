//! The parser: a Pratt parser with a window of two tokens over the lexer.
//! It builds the syntax tree of a program and collects errors in a list
//! instead of stopping at the first.
//!
//! Every function here returns exactly what the specification functions
//! of [`crate::syntax`] say, over the state of the parser before the call.

use crate::assoc::{bind, position_from};
use crate::ast::{
    ast_view, elifs_view, nodes_view, pairs_view, parameters_view, ArrayLiteral, Assignation, Ast,
    AstNode, Block, BlockStatement, Boolean, CallExpression, DictLiteral, FunctionLiteral,
    Identifier, IfExpression, IndexExpression, InfixExpression, IntegerLiteral, Operation,
    PostDecrement, PostIncrement, PrefixExpression, StringLiteral,
};
use crate::lexer::Lexer;
use crate::precedence::{get_precedence_from_token, Precedence};
use crate::syntax;
use crate::syntax::{follows, progress, ParserView};
use crate::token::{kind_name_text, Token, TokenKind, TokenView};
use vstd::prelude::*;
use vstd::string::*;

mod statements;

verus! {

/// A production failed; what went wrong is in the list of errors.
#[derive(Debug)]
pub struct ParseFailure;

/// The parser holds the lexer that provides the tokens, the window of two
/// tokens and the errors found so far.
pub struct Parser {
    lex: Lexer,
    current_token: Token,
    peek_token: Token,
    errors: Vec<String>,
}

/// The texts of a list of strings.
pub open spec fn texts(strings: Seq<String>) -> Seq<Seq<char>> {
    Seq::new(strings.len(), |i: int| strings[i]@)
}

/// The model of what a production returned: the model of the node, or
/// nothing for a failure.
pub open spec fn node_result(r: Result<AstNode, ParseFailure>) -> Option<Ast> {
    match r {
        Ok(node) => Some(node@),
        Err(_) => None,
    }
}

/// The model of a block that a production returned.
pub open spec fn block_result(r: Result<BlockStatement, ParseFailure>) -> Option<Block> {
    match r {
        Ok(block) => Some(block@),
        Err(_) => None,
    }
}

/// The model of a list of nodes that a production returned.
pub open spec fn nodes_result(r: Result<Vec<AstNode>, ParseFailure>) -> Option<Seq<Ast>> {
    match r {
        Ok(nodes) => Some(nodes_view(nodes@)),
        Err(_) => None,
    }
}

/// The model of a list of parameters that a production returned.
pub open spec fn parameters_result(r: Result<Vec<Identifier>, ParseFailure>) -> Option<
    Seq<TokenView>,
> {
    match r {
        Ok(parameters) => Some(parameters_view(parameters@)),
        Err(_) => None,
    }
}

/// The model of a branch that a production returned.
pub open spec fn branch_result(r: Result<(AstNode, BlockStatement), ParseFailure>) -> Option<
    (Ast, Block),
> {
    match r {
        Ok(branch) => Some((branch.0@, branch.1@)),
        Err(_) => None,
    }
}

/// The model of a list of branches that a production returned.
pub open spec fn elifs_result(r: Result<Vec<(AstNode, BlockStatement)>, ParseFailure>) -> Option<
    Seq<(Ast, Block)>,
> {
    match r {
        Ok(elifs) => Some(elifs_view(elifs@)),
        Err(_) => None,
    }
}

/// The model of a list of pairs that a production returned.
pub open spec fn pairs_result(r: Result<Vec<(AstNode, AstNode)>, ParseFailure>) -> Option<
    Seq<(Ast, Ast)>,
> {
    match r {
        Ok(pairs) => Some(pairs_view(pairs@)),
        Err(_) => None,
    }
}

/// An empty list of nodes.
pub(crate) fn no_nodes() -> (nodes: Vec<AstNode>)
    ensures
        nodes_view(nodes@) == Seq::<Ast>::empty(),
{
    let nodes: Vec<AstNode> = Vec::new();
    assert(nodes_view(nodes@) =~= Seq::empty());
    nodes
}

/// Adds a node at the end of a list.
pub(crate) fn push_node(nodes: &mut Vec<AstNode>, node: AstNode)
    ensures
        nodes_view(final(nodes)@) == nodes_view(old(nodes)@).push(node@),
{
    nodes.push(node);
    assert(nodes_view(nodes@) =~= nodes_view(old(nodes)@).push(node@));
}

/// An empty list of branches.
fn no_branches() -> (elifs: Vec<(AstNode, BlockStatement)>)
    ensures
        elifs_view(elifs@) == Seq::<(Ast, Block)>::empty(),
{
    let elifs: Vec<(AstNode, BlockStatement)> = Vec::new();
    assert(elifs_view(elifs@) =~= Seq::empty());
    elifs
}

/// Adds a branch at the end of a list.
fn push_branch(elifs: &mut Vec<(AstNode, BlockStatement)>, branch: (AstNode, BlockStatement))
    ensures
        elifs_view(final(elifs)@) == elifs_view(old(elifs)@).push((branch.0@, branch.1@)),
{
    elifs.push(branch);
    assert(elifs_view(elifs@) =~= elifs_view(old(elifs)@).push((branch.0@, branch.1@)));
}

/// An empty list of pairs.
fn no_pairs() -> (pairs: Vec<(AstNode, AstNode)>)
    ensures
        pairs_view(pairs@) == Seq::<(Ast, Ast)>::empty(),
{
    let pairs: Vec<(AstNode, AstNode)> = Vec::new();
    assert(pairs_view(pairs@) =~= Seq::empty());
    pairs
}

/// An empty list of parameters.
fn no_parameters() -> (parameters: Vec<Identifier>)
    ensures
        parameters_view(parameters@) == Seq::<TokenView>::empty(),
{
    let parameters: Vec<Identifier> = Vec::new();
    assert(parameters_view(parameters@) =~= Seq::empty());
    parameters
}

/// Adds a parameter with the given token at the end of a list.
fn push_parameter(parameters: &mut Vec<Identifier>, token: Token)
    ensures
        parameters_view(final(parameters)@) == parameters_view(old(parameters)@).push(token@),
{
    parameters.push(Identifier { token });
    assert(parameters_view(parameters@) =~= parameters_view(old(parameters)@).push(token@));
}

/// The index of the pair with the key `key`, or the number of pairs where
/// there is none.
fn node_position(pairs: &Vec<(AstNode, AstNode)>, key: &AstNode) -> (i: usize)
    ensures
        i == position_from(pairs_view(pairs@), key@, 0),
        i <= pairs.len(),
{
    let mut i: usize = 0;
    while i < pairs.len()
        invariant
            i <= pairs.len(),
            position_from(pairs_view(pairs@), key@, i as int) == position_from(
                pairs_view(pairs@),
                key@,
                0,
            ),
        decreases pairs.len() - i,
    {
        assert(pairs_view(pairs@)[i as int].0 == ast_view(pairs@[i as int].0));
        if pairs[i].0.same(key) {
            return i;
        }
        i += 1;
    }
    i
}

/// Gives the key `key` the value `value`: the pair of that key is replaced
/// where there is one, and a pair is added at the end otherwise.
fn insert_node_pair(pairs: &mut Vec<(AstNode, AstNode)>, key: AstNode, value: AstNode)
    ensures
        pairs_view(final(pairs)@) == bind(pairs_view(old(pairs)@), key@, value@),
{
    let i = node_position(pairs, &key);
    if i < pairs.len() {
        pairs[i] = (key, value);
    } else {
        pairs.push((key, value));
    }
    assert(pairs_view(pairs@) =~= bind(pairs_view(old(pairs)@), key@, value@));
}

/// The compound form of an assignment token.
fn operation_of(kind: TokenKind) -> (operation: Option<Operation>)
    ensures
        operation == syntax::operation_of(kind),
{
    match kind {
        TokenKind::Assig => Some(Operation::Assig),
        TokenKind::SumAsig => Some(Operation::Sum),
        TokenKind::MinAsig => Some(Operation::Minus),
        TokenKind::MulAsig => Some(Operation::Mult),
        TokenKind::DivAsig => Some(Operation::Divide),
        _ => None,
    }
}

/// Whether a token is a binary operator.
fn is_binary_operator(kind: TokenKind) -> (r: bool)
    ensures
        r == syntax::is_binary_operator(kind),
{
    match kind {
        TokenKind::Eq => true,
        TokenKind::Neq => true,
        TokenKind::Lt => true,
        TokenKind::Gt => true,
        TokenKind::Ge => true,
        TokenKind::Le => true,
        TokenKind::Plus => true,
        TokenKind::Minus => true,
        TokenKind::Div => true,
        TokenKind::Mod => true,
        TokenKind::Mult => true,
        _ => false,
    }
}

impl View for Parser {
    type V = ParserView;

    closed spec fn view(&self) -> ParserView {
        ParserView {
            input: self.lex@.input,
            current: self.current_token@,
            peek: self.peek_token@,
            position: self.lex@.position,
            errors: texts(self.errors@),
        }
    }
}

impl Parser {
    /// Whether the parser is valid: see [`ParserView::wf`].
    pub open spec fn wf(&self) -> bool {
        self@.wf() && self.lexer_wf()
    }

    /// Whether the lexer behind the window is valid.
    pub closed spec fn lexer_wf(&self) -> bool {
        self.lex.wf()
    }

    /// A parser on the given lexer, with the first two tokens in its
    /// window.
    pub fn new(lex: Lexer) -> (parser: Parser)
        requires
            lex.wf(),
        ensures
            parser.wf(),
            parser@ == syntax::start(lex@.input, lex@.position),
    {
        let mut lex = lex;
        proof {
            lex.lemma_wf();
        }
        let ghost input = lex@.input;
        let ghost position = lex@.position;
        let current_token = lex.next_token();
        let ghost middle = lex@.position;
        let peek_token = lex.next_token();
        let parser = Parser { lex, current_token, peek_token, errors: Vec::new() };
        proof {
            syntax::lemma_start(input, position);
            assert(parser@.errors =~= Seq::empty());
        }
        parser
    }

    /// The errors found so far.
    pub fn errors(&self) -> (errors: Vec<String>)
        ensures
            texts(errors@) == self@.errors,
    {
        let mut out: Vec<String> = Vec::new();
        let mut i: usize = 0;
        while i < self.errors.len()
            invariant
                i <= self.errors.len(),
                out.len() == i,
                forall|j: int| 0 <= j < i ==> out@[j]@ == self.errors@[j]@,
            decreases self.errors.len() - i,
        {
            out.push(self.errors[i].clone());
            i += 1;
        }
        assert(texts(out@) =~= texts(self.errors@));
        out
    }

    /// Moves the window one token forward.
    pub(crate) fn next_token(&mut self)
        requires
            old(self).wf(),
        ensures
            final(self).wf(),
            final(self)@ == syntax::next_token(old(self)@),
            follows(old(self)@, final(self)@),
            old(self)@.current.kind != TokenKind::Eof ==> progress(old(self)@, final(self)@),
    {
        proof {
            syntax::lemma_next_token(self@);
        }
        self.current_token = self.peek_token.clone();
        self.peek_token = self.lex.next_token();
    }

    /// Records an error.
    pub(crate) fn record(&mut self, message: String)
        requires
            old(self).wf(),
        ensures
            final(self).wf(),
            final(self)@ == old(self)@.with_error(message@),
            follows(old(self)@, final(self)@),
    {
        proof {
            syntax::lemma_with_error(self@, message@);
        }
        self.errors.push(message);
        assert(texts(self.errors@) =~= texts(old(self).errors@).push(message@));
    }

    /// Records that the token `kind` was expected and not found.
    fn peek_error(&mut self, kind: TokenKind)
        requires
            old(self).wf(),
        ensures
            final(self).wf(),
            final(self)@ == old(self)@.with_error(syntax::peek_error(kind, old(self)@.peek)),
            follows(old(self)@, final(self)@),
    {
        proof {
            reveal(syntax::peek_error);
        }
        let mut message = String::from_str("expected ");
        message.append(kind_name_text(kind));
        message.append(", actual ");
        message.append(self.peek_token.describe().as_str());
        self.record(message);
    }

    /// Records that the current token starts no expression.
    fn no_prefix_function_error(&mut self)
        requires
            old(self).wf(),
        ensures
            final(self).wf(),
            final(self)@ == old(self)@.with_error(
                syntax::no_prefix_function_error(old(self)@.current),
            ),
            follows(old(self)@, final(self)@),
    {
        proof {
            reveal(syntax::no_prefix_function_error);
        }
        let mut message = String::from_str("No prefix function for ");
        message.append(self.current_token.describe().as_str());
        message.append(" found");
        self.record(message);
    }

    /// Records that the current token continues no expression.
    fn no_infix_fn_error(&mut self)
        requires
            old(self).wf(),
        ensures
            final(self).wf(),
            final(self)@ == old(self)@.with_error(syntax::no_infix_fn_error(old(self)@.current)),
            follows(old(self)@, final(self)@),
    {
        proof {
            reveal(syntax::no_infix_fn_error);
        }
        let mut message = String::from_str("No infix function for ");
        message.append(self.current_token.describe().as_str());
        message.append(" found");
        self.record(message);
    }

    /// Whether the window is at the end of input.
    pub fn at_end(&self) -> (r: bool)
        ensures
            r == (self@.current.kind == TokenKind::Eof),
    {
        self.current_token.is(TokenKind::Eof)
    }

    /// A copy of the current token.
    pub(crate) fn current(&self) -> (token: Token)
        ensures
            token@ == self@.current,
    {
        self.current_token.clone()
    }

    /// Whether the current token has the given tag.
    pub(crate) fn cur_token_is(&self, kind: TokenKind) -> (r: bool)
        ensures
            r == (self@.current.kind == kind),
    {
        self.current_token.is(kind)
    }

    /// Whether the next token has the given tag.
    pub(crate) fn peek_token_is(&self, kind: TokenKind) -> (r: bool)
        ensures
            r == (self@.peek.kind == kind),
    {
        self.peek_token.is(kind)
    }

    /// The precedence of the next token.
    fn peek_precedence(&self) -> (precedence: Precedence)
        ensures
            precedence == crate::precedence::precedence_of(self@.peek.kind),
    {
        get_precedence_from_token(self.peek_token.kind())
    }

    /// The precedence of the current token.
    fn current_precedence(&self) -> (precedence: Precedence)
        ensures
            precedence == crate::precedence::precedence_of(self@.current.kind),
    {
        get_precedence_from_token(self.current_token.kind())
    }

    /// Tests the next token: where it has the expected tag the window
    /// moves onto it, and where it has not an error is recorded.
    pub(crate) fn expect_peek(&mut self, kind: TokenKind) -> (matched: bool)
        requires
            old(self).wf(),
        ensures
            final(self).wf(),
            matched == syntax::expect_peek(old(self)@, kind).matched,
            final(self)@ == syntax::expect_peek(old(self)@, kind).state,
            follows(old(self)@, final(self)@),
    {
        if self.peek_token_is(kind) {
            self.next_token();
            return true;
        }
        self.peek_error(kind);
        false
    }

    /// Takes the semicolon that may follow.
    pub(crate) fn skip_semicolon(&mut self)
        requires
            old(self).wf(),
        ensures
            final(self).wf(),
            final(self)@ == syntax::skip_semicolon(old(self)@),
            follows(old(self)@, final(self)@),
    {
        proof {
            reveal(syntax::skip_semicolon);
        }
        if self.peek_token_is(TokenKind::Semicolon) {
            self.next_token();
        }
    }

    /// Parses an expression whose operators bind more strongly than
    /// `precedence`.
    #[verifier::loop_isolation(false)]
    pub(crate) fn parse_expression(&mut self, precedence: Precedence) -> (r: Result<AstNode, ParseFailure>)
        requires
            old(self).wf(),
        ensures
            final(self).wf(),
            node_result(r) == syntax::parse_expression(old(self)@, precedence).result,
            final(self)@ == syntax::parse_expression(old(self)@, precedence).state,
            follows(old(self)@, final(self)@),
        decreases old(self)@.fuel(), 7int,
    {
        proof {
            reveal(syntax::parse_expression);
            reveal(syntax::parse_expression_from);
            reveal(syntax::execute_prefix_parse_function);
            reveal(syntax::execute_infix_parse_function);
        }
        let mut left = match self.execute_prefix_parse_function() {
            Ok(node) => node,
            Err(failure) => {
                return Err(failure);
            },
        };
        while !self.peek_token_is(TokenKind::Semicolon) && precedence.binds_less_than(
            &self.peek_precedence(),
        )
            invariant
                self.wf(),
                follows(old(self)@, self@),
                syntax::parse_expression_from(self@, precedence, left@) == syntax::parse_expression(
                    old(self)@,
                    precedence,
                ),
            decreases self@.fuel(),
        {
            proof {
                reveal(syntax::parse_expression);
                reveal(syntax::parse_expression_from);
                reveal(syntax::execute_prefix_parse_function);
                reveal(syntax::execute_infix_parse_function);
            }
            proof {
                syntax::lemma_window(self@);
            }
            self.next_token();
            match self.execute_infix_parse_function(left) {
                Ok(node) => {
                    left = node;
                },
                Err(failure) => {
                    return Err(failure);
                },
            }
        }
        Ok(left)
    }

    /// Parses what the current token starts.
    fn execute_prefix_parse_function(&mut self) -> (r: Result<AstNode, ParseFailure>)
        requires
            old(self).wf(),
        ensures
            final(self).wf(),
            node_result(r) == syntax::execute_prefix_parse_function(old(self)@).result,
            final(self)@ == syntax::execute_prefix_parse_function(old(self)@).state,
            follows(old(self)@, final(self)@),
        decreases old(self)@.fuel(), 5int,
    {
        proof {
            reveal(syntax::execute_prefix_parse_function);
            reveal(syntax::parse_prefix_expression);
            reveal(syntax::parse_grouped_expression);
            reveal(syntax::parse_if_expression);
            reveal(syntax::parse_function_literal);
            reveal(syntax::parse_array_literal);
            reveal(syntax::parse_dict_literal);
        }
        match self.current_token.kind() {
            TokenKind::Id => self.parse_identifier(),
            TokenKind::ConstInt => self.parse_integer_literal(),
            TokenKind::Not => self.parse_prefix_expression(),
            TokenKind::Minus => self.parse_prefix_expression(),
            TokenKind::ConstBool => self.parse_boolean(),
            TokenKind::Opar => self.parse_grouped_expression(),
            TokenKind::If => self.parse_if_expression(),
            TokenKind::Fun => self.parse_function_literal(),
            TokenKind::ConstStr => self.parse_string_literal(),
            TokenKind::Obrac => self.parse_array_literal(),
            TokenKind::Okey => self.parse_dict_literal(),
            _ => {
                self.no_prefix_function_error();
                Err(ParseFailure)
            },
        }
    }

    /// Parses `not <expression>` or `-<expression>`.
    fn parse_prefix_expression(&mut self) -> (r: Result<AstNode, ParseFailure>)
        requires
            old(self).wf(),
            old(self)@.current.kind != TokenKind::Eof,
        ensures
            final(self).wf(),
            node_result(r) == syntax::parse_prefix_expression(old(self)@).result,
            final(self)@ == syntax::parse_prefix_expression(old(self)@).state,
            follows(old(self)@, final(self)@),
        decreases old(self)@.fuel(), 4int,
    {
        proof {
            reveal(syntax::parse_prefix_expression);
            reveal(syntax::parse_expression);
        }
        let token = self.current_token.clone();
        self.next_token();
        match self.parse_expression(Precedence::Prefix) {
            Ok(right) => {
                let operator = token.literal();
                Ok(
                    AstNode::PrefixExpression(
                        PrefixExpression { token, operator, right: Box::new(right) },
                    ),
                )
            },
            Err(failure) => Err(failure),
        }
    }

    /// Parses a name, or the increment or decrement of a name.
    fn parse_identifier(&mut self) -> (r: Result<AstNode, ParseFailure>)
        requires
            old(self).wf(),
        ensures
            final(self).wf(),
            node_result(r) == syntax::parse_identifier(old(self)@).result,
            final(self)@ == syntax::parse_identifier(old(self)@).state,
            follows(old(self)@, final(self)@),
    {
        let token = self.current_token.clone();
        if self.peek_token_is(TokenKind::Inc) {
            self.next_token();
            Ok(AstNode::PostIncrement(PostIncrement { token }))
        } else if self.peek_token_is(TokenKind::Dec) {
            self.next_token();
            Ok(AstNode::PostDecrement(PostDecrement { token }))
        } else {
            Ok(AstNode::Identifier(Identifier { token }))
        }
    }

    /// Parses an integer literal.
    fn parse_integer_literal(&self) -> (r: Result<AstNode, ParseFailure>)
        ensures
            node_result(r) == Some(Ast::IntegerLiteral { token: self@.current }),
    {
        Ok(AstNode::IntegerLiteral(IntegerLiteral { token: self.current_token.clone() }))
    }

    /// Parses a boolean literal.
    fn parse_boolean(&self) -> (r: Result<AstNode, ParseFailure>)
        ensures
            node_result(r) == Some(Ast::Boolean { token: self@.current }),
    {
        Ok(AstNode::Boolean(Boolean { token: self.current_token.clone() }))
    }

    /// Parses a string literal.
    fn parse_string_literal(&self) -> (r: Result<AstNode, ParseFailure>)
        ensures
            node_result(r) == Some(Ast::StringLiteral { token: self@.current }),
    {
        Ok(AstNode::StringLiteral(StringLiteral { token: self.current_token.clone() }))
    }

    /// Parses `( <expression> )`.
    fn parse_grouped_expression(&mut self) -> (r: Result<AstNode, ParseFailure>)
        requires
            old(self).wf(),
            old(self)@.current.kind != TokenKind::Eof,
        ensures
            final(self).wf(),
            node_result(r) == syntax::parse_grouped_expression(old(self)@).result,
            final(self)@ == syntax::parse_grouped_expression(old(self)@).state,
            follows(old(self)@, final(self)@),
        decreases old(self)@.fuel(), 4int,
    {
        proof {
            reveal(syntax::parse_grouped_expression);
            reveal(syntax::parse_expression);
        }
        self.next_token();
        match self.parse_expression(Precedence::Lowest) {
            Ok(inner) => {
                self.expect_peek(TokenKind::Cpar);
                Ok(inner)
            },
            Err(failure) => Err(failure),
        }
    }

    /// Parses a condition in parentheses followed by a block.
    fn parse_branch(&mut self) -> (r: Result<(AstNode, BlockStatement), ParseFailure>)
        requires
            old(self).wf(),
            old(self)@.current.kind != TokenKind::Eof,
        ensures
            final(self).wf(),
            branch_result(r) == syntax::parse_branch(old(self)@).result,
            final(self)@ == syntax::parse_branch(old(self)@).state,
            progress(old(self)@, final(self)@),
        decreases old(self)@.fuel(), 3int,
    {
        proof {
            reveal(syntax::parse_branch);
            reveal(syntax::parse_expression);
            reveal(syntax::parse_block_statement);
        }
        proof {
            syntax::lemma_expect_peek(self@, TokenKind::Opar);
        }
        self.expect_peek(TokenKind::Opar);
        self.next_token();
        let condition = match self.parse_expression(Precedence::Lowest) {
            Ok(node) => node,
            Err(failure) => {
                return Err(failure);
            },
        };
        self.expect_peek(TokenKind::Cpar);
        self.expect_peek(TokenKind::Okey);
        match self.parse_block_statement() {
            Ok(block) => Ok((condition, block)),
            Err(failure) => Err(failure),
        }
    }

    /// Parses the branches of an `if` that follow the first.
    #[verifier::loop_isolation(false)]
    fn parse_elifs(&mut self) -> (r: Result<Vec<(AstNode, BlockStatement)>, ParseFailure>)
        requires
            old(self).wf(),
        ensures
            final(self).wf(),
            elifs_result(r) == syntax::parse_elifs(old(self)@, Seq::empty()).result,
            final(self)@ == syntax::parse_elifs(old(self)@, Seq::empty()).state,
            follows(old(self)@, final(self)@),
        decreases old(self)@.fuel(), 2int,
    {
        proof {
            reveal(syntax::parse_elifs);
            reveal(syntax::parse_branch);
        }
        let mut elifs = no_branches();
        while self.peek_token_is(TokenKind::Elif)
            invariant
                self.wf(),
                follows(old(self)@, self@),
                syntax::parse_elifs(self@, elifs_view(elifs@)) == syntax::parse_elifs(
                    old(self)@,
                    Seq::empty(),
                ),
            decreases self@.fuel(),
        {
            proof {
                reveal(syntax::parse_elifs);
                reveal(syntax::parse_branch);
            }
            proof {
                syntax::lemma_window(self@);
            }
            self.next_token();
            match self.parse_branch() {
                Ok(branch) => {
                    push_branch(&mut elifs, branch);
                },
                Err(failure) => {
                    return Err(failure);
                },
            }
        }
        Ok(elifs)
    }

    /// Parses `if (..) {..}`, any number of `elif (..) {..}`, and `else
    /// {..}` where there is one.
    fn parse_if_expression(&mut self) -> (r: Result<AstNode, ParseFailure>)
        requires
            old(self).wf(),
            old(self)@.current.kind != TokenKind::Eof,
        ensures
            final(self).wf(),
            node_result(r) == syntax::parse_if_expression(old(self)@).result,
            final(self)@ == syntax::parse_if_expression(old(self)@).state,
            follows(old(self)@, final(self)@),
        decreases old(self)@.fuel(), 4int,
    {
        proof {
            reveal(syntax::parse_if_expression);
            reveal(syntax::parse_branch);
            reveal(syntax::parse_elifs);
            reveal(syntax::parse_block_statement);
        }
        let token = self.current_token.clone();
        let first = match self.parse_branch() {
            Ok(branch) => branch,
            Err(failure) => {
                return Err(failure);
            },
        };
        let elifs = match self.parse_elifs() {
            Ok(elifs) => elifs,
            Err(failure) => {
                return Err(failure);
            },
        };
        let alternative = if self.peek_token_is(TokenKind::Else) {
            self.next_token();
            self.expect_peek(TokenKind::Okey);
            match self.parse_block_statement() {
                Ok(block) => Some(block),
                Err(failure) => {
                    return Err(failure);
                },
            }
        } else {
            None
        };
        Ok(
            AstNode::IfExpression(
                IfExpression {
                    token,
                    condition: Box::new(first.0),
                    consequence: first.1,
                    elifs,
                    alternative,
                },
            ),
        )
    }

    /// Parses `fun (<parameters>) {..}`.
    fn parse_function_literal(&mut self) -> (r: Result<AstNode, ParseFailure>)
        requires
            old(self).wf(),
            old(self)@.current.kind != TokenKind::Eof,
        ensures
            final(self).wf(),
            node_result(r) == syntax::parse_function_literal(old(self)@).result,
            final(self)@ == syntax::parse_function_literal(old(self)@).state,
            follows(old(self)@, final(self)@),
        decreases old(self)@.fuel(), 4int,
    {
        proof {
            reveal(syntax::parse_function_literal);
            reveal(syntax::parse_block_statement);
        }
        let token = self.current_token.clone();
        proof {
            syntax::lemma_expect_peek(self@, TokenKind::Opar);
        }
        self.expect_peek(TokenKind::Opar);
        let parameters = match self.parse_function_parameters() {
            Ok(parameters) => parameters,
            Err(failure) => {
                return Err(failure);
            },
        };
        self.expect_peek(TokenKind::Okey);
        match self.parse_block_statement() {
            Ok(body) => Ok(AstNode::FunctionLiteral(FunctionLiteral { token, parameters, body })),
            Err(failure) => Err(failure),
        }
    }

    /// Parses the parameters of a function literal up to the closing
    /// parenthesis.
    #[verifier::loop_isolation(false)]
    fn parse_function_parameters(&mut self) -> (r: Result<Vec<Identifier>, ParseFailure>)
        requires
            old(self).wf(),
            old(self)@.current.kind != TokenKind::Eof,
        ensures
            final(self).wf(),
            parameters_result(r) == syntax::parse_function_parameters(old(self)@).result,
            final(self)@ == syntax::parse_function_parameters(old(self)@).state,
            progress(old(self)@, final(self)@),
    {
        proof {
            reveal(syntax::parse_more_parameters);
        }
        let mut identifiers = no_parameters();
        if self.peek_token_is(TokenKind::Cpar) {
            self.next_token();
            return Ok(identifiers);
        }
        self.next_token();
        push_parameter(&mut identifiers, self.current_token.clone());
        assert(parameters_view(identifiers@) =~= seq![self@.current]);
        while self.peek_token_is(TokenKind::Coma)
            invariant
                self.wf(),
                progress(old(self)@, self@),
                syntax::parse_more_parameters(self@, parameters_view(identifiers@))
                    == syntax::parse_function_parameters(old(self)@),
            decreases self@.fuel(),
        {
            proof {
                reveal(syntax::parse_more_parameters);
            }
            self.next_token();
            self.next_token();
            push_parameter(&mut identifiers, self.current_token.clone());
        }
        self.expect_peek(TokenKind::Cpar);
        Ok(identifiers)
    }

    /// Parses `[<expression>, ..]`.
    fn parse_array_literal(&mut self) -> (r: Result<AstNode, ParseFailure>)
        requires
            old(self).wf(),
            old(self)@.current.kind != TokenKind::Eof,
        ensures
            final(self).wf(),
            node_result(r) == syntax::parse_array_literal(old(self)@).result,
            final(self)@ == syntax::parse_array_literal(old(self)@).state,
            follows(old(self)@, final(self)@),
        decreases old(self)@.fuel(), 4int,
    {
        proof {
            reveal(syntax::parse_array_literal);
            reveal(syntax::parse_expression_list);
        }
        let token = self.current_token.clone();
        match self.parse_expression_list(TokenKind::Cbrac) {
            Ok(elements) => Ok(AstNode::ArrayLiteral(ArrayLiteral { token, elements })),
            Err(failure) => Err(failure),
        }
    }

    /// Parses `{<key>: <value>, ..}`.
    fn parse_dict_literal(&mut self) -> (r: Result<AstNode, ParseFailure>)
        requires
            old(self).wf(),
            old(self)@.current.kind != TokenKind::Eof,
        ensures
            final(self).wf(),
            node_result(r) == syntax::parse_dict_literal(old(self)@).result,
            final(self)@ == syntax::parse_dict_literal(old(self)@).state,
            follows(old(self)@, final(self)@),
        decreases old(self)@.fuel(), 4int,
    {
        proof {
            reveal(syntax::parse_dict_literal);
            reveal(syntax::parse_pairs);
        }
        let token = self.current_token.clone();
        match self.parse_pairs() {
            Ok(pairs) => Ok(AstNode::DictLiteral(DictLiteral { token, pairs })),
            Err(failure) => Err(failure),
        }
    }

    /// Parses the pairs of a dictionary literal and the closing brace.
    #[verifier::loop_isolation(false)]
    fn parse_pairs(&mut self) -> (r: Result<Vec<(AstNode, AstNode)>, ParseFailure>)
        requires
            old(self).wf(),
            old(self)@.current.kind != TokenKind::Eof,
        ensures
            final(self).wf(),
            pairs_result(r) == syntax::parse_pairs(old(self)@, Seq::empty()).result,
            final(self)@ == syntax::parse_pairs(old(self)@, Seq::empty()).state,
            follows(old(self)@, final(self)@),
        decreases old(self)@.fuel(), 2int,
    {
        proof {
            reveal(syntax::parse_pairs);
            reveal(syntax::parse_expression);
        }
        let mut pairs = no_pairs();
        while !self.peek_token_is(TokenKind::Ckey)
            invariant
                self.wf(),
                self@.current.kind != TokenKind::Eof,
                follows(old(self)@, self@),
                syntax::parse_pairs(self@, pairs_view(pairs@)) == syntax::parse_pairs(
                    old(self)@,
                    Seq::empty(),
                ),
            decreases self@.fuel(),
        {
            proof {
                reveal(syntax::parse_pairs);
                reveal(syntax::parse_expression);
            }
            self.next_token();
            let key = match self.parse_expression(Precedence::Lowest) {
                Ok(node) => node,
                Err(failure) => {
                    return Err(failure);
                },
            };
            proof {
                syntax::lemma_expect_peek(self@, TokenKind::Colon);
            }
            self.expect_peek(TokenKind::Colon);
            self.next_token();
            let value = match self.parse_expression(Precedence::Lowest) {
                Ok(node) => node,
                Err(failure) => {
                    return Err(failure);
                },
            };
            insert_node_pair(&mut pairs, key, value);
            if !self.peek_token_is(TokenKind::Ckey) {
                if !self.expect_peek(TokenKind::Coma) {
                    return Err(ParseFailure);
                }
            } else {
                self.expect_peek(TokenKind::Ckey);
                return Ok(pairs);
            }
        }
        self.expect_peek(TokenKind::Ckey);
        Ok(pairs)
    }

    /// Parses what the current token continues `left` to.
    fn execute_infix_parse_function(&mut self, left: AstNode) -> (r: Result<AstNode, ParseFailure>)
        requires
            old(self).wf(),
        ensures
            final(self).wf(),
            node_result(r) == syntax::execute_infix_parse_function(old(self)@, left@).result,
            final(self)@ == syntax::execute_infix_parse_function(old(self)@, left@).state,
            follows(old(self)@, final(self)@),
        decreases old(self)@.fuel(), 5int,
    {
        proof {
            reveal(syntax::execute_infix_parse_function);
            reveal(syntax::parse_infix_expression);
            reveal(syntax::parse_assignation_expression);
            reveal(syntax::parse_call_expression);
            reveal(syntax::parse_index_expression);
        }
        let kind = self.current_token.kind();
        if kind == TokenKind::Eof {
            self.no_infix_fn_error();
            Err(ParseFailure)
        } else if is_binary_operator(kind) {
            self.parse_infix_expression(left)
        } else if operation_of(kind).is_some() {
            self.parse_assignation_expression(left)
        } else if kind == TokenKind::Opar {
            self.parse_call_expression(left)
        } else if kind == TokenKind::Obrac {
            self.parse_index_expression(left)
        } else {
            self.no_infix_fn_error();
            Err(ParseFailure)
        }
    }

    /// Parses `<left> <operator> <right>`.
    fn parse_infix_expression(&mut self, left: AstNode) -> (r: Result<AstNode, ParseFailure>)
        requires
            old(self).wf(),
            old(self)@.current.kind != TokenKind::Eof,
        ensures
            final(self).wf(),
            node_result(r) == syntax::parse_infix_expression(old(self)@, left@).result,
            final(self)@ == syntax::parse_infix_expression(old(self)@, left@).state,
            follows(old(self)@, final(self)@),
        decreases old(self)@.fuel(), 4int,
    {
        proof {
            reveal(syntax::parse_infix_expression);
            reveal(syntax::parse_expression);
        }
        let token = self.current_token.clone();
        let precedence = self.current_precedence();
        self.next_token();
        match self.parse_expression(precedence) {
            Ok(right) => {
                let operator = token.literal();
                Ok(
                    AstNode::InfixExpression(
                        InfixExpression {
                            token,
                            left: Box::new(left),
                            operator,
                            right: Box::new(right),
                        },
                    ),
                )
            },
            Err(failure) => Err(failure),
        }
    }

    /// Parses `<name> = <expression>` and its compound forms.
    fn parse_assignation_expression(&mut self, left: AstNode) -> (r: Result<AstNode, ParseFailure>)
        requires
            old(self).wf(),
            old(self)@.current.kind != TokenKind::Eof,
        ensures
            final(self).wf(),
            node_result(r) == syntax::parse_assignation_expression(old(self)@, left@).result,
            final(self)@ == syntax::parse_assignation_expression(old(self)@, left@).state,
            follows(old(self)@, final(self)@),
        decreases old(self)@.fuel(), 4int,
    {
        proof {
            reveal(syntax::parse_assignation_expression);
            reveal(syntax::parse_expression);
        }
        let token = self.current_token.clone();
        let name = match left {
            AstNode::Identifier(id) => id,
            other => {
                proof {
                    reveal(syntax::not_assignable_error);
                }
                let mut message = other.string();
                message.append(" cant be assigned to");
                self.record(message);
                return Err(ParseFailure);
            },
        };
        let operation = match operation_of(token.kind()) {
            Some(operation) => operation,
            None => {
                proof {
                    reveal(syntax::not_assignation_error);
                }
                let mut message = token.literal();
                message.append(" is not a valid assignation type");
                self.record(message);
                return Err(ParseFailure);
            },
        };
        self.next_token();
        match self.parse_expression(Precedence::Lowest) {
            Ok(value) => {
                self.skip_semicolon();
                Ok(
                    AstNode::Assignation(
                        Assignation { token, name, value: Box::new(value), operation },
                    ),
                )
            },
            Err(failure) => Err(failure),
        }
    }

    /// Parses `<left>[<expression>]`.
    fn parse_index_expression(&mut self, left: AstNode) -> (r: Result<AstNode, ParseFailure>)
        requires
            old(self).wf(),
            old(self)@.current.kind != TokenKind::Eof,
        ensures
            final(self).wf(),
            node_result(r) == syntax::parse_index_expression(old(self)@, left@).result,
            final(self)@ == syntax::parse_index_expression(old(self)@, left@).state,
            follows(old(self)@, final(self)@),
        decreases old(self)@.fuel(), 4int,
    {
        proof {
            reveal(syntax::parse_index_expression);
            reveal(syntax::parse_expression);
        }
        let token = self.current_token.clone();
        self.next_token();
        match self.parse_expression(Precedence::Lowest) {
            Ok(index) => {
                self.expect_peek(TokenKind::Cbrac);
                Ok(
                    AstNode::IndexExpression(
                        IndexExpression { token, left: Box::new(left), index: Box::new(index) },
                    ),
                )
            },
            Err(failure) => Err(failure),
        }
    }

    /// Parses `<function>(<expression>, ..)`.
    fn parse_call_expression(&mut self, function: AstNode) -> (r: Result<AstNode, ParseFailure>)
        requires
            old(self).wf(),
            old(self)@.current.kind != TokenKind::Eof,
        ensures
            final(self).wf(),
            node_result(r) == syntax::parse_call_expression(old(self)@, function@).result,
            final(self)@ == syntax::parse_call_expression(old(self)@, function@).state,
            follows(old(self)@, final(self)@),
        decreases old(self)@.fuel(), 4int,
    {
        proof {
            reveal(syntax::parse_call_expression);
            reveal(syntax::parse_expression_list);
        }
        let token = self.current_token.clone();
        match self.parse_expression_list(TokenKind::Cpar) {
            Ok(arguments) => Ok(
                AstNode::CallExpression(
                    CallExpression { token, function: Box::new(function), arguments },
                ),
            ),
            Err(failure) => Err(failure),
        }
    }

    /// Parses a list of expressions separated by commas, up to the token
    /// `end`.
    #[verifier::loop_isolation(false)]
    fn parse_expression_list(&mut self, end: TokenKind) -> (r: Result<Vec<AstNode>, ParseFailure>)
        requires
            old(self).wf(),
            old(self)@.current.kind != TokenKind::Eof,
        ensures
            final(self).wf(),
            nodes_result(r) == syntax::parse_expression_list(old(self)@, end).result,
            final(self)@ == syntax::parse_expression_list(old(self)@, end).state,
            follows(old(self)@, final(self)@),
        decreases old(self)@.fuel(), 3int,
    {
        proof {
            reveal(syntax::parse_expression_list);
            reveal(syntax::parse_expression_list_from);
            reveal(syntax::parse_expression);
        }
        let mut args = no_nodes();
        if self.peek_token_is(end) {
            self.next_token();
            return Ok(args);
        }
        self.next_token();
        match self.parse_expression(Precedence::Lowest) {
            Ok(node) => {
                push_node(&mut args, node);
                assert(nodes_view(args@) =~= seq![node@]);
            },
            Err(failure) => {
                return Err(failure);
            },
        }
        while self.peek_token_is(TokenKind::Coma)
            invariant
                self.wf(),
                progress(old(self)@, self@),
                syntax::parse_expression_list_from(self@, end, nodes_view(args@))
                    == syntax::parse_expression_list(old(self)@, end),
            decreases self@.fuel(),
        {
            proof {
                reveal(syntax::parse_expression_list);
                reveal(syntax::parse_expression_list_from);
                reveal(syntax::parse_expression);
            }
            self.next_token();
            self.next_token();
            match self.parse_expression(Precedence::Lowest) {
                Ok(node) => {
                    push_node(&mut args, node);
                },
                Err(failure) => {
                    return Err(failure);
                },
            }
        }
        self.expect_peek(end);
        Ok(args)
    }
}

} // verus!
