//! The productions for statements: the program, the block and the kinds of
//! statement.

use crate::ast::{
    nodes_view, AstNode, BlockStatement, Identifier, LetStatement, Program, ReturnStatement,
};
use crate::parser::{block_result, no_nodes, node_result, push_node, ParseFailure, Parser};
use crate::precedence::Precedence;
use crate::syntax;
use crate::syntax::{follows, progress};
use crate::token::TokenKind;
use vstd::prelude::*;

verus! {

impl Parser {
    /// Parses the whole input and returns the program. Statements that
    /// fail are left out and their errors recorded; afterwards the window
    /// is at the end of input.
    #[verifier::loop_isolation(false)]
    pub fn parse_program(&mut self) -> (program: AstNode)
        requires
            old(self).wf(),
        ensures
            final(self).wf(),
            syntax::parse_program(old(self)@).result == Some(program@),
            final(self)@ == syntax::parse_program(old(self)@).state,
            final(self)@.current.kind == TokenKind::Eof,
    {
        proof {
            reveal(syntax::parse_program_from);
            reveal(syntax::parse_statement);
        }
        let mut statements = no_nodes();
        while !self.cur_token_is(TokenKind::Eof)
            invariant
                self.wf(),
                follows(old(self)@, self@),
                syntax::parse_program_from(self@, nodes_view(statements@)) == syntax::parse_program(
                    old(self)@,
                ),
            decreases
                2 * self@.fuel() + (if self@.current.kind != TokenKind::Eof {
                    1int
                } else {
                    0int
                }),
        {
            proof {
                reveal(syntax::parse_program_from);
                reveal(syntax::parse_statement);
            }
            let ghost before = self@;
            match self.parse_statement() {
                Ok(statement) => {
                    push_node(&mut statements, statement);
                },
                Err(_) => {},
            }
            let ghost after = self@;
            self.next_token();
            proof {
                syntax::lemma_window(after);
                if !progress(before, self@) {
                    assert(after.current.kind == TokenKind::Eof);
                    assert(self@.current.kind == TokenKind::Eof);
                }
            }
        }
        let program = AstNode::Program(Program { statements });
        program
    }

    /// Parses a statement: a `let`, a `return`, a `break`, or an
    /// expression with the semicolon that may follow it.
    pub(crate) fn parse_statement(&mut self) -> (r: Result<AstNode, ParseFailure>)
        requires
            old(self).wf(),
        ensures
            final(self).wf(),
            node_result(r) == syntax::parse_statement(old(self)@).result,
            final(self)@ == syntax::parse_statement(old(self)@).state,
            follows(old(self)@, final(self)@),
        decreases old(self)@.fuel(), 9int,
    {
        proof {
            reveal(syntax::parse_statement);
            reveal(syntax::parse_let_statement);
            reveal(syntax::parse_return_statement);
            reveal(syntax::parse_expression);
        }
        if self.cur_token_is(TokenKind::Let) {
            self.parse_let_statement()
        } else if self.cur_token_is(TokenKind::Return) {
            self.parse_return_statement()
        } else if self.cur_token_is(TokenKind::Break) {
            self.next_token();
            Ok(AstNode::Break)
        } else {
            match self.parse_expression(Precedence::Lowest) {
                Ok(node) => {
                    self.skip_semicolon();
                    Ok(node)
                },
                Err(failure) => Err(failure),
            }
        }
    }

    /// Parses `let <name> = <expression>`, with the semicolon that may
    /// follow.
    pub(crate) fn parse_let_statement(&mut self) -> (r: Result<AstNode, ParseFailure>)
        requires
            old(self).wf(),
            old(self)@.current.kind != TokenKind::Eof,
        ensures
            final(self).wf(),
            node_result(r) == syntax::parse_let_statement(old(self)@).result,
            final(self)@ == syntax::parse_let_statement(old(self)@).state,
            follows(old(self)@, final(self)@),
        decreases old(self)@.fuel(), 8int,
    {
        proof {
            reveal(syntax::parse_let_statement);
            reveal(syntax::parse_expression);
        }
        let token = self.current();
        if !self.expect_peek(TokenKind::Id) {
            return Err(ParseFailure);
        }
        let name = Identifier { token: self.current() };
        proof {
            syntax::lemma_expect_peek(self@, TokenKind::Assig);
        }
        self.expect_peek(TokenKind::Assig);
        self.next_token();
        match self.parse_expression(Precedence::Lowest) {
            Ok(value) => {
                self.skip_semicolon();
                Ok(AstNode::LetStatement(LetStatement { token, name, value: Box::new(value) }))
            },
            Err(failure) => Err(failure),
        }
    }

    /// Parses `return <expression>`, with the semicolon that may follow.
    pub(crate) fn parse_return_statement(&mut self) -> (r: Result<AstNode, ParseFailure>)
        requires
            old(self).wf(),
            old(self)@.current.kind != TokenKind::Eof,
        ensures
            final(self).wf(),
            node_result(r) == syntax::parse_return_statement(old(self)@).result,
            final(self)@ == syntax::parse_return_statement(old(self)@).state,
            follows(old(self)@, final(self)@),
        decreases old(self)@.fuel(), 8int,
    {
        proof {
            reveal(syntax::parse_return_statement);
            reveal(syntax::parse_expression);
        }
        let token = self.current();
        self.next_token();
        match self.parse_expression(Precedence::Lowest) {
            Ok(value) => {
                self.skip_semicolon();
                Ok(
                    AstNode::ReturnStatement(
                        ReturnStatement { token, return_value: Box::new(value) },
                    ),
                )
            },
            Err(failure) => Err(failure),
        }
    }

    /// Parses a block: the statements up to a closing brace or the end of
    /// input.
    #[verifier::loop_isolation(false)]
    pub(crate) fn parse_block_statement(&mut self) -> (r: Result<BlockStatement, ParseFailure>)
        requires
            old(self).wf(),
        ensures
            final(self).wf(),
            block_result(r) == syntax::parse_block_statement(old(self)@).result,
            final(self)@ == syntax::parse_block_statement(old(self)@).state,
            follows(old(self)@, final(self)@),
        decreases old(self)@.fuel(), 11int,
    {
        proof {
            reveal(syntax::parse_block_statement);
            reveal(syntax::parse_block_from);
            reveal(syntax::parse_statement);
        }
        let token = self.current();
        let mut statements = no_nodes();
        self.next_token();
        while !self.cur_token_is(TokenKind::Ckey) && !self.cur_token_is(TokenKind::Eof)
            invariant
                self.wf(),
                follows(old(self)@, self@),
                token@ == old(self)@.current,
                syntax::parse_block_from(self@, token@, nodes_view(statements@))
                    == syntax::parse_block_statement(old(self)@),
            decreases
                2 * self@.fuel() + (if self@.current.kind != TokenKind::Eof {
                    1int
                } else {
                    0int
                }),
        {
            proof {
                reveal(syntax::parse_block_statement);
                reveal(syntax::parse_block_from);
                reveal(syntax::parse_statement);
            }
            let ghost before = self@;
            match self.parse_statement() {
                Ok(statement) => {
                    push_node(&mut statements, statement);
                },
                Err(failure) => {
                    return Err(failure);
                },
            }
            let ghost after = self@;
            self.next_token();
            proof {
                syntax::lemma_window(after);
                if !progress(before, self@) {
                    assert(after.current.kind == TokenKind::Eof);
                    assert(self@.current.kind == TokenKind::Eof);
                }
            }
        }
        Ok(BlockStatement { token, statements })
    }
}

} // verus!
