//! From source text to a value: the lexer, the parser and the evaluator in
//! a row, as a file runner and a read-eval-print loop use them.

use crate::ast::Ast;
use crate::environment::EnvironmentView;
use crate::evaluator::{evaluated, Evaluator, DEFAULT_CALL_DEPTH};
use crate::lexer::Lexer;
use crate::object::ObjectType;
use crate::parser::{texts, Parser};
use crate::semantics::{eval, Outcome};
use crate::syntax::{parse_program, start, Parsed};
use vstd::prelude::*;
use vstd::utf8::encode_utf8;

verus! {

/// The program that a source text parses to, with the state that parsing
/// leaves. The lexer reads the UTF-8 bytes of the text.
pub open spec fn parse_source(source: Seq<char>) -> Parsed<Ast> {
    parse_program(start(encode_utf8(source), 0))
}

/// What a source text comes to in an environment: the errors of the
/// parser where there are any, in which case nothing is evaluated, and
/// else the outcome of evaluating the program.
pub open spec fn interpret(source: Seq<char>, env: EnvironmentView, depth: nat) -> Result<
    Outcome,
    Seq<Seq<char>>,
> {
    let parsed = parse_source(source);
    match parsed.result {
        Some(program) => if parsed.state.errors.len() == 0 {
            Ok(eval(program, env, depth))
        } else {
            Err(parsed.state.errors)
        },
        None => Err(parsed.state.errors),
    }
}

impl Evaluator {
    /// Parses a source text and evaluates it in the environment of the
    /// evaluator. Where the parser finds errors, they are returned and the
    /// environment stays as it is.
    pub fn interpret(&mut self, source: String) -> (r: Result<ObjectType, Vec<String>>)
        requires
            old(self).env.wf(),
        ensures
            final(self).env.wf(),
            final(self).call_depth == old(self).call_depth,
            match r {
                Ok(value) => match interpret(
                    source@,
                    old(self).env@,
                    old(self).call_depth as nat,
                ) {
                    Ok(outcome) => evaluated(value, old(self).env@, final(self).env@, outcome),
                    Err(_) => false,
                },
                Err(errors) => interpret(source@, old(self).env@, old(self).call_depth as nat)
                    == Err::<Outcome, Seq<Seq<char>>>(texts(errors@)) && final(self).env@ == old(
                    self,
                ).env@,
            },
    {
        let lexer = Lexer::new(source);
        let mut parser = Parser::new(lexer);
        let program = parser.parse_program();
        let errors = parser.errors();
        if errors.len() != 0 {
            return Err(errors);
        }
        Ok(self.eval(program))
    }
}

/// Parses a source text and evaluates it in a fresh environment.
pub fn run(source: String) -> (r: Result<ObjectType, Vec<String>>)
    ensures
        match r {
            Ok(value) => match interpret(
                source@,
                EnvironmentView::fresh(),
                DEFAULT_CALL_DEPTH as nat,
            ) {
                Ok(outcome) => value@ == outcome.value,
                Err(_) => false,
            },
            Err(errors) => interpret(source@, EnvironmentView::fresh(), DEFAULT_CALL_DEPTH as nat)
                == Err::<Outcome, Seq<Seq<char>>>(texts(errors@)),
        },
{
    let mut evaluator = Evaluator::new();
    evaluator.interpret(source)
}

} // verus!
