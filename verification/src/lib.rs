//! An interpreter for a small dynamically typed, expression-oriented
//! scripting language: a byte-oriented lexer, a Pratt parser that builds an
//! abstract syntax tree, and a tree-walking evaluator over a chain of
//! environments with first-class closures.
//!
//! Source text goes through [`lexer`], [`parser`] and [`evaluator`] in
//! turn; [`interpreter`] puts the three in a row. What each of them returns
//! is fixed by spec functions over mathematical models of tokens, trees,
//! values and environments: [`lexer::scan`] for the lexer, the functions of
//! [`syntax`] for the parser and those of [`semantics`] for the evaluator.
//! [`laws`] holds what follows from them for every input.

pub mod text;
pub mod token;
pub mod lexer;
pub mod assoc;
pub mod ast;
pub mod render;
pub mod copy;
pub mod object;
pub mod dict;
pub mod environment;
pub mod semantics;
pub mod builtin;
pub mod evaluator;
pub mod equal;
pub mod precedence;
pub mod syntax;
pub mod parser;
pub mod symbols;
pub mod laws;
pub mod interpreter;
pub mod traits;
