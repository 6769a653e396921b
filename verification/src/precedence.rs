//! The binding powers of the operators, from the weakest to the strongest.

use crate::token::TokenKind;
use std::cmp::Ordering;
use vstd::prelude::*;

verus! {

/// How strongly an operator binds. The variants stand in rising order.
#[derive(Clone, Copy, Debug, PartialEq, Eq, Structural, Hash)]
pub enum Precedence {
    Lowest,
    Assig,
    Equals,
    LessGreater,
    Sum,
    Product,
    Prefix,
    Call,
    Index,
}

impl Precedence {
    /// The place of a precedence on the ladder, from 0 for `Lowest` to 8
    /// for `Index`.
    pub open spec fn level(self) -> int {
        match self {
            Precedence::Lowest => 0,
            Precedence::Assig => 1,
            Precedence::Equals => 2,
            Precedence::LessGreater => 3,
            Precedence::Sum => 4,
            Precedence::Product => 5,
            Precedence::Prefix => 6,
            Precedence::Call => 7,
            Precedence::Index => 8,
        }
    }

    /// The place of the precedence on the ladder.
    pub fn rank(&self) -> (r: u8)
        ensures
            r == self.level(),
    {
        match self {
            Precedence::Lowest => 0,
            Precedence::Assig => 1,
            Precedence::Equals => 2,
            Precedence::LessGreater => 3,
            Precedence::Sum => 4,
            Precedence::Product => 5,
            Precedence::Prefix => 6,
            Precedence::Call => 7,
            Precedence::Index => 8,
        }
    }

    /// Compares two precedences by their places on the ladder.
    pub fn cmp(&self, other: &Precedence) -> (r: Ordering)
        ensures
            match r {
                Ordering::Less => self.level() < other.level(),
                Ordering::Equal => self.level() == other.level(),
                Ordering::Greater => self.level() > other.level(),
            },
    {
        let a = self.rank();
        let b = other.rank();
        if a < b {
            Ordering::Less
        } else if a == b {
            Ordering::Equal
        } else {
            Ordering::Greater
        }
    }

    /// Whether this precedence binds less strongly than the other.
    pub fn binds_less_than(&self, other: &Precedence) -> (r: bool)
        ensures
            r == (self.level() < other.level()),
    {
        self.rank() < other.rank()
    }
}

/// The precedence of a token in infix position. A token that is no infix
/// operator has the lowest.
pub open spec fn precedence_of(kind: TokenKind) -> Precedence {
    match kind {
        TokenKind::Eq | TokenKind::Neq => Precedence::Equals,
        TokenKind::Lt | TokenKind::Gt | TokenKind::Le | TokenKind::Ge => Precedence::LessGreater,
        TokenKind::Plus | TokenKind::Minus => Precedence::Sum,
        TokenKind::Div | TokenKind::Mult | TokenKind::Mod => Precedence::Product,
        TokenKind::Opar => Precedence::Call,
        TokenKind::Obrac => Precedence::Index,
        TokenKind::Assig
        | TokenKind::SumAsig
        | TokenKind::MinAsig
        | TokenKind::MulAsig
        | TokenKind::DivAsig => Precedence::Assig,
        _ => Precedence::Lowest,
    }
}

/// The precedence of a token in infix position.
pub fn get_precedence_from_token(kind: TokenKind) -> (precedence: Precedence)
    ensures
        precedence == precedence_of(kind),
{
    match kind {
        TokenKind::Eq => Precedence::Equals,
        TokenKind::Neq => Precedence::Equals,
        TokenKind::Lt => Precedence::LessGreater,
        TokenKind::Gt => Precedence::LessGreater,
        TokenKind::Le => Precedence::LessGreater,
        TokenKind::Ge => Precedence::LessGreater,
        TokenKind::Plus => Precedence::Sum,
        TokenKind::Minus => Precedence::Sum,
        TokenKind::Div => Precedence::Product,
        TokenKind::Mult => Precedence::Product,
        TokenKind::Mod => Precedence::Product,
        TokenKind::Opar => Precedence::Call,
        TokenKind::Obrac => Precedence::Index,
        TokenKind::Assig => Precedence::Assig,
        TokenKind::SumAsig => Precedence::Assig,
        TokenKind::MinAsig => Precedence::Assig,
        TokenKind::MulAsig => Precedence::Assig,
        TokenKind::DivAsig => Precedence::Assig,
        _ => Precedence::Lowest,
    }
}

} // verus!
