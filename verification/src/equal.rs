//! Structural equality of tokens and syntax trees: two values are the same
//! where their models are equal.

use crate::ast::{
    ast_view, elifs_view, nodes_view, pairs_view, parameters_view, ArrayLiteral, Assignation,
    AstNode, BlockStatement, Boolean, CallExpression, DictLiteral, FunctionLiteral, Identifier,
    IfExpression, IndexExpression, InfixExpression, IntegerLiteral, LetStatement, PostDecrement,
    PostIncrement, PrefixExpression, Program, ReturnStatement, StringLiteral,
};
use crate::text::same_text;
use crate::token::{token_view, Token};
use vstd::prelude::*;
use vstd::string::*;

verus! {

impl Token {
    /// Whether two tokens have the same tag and the same payload.
    pub fn same(&self, other: &Token) -> (r: bool)
        ensures
            r == (self@ == other@),
    {
        proof {
            reveal(token_view);
        }
        match self {
            Token::Id(a) => match other {
                Token::Id(b) => same_text(a.as_str(), b.as_str()),
                _ => false,
            },
            Token::ConstStr(a) => match other {
                Token::ConstStr(b) => same_text(a.as_str(), b.as_str()),
                _ => false,
            },
            Token::Invalid(a) => match other {
                Token::Invalid(b) => same_text(a.as_str(), b.as_str()),
                _ => false,
            },
            Token::ConstInt(a) => match other {
                Token::ConstInt(b) => *a == *b,
                _ => false,
            },
            Token::ConstBool(a) => match other {
                Token::ConstBool(b) => *a == *b,
                _ => false,
            },
            _ => match other {
                Token::Id(_) => false,
                Token::ConstStr(_) => false,
                Token::Invalid(_) => false,
                Token::ConstInt(_) => false,
                Token::ConstBool(_) => false,
                _ => self.kind() == other.kind(),
            },
        }
    }
}

/// Whether two lists of nodes are the same, node by node.
#[verifier::loop_isolation(false)]
pub fn same_nodes(a: &Vec<AstNode>, b: &Vec<AstNode>) -> (r: bool)
    ensures
        r == (nodes_view(a@) == nodes_view(b@)),
    decreases a,
{
    if a.len() != b.len() {
        assert(nodes_view(a@).len() != nodes_view(b@).len());
        return false;
    }
    let mut i: usize = 0;
    while i < a.len()
        invariant
            i <= a.len(),
            a.len() == b.len(),
            forall|j: int| 0 <= j < i ==> ast_view(a@[j]) == ast_view(b@[j]),
        decreases a.len() - i,
    {
        if !a[i].same(&b[i]) {
            assert(nodes_view(a@)[i as int] != nodes_view(b@)[i as int]);
            return false;
        }
        i += 1;
    }
    assert(nodes_view(a@) =~= nodes_view(b@));
    true
}

/// Whether two lists of parameters are the same, name by name.
pub fn same_parameters(a: &Vec<Identifier>, b: &Vec<Identifier>) -> (r: bool)
    ensures
        r == (parameters_view(a@) == parameters_view(b@)),
{
    if a.len() != b.len() {
        assert(parameters_view(a@).len() != parameters_view(b@).len());
        return false;
    }
    let mut i: usize = 0;
    while i < a.len()
        invariant
            i <= a.len(),
            a.len() == b.len(),
            forall|j: int| 0 <= j < i ==> a@[j].token@ == b@[j].token@,
        decreases a.len() - i,
    {
        if !a[i].token.same(&b[i].token) {
            assert(parameters_view(a@)[i as int] != parameters_view(b@)[i as int]);
            return false;
        }
        i += 1;
    }
    assert(parameters_view(a@) =~= parameters_view(b@));
    true
}

/// Whether two blocks are the same.
pub fn same_block(a: &BlockStatement, b: &BlockStatement) -> (r: bool)
    ensures
        r == (a@ == b@),
    decreases a,
{
    a.token.same(&b.token) && same_nodes(&a.statements, &b.statements)
}

/// Whether two lists of branches are the same, branch by branch.
#[verifier::loop_isolation(false)]
pub fn same_elifs(a: &Vec<(AstNode, BlockStatement)>, b: &Vec<(AstNode, BlockStatement)>) -> (r:
    bool)
    ensures
        r == (elifs_view(a@) == elifs_view(b@)),
    decreases a,
{
    if a.len() != b.len() {
        assert(elifs_view(a@).len() != elifs_view(b@).len());
        return false;
    }
    let mut i: usize = 0;
    while i < a.len()
        invariant
            i <= a.len(),
            a.len() == b.len(),
            forall|j: int| 0 <= j < i ==> elifs_view(a@)[j] == elifs_view(b@)[j],
        decreases a.len() - i,
    {
        let x = &a[i];
        let y = &b[i];
        let conditions = x.0.same(&y.0);
        let blocks = same_block(&x.1, &y.1);
        assert(elifs_view(a@)[i as int] == (ast_view(x.0), x.1@));
        assert(elifs_view(b@)[i as int] == (ast_view(y.0), y.1@));
        if !conditions || !blocks {
            return false;
        }
        i += 1;
    }
    assert(elifs_view(a@) =~= elifs_view(b@));
    true
}

/// Whether two lists of pairs are the same, pair by pair.
#[verifier::loop_isolation(false)]
#[verifier::rlimit(60)]
pub fn same_pairs(a: &Vec<(AstNode, AstNode)>, b: &Vec<(AstNode, AstNode)>) -> (r: bool)
    ensures
        r == (pairs_view(a@) == pairs_view(b@)),
    decreases a,
{
    if a.len() != b.len() {
        assert(pairs_view(a@).len() != pairs_view(b@).len());
        return false;
    }
    let mut i: usize = 0;
    while i < a.len()
        invariant
            i <= a.len(),
            a.len() == b.len(),
            forall|j: int| 0 <= j < i ==> pairs_view(a@)[j] == pairs_view(b@)[j],
        decreases a.len() - i,
    {
        let x = &a[i];
        let y = &b[i];
        let keys = x.0.same(&y.0);
        let values = x.1.same(&y.1);
        assert(pairs_view(a@)[i as int] == (ast_view(x.0), ast_view(x.1)));
        assert(pairs_view(b@)[i as int] == (ast_view(y.0), ast_view(y.1)));
        if !keys || !values {
            return false;
        }
        i += 1;
    }
    assert(pairs_view(a@) =~= pairs_view(b@));
    true
}

impl AstNode {
    /// Whether two trees are the same: the same kind of node, the same
    /// tokens, and the same trees below.
    pub fn same(&self, other: &AstNode) -> (r: bool)
        ensures
            r == (self@ == other@),
        decreases self,
    {
        match self {
            AstNode::Program(a) => match other {
                AstNode::Program(b) => a.same(b),
                _ => false,
            },
            AstNode::Identifier(a) => match other {
                AstNode::Identifier(b) => a.same(b),
                _ => false,
            },
            AstNode::IntegerLiteral(a) => match other {
                AstNode::IntegerLiteral(b) => a.same(b),
                _ => false,
            },
            AstNode::PrefixExpression(a) => match other {
                AstNode::PrefixExpression(b) => a.same(b),
                _ => false,
            },
            AstNode::InfixExpression(a) => match other {
                AstNode::InfixExpression(b) => a.same(b),
                _ => false,
            },
            AstNode::Boolean(a) => match other {
                AstNode::Boolean(b) => a.same(b),
                _ => false,
            },
            AstNode::IfExpression(a) => match other {
                AstNode::IfExpression(b) => a.same(b),
                _ => false,
            },
            AstNode::FunctionLiteral(a) => match other {
                AstNode::FunctionLiteral(b) => a.same(b),
                _ => false,
            },
            AstNode::StringLiteral(a) => match other {
                AstNode::StringLiteral(b) => a.same(b),
                _ => false,
            },
            AstNode::ArrayLiteral(a) => match other {
                AstNode::ArrayLiteral(b) => a.same(b),
                _ => false,
            },
            AstNode::DictLiteral(a) => match other {
                AstNode::DictLiteral(b) => a.same(b),
                _ => false,
            },
            AstNode::IndexExpression(a) => match other {
                AstNode::IndexExpression(b) => a.same(b),
                _ => false,
            },
            AstNode::CallExpression(a) => match other {
                AstNode::CallExpression(b) => a.same(b),
                _ => false,
            },
            AstNode::LetStatement(a) => match other {
                AstNode::LetStatement(b) => a.same(b),
                _ => false,
            },
            AstNode::ReturnStatement(a) => match other {
                AstNode::ReturnStatement(b) => a.same(b),
                _ => false,
            },
            AstNode::Assignation(a) => match other {
                AstNode::Assignation(b) => a.same(b),
                _ => false,
            },
            AstNode::PostIncrement(a) => match other {
                AstNode::PostIncrement(b) => a.same(b),
                _ => false,
            },
            AstNode::PostDecrement(a) => match other {
                AstNode::PostDecrement(b) => a.same(b),
                _ => false,
            },
            AstNode::BlockStatement(a) => match other {
                AstNode::BlockStatement(b) => same_block(a, b),
                _ => false,
            },
            AstNode::Break => matches!(other, AstNode::Break),
        }
    }
}

impl Identifier {
    /// Whether two nodes are the same.
    pub fn same(&self, other: &Identifier) -> (r: bool)
        ensures
            r == (self@ == other@),
    {
        self.token.same(&other.token)
    }
}

impl IntegerLiteral {
    /// Whether two nodes are the same.
    pub fn same(&self, other: &IntegerLiteral) -> (r: bool)
        ensures
            r == (self@ == other@),
    {
        self.token.same(&other.token)
    }
}

impl Boolean {
    /// Whether two nodes are the same.
    pub fn same(&self, other: &Boolean) -> (r: bool)
        ensures
            r == (self@ == other@),
    {
        self.token.same(&other.token)
    }
}

impl StringLiteral {
    /// Whether two nodes are the same.
    pub fn same(&self, other: &StringLiteral) -> (r: bool)
        ensures
            r == (self@ == other@),
    {
        self.token.same(&other.token)
    }
}

impl PostIncrement {
    /// Whether two nodes are the same.
    pub fn same(&self, other: &PostIncrement) -> (r: bool)
        ensures
            r == (self@ == other@),
    {
        self.token.same(&other.token)
    }
}

impl PostDecrement {
    /// Whether two nodes are the same.
    pub fn same(&self, other: &PostDecrement) -> (r: bool)
        ensures
            r == (self@ == other@),
    {
        self.token.same(&other.token)
    }
}

impl Program {
    /// Whether two nodes are the same.
    pub fn same(&self, other: &Program) -> (r: bool)
        ensures
            r == (self@ == other@),
        decreases self,
    {
        same_nodes(&self.statements, &other.statements)
    }
}

impl PrefixExpression {
    /// Whether two nodes are the same.
    pub fn same(&self, other: &PrefixExpression) -> (r: bool)
        ensures
            r == (self@ == other@),
        decreases self,
    {
        let tokens = self.token.same(&other.token);
        let operators = same_text(self.operator.as_str(), other.operator.as_str());
        let rights = (*self.right).same(&*other.right);
        tokens && operators && rights
    }
}

impl InfixExpression {
    /// Whether two nodes are the same.
    pub fn same(&self, other: &InfixExpression) -> (r: bool)
        ensures
            r == (self@ == other@),
        decreases self,
    {
        let tokens = self.token.same(&other.token);
        let operators = same_text(self.operator.as_str(), other.operator.as_str());
        let lefts = (*self.left).same(&*other.left);
        let rights = (*self.right).same(&*other.right);
        tokens && operators && lefts && rights
    }
}

impl IfExpression {
    /// Whether two nodes are the same.
    pub fn same(&self, other: &IfExpression) -> (r: bool)
        ensures
            r == (self@ == other@),
        decreases self,
    {
        let alternatives = match &self.alternative {
            Some(x) => match &other.alternative {
                Some(y) => same_block(x, y),
                None => false,
            },
            None => other.alternative.is_none(),
        };
        let tokens = self.token.same(&other.token);
        let conditions = (*self.condition).same(&*other.condition);
        let consequences = same_block(&self.consequence, &other.consequence);
        let elifs = same_elifs(&self.elifs, &other.elifs);
        alternatives && tokens && conditions && consequences && elifs
    }
}

impl FunctionLiteral {
    /// Whether two nodes are the same.
    pub fn same(&self, other: &FunctionLiteral) -> (r: bool)
        ensures
            r == (self@ == other@),
        decreases self,
    {
        let tokens = self.token.same(&other.token);
        let parameters = same_parameters(&self.parameters, &other.parameters);
        let bodies = same_block(&self.body, &other.body);
        tokens && parameters && bodies
    }
}

impl ArrayLiteral {
    /// Whether two nodes are the same.
    pub fn same(&self, other: &ArrayLiteral) -> (r: bool)
        ensures
            r == (self@ == other@),
        decreases self,
    {
        let tokens = self.token.same(&other.token);
        let elements = same_nodes(&self.elements, &other.elements);
        tokens && elements
    }
}

impl DictLiteral {
    /// Whether two nodes are the same.
    pub fn same(&self, other: &DictLiteral) -> (r: bool)
        ensures
            r == (self@ == other@),
        decreases self,
    {
        let tokens = self.token.same(&other.token);
        let pairs = same_pairs(&self.pairs, &other.pairs);
        tokens && pairs
    }
}

impl IndexExpression {
    /// Whether two nodes are the same.
    pub fn same(&self, other: &IndexExpression) -> (r: bool)
        ensures
            r == (self@ == other@),
        decreases self,
    {
        let tokens = self.token.same(&other.token);
        let lefts = (*self.left).same(&*other.left);
        let indexes = (*self.index).same(&*other.index);
        tokens && lefts && indexes
    }
}

impl CallExpression {
    /// Whether two nodes are the same.
    pub fn same(&self, other: &CallExpression) -> (r: bool)
        ensures
            r == (self@ == other@),
        decreases self,
    {
        let tokens = self.token.same(&other.token);
        let functions = (*self.function).same(&*other.function);
        let arguments = same_nodes(&self.arguments, &other.arguments);
        tokens && functions && arguments
    }
}

impl LetStatement {
    /// Whether two nodes are the same.
    pub fn same(&self, other: &LetStatement) -> (r: bool)
        ensures
            r == (self@ == other@),
        decreases self,
    {
        let tokens = self.token.same(&other.token);
        let names = self.name.token.same(&other.name.token);
        let values = (*self.value).same(&*other.value);
        tokens && names && values
    }
}

impl ReturnStatement {
    /// Whether two nodes are the same.
    pub fn same(&self, other: &ReturnStatement) -> (r: bool)
        ensures
            r == (self@ == other@),
        decreases self,
    {
        let tokens = self.token.same(&other.token);
        let values = (*self.return_value).same(&*other.return_value);
        tokens && values
    }
}

impl Assignation {
    /// Whether two nodes are the same.
    pub fn same(&self, other: &Assignation) -> (r: bool)
        ensures
            r == (self@ == other@),
        decreases self,
    {
        let tokens = self.token.same(&other.token);
        let names = self.name.token.same(&other.name.token);
        let values = (*self.value).same(&*other.value);
        tokens && names && values && self.operation == other.operation
    }
}

} // verus!
