//! Copies of syntax trees. A recursive type of this crate cannot derive
//! `Clone`, so each node type has a `clone` of its own, which returns a tree
//! with the same model.

use crate::ast::{
    ast_view, elifs_view, nodes_view, pairs_view, parameters_view, ArrayLiteral, Assignation,
    AstNode, BlockStatement, Boolean, CallExpression, DictLiteral, FunctionLiteral, Identifier,
    IfExpression, IndexExpression, InfixExpression, IntegerLiteral, LetStatement, PostDecrement,
    PostIncrement, PrefixExpression, Program, ReturnStatement, StringLiteral,
};
use vstd::prelude::*;

verus! {

/// Copies of the nodes, in order.
#[verifier::loop_isolation(false)]
pub fn clone_nodes(nodes: &Vec<AstNode>) -> (out: Vec<AstNode>)
    ensures
        nodes_view(out@) == nodes_view(nodes@),
    decreases nodes,
{
    let mut out: Vec<AstNode> = Vec::new();
    let mut i: usize = 0;
    while i < nodes.len()
        invariant
            i <= nodes.len(),
            out.len() == i,
            forall|j: int| 0 <= j < i ==> ast_view(out@[j]) == ast_view(nodes@[j]),
        decreases nodes.len() - i,
    {
        out.push(nodes[i].clone());
        i += 1;
    }
    assert(nodes_view(out@) =~= nodes_view(nodes@));
    out
}

/// Copies of the parameters, in order.
pub fn clone_parameters(parameters: &Vec<Identifier>) -> (out: Vec<Identifier>)
    ensures
        parameters_view(out@) == parameters_view(parameters@),
{
    let mut out: Vec<Identifier> = Vec::new();
    let mut i: usize = 0;
    while i < parameters.len()
        invariant
            i <= parameters.len(),
            out.len() == i,
            forall|j: int| 0 <= j < i ==> out@[j].token@ == parameters@[j].token@,
        decreases parameters.len() - i,
    {
        out.push(parameters[i].clone());
        i += 1;
    }
    assert(parameters_view(out@) =~= parameters_view(parameters@));
    out
}

/// Copies of the branches of an `if` that follow the first, in order.
#[verifier::loop_isolation(false)]
pub fn clone_elifs(elifs: &Vec<(AstNode, BlockStatement)>) -> (out: Vec<(AstNode, BlockStatement)>)
    ensures
        elifs_view(out@) == elifs_view(elifs@),
    decreases elifs,
{
    let mut out: Vec<(AstNode, BlockStatement)> = Vec::new();
    let mut i: usize = 0;
    while i < elifs.len()
        invariant
            i <= elifs.len(),
            out.len() == i,
            forall|j: int| 0 <= j < i ==> elifs_view(out@)[j] == elifs_view(elifs@)[j],
        decreases elifs.len() - i,
    {
        let branch = &elifs[i];
        let condition = branch.0.clone();
        let block = branch.1.clone();
        let ghost before = out@;
        out.push((condition, block));
        assert(forall|j: int| 0 <= j < i ==> out@[j] == before[j]);
        assert(elifs_view(out@)[i as int] == elifs_view(elifs@)[i as int]);
        i += 1;
    }
    assert(elifs_view(out@) =~= elifs_view(elifs@));
    out
}

/// Copies of the pairs of a dictionary literal, in order.
#[verifier::loop_isolation(false)]
pub fn clone_pairs(pairs: &Vec<(AstNode, AstNode)>) -> (out: Vec<(AstNode, AstNode)>)
    ensures
        pairs_view(out@) == pairs_view(pairs@),
    decreases pairs,
{
    let mut out: Vec<(AstNode, AstNode)> = Vec::new();
    let mut i: usize = 0;
    while i < pairs.len()
        invariant
            i <= pairs.len(),
            out.len() == i,
            forall|j: int| 0 <= j < i ==> pairs_view(out@)[j] == pairs_view(pairs@)[j],
        decreases pairs.len() - i,
    {
        let pair = &pairs[i];
        let key = pair.0.clone();
        let value = pair.1.clone();
        let ghost before = out@;
        out.push((key, value));
        assert(forall|j: int| 0 <= j < i ==> out@[j] == before[j]);
        assert(pairs_view(out@)[i as int] == pairs_view(pairs@)[i as int]);
        i += 1;
    }
    assert(pairs_view(out@) =~= pairs_view(pairs@));
    out
}

impl AstNode {
    /// A copy of the node and of everything below it.
    pub fn clone(&self) -> (copy: AstNode)
        ensures
            copy@ == self@,
        decreases self,
    {
        match self {
            AstNode::Program(n) => AstNode::Program(n.clone()),
            AstNode::Identifier(n) => AstNode::Identifier(n.clone()),
            AstNode::IntegerLiteral(n) => AstNode::IntegerLiteral(n.clone()),
            AstNode::PrefixExpression(n) => AstNode::PrefixExpression(n.clone()),
            AstNode::InfixExpression(n) => AstNode::InfixExpression(n.clone()),
            AstNode::Boolean(n) => AstNode::Boolean(n.clone()),
            AstNode::IfExpression(n) => AstNode::IfExpression(n.clone()),
            AstNode::FunctionLiteral(n) => AstNode::FunctionLiteral(n.clone()),
            AstNode::StringLiteral(n) => AstNode::StringLiteral(n.clone()),
            AstNode::ArrayLiteral(n) => AstNode::ArrayLiteral(n.clone()),
            AstNode::DictLiteral(n) => AstNode::DictLiteral(n.clone()),
            AstNode::IndexExpression(n) => AstNode::IndexExpression(n.clone()),
            AstNode::CallExpression(n) => AstNode::CallExpression(n.clone()),
            AstNode::LetStatement(n) => AstNode::LetStatement(n.clone()),
            AstNode::ReturnStatement(n) => AstNode::ReturnStatement(n.clone()),
            AstNode::BlockStatement(n) => AstNode::BlockStatement(n.clone()),
            AstNode::Assignation(n) => AstNode::Assignation(n.clone()),
            AstNode::PostIncrement(n) => AstNode::PostIncrement(n.clone()),
            AstNode::PostDecrement(n) => AstNode::PostDecrement(n.clone()),
            AstNode::Break => AstNode::Break,
        }
    }
}

impl Identifier {
    /// A copy of the node and of everything below it.
    pub fn clone(&self) -> (copy: Identifier)
        ensures
            copy@ == self@,
    {
        Identifier { token: self.token.clone() }
    }
}

impl IntegerLiteral {
    /// A copy of the node and of everything below it.
    pub fn clone(&self) -> (copy: IntegerLiteral)
        ensures
            copy@ == self@,
    {
        IntegerLiteral { token: self.token.clone() }
    }
}

impl Boolean {
    /// A copy of the node and of everything below it.
    pub fn clone(&self) -> (copy: Boolean)
        ensures
            copy@ == self@,
    {
        Boolean { token: self.token.clone() }
    }
}

impl StringLiteral {
    /// A copy of the node and of everything below it.
    pub fn clone(&self) -> (copy: StringLiteral)
        ensures
            copy@ == self@,
    {
        StringLiteral { token: self.token.clone() }
    }
}

impl PostIncrement {
    /// A copy of the node and of everything below it.
    pub fn clone(&self) -> (copy: PostIncrement)
        ensures
            copy@ == self@,
    {
        PostIncrement { token: self.token.clone() }
    }
}

impl PostDecrement {
    /// A copy of the node and of everything below it.
    pub fn clone(&self) -> (copy: PostDecrement)
        ensures
            copy@ == self@,
    {
        PostDecrement { token: self.token.clone() }
    }
}

impl Program {
    /// A copy of the node and of everything below it.
    pub fn clone(&self) -> (copy: Program)
        ensures
            copy@ == self@,
        decreases self,
    {
        Program { statements: clone_nodes(&self.statements) }
    }
}

impl BlockStatement {
    /// A copy of the node and of everything below it.
    pub fn clone(&self) -> (copy: BlockStatement)
        ensures
            copy@ == self@,
        decreases self,
    {
        BlockStatement { token: self.token.clone(), statements: clone_nodes(&self.statements) }
    }
}

impl LetStatement {
    /// A copy of the node and of everything below it.
    pub fn clone(&self) -> (copy: LetStatement)
        ensures
            copy@ == self@,
        decreases self,
    {
        LetStatement {
            token: self.token.clone(),
            name: self.name.clone(),
            value: Box::new((*self.value).clone()),
        }
    }
}

impl ReturnStatement {
    /// A copy of the node and of everything below it.
    pub fn clone(&self) -> (copy: ReturnStatement)
        ensures
            copy@ == self@,
        decreases self,
    {
        ReturnStatement {
            token: self.token.clone(),
            return_value: Box::new((*self.return_value).clone()),
        }
    }
}

impl Assignation {
    /// A copy of the node and of everything below it.
    pub fn clone(&self) -> (copy: Assignation)
        ensures
            copy@ == self@,
        decreases self,
    {
        Assignation {
            token: self.token.clone(),
            name: self.name.clone(),
            value: Box::new((*self.value).clone()),
            operation: self.operation,
        }
    }
}

impl PrefixExpression {
    /// A copy of the node and of everything below it.
    pub fn clone(&self) -> (copy: PrefixExpression)
        ensures
            copy@ == self@,
        decreases self,
    {
        PrefixExpression {
            token: self.token.clone(),
            operator: self.operator.clone(),
            right: Box::new((*self.right).clone()),
        }
    }
}

impl InfixExpression {
    /// A copy of the node and of everything below it.
    pub fn clone(&self) -> (copy: InfixExpression)
        ensures
            copy@ == self@,
        decreases self,
    {
        InfixExpression {
            token: self.token.clone(),
            left: Box::new((*self.left).clone()),
            operator: self.operator.clone(),
            right: Box::new((*self.right).clone()),
        }
    }
}

impl IndexExpression {
    /// A copy of the node and of everything below it.
    pub fn clone(&self) -> (copy: IndexExpression)
        ensures
            copy@ == self@,
        decreases self,
    {
        IndexExpression {
            token: self.token.clone(),
            left: Box::new((*self.left).clone()),
            index: Box::new((*self.index).clone()),
        }
    }
}

impl FunctionLiteral {
    /// A copy of the node and of everything below it.
    pub fn clone(&self) -> (copy: FunctionLiteral)
        ensures
            copy@ == self@,
        decreases self,
    {
        FunctionLiteral {
            token: self.token.clone(),
            parameters: clone_parameters(&self.parameters),
            body: self.body.clone(),
        }
    }
}

impl ArrayLiteral {
    /// A copy of the node and of everything below it.
    pub fn clone(&self) -> (copy: ArrayLiteral)
        ensures
            copy@ == self@,
        decreases self,
    {
        ArrayLiteral { token: self.token.clone(), elements: clone_nodes(&self.elements) }
    }
}

impl CallExpression {
    /// A copy of the node and of everything below it.
    pub fn clone(&self) -> (copy: CallExpression)
        ensures
            copy@ == self@,
        decreases self,
    {
        CallExpression {
            token: self.token.clone(),
            function: Box::new((*self.function).clone()),
            arguments: clone_nodes(&self.arguments),
        }
    }
}

impl IfExpression {
    /// A copy of the node and of everything below it.
    pub fn clone(&self) -> (copy: IfExpression)
        ensures
            copy@ == self@,
        decreases self,
    {
        let alternative = match &self.alternative {
            Some(block) => Some(block.clone()),
            None => None,
        };
        IfExpression {
            token: self.token.clone(),
            condition: Box::new((*self.condition).clone()),
            consequence: self.consequence.clone(),
            elifs: clone_elifs(&self.elifs),
            alternative,
        }
    }
}

impl DictLiteral {
    /// A copy of the node and of everything below it.
    pub fn clone(&self) -> (copy: DictLiteral)
        ensures
            copy@ == self@,
        decreases self,
    {
        DictLiteral { token: self.token.clone(), pairs: clone_pairs(&self.pairs) }
    }
}

} // verus!
