//! Rendering a syntax tree back to text, and the text of the token that
//! introduced a node.

use crate::ast::{
    ast_view, elifs_view, first_literal, nodes_view, pairs_view, parameters_view, render,
    render_all, render_elif, render_elifs, render_list, render_pairs, render_parameters, ArrayLiteral,
    Assignation, AstNode, BlockStatement, Boolean, CallExpression, DictLiteral, FunctionLiteral,
    Identifier, IfExpression, IndexExpression, InfixExpression, IntegerLiteral, LetStatement,
    PostDecrement, PostIncrement, PrefixExpression, Program, ReturnStatement, StringLiteral,
};
use vstd::prelude::*;
use vstd::string::*;

verus! {

/// The texts of the nodes, one after the other.
#[verifier::loop_isolation(false)]
fn render_nodes(nodes: &Vec<AstNode>) -> (out: String)
    ensures
        out@ == render_all(nodes_view(nodes@), nodes.len() as int),
    decreases nodes,
{
    let mut out = String::new();
    let mut i: usize = 0;
    while i < nodes.len()
        invariant
            i <= nodes.len(),
            out@ == render_all(nodes_view(nodes@), i as int),
        decreases nodes.len() - i,
    {
        let text = nodes[i].string();
        out.append(text.as_str());
        i += 1;
    }
    out
}

/// The texts of the nodes, separated by a comma and a space.
#[verifier::loop_isolation(false)]
fn render_node_list(nodes: &Vec<AstNode>) -> (out: String)
    ensures
        out@ == render_list(nodes_view(nodes@), nodes.len() as int),
    decreases nodes,
{
    let mut out = String::new();
    let mut i: usize = 0;
    while i < nodes.len()
        invariant
            i <= nodes.len(),
            out@ == render_list(nodes_view(nodes@), i as int),
        decreases nodes.len() - i,
    {
        if i > 0 {
            out.append(", ");
        }
        let text = nodes[i].string();
        out.append(text.as_str());
        i += 1;
        assert(out@ =~= render_list(nodes_view(nodes@), i as int));
    }
    out
}

/// The names of the parameters, separated by a comma and a space.
pub fn render_parameter_list(parameters: &Vec<Identifier>) -> (out: String)
    ensures
        out@ == render_parameters(parameters_view(parameters@), parameters.len() as int),
{
    let mut out = String::new();
    let mut i: usize = 0;
    while i < parameters.len()
        invariant
            i <= parameters.len(),
            out@ == render_parameters(parameters_view(parameters@), i as int),
        decreases parameters.len() - i,
    {
        if i > 0 {
            out.append(", ");
        }
        let text = parameters[i].token.literal();
        out.append(text.as_str());
        i += 1;
        assert(out@ =~= render_parameters(parameters_view(parameters@), i as int));
    }
    out
}

impl AstNode {
    /// The text that stands for the token that introduced the node.
    pub fn token_literal(&self) -> (out: String)
        ensures
            out@ == first_literal(self@),
        decreases self,
    {
        match self {
            AstNode::Program(n) => n.token_literal(),
            AstNode::Identifier(n) => n.token_literal(),
            AstNode::IntegerLiteral(n) => n.token_literal(),
            AstNode::PrefixExpression(n) => n.token_literal(),
            AstNode::InfixExpression(n) => n.token_literal(),
            AstNode::Boolean(n) => n.token_literal(),
            AstNode::IfExpression(n) => n.token_literal(),
            AstNode::FunctionLiteral(n) => n.token_literal(),
            AstNode::StringLiteral(n) => n.token_literal(),
            AstNode::ArrayLiteral(n) => n.token_literal(),
            AstNode::DictLiteral(n) => n.token_literal(),
            AstNode::IndexExpression(n) => n.token_literal(),
            AstNode::CallExpression(n) => n.token_literal(),
            AstNode::LetStatement(n) => n.token_literal(),
            AstNode::ReturnStatement(n) => n.token_literal(),
            AstNode::BlockStatement(n) => n.token_literal(),
            AstNode::Assignation(n) => n.token_literal(),
            AstNode::PostIncrement(n) => n.token_literal(),
            AstNode::PostDecrement(n) => n.token_literal(),
            AstNode::Break => String::from_str("break"),
        }
    }

    /// The text of the node: an approximation of the source it was parsed
    /// from, with every prefix, infix and index expression in parentheses.
    pub fn string(&self) -> (out: String)
        ensures
            out@ == render(self@),
        decreases self,
    {
        match self {
            AstNode::Program(n) => n.string(),
            AstNode::Identifier(n) => n.string(),
            AstNode::IntegerLiteral(n) => n.string(),
            AstNode::PrefixExpression(n) => n.string(),
            AstNode::InfixExpression(n) => n.string(),
            AstNode::Boolean(n) => n.string(),
            AstNode::IfExpression(n) => n.string(),
            AstNode::FunctionLiteral(n) => n.string(),
            AstNode::StringLiteral(n) => n.string(),
            AstNode::ArrayLiteral(n) => n.string(),
            AstNode::DictLiteral(n) => n.string(),
            AstNode::IndexExpression(n) => n.string(),
            AstNode::CallExpression(n) => n.string(),
            AstNode::LetStatement(n) => n.string(),
            AstNode::ReturnStatement(n) => n.string(),
            AstNode::BlockStatement(n) => n.string(),
            AstNode::Assignation(n) => n.string(),
            AstNode::PostIncrement(n) => n.string(),
            AstNode::PostDecrement(n) => n.string(),
            AstNode::Break => String::from_str("break"),
        }
    }
}

impl Program {
    /// The text of the token that introduced the first statement, or
    /// nothing for an empty program.
    pub fn token_literal(&self) -> (out: String)
        ensures
            out@ == first_literal(self@),
        decreases self,
    {
        if self.statements.len() > 0 {
            assert(nodes_view(self.statements@)[0] == ast_view(self.statements@[0]));
            self.statements[0].token_literal()
        } else {
            String::new()
        }
    }

    /// The texts of the statements, one after the other.
    pub fn string(&self) -> (out: String)
        ensures
            out@ == render(self@),
        decreases self,
    {
        render_nodes(&self.statements)
    }
}

impl BlockStatement {
    /// The text of the token that opened the block.
    pub fn token_literal(&self) -> (out: String)
        ensures
            out@ == self@.token.literal(),
    {
        self.token.literal()
    }

    /// The texts of the statements, one after the other.
    pub fn string(&self) -> (out: String)
        ensures
            out@ == self@.string(),
        decreases self,
    {
        render_nodes(&self.statements)
    }
}

impl Identifier {
    /// The name.
    pub fn token_literal(&self) -> (out: String)
        ensures
            out@ == first_literal(self@),
    {
        self.token.literal()
    }

    /// The name.
    pub fn string(&self) -> (out: String)
        ensures
            out@ == render(self@),
    {
        self.token.literal()
    }
}
impl IntegerLiteral {
    /// The decimal form of the number.
    pub fn token_literal(&self) -> (out: String)
        ensures
            out@ == first_literal(self@),
    {
        self.token.literal()
    }

    /// The decimal form of the number.
    pub fn string(&self) -> (out: String)
        ensures
            out@ == render(self@),
    {
        self.token.literal()
    }
}
impl Boolean {
    /// `true` or `false`.
    pub fn token_literal(&self) -> (out: String)
        ensures
            out@ == first_literal(self@),
    {
        self.token.literal()
    }

    /// `true` or `false`.
    pub fn string(&self) -> (out: String)
        ensures
            out@ == render(self@),
    {
        self.token.literal()
    }
}
impl StringLiteral {
    /// The characters of the string.
    pub fn token_literal(&self) -> (out: String)
        ensures
            out@ == first_literal(self@),
    {
        self.token.literal()
    }

    /// The characters of the string.
    pub fn string(&self) -> (out: String)
        ensures
            out@ == render(self@),
    {
        self.token.literal()
    }
}
impl PostIncrement {
    /// The name that is incremented.
    pub fn token_literal(&self) -> (out: String)
        ensures
            out@ == first_literal(self@),
    {
        self.token.literal()
    }

    /// The name that is incremented.
    pub fn string(&self) -> (out: String)
        ensures
            out@ == render(self@),
    {
        self.token.literal()
    }
}
impl PostDecrement {
    /// The name that is decremented.
    pub fn token_literal(&self) -> (out: String)
        ensures
            out@ == first_literal(self@),
    {
        self.token.literal()
    }

    /// The name that is decremented.
    pub fn string(&self) -> (out: String)
        ensures
            out@ == render(self@),
    {
        self.token.literal()
    }
}
impl PrefixExpression {
    /// The text of the token that introduced the node.
    pub fn token_literal(&self) -> (out: String)
        ensures
            out@ == first_literal(self@),
    {
        self.token.literal()
    }

    /// `(<operator><right>)`.
    pub fn string(&self) -> (out: String)
        ensures
            out@ == render(self@),
        decreases self,
    {
        let right = self.right.string();
        let mut out = String::from_str("(");
        out.append(self.operator.as_str());
        out.append(right.as_str());
        out.append(")");
        out
    }
}

impl InfixExpression {
    /// The text of the token that introduced the node.
    pub fn token_literal(&self) -> (out: String)
        ensures
            out@ == first_literal(self@),
    {
        self.token.literal()
    }

    /// `(<left> <operator> <right>)`.
    pub fn string(&self) -> (out: String)
        ensures
            out@ == render(self@),
        decreases self,
    {
        let left = self.left.string();
        let right = self.right.string();
        let mut out = String::from_str("(");
        out.append(left.as_str());
        out.append(" ");
        out.append(self.operator.as_str());
        out.append(" ");
        out.append(right.as_str());
        out.append(")");
        out
    }
}

impl IfExpression {
    /// The text of the token that introduced the node.
    pub fn token_literal(&self) -> (out: String)
        ensures
            out@ == first_literal(self@),
    {
        self.token.literal()
    }

    /// `if<condition> <consequence>`, then ` elif <condition> <block>` for
    /// each further branch, then ` else <block>` where there is one.
    #[verifier::loop_isolation(false)]
    pub fn string(&self) -> (out: String)
        ensures
            out@ == render(self@),
        decreases self,
    {
        let condition = self.condition.string();
        let consequence = self.consequence.string();
        let mut out = String::from_str("if");
        out.append(condition.as_str());
        out.append(" ");
        out.append(consequence.as_str());
        let ghost head = out@;
        let mut i: usize = 0;
        while i < self.elifs.len()
            invariant
                i <= self.elifs.len(),
                out@ == head + render_elifs(elifs_view(self.elifs@), i as int),
            decreases self.elifs.len() - i,
        {
            let branch = &self.elifs[i];
            let condition = branch.0.string();
            let block = branch.1.string();
            let mut piece = String::from_str(" elif ");
            piece.append(condition.as_str());
            piece.append(" ");
            piece.append(block.as_str());
            assert(piece@ == render_elif(elifs_view(self.elifs@)[i as int]));
            let ghost before = render_elifs(elifs_view(self.elifs@), i as int);
            out.append(piece.as_str());
            i += 1;
            assert(out@ =~= head + (before + piece@));
        }
        match &self.alternative {
            Some(alternative) => {
                let block = alternative.string();
                let mut tail = String::from_str(" else ");
                tail.append(block.as_str());
                out.append(tail.as_str());
            },
            None => {
                assert(out@ =~= out@ + Seq::<char>::empty());
            },
        }
        out
    }
}

impl IndexExpression {
    /// The text of the token that introduced the node.
    pub fn token_literal(&self) -> (out: String)
        ensures
            out@ == first_literal(self@),
    {
        self.token.literal()
    }

    /// `(<left>[<index>])`.
    pub fn string(&self) -> (out: String)
        ensures
            out@ == render(self@),
        decreases self,
    {
        let left = self.left.string();
        let index = self.index.string();
        let mut out = String::from_str("(");
        out.append(left.as_str());
        out.append("[");
        out.append(index.as_str());
        out.append("])");
        out
    }
}

impl FunctionLiteral {
    /// The text of the token that introduced the node.
    pub fn token_literal(&self) -> (out: String)
        ensures
            out@ == first_literal(self@),
    {
        self.token.literal()
    }

    /// `<token>(<parameters>) {<body>}`.
    pub fn string(&self) -> (out: String)
        ensures
            out@ == render(self@),
        decreases self,
    {
        let parameters = render_parameter_list(&self.parameters);
        let body = self.body.string();
        let mut out = self.token.literal();
        out.append("(");
        out.append(parameters.as_str());
        out.append(") {");
        out.append(body.as_str());
        out.append("}");
        out
    }
}

impl ArrayLiteral {
    /// The text of the token that introduced the node.
    pub fn token_literal(&self) -> (out: String)
        ensures
            out@ == first_literal(self@),
    {
        self.token.literal()
    }

    /// `[<element>, ..]`.
    pub fn string(&self) -> (out: String)
        ensures
            out@ == render(self@),
        decreases self,
    {
        let elements = render_node_list(&self.elements);
        let mut out = String::from_str("[");
        out.append(elements.as_str());
        out.append("]");
        out
    }
}

impl DictLiteral {
    /// The text of the token that introduced the node.
    pub fn token_literal(&self) -> (out: String)
        ensures
            out@ == first_literal(self@),
    {
        self.token.literal()
    }

    /// `{<key>: <value>, ..}`.
    #[verifier::loop_isolation(false)]
    pub fn string(&self) -> (out: String)
        ensures
            out@ == render(self@),
        decreases self,
    {
        let mut out = String::from_str("{");
        let mut i: usize = 0;
        while i < self.pairs.len()
            invariant
                i <= self.pairs.len(),
                out@ == "{"@ + render_pairs(pairs_view(self.pairs@), i as int),
            decreases self.pairs.len() - i,
        {
            if i > 0 {
                out.append(", ");
            }
            let pair = &self.pairs[i];
            let key = pair.0.string();
            let value = pair.1.string();
            out.append(key.as_str());
            out.append(": ");
            out.append(value.as_str());
            i += 1;
            assert(out@ =~= "{"@ + render_pairs(pairs_view(self.pairs@), i as int));
        }
        out.append("}");
        out
    }
}

impl CallExpression {
    /// The text of the token that introduced the node.
    pub fn token_literal(&self) -> (out: String)
        ensures
            out@ == first_literal(self@),
    {
        self.token.literal()
    }

    /// `<function>(<argument>, ..)`.
    pub fn string(&self) -> (out: String)
        ensures
            out@ == render(self@),
        decreases self,
    {
        let arguments = render_node_list(&self.arguments);
        let mut out = self.function.string();
        out.append("(");
        out.append(arguments.as_str());
        out.append(")");
        out
    }
}

impl LetStatement {
    /// The text of the token that introduced the node.
    pub fn token_literal(&self) -> (out: String)
        ensures
            out@ == first_literal(self@),
    {
        self.token.literal()
    }

    /// `let <name> = <value>;`.
    pub fn string(&self) -> (out: String)
        ensures
            out@ == render(self@),
        decreases self,
    {
        let name = self.name.string();
        let value = self.value.string();
        let mut out = String::from_str("let ");
        out.append(name.as_str());
        out.append(" = ");
        out.append(value.as_str());
        out.append(";");
        out
    }
}

impl ReturnStatement {
    /// The text of the token that introduced the node.
    pub fn token_literal(&self) -> (out: String)
        ensures
            out@ == first_literal(self@),
    {
        self.token.literal()
    }

    /// `return <value>;`.
    pub fn string(&self) -> (out: String)
        ensures
            out@ == render(self@),
        decreases self,
    {
        let value = self.return_value.string();
        let mut out = String::from_str("return ");
        out.append(value.as_str());
        out.append(";");
        out
    }
}

impl Assignation {
    /// The text of the token that introduced the node.
    pub fn token_literal(&self) -> (out: String)
        ensures
            out@ == first_literal(self@),
    {
        self.token.literal()
    }

    /// `<name> = <value>;`, whatever the compound form.
    pub fn string(&self) -> (out: String)
        ensures
            out@ == render(self@),
        decreases self,
    {
        let name = self.name.string();
        let value = self.value.string();
        let mut out = name;
        out.append(" = ");
        out.append(value.as_str());
        out.append(";");
        out
    }
}

} // verus!
