//! The abstract syntax tree: one sum type over every expression and
//! statement, and the rendering of a tree back to text.
//!
//! Each node has a mathematical model, [`Ast`], in which vectors are
//! sequences and strings are sequences of characters. What the rendering
//! returns is stated over that model by [`Ast::string`].

pub use crate::traits::Node;
use crate::token::{Token, TokenView};
use vstd::prelude::*;
use vstd::string::*;

verus! {

/// The compound form that an assignment was written in.
#[derive(Clone, Copy, Debug, PartialEq, Eq, Structural, Hash)]
pub enum Operation {
    Sum,
    Minus,
    Mult,
    Divide,
    Assig,
}

/// A node of the syntax tree.
#[derive(Debug, PartialEq, Eq, Hash)]
pub enum AstNode {
    Program(Program),
    Identifier(Identifier),
    IntegerLiteral(IntegerLiteral),
    PrefixExpression(PrefixExpression),
    InfixExpression(InfixExpression),
    Boolean(Boolean),
    IfExpression(IfExpression),
    FunctionLiteral(FunctionLiteral),
    StringLiteral(StringLiteral),
    ArrayLiteral(ArrayLiteral),
    DictLiteral(DictLiteral),
    IndexExpression(IndexExpression),
    CallExpression(CallExpression),
    LetStatement(LetStatement),
    ReturnStatement(ReturnStatement),
    BlockStatement(BlockStatement),
    Assignation(Assignation),
    PostIncrement(PostIncrement),
    PostDecrement(PostDecrement),
    Break,
}

/// A whole program: its statements in order.
#[derive(Debug, PartialEq, Eq, Hash)]
pub struct Program {
    pub statements: Vec<AstNode>,
}

/// `let <name> = <value>;`
#[derive(Debug, PartialEq, Eq, Hash)]
pub struct LetStatement {
    pub token: Token,
    pub name: Identifier,
    pub value: Box<AstNode>,
}

/// `return <value>;`
#[derive(Debug, PartialEq, Eq, Hash)]
pub struct ReturnStatement {
    pub token: Token,
    pub return_value: Box<AstNode>,
}

/// The statements between `{` and `}`.
#[derive(Debug, PartialEq, Eq, Hash)]
pub struct BlockStatement {
    pub token: Token,
    pub statements: Vec<AstNode>,
}

/// `<name> = <value>;` and its compound forms.
#[derive(Debug, PartialEq, Eq, Hash)]
pub struct Assignation {
    pub token: Token,
    pub name: Identifier,
    pub value: Box<AstNode>,
    pub operation: Operation,
}

/// `not <right>` or `-<right>`.
#[derive(Debug, PartialEq, Eq, Hash)]
pub struct PrefixExpression {
    pub token: Token,
    pub operator: String,
    pub right: Box<AstNode>,
}

/// `<left> <operator> <right>`.
#[derive(Debug, PartialEq, Eq, Hash)]
pub struct InfixExpression {
    pub token: Token,
    pub left: Box<AstNode>,
    pub operator: String,
    pub right: Box<AstNode>,
}

/// `if (..) {..} elif (..) {..} else {..}`.
#[derive(Debug, PartialEq, Eq, Hash)]
pub struct IfExpression {
    pub token: Token,
    pub condition: Box<AstNode>,
    pub consequence: BlockStatement,
    pub elifs: Vec<(AstNode, BlockStatement)>,
    pub alternative: Option<BlockStatement>,
}

/// `<left>[<index>]`.
#[derive(Debug, PartialEq, Eq, Hash)]
pub struct IndexExpression {
    pub token: Token,
    pub left: Box<AstNode>,
    pub index: Box<AstNode>,
}

/// A name.
#[derive(Debug, PartialEq, Eq, Hash)]
pub struct Identifier {
    pub token: Token,
}

/// An integer literal.
#[derive(Debug, PartialEq, Eq, Hash)]
pub struct IntegerLiteral {
    pub token: Token,
}

/// `true` or `false`.
#[derive(Debug, PartialEq, Eq, Hash)]
pub struct Boolean {
    pub token: Token,
}

/// A string literal.
#[derive(Debug, PartialEq, Eq, Hash)]
pub struct StringLiteral {
    pub token: Token,
}

/// `fun (<parameters>) { <body> }`.
#[derive(Debug, PartialEq, Eq, Hash)]
pub struct FunctionLiteral {
    pub token: Token,
    pub parameters: Vec<Identifier>,
    pub body: BlockStatement,
}

/// `[<element>, ..]`.
#[derive(Debug, PartialEq, Eq, Hash)]
pub struct ArrayLiteral {
    pub token: Token,
    pub elements: Vec<AstNode>,
}

/// `{<key>: <value>, ..}`: the pairs in the order in which their keys first
/// occur, no key twice.
#[derive(Debug, PartialEq, Eq, Hash)]
pub struct DictLiteral {
    pub token: Token,
    pub pairs: Vec<(AstNode, AstNode)>,
}

/// `<function>(<argument>, ..)`.
#[derive(Debug, PartialEq, Eq, Hash)]
pub struct CallExpression {
    pub token: Token,
    pub function: Box<AstNode>,
    pub arguments: Vec<AstNode>,
}

/// `<name>++`.
#[derive(Debug, PartialEq, Eq, Hash)]
pub struct PostIncrement {
    pub token: Token,
}

/// `<name>--`.
#[derive(Debug, PartialEq, Eq, Hash)]
pub struct PostDecrement {
    pub token: Token,
}

/// The model of a block: its opening token and its statements.
pub struct Block {
    pub token: TokenView,
    pub statements: Seq<Ast>,
}

/// The model of a node of the syntax tree.
pub enum Ast {
    Program { statements: Seq<Ast> },
    Identifier { token: TokenView },
    IntegerLiteral { token: TokenView },
    PrefixExpression { token: TokenView, operator: Seq<char>, right: Box<Ast> },
    InfixExpression { token: TokenView, left: Box<Ast>, operator: Seq<char>, right: Box<Ast> },
    Boolean { token: TokenView },
    IfExpression {
        token: TokenView,
        condition: Box<Ast>,
        consequence: Block,
        elifs: Seq<(Ast, Block)>,
        alternative: Option<Block>,
    },
    FunctionLiteral { token: TokenView, parameters: Seq<TokenView>, body: Block },
    StringLiteral { token: TokenView },
    ArrayLiteral { token: TokenView, elements: Seq<Ast> },
    DictLiteral { token: TokenView, pairs: Seq<(Ast, Ast)> },
    IndexExpression { token: TokenView, left: Box<Ast>, index: Box<Ast> },
    CallExpression { token: TokenView, function: Box<Ast>, arguments: Seq<Ast> },
    LetStatement { token: TokenView, name: TokenView, value: Box<Ast> },
    ReturnStatement { token: TokenView, return_value: Box<Ast> },
    BlockStatement { block: Block },
    Assignation { token: TokenView, name: TokenView, value: Box<Ast>, operation: Operation },
    PostIncrement { token: TokenView },
    PostDecrement { token: TokenView },
    Break,
}

/// The model of a node.
pub open spec fn ast_view(node: AstNode) -> Ast
    decreases node,
{
    match node {
        AstNode::Program(n) => Ast::Program { statements: nodes_view(n.statements@) },
        AstNode::Identifier(n) => Ast::Identifier { token: n.token@ },
        AstNode::IntegerLiteral(n) => Ast::IntegerLiteral { token: n.token@ },
        AstNode::PrefixExpression(n) => Ast::PrefixExpression {
            token: n.token@,
            operator: n.operator@,
            right: Box::new(ast_view(*n.right)),
        },
        AstNode::InfixExpression(n) => Ast::InfixExpression {
            token: n.token@,
            left: Box::new(ast_view(*n.left)),
            operator: n.operator@,
            right: Box::new(ast_view(*n.right)),
        },
        AstNode::Boolean(n) => Ast::Boolean { token: n.token@ },
        AstNode::IfExpression(n) => Ast::IfExpression {
            token: n.token@,
            condition: Box::new(ast_view(*n.condition)),
            consequence: Block {
                token: n.consequence.token@,
                statements: nodes_view(n.consequence.statements@),
            },
            elifs: elifs_view(n.elifs@),
            alternative: match n.alternative {
                Some(block) => Some(
                    Block { token: block.token@, statements: nodes_view(block.statements@) },
                ),
                None => None,
            },
        },
        AstNode::FunctionLiteral(n) => Ast::FunctionLiteral {
            token: n.token@,
            parameters: parameters_view(n.parameters@),
            body: Block { token: n.body.token@, statements: nodes_view(n.body.statements@) },
        },
        AstNode::StringLiteral(n) => Ast::StringLiteral { token: n.token@ },
        AstNode::ArrayLiteral(n) => Ast::ArrayLiteral {
            token: n.token@,
            elements: nodes_view(n.elements@),
        },
        AstNode::DictLiteral(n) => Ast::DictLiteral { token: n.token@, pairs: pairs_view(n.pairs@) },
        AstNode::IndexExpression(n) => Ast::IndexExpression {
            token: n.token@,
            left: Box::new(ast_view(*n.left)),
            index: Box::new(ast_view(*n.index)),
        },
        AstNode::CallExpression(n) => Ast::CallExpression {
            token: n.token@,
            function: Box::new(ast_view(*n.function)),
            arguments: nodes_view(n.arguments@),
        },
        AstNode::LetStatement(n) => Ast::LetStatement {
            token: n.token@,
            name: n.name.token@,
            value: Box::new(ast_view(*n.value)),
        },
        AstNode::ReturnStatement(n) => Ast::ReturnStatement {
            token: n.token@,
            return_value: Box::new(ast_view(*n.return_value)),
        },
        AstNode::BlockStatement(n) => Ast::BlockStatement {
            block: Block { token: n.token@, statements: nodes_view(n.statements@) },
        },
        AstNode::Assignation(n) => Ast::Assignation {
            token: n.token@,
            name: n.name.token@,
            value: Box::new(ast_view(*n.value)),
            operation: n.operation,
        },
        AstNode::PostIncrement(n) => Ast::PostIncrement { token: n.token@ },
        AstNode::PostDecrement(n) => Ast::PostDecrement { token: n.token@ },
        AstNode::Break => Ast::Break,
    }
}

/// The model of a block.
pub open spec fn block_view(block: BlockStatement) -> Block {
    Block { token: block.token@, statements: nodes_view(block.statements@) }
}

/// The models of a sequence of nodes.
pub open spec fn nodes_view(nodes: Seq<AstNode>) -> Seq<Ast>
    decreases nodes,
{
    Seq::new(
        nodes.len(),
        |i: int|
            if 0 <= i < nodes.len() {
                ast_view(nodes[i])
            } else {
                Ast::Break
            },
    )
}

/// The models of the branches of an `if` that follow the first.
pub open spec fn elifs_view(elifs: Seq<(AstNode, BlockStatement)>) -> Seq<(Ast, Block)>
    decreases elifs,
{
    Seq::new(
        elifs.len(),
        |i: int|
            if 0 <= i < elifs.len() {
                (
                    ast_view(elifs[i].0),
                    Block {
                        token: elifs[i].1.token@,
                        statements: nodes_view(elifs[i].1.statements@),
                    },
                )
            } else {
                (Ast::Break, Block { token: arbitrary(), statements: Seq::empty() })
            },
    )
}

/// The models of the pairs of a dictionary literal.
pub open spec fn pairs_view(pairs: Seq<(AstNode, AstNode)>) -> Seq<(Ast, Ast)>
    decreases pairs,
{
    Seq::new(
        pairs.len(),
        |i: int|
            if 0 <= i < pairs.len() {
                (ast_view(pairs[i].0), ast_view(pairs[i].1))
            } else {
                (Ast::Break, Ast::Break)
            },
    )
}

/// The tokens of a list of parameters.
pub open spec fn parameters_view(parameters: Seq<Identifier>) -> Seq<TokenView> {
    Seq::new(parameters.len(), |i: int| parameters[i].token@)
}

/// The texts of the first `n` nodes, one after the other.
pub open spec fn render_all(nodes: Seq<Ast>, n: int) -> Seq<char>
    decreases nodes, n,
{
    if n <= 0 || n > nodes.len() {
        Seq::empty()
    } else {
        render_all(nodes, n - 1) + render(nodes[n - 1])
    }
}

/// The texts of the first `n` nodes, separated by a comma and a space.
pub open spec fn render_list(nodes: Seq<Ast>, n: int) -> Seq<char>
    decreases nodes, n,
{
    if n <= 0 || n > nodes.len() {
        Seq::empty()
    } else if n == 1 {
        render(nodes[0])
    } else {
        render_list(nodes, n - 1) + ", "@ + render(nodes[n - 1])
    }
}

/// The text of a branch of an `if` that follows the first:
/// ` elif <condition> <block>`.
pub open spec fn render_elif(branch: (Ast, Block)) -> Seq<char>
    decreases branch, 0int,
{
    " elif "@ + render(branch.0) + " "@ + render_all(
        branch.1.statements,
        branch.1.statements.len() as int,
    )
}

/// The texts of the first `n` branches that follow the first branch of an
/// `if`.
pub open spec fn render_elifs(elifs: Seq<(Ast, Block)>, n: int) -> Seq<char>
    decreases elifs, n,
{
    if n <= 0 || n > elifs.len() {
        Seq::empty()
    } else {
        render_elifs(elifs, n - 1) + render_elif(elifs[n - 1])
    }
}

/// The texts of the first `n` pairs of a dictionary literal, each as
/// `key: value`, separated by a comma and a space.
pub open spec fn render_pairs(pairs: Seq<(Ast, Ast)>, n: int) -> Seq<char>
    decreases pairs, n,
{
    if n <= 0 || n > pairs.len() {
        Seq::empty()
    } else if n == 1 {
        render(pairs[0].0) + ": "@ + render(pairs[0].1)
    } else {
        render_pairs(pairs, n - 1) + ", "@ + render(pairs[n - 1].0) + ": "@ + render(pairs[n - 1].1)
    }
}

/// The names of the first `n` parameters, separated by a comma and a space.
pub open spec fn render_parameters(parameters: Seq<TokenView>, n: int) -> Seq<char>
    decreases n,
{
    if n <= 0 || n > parameters.len() {
        Seq::empty()
    } else if n == 1 {
        parameters[0].literal()
    } else {
        render_parameters(parameters, n - 1) + ", "@ + parameters[n - 1].literal()
    }
}

/// The text of a node: an approximation of the source it was parsed from,
/// with every prefix, infix and index expression in parentheses.
pub open spec fn render(node: Ast) -> Seq<char>
    decreases node, 0int,
{
    match node {
        Ast::Program { statements } => render_all(statements, statements.len() as int),
        Ast::Identifier { token } => token.literal(),
        Ast::IntegerLiteral { token } => token.literal(),
        Ast::PrefixExpression { token, operator, right } => "("@ + operator + render(*right)
            + ")"@,
        Ast::InfixExpression { token, left, operator, right } => "("@ + render(*left) + " "@
            + operator + " "@ + render(*right) + ")"@,
        Ast::Boolean { token } => token.literal(),
        Ast::IfExpression { token, condition, consequence, elifs, alternative } => "if"@ + render(
            *condition,
        ) + " "@ + render_all(consequence.statements, consequence.statements.len() as int)
            + render_elifs(elifs, elifs.len() as int) + (match alternative {
            Some(block) => " else "@ + render_all(block.statements, block.statements.len() as int),
            None => Seq::empty(),
        }),
        Ast::FunctionLiteral { token, parameters, body } => token.literal() + "("@
            + render_parameters(parameters, parameters.len() as int) + ") {"@ + render_all(
            body.statements,
            body.statements.len() as int,
        ) + "}"@,
        Ast::StringLiteral { token } => token.literal(),
        Ast::ArrayLiteral { token, elements } => "["@ + render_list(
            elements,
            elements.len() as int,
        ) + "]"@,
        Ast::DictLiteral { token, pairs } => "{"@ + render_pairs(pairs, pairs.len() as int) + "}"@,
        Ast::IndexExpression { token, left, index } => "("@ + render(*left) + "["@ + render(
            *index,
        ) + "])"@,
        Ast::CallExpression { token, function, arguments } => render(*function) + "("@
            + render_list(arguments, arguments.len() as int) + ")"@,
        Ast::LetStatement { token, name, value } => "let "@ + name.literal() + " = "@ + render(
            *value,
        ) + ";"@,
        Ast::ReturnStatement { token, return_value } => "return "@ + render(*return_value) + ";"@,
        Ast::BlockStatement { block } => render_all(
            block.statements,
            block.statements.len() as int,
        ),
        Ast::Assignation { token, name, value, operation } => name.literal() + " = "@ + render(
            *value,
        ) + ";"@,
        Ast::PostIncrement { token } => token.literal(),
        Ast::PostDecrement { token } => token.literal(),
        Ast::Break => "break"@,
    }
}

/// The text that stands for the token that introduced a node: the text of
/// its first statement for a program (nothing where it has none), `break`
/// for a break, and the text of its own token for every other node.
pub open spec fn first_literal(node: Ast) -> Seq<char>
    decreases node,
{
    match node {
        Ast::Program { statements } => if statements.len() > 0 {
            first_literal(statements[0])
        } else {
            Seq::empty()
        },
        Ast::Identifier { token } => token.literal(),
        Ast::IntegerLiteral { token } => token.literal(),
        Ast::PrefixExpression { token, operator, right } => token.literal(),
        Ast::InfixExpression { token, left, operator, right } => token.literal(),
        Ast::Boolean { token } => token.literal(),
        Ast::IfExpression { token, condition, consequence, elifs, alternative } => token.literal(),
        Ast::FunctionLiteral { token, parameters, body } => token.literal(),
        Ast::StringLiteral { token } => token.literal(),
        Ast::ArrayLiteral { token, elements } => token.literal(),
        Ast::DictLiteral { token, pairs } => token.literal(),
        Ast::IndexExpression { token, left, index } => token.literal(),
        Ast::CallExpression { token, function, arguments } => token.literal(),
        Ast::LetStatement { token, name, value } => token.literal(),
        Ast::ReturnStatement { token, return_value } => token.literal(),
        Ast::BlockStatement { block } => block.token.literal(),
        Ast::Assignation { token, name, value, operation } => token.literal(),
        Ast::PostIncrement { token } => token.literal(),
        Ast::PostDecrement { token } => token.literal(),
        Ast::Break => "break"@,
    }
}

impl Ast {
    /// The text of the node: see [`render`].
    pub open spec fn string(self) -> Seq<char> {
        render(self)
    }
}

impl Block {
    /// The texts of the statements of the block, one after the other.
    pub open spec fn string(self) -> Seq<char> {
        render_all(self.statements, self.statements.len() as int)
    }
}

impl View for AstNode {
    type V = Ast;

    open spec fn view(&self) -> Ast {
        ast_view(*self)
    }
}

impl View for BlockStatement {
    type V = Block;

    open spec fn view(&self) -> Block {
        block_view(*self)
    }
}

impl View for Program {
    type V = Ast;

    open spec fn view(&self) -> Ast {
        ast_view(AstNode::Program(*self))
    }
}

impl View for LetStatement {
    type V = Ast;

    open spec fn view(&self) -> Ast {
        ast_view(AstNode::LetStatement(*self))
    }
}

impl View for ReturnStatement {
    type V = Ast;

    open spec fn view(&self) -> Ast {
        ast_view(AstNode::ReturnStatement(*self))
    }
}

impl View for Assignation {
    type V = Ast;

    open spec fn view(&self) -> Ast {
        ast_view(AstNode::Assignation(*self))
    }
}

impl View for PrefixExpression {
    type V = Ast;

    open spec fn view(&self) -> Ast {
        ast_view(AstNode::PrefixExpression(*self))
    }
}

impl View for InfixExpression {
    type V = Ast;

    open spec fn view(&self) -> Ast {
        ast_view(AstNode::InfixExpression(*self))
    }
}

impl View for IfExpression {
    type V = Ast;

    open spec fn view(&self) -> Ast {
        ast_view(AstNode::IfExpression(*self))
    }
}

impl View for IndexExpression {
    type V = Ast;

    open spec fn view(&self) -> Ast {
        ast_view(AstNode::IndexExpression(*self))
    }
}

impl View for Identifier {
    type V = Ast;

    open spec fn view(&self) -> Ast {
        ast_view(AstNode::Identifier(*self))
    }
}

impl View for IntegerLiteral {
    type V = Ast;

    open spec fn view(&self) -> Ast {
        ast_view(AstNode::IntegerLiteral(*self))
    }
}

impl View for Boolean {
    type V = Ast;

    open spec fn view(&self) -> Ast {
        ast_view(AstNode::Boolean(*self))
    }
}

impl View for FunctionLiteral {
    type V = Ast;

    open spec fn view(&self) -> Ast {
        ast_view(AstNode::FunctionLiteral(*self))
    }
}

impl View for StringLiteral {
    type V = Ast;

    open spec fn view(&self) -> Ast {
        ast_view(AstNode::StringLiteral(*self))
    }
}

impl View for ArrayLiteral {
    type V = Ast;

    open spec fn view(&self) -> Ast {
        ast_view(AstNode::ArrayLiteral(*self))
    }
}

impl View for DictLiteral {
    type V = Ast;

    open spec fn view(&self) -> Ast {
        ast_view(AstNode::DictLiteral(*self))
    }
}

impl View for CallExpression {
    type V = Ast;

    open spec fn view(&self) -> Ast {
        ast_view(AstNode::CallExpression(*self))
    }
}

impl View for PostIncrement {
    type V = Ast;

    open spec fn view(&self) -> Ast {
        ast_view(AstNode::PostIncrement(*self))
    }
}

impl View for PostDecrement {
    type V = Ast;

    open spec fn view(&self) -> Ast {
        ast_view(AstNode::PostDecrement(*self))
    }
}

} // verus!
