//! The two interfaces that every node of the syntax tree and every value
//! share.

use crate::ast::{
    first_literal, render, ArrayLiteral, Assignation, AstNode, BlockStatement, Boolean,
    CallExpression, DictLiteral, FunctionLiteral, Identifier, IfExpression, IndexExpression,
    InfixExpression, IntegerLiteral, LetStatement, PostDecrement, PostIncrement,
    PrefixExpression, Program, ReturnStatement, StringLiteral,
};
use crate::object;
use crate::object::{
    inspect, type_tag, Array, Builtin, Dict, Error, Function, Integer, Null, ObjectType,
    ReturnValue, StringObject,
};
use vstd::prelude::*;

verus! {

/// What every node of the syntax tree offers: the text of the token that
/// introduced it, and its own text.
pub trait Node {
    /// The text that `token_literal` returns.
    spec fn literal_text(&self) -> Seq<char>;

    /// The text that `string` returns.
    spec fn node_text(&self) -> Seq<char>;

    /// The text that stands for the token that introduced the node.
    fn token_literal(&self) -> (out: String)
        ensures
            out@ == self.literal_text(),
    ;

    /// The text of the node.
    fn string(&self) -> (out: String)
        ensures
            out@ == self.node_text(),
    ;
}

/// What every value offers: its type tag and its printed form.
pub trait Object {
    /// The text that `object_type` returns.
    spec fn tag_model(&self) -> Seq<char>;

    /// The text that `inspect` returns.
    spec fn printed(&self) -> Seq<char>;

    /// The type tag of the value.
    fn object_type(&self) -> (out: String)
        ensures
            out@ == self.tag_model(),
    ;

    /// The printed form of the value.
    fn inspect(&self) -> (out: String)
        ensures
            out@ == self.printed(),
    ;
}

impl Node for AstNode {
    open spec fn literal_text(&self) -> Seq<char> {
        first_literal(self@)
    }

    open spec fn node_text(&self) -> Seq<char> {
        render(self@)
    }

    fn token_literal(&self) -> (out: String) {
        AstNode::token_literal(self)
    }

    fn string(&self) -> (out: String) {
        AstNode::string(self)
    }
}

impl Node for Program {
    open spec fn literal_text(&self) -> Seq<char> {
        first_literal(self@)
    }

    open spec fn node_text(&self) -> Seq<char> {
        render(self@)
    }

    fn token_literal(&self) -> (out: String) {
        Program::token_literal(self)
    }

    fn string(&self) -> (out: String) {
        Program::string(self)
    }
}

impl Node for LetStatement {
    open spec fn literal_text(&self) -> Seq<char> {
        first_literal(self@)
    }

    open spec fn node_text(&self) -> Seq<char> {
        render(self@)
    }

    fn token_literal(&self) -> (out: String) {
        LetStatement::token_literal(self)
    }

    fn string(&self) -> (out: String) {
        LetStatement::string(self)
    }
}

impl Node for ReturnStatement {
    open spec fn literal_text(&self) -> Seq<char> {
        first_literal(self@)
    }

    open spec fn node_text(&self) -> Seq<char> {
        render(self@)
    }

    fn token_literal(&self) -> (out: String) {
        ReturnStatement::token_literal(self)
    }

    fn string(&self) -> (out: String) {
        ReturnStatement::string(self)
    }
}

impl Node for Assignation {
    open spec fn literal_text(&self) -> Seq<char> {
        first_literal(self@)
    }

    open spec fn node_text(&self) -> Seq<char> {
        render(self@)
    }

    fn token_literal(&self) -> (out: String) {
        Assignation::token_literal(self)
    }

    fn string(&self) -> (out: String) {
        Assignation::string(self)
    }
}

impl Node for PrefixExpression {
    open spec fn literal_text(&self) -> Seq<char> {
        first_literal(self@)
    }

    open spec fn node_text(&self) -> Seq<char> {
        render(self@)
    }

    fn token_literal(&self) -> (out: String) {
        PrefixExpression::token_literal(self)
    }

    fn string(&self) -> (out: String) {
        PrefixExpression::string(self)
    }
}

impl Node for InfixExpression {
    open spec fn literal_text(&self) -> Seq<char> {
        first_literal(self@)
    }

    open spec fn node_text(&self) -> Seq<char> {
        render(self@)
    }

    fn token_literal(&self) -> (out: String) {
        InfixExpression::token_literal(self)
    }

    fn string(&self) -> (out: String) {
        InfixExpression::string(self)
    }
}

impl Node for IfExpression {
    open spec fn literal_text(&self) -> Seq<char> {
        first_literal(self@)
    }

    open spec fn node_text(&self) -> Seq<char> {
        render(self@)
    }

    fn token_literal(&self) -> (out: String) {
        IfExpression::token_literal(self)
    }

    fn string(&self) -> (out: String) {
        IfExpression::string(self)
    }
}

impl Node for IndexExpression {
    open spec fn literal_text(&self) -> Seq<char> {
        first_literal(self@)
    }

    open spec fn node_text(&self) -> Seq<char> {
        render(self@)
    }

    fn token_literal(&self) -> (out: String) {
        IndexExpression::token_literal(self)
    }

    fn string(&self) -> (out: String) {
        IndexExpression::string(self)
    }
}

impl Node for Identifier {
    open spec fn literal_text(&self) -> Seq<char> {
        first_literal(self@)
    }

    open spec fn node_text(&self) -> Seq<char> {
        render(self@)
    }

    fn token_literal(&self) -> (out: String) {
        Identifier::token_literal(self)
    }

    fn string(&self) -> (out: String) {
        Identifier::string(self)
    }
}

impl Node for IntegerLiteral {
    open spec fn literal_text(&self) -> Seq<char> {
        first_literal(self@)
    }

    open spec fn node_text(&self) -> Seq<char> {
        render(self@)
    }

    fn token_literal(&self) -> (out: String) {
        IntegerLiteral::token_literal(self)
    }

    fn string(&self) -> (out: String) {
        IntegerLiteral::string(self)
    }
}

impl Node for Boolean {
    open spec fn literal_text(&self) -> Seq<char> {
        first_literal(self@)
    }

    open spec fn node_text(&self) -> Seq<char> {
        render(self@)
    }

    fn token_literal(&self) -> (out: String) {
        Boolean::token_literal(self)
    }

    fn string(&self) -> (out: String) {
        Boolean::string(self)
    }
}

impl Node for FunctionLiteral {
    open spec fn literal_text(&self) -> Seq<char> {
        first_literal(self@)
    }

    open spec fn node_text(&self) -> Seq<char> {
        render(self@)
    }

    fn token_literal(&self) -> (out: String) {
        FunctionLiteral::token_literal(self)
    }

    fn string(&self) -> (out: String) {
        FunctionLiteral::string(self)
    }
}

impl Node for StringLiteral {
    open spec fn literal_text(&self) -> Seq<char> {
        first_literal(self@)
    }

    open spec fn node_text(&self) -> Seq<char> {
        render(self@)
    }

    fn token_literal(&self) -> (out: String) {
        StringLiteral::token_literal(self)
    }

    fn string(&self) -> (out: String) {
        StringLiteral::string(self)
    }
}

impl Node for ArrayLiteral {
    open spec fn literal_text(&self) -> Seq<char> {
        first_literal(self@)
    }

    open spec fn node_text(&self) -> Seq<char> {
        render(self@)
    }

    fn token_literal(&self) -> (out: String) {
        ArrayLiteral::token_literal(self)
    }

    fn string(&self) -> (out: String) {
        ArrayLiteral::string(self)
    }
}

impl Node for DictLiteral {
    open spec fn literal_text(&self) -> Seq<char> {
        first_literal(self@)
    }

    open spec fn node_text(&self) -> Seq<char> {
        render(self@)
    }

    fn token_literal(&self) -> (out: String) {
        DictLiteral::token_literal(self)
    }

    fn string(&self) -> (out: String) {
        DictLiteral::string(self)
    }
}

impl Node for CallExpression {
    open spec fn literal_text(&self) -> Seq<char> {
        first_literal(self@)
    }

    open spec fn node_text(&self) -> Seq<char> {
        render(self@)
    }

    fn token_literal(&self) -> (out: String) {
        CallExpression::token_literal(self)
    }

    fn string(&self) -> (out: String) {
        CallExpression::string(self)
    }
}

impl Node for PostIncrement {
    open spec fn literal_text(&self) -> Seq<char> {
        first_literal(self@)
    }

    open spec fn node_text(&self) -> Seq<char> {
        render(self@)
    }

    fn token_literal(&self) -> (out: String) {
        PostIncrement::token_literal(self)
    }

    fn string(&self) -> (out: String) {
        PostIncrement::string(self)
    }
}

impl Node for PostDecrement {
    open spec fn literal_text(&self) -> Seq<char> {
        first_literal(self@)
    }

    open spec fn node_text(&self) -> Seq<char> {
        render(self@)
    }

    fn token_literal(&self) -> (out: String) {
        PostDecrement::token_literal(self)
    }

    fn string(&self) -> (out: String) {
        PostDecrement::string(self)
    }
}

impl Node for BlockStatement {
    open spec fn literal_text(&self) -> Seq<char> {
        self@.token.literal()
    }

    open spec fn node_text(&self) -> Seq<char> {
        self@.string()
    }

    fn token_literal(&self) -> (out: String) {
        BlockStatement::token_literal(self)
    }

    fn string(&self) -> (out: String) {
        BlockStatement::string(self)
    }
}

impl Object for ObjectType {
    open spec fn tag_model(&self) -> Seq<char> {
        type_tag(self@)
    }

    open spec fn printed(&self) -> Seq<char> {
        inspect(self@)
    }

    fn object_type(&self) -> (out: String) {
        ObjectType::object_type(self)
    }

    fn inspect(&self) -> (out: String) {
        ObjectType::inspect(self)
    }
}

impl Object for Integer {
    open spec fn tag_model(&self) -> Seq<char> {
        type_tag(self@)
    }

    open spec fn printed(&self) -> Seq<char> {
        inspect(self@)
    }

    fn object_type(&self) -> (out: String) {
        Integer::object_type(self)
    }

    fn inspect(&self) -> (out: String) {
        Integer::inspect(self)
    }
}

impl Object for object::Boolean {
    open spec fn tag_model(&self) -> Seq<char> {
        type_tag(self@)
    }

    open spec fn printed(&self) -> Seq<char> {
        inspect(self@)
    }

    fn object_type(&self) -> (out: String) {
        object::Boolean::object_type(self)
    }

    fn inspect(&self) -> (out: String) {
        object::Boolean::inspect(self)
    }
}

impl Object for Null {
    open spec fn tag_model(&self) -> Seq<char> {
        type_tag(self@)
    }

    open spec fn printed(&self) -> Seq<char> {
        inspect(self@)
    }

    fn object_type(&self) -> (out: String) {
        Null::object_type(self)
    }

    fn inspect(&self) -> (out: String) {
        Null::inspect(self)
    }
}

impl Object for StringObject {
    open spec fn tag_model(&self) -> Seq<char> {
        type_tag(self@)
    }

    open spec fn printed(&self) -> Seq<char> {
        inspect(self@)
    }

    fn object_type(&self) -> (out: String) {
        StringObject::object_type(self)
    }

    fn inspect(&self) -> (out: String) {
        StringObject::inspect(self)
    }
}

impl Object for ReturnValue {
    open spec fn tag_model(&self) -> Seq<char> {
        type_tag(self@)
    }

    open spec fn printed(&self) -> Seq<char> {
        inspect(self@)
    }

    fn object_type(&self) -> (out: String) {
        ReturnValue::object_type(self)
    }

    fn inspect(&self) -> (out: String) {
        ReturnValue::inspect(self)
    }
}

impl Object for Error {
    open spec fn tag_model(&self) -> Seq<char> {
        type_tag(self@)
    }

    open spec fn printed(&self) -> Seq<char> {
        inspect(self@)
    }

    fn object_type(&self) -> (out: String) {
        Error::object_type(self)
    }

    fn inspect(&self) -> (out: String) {
        Error::inspect(self)
    }
}

impl Object for Function {
    open spec fn tag_model(&self) -> Seq<char> {
        type_tag(self@)
    }

    open spec fn printed(&self) -> Seq<char> {
        inspect(self@)
    }

    fn object_type(&self) -> (out: String) {
        Function::object_type(self)
    }

    fn inspect(&self) -> (out: String) {
        Function::inspect(self)
    }
}

impl Object for Builtin {
    open spec fn tag_model(&self) -> Seq<char> {
        type_tag(self@)
    }

    open spec fn printed(&self) -> Seq<char> {
        inspect(self@)
    }

    fn object_type(&self) -> (out: String) {
        Builtin::object_type(self)
    }

    fn inspect(&self) -> (out: String) {
        Builtin::inspect(self)
    }
}

impl Object for Array {
    open spec fn tag_model(&self) -> Seq<char> {
        type_tag(self@)
    }

    open spec fn printed(&self) -> Seq<char> {
        inspect(self@)
    }

    fn object_type(&self) -> (out: String) {
        Array::object_type(self)
    }

    fn inspect(&self) -> (out: String) {
        Array::inspect(self)
    }
}

impl Object for Dict {
    open spec fn tag_model(&self) -> Seq<char> {
        type_tag(self@)
    }

    open spec fn printed(&self) -> Seq<char> {
        inspect(self@)
    }

    fn object_type(&self) -> (out: String) {
        Dict::object_type(self)
    }

    fn inspect(&self) -> (out: String) {
        Dict::inspect(self)
    }
}

} // verus!
