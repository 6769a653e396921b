//! The evaluator: a recursive walk over the syntax tree that threads an
//! environment and yields a value for every node.
//!
//! Every function here returns exactly what the specification functions of
//! [`crate::semantics`] say, over the models of its arguments.

use crate::dict::{insert_pair, is_hashable, key_position};
use crate::ast::{
    ast_view, block_view, elifs_view, nodes_view, pairs_view, parameters_view, ArrayLiteral,
    Assignation, AstNode, BlockStatement, CallExpression, DictLiteral, FunctionLiteral, IfExpression,
    IndexExpression, InfixExpression, IntegerLiteral, LetStatement, Operation, PrefixExpression,
    ReturnStatement, StringLiteral,
};
use crate::builtin::{apply_builtin, get_builtin_function, new_error, wrong_arity};
use crate::copy::clone_parameters;
use crate::environment::{Environment, EnvironmentView};
use crate::object::{
    entries_view, value_view, values_view, Array, Boolean, Dict, Function, Integer, ObjectType,
    ReturnValue, StringObject, Val,
};
use crate::semantics;
use crate::semantics::Outcome;
use crate::text::{push_signed_decimal, same_text, unsigned_decimal_string};
use vstd::prelude::*;
use vstd::string::*;

verus! {

/// How many calls may nest inside one another unless the evaluator is made
/// with another limit.
pub const DEFAULT_CALL_DEPTH: usize = 100;

/// The evaluator holds the environment in which it evaluates.
pub struct Evaluator {
    /// The environment of the program; it outlives one evaluation, so that
    /// a later one sees the bindings of an earlier one.
    pub env: Environment,
    /// How many calls may nest inside one another.
    pub call_depth: usize,
}

/// Whether an evaluation that started in `before` and returned `value`,
/// leaving `after`, came to `outcome`. An evaluation leaves a valid
/// environment in which the same scope is current and no scope is lost.
pub open spec fn evaluated(
    value: ObjectType,
    before: EnvironmentView,
    after: EnvironmentView,
    outcome: Outcome,
) -> bool {
    &&& value@ == outcome.value
    &&& after == outcome.env
    &&& after.wf()
    &&& after.current == before.current
    &&& after.scopes.len() >= before.scopes.len()
}

/// `true` is truthy, `false` and `null` are not, every other value is.
pub fn is_truthy(condition: &ObjectType) -> (r: bool)
    ensures
        r == semantics::is_truthy(condition@),
{
    match condition {
        ObjectType::Boolean(boolean) => boolean.value,
        ObjectType::Null => false,
        _ => true,
    }
}

/// Whether a value is an error.
pub fn is_error(obj: &ObjectType) -> (r: bool)
    ensures
        r == semantics::is_error(obj@),
{
    match obj {
        ObjectType::Error(_) => true,
        _ => false,
    }
}

/// The value inside a returned value; any other value as it is.
pub fn unwrap_return_value(evaluated: ObjectType) -> (value: ObjectType)
    ensures
        value@ == semantics::unwrap_return_value(evaluated@),
{
    match evaluated {
        ObjectType::Return(return_value) => *return_value.value,
        other => other,
    }
}

/// Whether two values have the same type tag.
pub fn same_type(left: &ObjectType, right: &ObjectType) -> (r: bool)
    ensures
        r == semantics::same_type(left@, right@),
{
    match left {
        ObjectType::Integer(_) => matches!(right, ObjectType::Integer(_)),
        ObjectType::Boolean(_) => matches!(right, ObjectType::Boolean(_)),
        ObjectType::Null => matches!(right, ObjectType::Null),
        ObjectType::Return(_) => matches!(right, ObjectType::Return(_)),
        ObjectType::Error(_) => matches!(right, ObjectType::Error(_)),
        ObjectType::Function(_) => matches!(right, ObjectType::Function(_)),
        ObjectType::String(_) => matches!(right, ObjectType::String(_)),
        ObjectType::Builtin(_) => matches!(right, ObjectType::Builtin(_)),
        ObjectType::Array(_) => matches!(right, ObjectType::Array(_)),
        ObjectType::Dict(_) => matches!(right, ObjectType::Dict(_)),
    }
}

/// The error of an infix operator that its operands do not support.
fn unknown_operator(left: &ObjectType, operator: &str, right: &ObjectType) -> (error: ObjectType)
    ensures
        error@ == semantics::unknown_operator(left@, operator@, right@),
{
    let mut message = String::from_str("unknown operator: ");
    message.append(left.tag_text());
    message.append(" ");
    message.append(operator);
    message.append(" ");
    message.append(right.tag_text());
    new_error(message)
}

/// The error of an infix operator between values of two types.
fn type_mismatch(left: &ObjectType, operator: &str, right: &ObjectType) -> (error: ObjectType)
    ensures
        error@ == semantics::type_mismatch(left@, operator@, right@),
{
    let mut message = String::from_str("type mismatch: ");
    message.append(left.tag_text());
    message.append(" ");
    message.append(operator);
    message.append(" ");
    message.append(right.tag_text());
    new_error(message)
}

/// The error of a value that cannot be a key of a dictionary.
fn unusable_key(key: &ObjectType) -> (error: ObjectType)
    ensures
        error@ == semantics::unusable_key(key@),
{
    let mut message = String::from_str("unusable as hash key: ");
    message.append(key.tag_text());
    new_error(message)
}

/// An integer value, or the overflow error where there is no number.
fn checked_value(number: Option<i128>) -> (value: ObjectType)
    ensures
        match number {
            Some(n) => value@ == Val::Integer(n),
            None => value@ == semantics::overflow_error(),
        },
{
    match number {
        Some(n) => ObjectType::Integer(Integer { value: n }),
        None => new_error(String::from_str("integer overflow")),
    }
}

/// A boolean value.
fn boolean_value(value: bool) -> (out: ObjectType)
    ensures
        out@ == Val::Boolean(value),
{
    ObjectType::Boolean(Boolean { value })
}

/// The symbol of the operator that a compound assignment applies.
fn operation_symbol(operation: Operation) -> (symbol: &'static str)
    ensures
        symbol@ == semantics::operation_symbol(operation),
{
    match operation {
        Operation::Sum => "+",
        Operation::Minus => "-",
        Operation::Mult => "*",
        Operation::Divide => "/",
        Operation::Assig => "=",
    }
}

/// The quotient and the remainder of a division that rounds toward zero,
/// over the four combinations of signs, and how large they can be.
pub proof fn lemma_truncated(x: int, d: int)
    requires
        d != 0,
    ensures
        x == 0 ==> semantics::truncated_quotient(x, d) == 0,
        x > 0 && d > 0 ==> semantics::truncated_quotient(x, d) == x / d,
        x < 0 && d < 0 ==> semantics::truncated_quotient(x, d) == (x * -1) / (d * -1),
        x < 0 && d > 0 ==> semantics::truncated_quotient(x, d) == ((x * -1) / d) * -1,
        x > 0 && d < 0 ==> semantics::truncated_quotient(x, d) == (x / (d * -1)) * -1,
        x == 0 ==> semantics::truncated_remainder(x, d) == 0,
        x > 0 && d > 0 ==> semantics::truncated_remainder(x, d) == x % d,
        x < 0 && d < 0 ==> semantics::truncated_remainder(x, d) == ((x * -1) % (d * -1)) * -1,
        x < 0 && d > 0 ==> semantics::truncated_remainder(x, d) == ((x * -1) % d) * -1,
        x > 0 && d < 0 ==> semantics::truncated_remainder(x, d) == x % (d * -1),
        -semantics::magnitude(x) <= semantics::truncated_remainder(x, d) <= semantics::magnitude(x),
        -semantics::magnitude(d) < semantics::truncated_remainder(x, d) < semantics::magnitude(d),
        d == -1 || d == 1 ==> semantics::truncated_remainder(x, d) == 0,
{
    let a = semantics::magnitude(x);
    let b = semantics::magnitude(d);
    assert(x * -1 == -x);
    assert(d * -1 == -d);
    assert(0 <= a % b < b) by (nonlinear_arith)
        requires
            b > 0,
    ;
    assert(a % b <= a) by (nonlinear_arith)
        requires
            b > 0,
            a >= 0,
    ;
    assert(0int / b == 0) by (nonlinear_arith)
        requires
            b > 0,
    ;
    assert(0int % b == 0) by (nonlinear_arith)
        requires
            b > 0,
    ;
}

impl Evaluator {
    /// An evaluator with a fresh environment.
    pub fn new() -> (evaluator: Evaluator)
        ensures
            evaluator.env.wf(),
            evaluator.env@ == EnvironmentView::fresh(),
            evaluator.call_depth == DEFAULT_CALL_DEPTH,
    {
        Evaluator { env: Environment::new(), call_depth: DEFAULT_CALL_DEPTH }
    }

    /// An evaluator with the given environment.
    pub fn new_env(env: Environment) -> (evaluator: Evaluator)
        ensures
            evaluator.env == env,
            evaluator.call_depth == DEFAULT_CALL_DEPTH,
    {
        Evaluator { env, call_depth: DEFAULT_CALL_DEPTH }
    }

    /// An evaluator with the given environment in which at most
    /// `call_depth` calls nest inside one another.
    pub fn with_call_depth(env: Environment, call_depth: usize) -> (evaluator: Evaluator)
        ensures
            evaluator.env == env,
            evaluator.call_depth == call_depth,
    {
        Evaluator { env, call_depth }
    }

    /// Evaluates a node in the environment of the evaluator and returns
    /// its value; the environment keeps what the node bound.
    pub fn eval(&mut self, node: AstNode) -> (value: ObjectType)
        requires
            old(self).env.wf(),
        ensures
            final(self).call_depth == old(self).call_depth,
            evaluated(
                value,
                old(self).env@,
                final(self).env@,
                semantics::eval(node@, old(self).env@, old(self).call_depth as nat),
            ),
    {
        let depth = self.call_depth;
        Self::eval_node(&mut self.env, &node, depth)
    }

    /// Evaluates a node where `depth` calls may still nest.
    pub fn eval_node(env: &mut Environment, node: &AstNode, depth: usize) -> (value: ObjectType)
        requires
            old(env).wf(),
        ensures
            evaluated(value, old(env)@, final(env)@, semantics::eval(node@, old(env)@, depth as nat)),
        decreases 2 * depth + 1, node,
    {
        match node {
            AstNode::Program(program) => Self::eval_program(env, &program.statements, depth),
            AstNode::BlockStatement(block) => Self::eval_statements(env, &block.statements, depth),
            AstNode::PrefixExpression(prefix) => Self::eval_prefix(env, prefix, depth),
            AstNode::InfixExpression(infix) => Self::eval_infix(env, infix, depth),
            AstNode::IfExpression(if_expression) => Self::eval_if_expression(
                env,
                if_expression,
                depth,
            ),
            AstNode::FunctionLiteral(literal) => Self::eval_function_literal(env, literal),
            AstNode::CallExpression(call) => Self::eval_call_expression(env, call, depth),
            AstNode::LetStatement(statement) => Self::eval_let_statement(env, statement, depth),
            AstNode::ReturnStatement(statement) => Self::eval_return_statement(
                env,
                statement,
                depth,
            ),
            AstNode::Identifier(id) => Self::eval_identifier(env, id.token.literal()),
            AstNode::IntegerLiteral(literal) => Self::eval_integer_literal(literal),
            AstNode::Boolean(literal) => Self::eval_boolean(literal),
            AstNode::StringLiteral(literal) => Self::eval_string_literal(literal),
            AstNode::ArrayLiteral(literal) => Self::eval_array_literal(env, literal, depth),
            AstNode::IndexExpression(expression) => Self::eval_index(env, expression, depth),
            AstNode::DictLiteral(dict) => Self::eval_dict_literal(env, dict, depth),
            AstNode::Assignation(assignation) => Self::eval_assignation(env, assignation, depth),
            AstNode::PostIncrement(increment) => Self::rebind(
                env,
                increment.token.literal(),
                "+",
                ObjectType::Integer(Integer { value: 1 }),
            ),
            AstNode::PostDecrement(decrement) => Self::rebind(
                env,
                decrement.token.literal(),
                "-",
                ObjectType::Integer(Integer { value: 1 }),
            ),
            AstNode::Break => new_error(String::from_str("break outside of a loop")),
        }
    }

    /// Evaluates a prefix expression: the operand, then the operator.
    fn eval_prefix(env: &mut Environment, prefix: &PrefixExpression, depth: usize) -> (value:
        ObjectType)
        requires
            old(env).wf(),
        ensures
            evaluated(value, old(env)@, final(env)@, semantics::eval(prefix@, old(env)@, depth as nat)),
        decreases 2 * depth + 1, prefix,
    {
        let right = Self::eval_node(env, &*prefix.right, depth);
        if is_error(&right) {
            return right;
        }
        Self::eval_prefix_expression(prefix.operator.as_str(), right)
    }

    /// Evaluates an infix expression: the left operand, the right operand,
    /// then the operator.
    fn eval_infix(env: &mut Environment, infix: &InfixExpression, depth: usize) -> (value:
        ObjectType)
        requires
            old(env).wf(),
        ensures
            evaluated(value, old(env)@, final(env)@, semantics::eval(infix@, old(env)@, depth as nat)),
        decreases 2 * depth + 1, infix,
    {
        let left = Self::eval_node(env, &*infix.left, depth);
        if is_error(&left) {
            return left;
        }
        let right = Self::eval_node(env, &*infix.right, depth);
        if is_error(&right) {
            return right;
        }
        Self::eval_infix_expression(left, infix.operator.as_str(), right)
    }

    /// Evaluates a function literal to a closure over the current scope.
    fn eval_function_literal(env: &Environment, literal: &FunctionLiteral) -> (value: ObjectType)
        ensures
            value@ == (Val::Function {
                parameters: parameters_view(literal.parameters@),
                body: block_view(literal.body),
                env: env@.current,
            }),
    {
        ObjectType::Function(
            Function {
                parameters: clone_parameters(&literal.parameters),
                body: literal.body.clone(),
                env: env.current(),
            },
        )
    }

    /// Evaluates a `let`: the value, which is then bound to the name in the
    /// current scope.
    fn eval_let_statement(env: &mut Environment, statement: &LetStatement, depth: usize) -> (value:
        ObjectType)
        requires
            old(env).wf(),
        ensures
            evaluated(
                value,
                old(env)@,
                final(env)@,
                semantics::eval(statement@, old(env)@, depth as nat),
            ),
        decreases 2 * depth + 1, statement,
    {
        let value = Self::eval_node(env, &*statement.value, depth);
        if is_error(&value) {
            return value;
        }
        let name = statement.name.token.literal();
        env.set(name.as_str(), value.clone());
        value
    }

    /// Evaluates a `return`: the value, wrapped so that the blocks around
    /// it end too.
    fn eval_return_statement(env: &mut Environment, statement: &ReturnStatement, depth: usize) -> (value:
        ObjectType)
        requires
            old(env).wf(),
        ensures
            evaluated(
                value,
                old(env)@,
                final(env)@,
                semantics::eval(statement@, old(env)@, depth as nat),
            ),
        decreases 2 * depth + 1, statement,
    {
        let value = Self::eval_node(env, &*statement.return_value, depth);
        if is_error(&value) {
            return value;
        }
        ObjectType::Return(ReturnValue { value: Box::new(value) })
    }

    /// The value of an integer literal.
    fn eval_integer_literal(literal: &IntegerLiteral) -> (value: ObjectType)
        ensures
            value@ == Val::Integer(literal.token@.number),
    {
        ObjectType::Integer(Integer { value: literal.token.number() })
    }

    /// The value of a boolean literal.
    fn eval_boolean(literal: &crate::ast::Boolean) -> (value: ObjectType)
        ensures
            value@ == Val::Boolean(literal.token@.flag),
    {
        ObjectType::Boolean(Boolean { value: literal.token.flag() })
    }

    /// The value of a string literal.
    fn eval_string_literal(literal: &StringLiteral) -> (value: ObjectType)
        ensures
            value@ == Val::String(literal.token@.text),
    {
        ObjectType::String(StringObject { value: literal.token.text() })
    }

    /// Evaluates an array literal: its elements from left to right.
    fn eval_array_literal(env: &mut Environment, literal: &ArrayLiteral, depth: usize) -> (value:
        ObjectType)
        requires
            old(env).wf(),
        ensures
            evaluated(value, old(env)@, final(env)@, semantics::eval(literal@, old(env)@, depth as nat)),
        decreases 2 * depth + 1, literal,
    {
        match Self::eval_list_expressions(env, &literal.elements, depth) {
            Ok(elements) => ObjectType::Array(Array { elements }),
            Err(error) => error,
        }
    }

    /// Evaluates an index expression: the indexed value, the index, then
    /// the access.
    fn eval_index(env: &mut Environment, expression: &IndexExpression, depth: usize) -> (value:
        ObjectType)
        requires
            old(env).wf(),
        ensures
            evaluated(
                value,
                old(env)@,
                final(env)@,
                semantics::eval(expression@, old(env)@, depth as nat),
            ),
        decreases 2 * depth + 1, expression,
    {
        let left = Self::eval_node(env, &*expression.left, depth);
        if is_error(&left) {
            return left;
        }
        let index = Self::eval_node(env, &*expression.index, depth);
        if is_error(&index) {
            return index;
        }
        Self::eval_index_expression(left, index)
    }

    /// Evaluates an assignment: the value, which is bound to the name as
    /// it is or after the compound operator was applied to the present
    /// value of the name.
    fn eval_assignation(env: &mut Environment, assignation: &Assignation, depth: usize) -> (value:
        ObjectType)
        requires
            old(env).wf(),
        ensures
            evaluated(
                value,
                old(env)@,
                final(env)@,
                semantics::eval(assignation@, old(env)@, depth as nat),
            ),
        decreases 2 * depth + 1, assignation,
    {
        let value = Self::eval_node(env, &*assignation.value, depth);
        if is_error(&value) {
            return value;
        }
        let name = assignation.name.token.literal();
        match assignation.operation {
            Operation::Assig => {
                env.set(name.as_str(), value.clone());
                value
            },
            operation => Self::rebind(env, name, operation_symbol(operation), value),
        }
    }

    /// Rebinds `name` to the result of `operator` between its present value
    /// and `operand`.
    fn rebind(env: &mut Environment, name: String, operator: &str, operand: ObjectType) -> (value:
        ObjectType)
        requires
            old(env).wf(),
        ensures
            evaluated(
                value,
                old(env)@,
                final(env)@,
                semantics::rebind(name@, operator@, operand@, old(env)@),
            ),
    {
        match env.get(name.clone()) {
            None => {
                let mut message = String::from_str("identifier not found: ");
                message.append(name.as_str());
                new_error(message)
            },
            Some(present) => {
                let value = Self::eval_infix_expression(present, operator, operand);
                if !is_error(&value) {
                    env.set(name.as_str(), value.clone());
                }
                value
            },
        }
    }

    /// Evaluates the statements of a program in order. A returned value
    /// ends the program and is unwrapped; an error ends it as it is.
    #[verifier::loop_isolation(false)]
    fn eval_program(env: &mut Environment, statements: &Vec<AstNode>, depth: usize) -> (value:
        ObjectType)
        requires
            old(env).wf(),
        ensures
            evaluated(
                value,
                old(env)@,
                final(env)@,
                semantics::eval_program(nodes_view(statements@), 0, Val::Null, old(env)@, depth as nat),
            ),
        decreases 2 * depth + 1, statements,
    {
        let mut last = ObjectType::Null;
        let mut i: usize = 0;
        while i < statements.len()
            invariant
                i <= statements.len(),
                env.wf(),
                env@.current == old(env)@.current,
                env@.scopes.len() >= old(env)@.scopes.len(),
                semantics::eval_program(nodes_view(statements@), i as int, last@, env@, depth as nat)
                    == semantics::eval_program(
                    nodes_view(statements@),
                    0,
                    Val::Null,
                    old(env)@,
                    depth as nat,
                ),
            decreases statements.len() - i,
        {
            assert(nodes_view(statements@)[i as int] == ast_view(statements@[i as int]));
            let step = Self::eval_node(env, &statements[i], depth);
            match step {
                ObjectType::Return(returned) => {
                    return *returned.value;
                },
                ObjectType::Error(error) => {
                    return ObjectType::Error(error);
                },
                other => {
                    last = other;
                },
            }
            i += 1;
        }
        last
    }

    /// Evaluates the statements of a block in order. A returned value and
    /// an error end the block and stay as they are.
    #[verifier::loop_isolation(false)]
    fn eval_statements(env: &mut Environment, statements: &Vec<AstNode>, depth: usize) -> (value:
        ObjectType)
        requires
            old(env).wf(),
        ensures
            evaluated(
                value,
                old(env)@,
                final(env)@,
                semantics::eval_statements(
                    nodes_view(statements@),
                    0,
                    Val::Null,
                    old(env)@,
                    depth as nat,
                ),
            ),
        decreases 2 * depth + 1, statements,
    {
        let mut last = ObjectType::Null;
        let mut i: usize = 0;
        while i < statements.len()
            invariant
                i <= statements.len(),
                env.wf(),
                env@.current == old(env)@.current,
                env@.scopes.len() >= old(env)@.scopes.len(),
                semantics::eval_statements(
                    nodes_view(statements@),
                    i as int,
                    last@,
                    env@,
                    depth as nat,
                ) == semantics::eval_statements(
                    nodes_view(statements@),
                    0,
                    Val::Null,
                    old(env)@,
                    depth as nat,
                ),
            decreases statements.len() - i,
        {
            assert(nodes_view(statements@)[i as int] == ast_view(statements@[i as int]));
            let step = Self::eval_node(env, &statements[i], depth);
            match step {
                ObjectType::Return(returned) => {
                    return ObjectType::Return(returned);
                },
                ObjectType::Error(error) => {
                    return ObjectType::Error(error);
                },
                other => {
                    last = other;
                },
            }
            i += 1;
        }
        last
    }

    /// Evaluates a list of expressions from left to right and returns
    /// their values, or the first error among them.
    #[verifier::loop_isolation(false)]
    fn eval_list_expressions(env: &mut Environment, expressions: &Vec<AstNode>, depth: usize) -> (r:
        Result<Vec<ObjectType>, ObjectType>)
        requires
            old(env).wf(),
        ensures
            final(env).wf(),
            final(env)@.current == old(env)@.current,
            final(env)@.scopes.len() >= old(env)@.scopes.len(),
            ({
                let list = semantics::eval_list_expressions(
                    nodes_view(expressions@),
                    0,
                    Seq::empty(),
                    old(env)@,
                    depth as nat,
                );
                &&& final(env)@ == list.env
                &&& match r {
                    Ok(values) => list.error is None && values_view(values@) == list.values,
                    Err(error) => list.error == Some(error@),
                }
            }),
        decreases 2 * depth + 1, expressions,
    {
        let mut result: Vec<ObjectType> = Vec::new();
        let mut i: usize = 0;
        assert(values_view(result@) =~= Seq::empty());
        while i < expressions.len()
            invariant
                i <= expressions.len(),
                env.wf(),
                env@.current == old(env)@.current,
                env@.scopes.len() >= old(env)@.scopes.len(),
                semantics::eval_list_expressions(
                    nodes_view(expressions@),
                    i as int,
                    values_view(result@),
                    env@,
                    depth as nat,
                ) == semantics::eval_list_expressions(
                    nodes_view(expressions@),
                    0,
                    Seq::empty(),
                    old(env)@,
                    depth as nat,
                ),
            decreases expressions.len() - i,
        {
            assert(nodes_view(expressions@)[i as int] == ast_view(expressions@[i as int]));
            let evaluated = Self::eval_node(env, &expressions[i], depth);
            if is_error(&evaluated) {
                return Err(evaluated);
            }
            let ghost before = values_view(result@);
            result.push(evaluated);
            assert(values_view(result@) =~= before.push(evaluated@));
            i += 1;
        }
        Ok(result)
    }

    /// Evaluates an `if`: the block of the first condition that is truthy,
    /// else the alternative, else `null`.
    fn eval_if_expression(env: &mut Environment, if_expression: &IfExpression, depth: usize) -> (value:
        ObjectType)
        requires
            old(env).wf(),
        ensures
            evaluated(
                value,
                old(env)@,
                final(env)@,
                semantics::eval(if_expression@, old(env)@, depth as nat),
            ),
        decreases 2 * depth + 1, if_expression,
    {
        let condition = Self::eval_node(env, &*if_expression.condition, depth);
        if is_error(&condition) {
            return condition;
        }
        if is_truthy(&condition) {
            return Self::eval_statements(env, &if_expression.consequence.statements, depth);
        }
        match Self::eval_elifs(env, &if_expression.elifs, depth) {
            Some(value) => value,
            None => match &if_expression.alternative {
                Some(alternative) => Self::eval_statements(env, &alternative.statements, depth),
                None => ObjectType::Null,
            },
        }
    }

    /// Evaluates the branches of an `if` that follow the first, in order,
    /// and returns the value of the branch that was taken, if any.
    #[verifier::loop_isolation(false)]
    fn eval_elifs(env: &mut Environment, elifs: &Vec<(AstNode, BlockStatement)>, depth: usize) -> (r:
        Option<ObjectType>)
        requires
            old(env).wf(),
        ensures
            final(env).wf(),
            final(env)@.current == old(env)@.current,
            final(env)@.scopes.len() >= old(env)@.scopes.len(),
            ({
                let branch = semantics::eval_elifs(elifs_view(elifs@), 0, old(env)@, depth as nat);
                &&& final(env)@ == branch.outcome.env
                &&& match r {
                    Some(value) => branch.taken && value@ == branch.outcome.value,
                    None => !branch.taken,
                }
            }),
        decreases 2 * depth + 1, elifs,
    {
        let mut i: usize = 0;
        while i < elifs.len()
            invariant
                i <= elifs.len(),
                env.wf(),
                env@.current == old(env)@.current,
                env@.scopes.len() >= old(env)@.scopes.len(),
                semantics::eval_elifs(elifs_view(elifs@), i as int, env@, depth as nat)
                    == semantics::eval_elifs(elifs_view(elifs@), 0, old(env)@, depth as nat),
            decreases elifs.len() - i,
        {
            let branch = &elifs[i];
            assert(elifs_view(elifs@)[i as int] == (ast_view(branch.0), block_view(branch.1)));
            let condition = Self::eval_node(env, &branch.0, depth);
            if is_error(&condition) {
                return Some(condition);
            }
            if is_truthy(&condition) {
                return Some(Self::eval_statements(env, &branch.1.statements, depth));
            }
            i += 1;
        }
        None
    }

    /// Evaluates a dictionary literal: of each pair the key, which must be
    /// hashable, then the value.
    fn eval_dict_literal(env: &mut Environment, dict: &DictLiteral, depth: usize) -> (value:
        ObjectType)
        requires
            old(env).wf(),
        ensures
            evaluated(value, old(env)@, final(env)@, semantics::eval(dict@, old(env)@, depth as nat)),
        decreases 2 * depth + 1, dict,
    {
        Self::eval_pairs(env, &dict.pairs, depth)
    }

    /// Evaluates the pairs of a dictionary literal in order.
    #[verifier::loop_isolation(false)]
    #[verifier::rlimit(50)]
    fn eval_pairs(env: &mut Environment, literal: &Vec<(AstNode, AstNode)>, depth: usize) -> (value:
        ObjectType)
        requires
            old(env).wf(),
        ensures
            evaluated(
                value,
                old(env)@,
                final(env)@,
                semantics::eval_dict_literal(
                    pairs_view(literal@),
                    0,
                    Seq::empty(),
                    old(env)@,
                    depth as nat,
                ),
            ),
        decreases 2 * depth + 1, literal,
    {
        let mut pairs: Vec<(ObjectType, ObjectType)> = Vec::new();
        let mut i: usize = 0;
        assert(entries_view(pairs@) =~= Seq::empty());
        while i < literal.len()
            invariant
                i <= literal.len(),
                env.wf(),
                env@.current == old(env)@.current,
                env@.scopes.len() >= old(env)@.scopes.len(),
                semantics::eval_dict_literal(
                    pairs_view(literal@),
                    i as int,
                    entries_view(pairs@),
                    env@,
                    depth as nat,
                ) == semantics::eval_dict_literal(
                    pairs_view(literal@),
                    0,
                    Seq::empty(),
                    old(env)@,
                    depth as nat,
                ),
            decreases literal.len() - i,
        {
            let pair = &literal[i];
            assert(pairs_view(literal@)[i as int] == (ast_view(pair.0), ast_view(pair.1)));
            let key = Self::eval_node(env, &pair.0, depth);
            if !is_hashable(&key) {
                return unusable_key(&key);
            }
            let value = Self::eval_node(env, &pair.1, depth);
            if is_error(&value) {
                return value;
            }
            insert_pair(&mut pairs, key, value);
            i += 1;
        }
        ObjectType::Dict(Dict { pairs })
    }

    /// Evaluates a call: the function, then the arguments from left to
    /// right, then the call itself.
    fn eval_call_expression(env: &mut Environment, call: &CallExpression, depth: usize) -> (value:
        ObjectType)
        requires
            old(env).wf(),
        ensures
            evaluated(value, old(env)@, final(env)@, semantics::eval(call@, old(env)@, depth as nat)),
        decreases 2 * depth + 1, call,
    {
        let function = Self::eval_node(env, &*call.function, depth);
        if is_error(&function) {
            return function;
        }
        match Self::eval_list_expressions(env, &call.arguments, depth) {
            Ok(args) => Self::apply_function(env, function, args, depth),
            Err(error) => error,
        }
    }

    /// Calls `fun` with `args`. The body of a closure runs in a new scope
    /// inside the scope that the closure captured, with one call less left
    /// to nest; a returned value is unwrapped.
    fn apply_function(env: &mut Environment, fun: ObjectType, args: Vec<ObjectType>, depth: usize)
        -> (value: ObjectType)
        requires
            old(env).wf(),
        ensures
            evaluated(
                value,
                old(env)@,
                final(env)@,
                semantics::apply_function(fun@, values_view(args@), old(env)@, depth as nat),
            ),
        decreases 2 * depth,
    {
        match fun {
            ObjectType::Function(function) => {
                assert(parameters_view(function.parameters@).len() == function.parameters.len());
                assert(values_view(args@).len() == args.len());
                if args.len() < function.parameters.len() {
                    return wrong_arity(args.len(), function.parameters.len());
                }
                if depth == 0 {
                    return new_error(String::from_str("call depth exceeded"));
                }
                let caller = env.current();
                Self::extended_function_env(env, &function, &args);
                let evaluated = Self::eval_statements(env, &function.body.statements, depth - 1);
                env.enter(caller);
                unwrap_return_value(evaluated)
            },
            ObjectType::Builtin(function) => apply_builtin(function.function, args),
            other => {
                let mut message = String::from_str("not a function ");
                message.append(other.tag_text());
                new_error(message)
            },
        }
    }

    /// Makes the scope in which the body of a closure runs: a new scope
    /// inside the scope that the closure captured, with the parameters
    /// bound to the arguments.
    fn extended_function_env(env: &mut Environment, function: &Function, args: &Vec<ObjectType>)
        requires
            old(env).wf(),
        ensures
            final(env).wf(),
            final(env)@.scopes.len() > old(env)@.scopes.len(),
            final(env)@ == semantics::extended_function_env(
                old(env)@,
                parameters_view(function.parameters@),
                function.env as int,
                values_view(args@),
            ),
    {
        env.enclose(function.env);
        let ghost inner = env@;
        let ghost parameters = parameters_view(function.parameters@);
        let ghost values = values_view(args@);
        let mut i: usize = 0;
        while i < function.parameters.len() && i < args.len()
            invariant
                i <= function.parameters.len(),
                i <= args.len(),
                env.wf(),
                env@.scopes.len() == inner.scopes.len(),
                parameters == parameters_view(function.parameters@),
                values == values_view(args@),
                semantics::bind_parameters(env@, parameters, values, i as int)
                    == semantics::bind_parameters(inner, parameters, values, 0),
            decreases function.parameters.len() - i,
        {
            let name = function.parameters[i].token.literal();
            assert(values[i as int] == value_view(args@[i as int]));
            env.set(name.as_str(), args[i].clone());
            i += 1;
        }
    }

    /// The value that a name stands for: what the environment binds it to,
    /// else the native function of that name, else an error.
    fn eval_identifier(env: &Environment, name: String) -> (value: ObjectType)
        ensures
            value@ == semantics::eval_identifier(name@, env@),
    {
        match env.get(name.clone()) {
            Some(value) => value,
            None => get_builtin_function(name.as_str()),
        }
    }

    /// The value of a prefix expression whose operand has the value
    /// `right`.
    pub fn eval_prefix_expression(operator: &str, right: ObjectType) -> (value: ObjectType)
        ensures
            value@ == semantics::eval_prefix_expression(operator@, right@),
    {
        if same_text(operator, "not") {
            Self::eval_not_operator(right)
        } else if same_text(operator, "-") {
            Self::eval_minus_prefix_operator(right)
        } else {
            let mut message = String::from_str("unknown operator: ");
            message.append(operator);
            message.append(" ");
            message.append(right.tag_text());
            new_error(message)
        }
    }

    /// `not <right>`: the negation of the truthiness of the operand.
    pub fn eval_not_operator(right: ObjectType) -> (value: ObjectType)
        ensures
            value@ == semantics::eval_not_operator(right@),
    {
        boolean_value(!is_truthy(&right))
    }

    /// `-<right>`: the negation of an integer; an error for any other
    /// value.
    pub fn eval_minus_prefix_operator(right: ObjectType) -> (value: ObjectType)
        ensures
            value@ == semantics::eval_minus_prefix_operator(right@),
    {
        match right {
            ObjectType::Integer(number) => checked_value(0i128.checked_sub(number.value)),
            other => {
                let mut message = String::from_str("unknown operator: -");
                message.append(other.tag_text());
                new_error(message)
            },
        }
    }

    /// The value of an infix expression whose operands have the values
    /// `left` and `right`.
    pub fn eval_infix_expression(left: ObjectType, operator: &str, right: ObjectType) -> (value:
        ObjectType)
        ensures
            value@ == semantics::eval_infix_expression(left@, operator@, right@),
    {
        match (&left, &right) {
            (ObjectType::Integer(l), ObjectType::Integer(r)) => {
                Self::eval_infix_integer_expression(l.value, operator, r.value)
            },
            (ObjectType::String(l), ObjectType::String(r)) => {
                Self::eval_infix_string_expression(l.value.as_str(), operator, r.value.as_str())
            },
            _ => {
                if !same_type(&left, &right) {
                    type_mismatch(&left, operator, &right)
                } else if same_text(operator, "==") {
                    boolean_value(
                        same_text(left.inspect().as_str(), right.inspect().as_str()),
                    )
                } else if same_text(operator, "!=") {
                    boolean_value(
                        !same_text(left.inspect().as_str(), right.inspect().as_str()),
                    )
                } else {
                    unknown_operator(&left, operator, &right)
                }
            },
        }
    }

    /// The value of an infix expression between two integers.
    pub fn eval_infix_integer_expression(left: i128, operator: &str, right: i128) -> (value:
        ObjectType)
        ensures
            value@ == semantics::eval_infix_integer_expression(left, operator@, right),
    {
        if same_text(operator, "+") {
            checked_value(left.checked_add(right))
        } else if same_text(operator, "-") {
            checked_value(left.checked_sub(right))
        } else if same_text(operator, "*") {
            checked_value(left.checked_mul(right))
        } else if same_text(operator, "/") {
            if right == 0 {
                new_error(String::from_str("division by zero"))
            } else {
                let quotient = left.checked_div(right);
                proof {
                    lemma_truncated(left as int, right as int);
                }
                checked_value(quotient)
            }
        } else if same_text(operator, "%") {
            if right == 0 {
                new_error(String::from_str("division by zero"))
            } else if right == -1 {
                proof {
                    lemma_truncated(left as int, right as int);
                }
                checked_value(Some(0))
            } else {
                let remainder = left.checked_rem(right);
                proof {
                    lemma_truncated(left as int, right as int);
                }
                checked_value(remainder)
            }
        } else if same_text(operator, "<") {
            boolean_value(left < right)
        } else if same_text(operator, ">") {
            boolean_value(left > right)
        } else if same_text(operator, ">=") {
            boolean_value(left >= right)
        } else if same_text(operator, "<=") {
            boolean_value(left <= right)
        } else if same_text(operator, "==") {
            boolean_value(left == right)
        } else if same_text(operator, "!=") {
            boolean_value(left != right)
        } else {
            unknown_operator(
                &ObjectType::Integer(Integer { value: left }),
                operator,
                &ObjectType::Integer(Integer { value: right }),
            )
        }
    }

    /// The value of an infix expression between two strings.
    pub fn eval_infix_string_expression(left: &str, operator: &str, right: &str) -> (value:
        ObjectType)
        ensures
            value@ == semantics::eval_infix_string_expression(left@, operator@, right@),
    {
        if same_text(operator, "+") {
            let mut joined = String::from_str(left);
            joined.append(right);
            ObjectType::String(StringObject { value: joined })
        } else {
            unknown_operator(
                &ObjectType::String(StringObject { value: String::from_str(left) }),
                operator,
                &ObjectType::String(StringObject { value: String::from_str(right) }),
            )
        }
    }

    /// The value of an index expression.
    pub fn eval_index_expression(left: ObjectType, index: ObjectType) -> (value: ObjectType)
        ensures
            value@ == semantics::eval_index_expression(left@, index@),
    {
        match &left {
            ObjectType::Array(array) => match &index {
                ObjectType::Integer(i) => Self::eval_array_index_expression(
                    &array.elements,
                    i.value,
                ),
                _ => Self::index_not_supported(&left),
            },
            ObjectType::Dict(dict) => Self::eval_dictionary_index_expression(&dict.pairs, &index),
            _ => Self::index_not_supported(&left),
        }
    }

    /// The error of a value that cannot be indexed.
    fn index_not_supported(left: &ObjectType) -> (error: ObjectType)
        ensures
            error@ == Val::Error("index operator not supported: "@ + crate::object::type_tag(left@)),
    {
        let mut message = String::from_str("index operator not supported: ");
        message.append(left.tag_text());
        new_error(message)
    }

    /// The element of an array at an index, or the error of an index out
    /// of bounds.
    pub fn eval_array_index_expression(elements: &Vec<ObjectType>, index: i128) -> (value:
        ObjectType)
        ensures
            value@ == semantics::eval_array_index_expression(values_view(elements@), index),
    {
        assert(values_view(elements@).len() == elements.len());
        if index < 0 || index >= elements.len() as i128 {
            let mut message = String::from_str("index: ");
            push_signed_decimal(&mut message, index);
            message.append(" out of bounds: ");
            message.append(unsigned_decimal_string(elements.len()).as_str());
            return new_error(message);
        }
        assert(values_view(elements@)[index as int] == value_view(elements@[index as int]));
        elements[index as usize].clone()
    }

    /// The value of a key in a dictionary, `null` where the dictionary
    /// does not hold the key, or the error of a key that cannot be hashed.
    pub fn eval_dictionary_index_expression(
        pairs: &Vec<(ObjectType, ObjectType)>,
        index: &ObjectType,
    ) -> (value: ObjectType)
        ensures
            value@ == semantics::eval_dictionary_index_expression(entries_view(pairs@), index@),
    {
        if !is_hashable(index) {
            return unusable_key(index);
        }
        let i = key_position(pairs, index);
        assert(entries_view(pairs@).len() == pairs.len());
        if i < pairs.len() {
            assert(entries_view(pairs@)[i as int].1 == value_view(pairs@[i as int].1));
            pairs[i].1.clone()
        } else {
            ObjectType::Null
        }
    }
}

} // verus!
