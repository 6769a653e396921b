//! What evaluation means: the value of every node of a syntax tree, stated
//! as specification functions over the models of trees, values and
//! environments.
//!
//! Evaluation is total. A call nests inside the evaluation that makes it;
//! `depth` is the number of calls that may still nest, and a call made
//! when none is left yields an error value.

use crate::assoc::{bind, find};
use crate::ast::{Ast, Block, Operation};
use crate::environment::EnvironmentView;
use crate::object::{inspect, type_tag, BuiltinFunction, Val};
use crate::text::decimal;
use crate::token::TokenView;
use vstd::prelude::*;
use vstd::utf8::encode_utf8;

verus! {

/// An error value with the given message.
pub open spec fn new_error(message: Seq<char>) -> Val {
    Val::Error(message)
}

/// `true` is truthy, `false` and `null` are not, every other value is.
pub open spec fn is_truthy(value: Val) -> bool {
    match value {
        Val::Boolean(b) => b,
        Val::Null => false,
        _ => true,
    }
}

/// Whether a value is an error.
pub open spec fn is_error(value: Val) -> bool {
    value is Error
}

/// The value inside a returned value; any other value as it is.
pub open spec fn unwrap_return_value(value: Val) -> Val {
    match value {
        Val::Return(inner) => *inner,
        _ => value,
    }
}

/// Integers, booleans, strings and `null` can be keys of a dictionary.
pub open spec fn is_hashable(value: Val) -> bool {
    value is Integer || value is Boolean || value is String || value is Null
}

/// Whether two values have the same type tag.
pub open spec fn same_type(left: Val, right: Val) -> bool {
    match left {
        Val::Integer(_) => right is Integer,
        Val::Boolean(_) => right is Boolean,
        Val::Null => right is Null,
        Val::Return(_) => right is Return,
        Val::Error(_) => right is Error,
        Val::Function { .. } => right is Function,
        Val::String(_) => right is String,
        Val::Builtin(_) => right is Builtin,
        Val::Array(_) => right is Array,
        Val::Dict(_) => right is Dict,
    }
}

/// The error of a call with the wrong number of arguments.
pub open spec fn wrong_arity(got: int, want: int) -> Val {
    Val::Error("wrong number of arguments. got: "@ + decimal(got) + ", want: "@ + decimal(want))
}

/// The error of an infix operator that its operands do not support.
pub open spec fn unknown_operator(left: Val, operator: Seq<char>, right: Val) -> Val {
    Val::Error(
        "unknown operator: "@ + type_tag(left) + " "@ + operator + " "@ + type_tag(right),
    )
}

/// The error of an infix operator between values of two types.
pub open spec fn type_mismatch(left: Val, operator: Seq<char>, right: Val) -> Val {
    Val::Error("type mismatch: "@ + type_tag(left) + " "@ + operator + " "@ + type_tag(right))
}

/// The error of a name that nothing binds.
pub open spec fn identifier_not_found(name: Seq<char>) -> Val {
    Val::Error("identifier not found: "@ + name)
}

/// The error of a value that cannot be a key of a dictionary.
pub open spec fn unusable_key(key: Val) -> Val {
    Val::Error("unusable as hash key: "@ + type_tag(key))
}

/// The error of an arithmetic result that does not fit in 128 bits.
pub open spec fn overflow_error() -> Val {
    Val::Error("integer overflow"@)
}

/// An integer value, or the overflow error where the number does not fit.
pub open spec fn checked_integer(n: int) -> Val {
    if i128::MIN <= n <= i128::MAX {
        Val::Integer(n as i128)
    } else {
        overflow_error()
    }
}

/// The distance of a number from zero.
pub open spec fn magnitude(x: int) -> int {
    if x < 0 {
        -x
    } else {
        x
    }
}

/// The quotient of a division that rounds toward zero.
pub open spec fn truncated_quotient(x: int, d: int) -> int {
    if (x < 0) == (d < 0) {
        magnitude(x) / magnitude(d)
    } else {
        -(magnitude(x) / magnitude(d))
    }
}

/// The remainder of a division that rounds toward zero: it has the sign of
/// the dividend.
pub open spec fn truncated_remainder(x: int, d: int) -> int {
    if x < 0 {
        -(magnitude(x) % magnitude(d))
    } else {
        magnitude(x) % magnitude(d)
    }
}

/// `not <right>`: the negation of the truthiness of the operand.
pub open spec fn eval_not_operator(right: Val) -> Val {
    Val::Boolean(!is_truthy(right))
}

/// `-<right>`: the negation of an integer; an error for any other value.
pub open spec fn eval_minus_prefix_operator(right: Val) -> Val {
    match right {
        Val::Integer(n) => checked_integer(-(n as int)),
        other => Val::Error("unknown operator: -"@ + type_tag(other)),
    }
}

/// The value of a prefix expression whose operand has the value `right`.
pub open spec fn eval_prefix_expression(operator: Seq<char>, right: Val) -> Val {
    if operator == "not"@ {
        eval_not_operator(right)
    } else if operator == "-"@ {
        eval_minus_prefix_operator(right)
    } else {
        Val::Error("unknown operator: "@ + operator + " "@ + type_tag(right))
    }
}

/// The value of an infix expression between two integers. `+ - * / %`
/// give an integer, or an error where the result does not fit or the
/// divisor is zero; the comparisons give a boolean.
pub open spec fn eval_infix_integer_expression(left: i128, operator: Seq<char>, right: i128)
    -> Val {
    if operator == "+"@ {
        checked_integer(left + right)
    } else if operator == "-"@ {
        checked_integer(left - right)
    } else if operator == "*"@ {
        checked_integer(left * right)
    } else if operator == "/"@ {
        if right == 0 {
            Val::Error("division by zero"@)
        } else {
            checked_integer(truncated_quotient(left as int, right as int))
        }
    } else if operator == "%"@ {
        if right == 0 {
            Val::Error("division by zero"@)
        } else {
            checked_integer(truncated_remainder(left as int, right as int))
        }
    } else if operator == "<"@ {
        Val::Boolean(left < right)
    } else if operator == ">"@ {
        Val::Boolean(left > right)
    } else if operator == ">="@ {
        Val::Boolean(left >= right)
    } else if operator == "<="@ {
        Val::Boolean(left <= right)
    } else if operator == "=="@ {
        Val::Boolean(left == right)
    } else if operator == "!="@ {
        Val::Boolean(left != right)
    } else {
        unknown_operator(Val::Integer(left), operator, Val::Integer(right))
    }
}

/// The value of an infix expression between two strings: `+` joins them,
/// every other operator is an error.
pub open spec fn eval_infix_string_expression(
    left: Seq<char>,
    operator: Seq<char>,
    right: Seq<char>,
) -> Val {
    if operator == "+"@ {
        Val::String(left + right)
    } else {
        unknown_operator(Val::String(left), operator, Val::String(right))
    }
}

/// The value of an infix expression whose operands have the values `left`
/// and `right`. Values of two types do not mix; values of one type other
/// than integer and string support `==` and `!=`, which compare the
/// printed forms.
pub open spec fn eval_infix_expression(left: Val, operator: Seq<char>, right: Val) -> Val {
    match (left, right) {
        (Val::Integer(l), Val::Integer(r)) => eval_infix_integer_expression(l, operator, r),
        (Val::String(l), Val::String(r)) => eval_infix_string_expression(l, operator, r),
        _ => if !same_type(left, right) {
            type_mismatch(left, operator, right)
        } else if operator == "=="@ {
            Val::Boolean(inspect(left) == inspect(right))
        } else if operator == "!="@ {
            Val::Boolean(inspect(left) != inspect(right))
        } else {
            unknown_operator(left, operator, right)
        },
    }
}

/// The element of an array at an index, or the error of an index that is
/// negative or not less than the length.
pub open spec fn eval_array_index_expression(elements: Seq<Val>, index: i128) -> Val {
    if 0 <= index < elements.len() {
        elements[index as int]
    } else {
        Val::Error(
            "index: "@ + decimal(index as int) + " out of bounds: "@ + decimal(
                elements.len() as int,
            ),
        )
    }
}

/// The value of a key in a dictionary, `null` where the dictionary does
/// not hold the key, or the error of a key that cannot be hashed.
pub open spec fn eval_dictionary_index_expression(pairs: Seq<(Val, Val)>, index: Val) -> Val {
    if !is_hashable(index) {
        unusable_key(index)
    } else {
        match find(pairs, index) {
            Some(value) => value,
            None => Val::Null,
        }
    }
}

/// The value of an index expression: an array takes an integer, a
/// dictionary a hashable key, nothing else can be indexed.
pub open spec fn eval_index_expression(left: Val, index: Val) -> Val {
    match left {
        Val::Array(elements) => match index {
            Val::Integer(i) => eval_array_index_expression(elements, i),
            _ => Val::Error("index operator not supported: "@ + type_tag(left)),
        },
        Val::Dict(pairs) => eval_dictionary_index_expression(pairs, index),
        _ => Val::Error("index operator not supported: "@ + type_tag(left)),
    }
}

/// The error of a native function that does not take the given value.
pub open spec fn unsupported_argument(function: Seq<char>, value: Val) -> Val {
    Val::Error("argument to "@ + function + " not supported, got "@ + type_tag(value))
}

/// `len(x)`: the number of bytes of a string in UTF-8, or the number of
/// elements of an array.
pub open spec fn length(args: Seq<Val>) -> Val {
    if args.len() != 1 {
        wrong_arity(args.len() as int, 1)
    } else {
        match args[0] {
            Val::String(text) => checked_integer(encode_utf8(text).len() as int),
            Val::Array(elements) => checked_integer(elements.len() as int),
            other => unsupported_argument("len"@, other),
        }
    }
}

/// `first(x)`: the first character of a string, as a string, or the first
/// element of an array; `null` where there is none.
pub open spec fn first(args: Seq<Val>) -> Val {
    if args.len() != 1 {
        wrong_arity(args.len() as int, 1)
    } else {
        match args[0] {
            Val::String(text) => if text.len() > 0 {
                Val::String(seq![text[0]])
            } else {
                Val::Null
            },
            Val::Array(elements) => if elements.len() > 0 {
                elements[0]
            } else {
                Val::Null
            },
            other => unsupported_argument("first"@, other),
        }
    }
}

/// `last(x)`: the last character of a string, as a string, or the last
/// element of an array; `null` where there is none.
pub open spec fn last(args: Seq<Val>) -> Val {
    if args.len() != 1 {
        wrong_arity(args.len() as int, 1)
    } else {
        match args[0] {
            Val::String(text) => if text.len() > 0 {
                Val::String(seq![text[text.len() - 1]])
            } else {
                Val::Null
            },
            Val::Array(elements) => if elements.len() > 0 {
                elements[elements.len() - 1]
            } else {
                Val::Null
            },
            other => unsupported_argument("first"@, other),
        }
    }
}

/// `rest(x)`: a string or an array without its first character or
/// element; `null` where it is empty.
pub open spec fn rest(args: Seq<Val>) -> Val {
    if args.len() != 1 {
        wrong_arity(args.len() as int, 1)
    } else {
        match args[0] {
            Val::String(text) => if text.len() > 0 {
                Val::String(text.subrange(1, text.len() as int))
            } else {
                Val::Null
            },
            Val::Array(elements) => if elements.len() > 0 {
                Val::Array(elements.subrange(1, elements.len() as int))
            } else {
                Val::Null
            },
            other => unsupported_argument("first"@, other),
        }
    }
}

/// `push(array, value)`: a new array with the value added at the end.
pub open spec fn push(args: Seq<Val>) -> Val {
    if args.len() != 2 {
        wrong_arity(args.len() as int, 2)
    } else {
        match args[0] {
            Val::Array(elements) => Val::Array(elements.push(args[1])),
            other => unsupported_argument("first"@, other),
        }
    }
}

/// What a native function returns for the given arguments.
pub open spec fn apply_builtin(function: BuiltinFunction, args: Seq<Val>) -> Val {
    match function {
        BuiltinFunction::Len => length(args),
        BuiltinFunction::First => first(args),
        BuiltinFunction::Last => last(args),
        BuiltinFunction::Rest => rest(args),
        BuiltinFunction::Push => push(args),
    }
}

/// The native function of a name, or the error of a name that is not
/// found.
pub open spec fn get_builtin_function(name: Seq<char>) -> Val {
    if name == "len"@ {
        Val::Builtin(BuiltinFunction::Len)
    } else if name == "first"@ {
        Val::Builtin(BuiltinFunction::First)
    } else if name == "last"@ {
        Val::Builtin(BuiltinFunction::Last)
    } else if name == "rest"@ {
        Val::Builtin(BuiltinFunction::Rest)
    } else if name == "push"@ {
        Val::Builtin(BuiltinFunction::Push)
    } else {
        identifier_not_found(name)
    }
}

/// The value that a name stands for: what the environment binds it to,
/// else the native function of that name, else an error.
pub open spec fn eval_identifier(name: Seq<char>, env: EnvironmentView) -> Val {
    match env.get(name) {
        Some(value) => value,
        None => get_builtin_function(name),
    }
}

/// The operator that a compound assignment applies.
pub open spec fn operation_symbol(operation: Operation) -> Seq<char> {
    match operation {
        Operation::Sum => "+"@,
        Operation::Minus => "-"@,
        Operation::Mult => "*"@,
        Operation::Divide => "/"@,
        Operation::Assig => "="@,
    }
}

/// A value and the environment that evaluation left.
pub struct Outcome {
    pub value: Val,
    pub env: EnvironmentView,
}

/// The values of a list of expressions, or the first error among them, and
/// the environment that evaluation left.
pub struct ListOutcome {
    pub values: Seq<Val>,
    pub error: Option<Val>,
    pub env: EnvironmentView,
}

/// What the branches of an `if` that follow the first came to: whether one
/// was taken (or a condition failed), and the outcome so far.
pub struct BranchOutcome {
    pub taken: bool,
    pub outcome: Outcome,
}

/// What a call has to do once the function and the arguments are known:
/// evaluate a body in a new scope, or return a value at once.
pub enum CallPlan {
    Enter { body: Block, env: EnvironmentView },
    Done { value: Val },
}

/// The environment after the parameters from the `i`-th on are bound, one
/// by one, to the arguments at the same positions.
pub open spec fn bind_parameters(
    env: EnvironmentView,
    parameters: Seq<TokenView>,
    args: Seq<Val>,
    i: int,
) -> EnvironmentView
    decreases parameters.len() - i,
{
    if i < 0 || i >= parameters.len() || i >= args.len() {
        env
    } else {
        bind_parameters(env.set(parameters[i].literal(), args[i]), parameters, args, i + 1)
    }
}

/// The environment in which the body of a closure runs: a new scope inside
/// the scope that the closure captured, with the parameters bound to the
/// arguments.
pub open spec fn extended_function_env(
    env: EnvironmentView,
    parameters: Seq<TokenView>,
    captured: int,
    args: Seq<Val>,
) -> EnvironmentView {
    bind_parameters(env.enclose(captured), parameters, args, 0)
}

/// What calling `function` with `args` has to do. A closure needs at
/// least as many arguments as it has parameters; further arguments are
/// ignored. A native function returns at once, and anything else is not a
/// function.
pub open spec fn plan_call(function: Val, args: Seq<Val>, env: EnvironmentView) -> CallPlan {
    match function {
        Val::Function { parameters, body, env: captured } => if args.len() < parameters.len() {
            CallPlan::Done { value: wrong_arity(args.len() as int, parameters.len() as int) }
        } else {
            CallPlan::Enter { body, env: extended_function_env(env, parameters, captured, args) }
        },
        Val::Builtin(function) => CallPlan::Done { value: apply_builtin(function, args) },
        other => CallPlan::Done { value: Val::Error("not a function "@ + type_tag(other)) },
    }
}

/// The error of a call that nests deeper than the evaluator allows.
pub open spec fn depth_exceeded() -> Val {
    Val::Error("call depth exceeded"@)
}

/// The outcome of a call whose body evaluated to `body`: the value is
/// unwrapped if it was returned, and the scope of the caller is current
/// again.
pub open spec fn finish_call(body: Outcome, caller: int) -> Outcome {
    Outcome { value: unwrap_return_value(body.value), env: body.env.enter(caller) }
}

/// The outcome of rebinding `name` to the result of `operator` between its
/// present value and `operand`.
pub open spec fn rebind(name: Seq<char>, operator: Seq<char>, operand: Val, env: EnvironmentView)
    -> Outcome {
    match env.get(name) {
        None => Outcome { value: identifier_not_found(name), env },
        Some(present) => {
            let value = eval_infix_expression(present, operator, operand);
            if is_error(value) {
                Outcome { value, env }
            } else {
                Outcome { value, env: env.set(name, value) }
            }
        },
    }
}

/// The outcome of evaluating a node in an environment.
///
/// An error that a part of the node evaluates to is the value of the node,
/// and nothing after that part is evaluated.
pub open spec fn eval(node: Ast, env: EnvironmentView, depth: nat) -> Outcome
    decreases 2 * depth + 1, node, 0int,
{
    match node {
        Ast::Program { statements } => eval_program(statements, 0, Val::Null, env, depth),
        Ast::BlockStatement { block } => eval_statements(
            block.statements,
            0,
            Val::Null,
            env,
            depth,
        ),
        Ast::PrefixExpression { token, operator, right } => {
            let right = eval(*right, env, depth);
            if is_error(right.value) {
                right
            } else {
                Outcome { value: eval_prefix_expression(operator, right.value), env: right.env }
            }
        },
        Ast::InfixExpression { token, left, operator, right } => {
            let left = eval(*left, env, depth);
            if is_error(left.value) {
                left
            } else {
                let right = eval(*right, left.env, depth);
                if is_error(right.value) {
                    right
                } else {
                    Outcome {
                        value: eval_infix_expression(left.value, operator, right.value),
                        env: right.env,
                    }
                }
            }
        },
        Ast::IfExpression { token, condition, consequence, elifs, alternative } => {
            let condition = eval(*condition, env, depth);
            if is_error(condition.value) {
                condition
            } else if is_truthy(condition.value) {
                eval_statements(consequence.statements, 0, Val::Null, condition.env, depth)
            } else {
                let branch = eval_elifs(elifs, 0, condition.env, depth);
                if branch.taken {
                    branch.outcome
                } else {
                    match alternative {
                        Some(block) => eval_statements(
                            block.statements,
                            0,
                            Val::Null,
                            branch.outcome.env,
                            depth,
                        ),
                        None => Outcome { value: Val::Null, env: branch.outcome.env },
                    }
                }
            }
        },
        Ast::FunctionLiteral { token, parameters, body } => Outcome {
            value: Val::Function { parameters, body, env: env.current },
            env,
        },
        Ast::CallExpression { token, function, arguments } => {
            let function = eval(*function, env, depth);
            if is_error(function.value) {
                function
            } else {
                let args = eval_list_expressions(arguments, 0, Seq::empty(), function.env, depth);
                match args.error {
                    Some(error) => Outcome { value: error, env: args.env },
                    None => apply_function(function.value, args.values, args.env, depth),
                }
            }
        },
        Ast::LetStatement { token, name, value } => {
            let value = eval(*value, env, depth);
            if is_error(value.value) {
                value
            } else {
                Outcome { value: value.value, env: value.env.set(name.literal(), value.value) }
            }
        },
        Ast::ReturnStatement { token, return_value } => {
            let value = eval(*return_value, env, depth);
            if is_error(value.value) {
                value
            } else {
                Outcome { value: Val::Return(Box::new(value.value)), env: value.env }
            }
        },
        Ast::Identifier { token } => Outcome { value: eval_identifier(token.literal(), env), env },
        Ast::IntegerLiteral { token } => Outcome { value: Val::Integer(token.number), env },
        Ast::Boolean { token } => Outcome { value: Val::Boolean(token.flag), env },
        Ast::StringLiteral { token } => Outcome { value: Val::String(token.text), env },
        Ast::ArrayLiteral { token, elements } => {
            let list = eval_list_expressions(elements, 0, Seq::empty(), env, depth);
            match list.error {
                Some(error) => Outcome { value: error, env: list.env },
                None => Outcome { value: Val::Array(list.values), env: list.env },
            }
        },
        Ast::IndexExpression { token, left, index } => {
            let left = eval(*left, env, depth);
            if is_error(left.value) {
                left
            } else {
                let index = eval(*index, left.env, depth);
                if is_error(index.value) {
                    index
                } else {
                    Outcome {
                        value: eval_index_expression(left.value, index.value),
                        env: index.env,
                    }
                }
            }
        },
        Ast::DictLiteral { token, pairs } => eval_dict_literal(pairs, 0, Seq::empty(), env, depth),
        Ast::Assignation { token, name, value, operation } => {
            let value = eval(*value, env, depth);
            if is_error(value.value) {
                value
            } else if operation == Operation::Assig {
                Outcome { value: value.value, env: value.env.set(name.literal(), value.value) }
            } else {
                rebind(name.literal(), operation_symbol(operation), value.value, value.env)
            }
        },
        Ast::PostIncrement { token } => rebind(token.literal(), "+"@, Val::Integer(1), env),
        Ast::PostDecrement { token } => rebind(token.literal(), "-"@, Val::Integer(1), env),
        Ast::Break => Outcome { value: Val::Error("break outside of a loop"@), env },
    }
}

/// The outcome of the statements of a program from the `i`-th on, where
/// `last` is the value of the statement before. A returned value ends the
/// program and is unwrapped, an error ends it as it is, and the value of a
/// program that ends otherwise is that of its last statement (`null` for
/// an empty program).
pub open spec fn eval_program(
    statements: Seq<Ast>,
    i: int,
    last: Val,
    env: EnvironmentView,
    depth: nat,
) -> Outcome
    decreases 2 * depth + 1, statements, statements.len() - i,
{
    if i < 0 || i >= statements.len() {
        Outcome { value: last, env }
    } else {
        let step = eval(statements[i], env, depth);
        match step.value {
            Val::Return(inner) => Outcome { value: *inner, env: step.env },
            Val::Error(_) => step,
            _ => eval_program(statements, i + 1, step.value, step.env, depth),
        }
    }
}

/// The outcome of the statements of a block from the `i`-th on, where
/// `last` is the value of the statement before. A returned value and an
/// error end the block and stay as they are, so that the blocks around it
/// end too.
pub open spec fn eval_statements(
    statements: Seq<Ast>,
    i: int,
    last: Val,
    env: EnvironmentView,
    depth: nat,
) -> Outcome
    decreases 2 * depth + 1, statements, statements.len() - i,
{
    if i < 0 || i >= statements.len() {
        Outcome { value: last, env }
    } else {
        let step = eval(statements[i], env, depth);
        if step.value is Return || step.value is Error {
            step
        } else {
            eval_statements(statements, i + 1, step.value, step.env, depth)
        }
    }
}

/// The values of the expressions from the `i`-th on, from left to right,
/// after the values `values` of those before; the first error ends the
/// list.
pub open spec fn eval_list_expressions(
    nodes: Seq<Ast>,
    i: int,
    values: Seq<Val>,
    env: EnvironmentView,
    depth: nat,
) -> ListOutcome
    decreases 2 * depth + 1, nodes, nodes.len() - i,
{
    if i < 0 || i >= nodes.len() {
        ListOutcome { values, error: None, env }
    } else {
        let step = eval(nodes[i], env, depth);
        if is_error(step.value) {
            ListOutcome { values, error: Some(step.value), env: step.env }
        } else {
            eval_list_expressions(nodes, i + 1, values.push(step.value), step.env, depth)
        }
    }
}

/// The branches of an `if` from the `i`-th on, in order: the first whose
/// condition is truthy is taken, and a condition that is an error ends the
/// search with that error.
pub open spec fn eval_elifs(elifs: Seq<(Ast, Block)>, i: int, env: EnvironmentView, depth: nat)
    -> BranchOutcome
    decreases 2 * depth + 1, elifs, elifs.len() - i,
{
    if i < 0 || i >= elifs.len() {
        BranchOutcome { taken: false, outcome: Outcome { value: Val::Null, env } }
    } else {
        let condition = eval(elifs[i].0, env, depth);
        if is_error(condition.value) {
            BranchOutcome { taken: true, outcome: condition }
        } else if is_truthy(condition.value) {
            BranchOutcome {
                taken: true,
                outcome: eval_statements(elifs[i].1.statements, 0, Val::Null, condition.env, depth),
            }
        } else {
            eval_elifs(elifs, i + 1, condition.env, depth)
        }
    }
}

/// The dictionary of the pairs from the `i`-th on, after the entries
/// `entries` of those before. Of each pair the key is evaluated first and
/// must be hashable, then the value; an error in a value ends the literal.
pub open spec fn eval_dict_literal(
    pairs: Seq<(Ast, Ast)>,
    i: int,
    entries: Seq<(Val, Val)>,
    env: EnvironmentView,
    depth: nat,
) -> Outcome
    decreases 2 * depth + 1, pairs, pairs.len() - i,
{
    if i < 0 || i >= pairs.len() {
        Outcome { value: Val::Dict(entries), env }
    } else {
        let key = eval(pairs[i].0, env, depth);
        if !is_hashable(key.value) {
            Outcome { value: unusable_key(key.value), env: key.env }
        } else {
            let value = eval(pairs[i].1, key.env, depth);
            if is_error(value.value) {
                value
            } else {
                eval_dict_literal(
                    pairs,
                    i + 1,
                    bind(entries, key.value, value.value),
                    value.env,
                    depth,
                )
            }
        }
    }
}

/// The outcome of calling `function` with `args`: see [`plan_call`] and
/// [`finish_call`]. The body of a closure is evaluated with one call less
/// left to nest, and a call made when none is left is an error.
pub open spec fn apply_function(function: Val, args: Seq<Val>, env: EnvironmentView, depth: nat)
    -> Outcome
    decreases 2 * depth,
{
    match plan_call(function, args, env) {
        CallPlan::Enter { body, env: inner } => if depth == 0 {
            Outcome { value: depth_exceeded(), env }
        } else {
            finish_call(
                eval_statements(body.statements, 0, Val::Null, inner, (depth - 1) as nat),
                env.current,
            )
        },
        CallPlan::Done { value } => Outcome { value, env },
    }
}

} // verus!
