//! Laws of the language: what holds of every value, every tree and every
//! call, proved from the specification functions that the contracts of the
//! library are stated in.

use crate::assoc::find;
use crate::ast::{render, Ast};
use crate::environment::{lemma_get_after_set, EnvironmentView};
use crate::object::{type_tag, Val};
use crate::semantics::{
    apply_function, eval, eval_identifier, eval_index_expression, eval_infix_integer_expression,
    eval_not_operator, first, is_hashable, is_truthy, last, length, push, rest, Outcome,
};
use crate::text::decimal;
use crate::token::TokenView;
use vstd::prelude::*;
use vstd::utf8::encode_utf8;

pub mod numerals;
pub mod parsing;
pub mod round_trip;
pub mod strings;
pub mod tokens_left;
pub mod words;

verus! {

/// The text of an infix expression is the texts of its operands around the
/// operator, in parentheses; that of a prefix expression is the operator
/// before the text of its operand, in parentheses.
pub proof fn law_operators_are_grouped(
    token: TokenView,
    left: Ast,
    operator: Seq<char>,
    right: Ast,
)
    ensures
        render(
            Ast::InfixExpression {
                token,
                left: Box::new(left),
                operator,
                right: Box::new(right),
            },
        ) == "("@ + render(left) + " "@ + operator + " "@ + render(right) + ")"@,
        render(Ast::PrefixExpression { token, operator, right: Box::new(right) }) == "("@
            + operator + render(right) + ")"@,
{
}

/// Negating a value twice gives a boolean with the truthiness of the
/// value.
pub proof fn law_not_not(value: Val)
    ensures
        is_truthy(eval_not_operator(eval_not_operator(value))) == is_truthy(value),
        eval_not_operator(eval_not_operator(value)) == Val::Boolean(is_truthy(value)),
{
}

/// The UTF-8 encoding of two texts joined is the encodings joined.
pub proof fn lemma_encoding_of_joined_texts(s: Seq<char>, t: Seq<char>)
    ensures
        encode_utf8(s + t) == encode_utf8(s) + encode_utf8(t),
    decreases s.len(),
{
    if s.len() == 0 {
        assert(s + t =~= t);
        assert(encode_utf8(s) + encode_utf8(t) =~= encode_utf8(t));
    } else {
        assert((s + t).drop_first() =~= s.drop_first() + t);
        lemma_encoding_of_joined_texts(s.drop_first(), t);
        assert(encode_utf8(s + t) =~= encode_utf8(s) + encode_utf8(t));
    }
}

/// The length of the empty string is zero, and the length of two strings
/// joined is the sum of their lengths.
pub proof fn law_len_of_strings(s: Seq<char>, t: Seq<char>)
    requires
        encode_utf8(s + t).len() <= i128::MAX,
    ensures
        length(seq![Val::String(Seq::empty())]) == Val::Integer(0),
        length(seq![Val::String(s)]) is Integer,
        length(seq![Val::String(t)]) is Integer,
        eval_infix_integer_expression(
            length(seq![Val::String(s)])->Integer_0,
            "+"@,
            length(seq![Val::String(t)])->Integer_0,
        ) == length(seq![Val::String(s + t)]),
{
    lemma_encoding_of_joined_texts(s, t);
    assert(encode_utf8(Seq::<char>::empty()).len() == 0);
}

/// `first` of an array that starts with `x` is `x`, and `rest` of it is
/// the array of what follows `x`.
pub proof fn law_first_and_rest(x: Val, others: Seq<Val>)
    ensures
        first(seq![Val::Array(seq![x] + others)]) == x,
        rest(seq![Val::Array(seq![x] + others)]) == Val::Array(others),
{
    let all = seq![x] + others;
    assert(all.subrange(1, all.len() as int) =~= others);
}

/// `push` yields an array that is one longer than the array it was given
/// and ends with the value that was pushed.
pub proof fn law_push(elements: Seq<Val>, value: Val)
    requires
        elements.len() < i128::MAX,
    ensures
        push(seq![Val::Array(elements), value]) == Val::Array(elements.push(value)),
        length(seq![push(seq![Val::Array(elements), value])]) == Val::Integer(
            (elements.len() + 1) as i128,
        ),
        length(seq![Val::Array(elements)]) == Val::Integer(elements.len() as i128),
        last(seq![push(seq![Val::Array(elements), value])]) == value,
{
}

/// An index that is negative, or not less than the length of the array,
/// gives the out-of-bounds error with the index and the length.
pub proof fn law_index_out_of_range(elements: Seq<Val>, index: i128)
    requires
        index < 0 || index >= elements.len(),
    ensures
        eval_index_expression(Val::Array(elements), Val::Integer(index)) == Val::Error(
            "index: "@ + decimal(index as int) + " out of bounds: "@ + decimal(
                elements.len() as int,
            ),
        ),
{
}

/// An index inside the array gives the element there.
pub proof fn law_index_in_range(elements: Seq<Val>, index: i128)
    requires
        0 <= index < elements.len(),
    ensures
        eval_index_expression(Val::Array(elements), Val::Integer(index)) == elements[index as int],
{
}

/// A hashable key that a dictionary does not hold gives `null`, not an
/// error.
pub proof fn law_dict_miss(pairs: Seq<(Val, Val)>, key: Val)
    requires
        is_hashable(key),
        find(pairs, key) is None,
    ensures
        eval_index_expression(Val::Dict(pairs), key) == Val::Null,
{
}

/// A key that cannot be hashed gives the error that names its type, which
/// is one of six.
pub proof fn law_unhashable_key(pairs: Seq<(Val, Val)>, key: Val)
    requires
        !is_hashable(key),
    ensures
        eval_index_expression(Val::Dict(pairs), key) == Val::Error(
            "unusable as hash key: "@ + type_tag(key),
        ),
        type_tag(key) == "FUNCTION"@ || type_tag(key) == "ERROR"@ || type_tag(key) == "ARRAY"@
            || type_tag(key) == "BUILTIN"@ || type_tag(key) == "RETURN"@ || type_tag(key)
            == "DICT"@,
{
}

/// Calling a value that is neither a closure nor a native function gives
/// the error that names its type, and leaves the environment as it is.
pub proof fn law_not_a_function(
    function: Val,
    args: Seq<Val>,
    env: EnvironmentView,
    depth: nat,
)
    requires
        !(function is Function),
        !(function is Builtin),
    ensures
        apply_function(function, args, env, depth) == (Outcome {
            value: Val::Error("not a function "@ + type_tag(function)),
            env,
        }),
{
}

/// After a `let` whose value is no error, the name stands for the value.
pub proof fn law_let_binds(
    token: TokenView,
    name: TokenView,
    value: Ast,
    env: EnvironmentView,
    depth: nat,
)
    requires
        eval(value, env, depth).env.wf(),
        !(eval(value, env, depth).value is Error),
    ensures
        eval(Ast::LetStatement { token, name, value: Box::new(value) }, env, depth).value == eval(
            value,
            env,
            depth,
        ).value,
        eval(
            Ast::Identifier { token: name },
            eval(Ast::LetStatement { token, name, value: Box::new(value) }, env, depth).env,
            depth,
        ).value == eval(value, env, depth).value,
{
    let bound = eval(value, env, depth);
    lemma_get_after_set(bound.env, name.literal(), bound.value);
    let after = eval(Ast::LetStatement { token, name, value: Box::new(value) }, env, depth);
    assert(after.env == bound.env.set(name.literal(), bound.value));
    assert(eval(Ast::Identifier { token: name }, after.env, depth).value == eval_identifier(
        name.literal(),
        after.env,
    ));
}

/// Dividing by zero gives an error value, whatever the dividend.
pub proof fn law_division_by_zero(left: i128)
    ensures
        eval_infix_integer_expression(left, "/"@, 0) is Error,
        eval_infix_integer_expression(left, "%"@, 0) is Error,
{
    reveal_strlit("+");
    reveal_strlit("-");
    reveal_strlit("*");
    reveal_strlit("/");
    reveal_strlit("%");
    assert("/"@ != "+"@) by {
        assert("/"@[0] != "+"@[0]);
    }
    assert("/"@ != "-"@) by {
        assert("/"@[0] != "-"@[0]);
    }
    assert("/"@ != "*"@) by {
        assert("/"@[0] != "*"@[0]);
    }
    assert("%"@ != "+"@) by {
        assert("%"@[0] != "+"@[0]);
    }
    assert("%"@ != "-"@) by {
        assert("%"@[0] != "-"@[0]);
    }
    assert("%"@ != "*"@) by {
        assert("%"@[0] != "*"@[0]);
    }
    assert("%"@ != "/"@) by {
        assert("%"@[0] != "/"@[0]);
    }
}

} // verus!
