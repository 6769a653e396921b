//! The native functions of the language and the registry that finds them by
//! name. They return values, error values included, and never fail.

use crate::object::{
    clone_values, value_view, values_view, Array, Builtin, BuiltinFunction, Error, Integer,
    ObjectType, StringObject,
};
use crate::semantics;
use crate::text::{push_char, same_text, unsigned_decimal_string};
use vstd::prelude::*;
use vstd::string::*;

verus! {

/// An error value with the given message.
pub fn new_error(message: String) -> (value: ObjectType)
    ensures
        value@ == semantics::new_error(message@),
{
    ObjectType::Error(Error { message })
}

/// The error of a call with the wrong number of arguments.
pub fn wrong_arity(got: usize, want: usize) -> (value: ObjectType)
    ensures
        value@ == semantics::wrong_arity(got as int, want as int),
{
    let mut message = String::from_str("wrong number of arguments. got: ");
    message.append(unsigned_decimal_string(got).as_str());
    message.append(", want: ");
    message.append(unsigned_decimal_string(want).as_str());
    new_error(message)
}

/// The error of a native function that does not take the given value.
fn unsupported_argument(function: &str, value: &ObjectType) -> (error: ObjectType)
    ensures
        error@ == semantics::unsupported_argument(function@, value@),
{
    let mut message = String::from_str("argument to ");
    message.append(function);
    message.append(" not supported, got ");
    message.append(value.tag_text());
    new_error(message)
}

/// An integer value that holds a length.
fn length_value(n: usize) -> (value: ObjectType)
    ensures
        value@ == semantics::checked_integer(n as int),
{
    ObjectType::Integer(Integer { value: n as i128 })
}

/// Copies of the values from the index `start` on.
fn clone_values_from(values: &Vec<ObjectType>, start: usize) -> (out: Vec<ObjectType>)
    requires
        start <= values.len(),
    ensures
        values_view(out@) == values_view(values@).subrange(start as int, values.len() as int),
{
    let mut out: Vec<ObjectType> = Vec::new();
    let mut i: usize = start;
    while i < values.len()
        invariant
            start <= i <= values.len(),
            out.len() == i - start,
            forall|j: int| 0 <= j < i - start ==> value_view(out@[j]) == value_view(values@[start + j]),
        decreases values.len() - i,
    {
        out.push(values[i].clone());
        i += 1;
    }
    assert(values_view(out@) =~= values_view(values@).subrange(
        start as int,
        values.len() as int,
    ));
    out
}

/// The native function of a name, or the error of a name that is not
/// found.
pub fn get_builtin_function(id: &str) -> (value: ObjectType)
    ensures
        value@ == semantics::get_builtin_function(id@),
{
    if same_text(id, "len") {
        ObjectType::Builtin(Builtin { function: BuiltinFunction::Len })
    } else if same_text(id, "first") {
        ObjectType::Builtin(Builtin { function: BuiltinFunction::First })
    } else if same_text(id, "last") {
        ObjectType::Builtin(Builtin { function: BuiltinFunction::Last })
    } else if same_text(id, "rest") {
        ObjectType::Builtin(Builtin { function: BuiltinFunction::Rest })
    } else if same_text(id, "push") {
        ObjectType::Builtin(Builtin { function: BuiltinFunction::Push })
    } else {
        let mut message = String::from_str("identifier not found: ");
        message.append(id);
        new_error(message)
    }
}

/// `len(x)`: the number of bytes of a string, or of elements of an array.
pub fn length(args: Vec<ObjectType>) -> (value: ObjectType)
    ensures
        value@ == semantics::length(values_view(args@)),
{
    if args.len() != 1 {
        return wrong_arity(args.len(), 1);
    }
    assert(values_view(args@)[0] == value_view(args@[0]));
    match &args[0] {
        ObjectType::String(s) => length_value(s.value.as_str().as_bytes().len()),
        ObjectType::Array(a) => {
            assert(values_view(a.elements@).len() == a.elements.len());
            length_value(a.elements.len())
        },
        other => unsupported_argument("len", other),
    }
}

/// `first(x)`: the first character of a string or element of an array.
pub fn first(args: Vec<ObjectType>) -> (value: ObjectType)
    ensures
        value@ == semantics::first(values_view(args@)),
{
    if args.len() != 1 {
        return wrong_arity(args.len(), 1);
    }
    assert(values_view(args@)[0] == value_view(args@[0]));
    match &args[0] {
        ObjectType::String(s) => {
            let text = s.value.as_str();
            if text.is_empty() {
                ObjectType::Null
            } else {
                let mut out = String::new();
                push_char(&mut out, text.get_char(0));
                assert(out@ =~= seq![text@[0]]);
                ObjectType::String(StringObject { value: out })
            }
        },
        ObjectType::Array(a) => {
            assert(values_view(a.elements@).len() == a.elements.len());
            if a.elements.len() > 0 {
                assert(values_view(a.elements@)[0] == value_view(a.elements@[0]));
                a.elements[0].clone()
            } else {
                ObjectType::Null
            }
        },
        other => unsupported_argument("first", other),
    }
}

/// `last(x)`: the last character of a string or element of an array.
pub fn last(args: Vec<ObjectType>) -> (value: ObjectType)
    ensures
        value@ == semantics::last(values_view(args@)),
{
    if args.len() != 1 {
        return wrong_arity(args.len(), 1);
    }
    assert(values_view(args@)[0] == value_view(args@[0]));
    match &args[0] {
        ObjectType::String(s) => {
            let text = s.value.as_str();
            let n = text.unicode_len();
            if n == 0 {
                ObjectType::Null
            } else {
                let mut out = String::new();
                push_char(&mut out, text.get_char(n - 1));
                assert(out@ =~= seq![text@[n - 1]]);
                ObjectType::String(StringObject { value: out })
            }
        },
        ObjectType::Array(a) => {
            let n = a.elements.len();
            assert(values_view(a.elements@).len() == n);
            if n > 0 {
                assert(values_view(a.elements@)[n - 1] == value_view(a.elements@[n - 1]));
                a.elements[n - 1].clone()
            } else {
                ObjectType::Null
            }
        },
        other => unsupported_argument("first", other),
    }
}

/// `rest(x)`: a string or an array without its first character or element.
pub fn rest(args: Vec<ObjectType>) -> (value: ObjectType)
    ensures
        value@ == semantics::rest(values_view(args@)),
{
    if args.len() != 1 {
        return wrong_arity(args.len(), 1);
    }
    assert(values_view(args@)[0] == value_view(args@[0]));
    match &args[0] {
        ObjectType::String(s) => {
            let text = s.value.as_str();
            let n = text.unicode_len();
            if n == 0 {
                ObjectType::Null
            } else {
                ObjectType::String(
                    StringObject { value: String::from_str(text.substring_char(1, n)) },
                )
            }
        },
        ObjectType::Array(a) => {
            assert(values_view(a.elements@).len() == a.elements.len());
            if a.elements.len() > 0 {
                ObjectType::Array(Array { elements: clone_values_from(&a.elements, 1) })
            } else {
                ObjectType::Null
            }
        },
        other => unsupported_argument("first", other),
    }
}

/// `push(array, value)`: a new array with the value added at the end.
pub fn push(args: Vec<ObjectType>) -> (value: ObjectType)
    ensures
        value@ == semantics::push(values_view(args@)),
{
    if args.len() != 2 {
        return wrong_arity(args.len(), 2);
    }
    assert(values_view(args@)[0] == value_view(args@[0]));
    assert(values_view(args@)[1] == value_view(args@[1]));
    match &args[0] {
        ObjectType::Array(a) => {
            let mut elements = clone_values(&a.elements);
            elements.push(args[1].clone());
            assert(values_view(elements@) =~= values_view(a.elements@).push(value_view(args@[1])));
            ObjectType::Array(Array { elements })
        },
        other => unsupported_argument("first", other),
    }
}

/// Calls a native function with the given arguments.
pub fn apply_builtin(function: BuiltinFunction, args: Vec<ObjectType>) -> (value: ObjectType)
    ensures
        value@ == semantics::apply_builtin(function, values_view(args@)),
{
    match function {
        BuiltinFunction::Len => length(args),
        BuiltinFunction::First => first(args),
        BuiltinFunction::Last => last(args),
        BuiltinFunction::Rest => rest(args),
        BuiltinFunction::Push => push(args),
    }
}

} // verus!
