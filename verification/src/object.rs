//! The values that evaluation produces, their type tags and their printed
//! form.
//!
//! Each value has a mathematical model, [`Val`]. What `object_type` and
//! `inspect` return is stated over that model by [`type_tag`] and
//! [`inspect`].

use crate::ast::{
    block_view, parameters_view, render_all, render_parameters, Block, BlockStatement, Identifier,
};
use crate::copy::clone_parameters;
use crate::render::render_parameter_list;
use crate::text::{decimal, signed_decimal_string};
use crate::token::TokenView;
pub use crate::traits::Object;
use vstd::prelude::*;
use vstd::string::*;

verus! {

/// The native functions of the language.
#[derive(Clone, Copy, Debug, PartialEq, Eq, Structural, Hash)]
pub enum BuiltinFunction {
    Len,
    First,
    Last,
    Rest,
    Push,
}

/// An integer value.
#[derive(Debug, PartialEq, Eq, Hash)]
pub struct Integer {
    pub value: i128,
}

/// A truth value.
#[derive(Debug, PartialEq, Eq, Hash)]
pub struct Boolean {
    pub value: bool,
}

/// The absent value.
#[derive(Debug, PartialEq, Eq, Hash)]
pub struct Null {}

/// A string value.
#[derive(Debug, PartialEq, Eq, Hash)]
pub struct StringObject {
    pub value: String,
}

/// A value on its way out of the function that returned it.
#[derive(Debug, PartialEq, Eq, Hash)]
pub struct ReturnValue {
    pub value: Box<ObjectType>,
}

/// A runtime error.
#[derive(Debug, PartialEq, Eq, Hash)]
pub struct Error {
    pub message: String,
}

/// A closure: the parameters and the body of a function literal, and the
/// scope in which the literal was evaluated.
#[derive(Debug, PartialEq, Eq, Hash)]
pub struct Function {
    pub parameters: Vec<Identifier>,
    pub body: BlockStatement,
    pub env: usize,
}

/// A native function.
#[derive(Debug, PartialEq, Eq, Hash)]
pub struct Builtin {
    pub function: BuiltinFunction,
}

/// An array value.
#[derive(Debug, PartialEq, Eq, Hash)]
pub struct Array {
    pub elements: Vec<ObjectType>,
}

/// A dictionary value: its pairs in the order in which their keys were
/// first inserted, no key twice.
#[derive(Debug, PartialEq, Eq, Hash)]
pub struct Dict {
    pub pairs: Vec<(ObjectType, ObjectType)>,
}

/// A value of the language.
#[derive(Debug, PartialEq, Eq, Hash)]
pub enum ObjectType {
    Integer(Integer),
    Boolean(Boolean),
    Null,
    Return(ReturnValue),
    Error(Error),
    Function(Function),
    String(StringObject),
    Builtin(Builtin),
    Array(Array),
    Dict(Dict),
}

/// The model of a value.
pub enum Val {
    Integer(i128),
    Boolean(bool),
    Null,
    Return(Box<Val>),
    Error(Seq<char>),
    Function { parameters: Seq<TokenView>, body: Block, env: int },
    String(Seq<char>),
    Builtin(BuiltinFunction),
    Array(Seq<Val>),
    Dict(Seq<(Val, Val)>),
}

/// The model of a value.
pub open spec fn value_view(value: ObjectType) -> Val
    decreases value,
{
    match value {
        ObjectType::Integer(v) => Val::Integer(v.value),
        ObjectType::Boolean(v) => Val::Boolean(v.value),
        ObjectType::Null => Val::Null,
        ObjectType::Return(v) => Val::Return(Box::new(value_view(*v.value))),
        ObjectType::Error(v) => Val::Error(v.message@),
        ObjectType::Function(v) => Val::Function {
            parameters: parameters_view(v.parameters@),
            body: block_view(v.body),
            env: v.env as int,
        },
        ObjectType::String(v) => Val::String(v.value@),
        ObjectType::Builtin(v) => Val::Builtin(v.function),
        ObjectType::Array(v) => Val::Array(values_view(v.elements@)),
        ObjectType::Dict(v) => Val::Dict(entries_view(v.pairs@)),
    }
}

/// The models of a sequence of values.
pub open spec fn values_view(values: Seq<ObjectType>) -> Seq<Val>
    decreases values,
{
    Seq::new(
        values.len(),
        |i: int|
            if 0 <= i < values.len() {
                value_view(values[i])
            } else {
                Val::Null
            },
    )
}

/// The models of the pairs of a dictionary.
pub open spec fn entries_view(pairs: Seq<(ObjectType, ObjectType)>) -> Seq<(Val, Val)>
    decreases pairs,
{
    Seq::new(
        pairs.len(),
        |i: int|
            if 0 <= i < pairs.len() {
                (value_view(pairs[i].0), value_view(pairs[i].1))
            } else {
                (Val::Null, Val::Null)
            },
    )
}

/// The type tag of a value.
pub open spec fn type_tag(value: Val) -> Seq<char> {
    match value {
        Val::Integer(_) => "INTEGER"@,
        Val::Boolean(_) => "BOOLEAN"@,
        Val::Null => "NULL"@,
        Val::Return(_) => "RETURN"@,
        Val::Error(_) => "ERROR"@,
        Val::Function { .. } => "FUNCTION"@,
        Val::String(_) => "STRING"@,
        Val::Builtin(_) => "BUILTIN"@,
        Val::Array(_) => "ARRAY"@,
        Val::Dict(_) => "DICT"@,
    }
}

/// The printed forms of the first `n` values, separated by a comma and a
/// space.
pub open spec fn inspect_list(values: Seq<Val>, n: int) -> Seq<char>
    decreases values, n,
{
    if n <= 0 || n > values.len() {
        Seq::empty()
    } else if n == 1 {
        inspect(values[0])
    } else {
        inspect_list(values, n - 1) + ", "@ + inspect(values[n - 1])
    }
}

/// The printed forms of the first `n` pairs of a dictionary, each as
/// `key: value`, separated by a comma and a space.
pub open spec fn inspect_pairs(pairs: Seq<(Val, Val)>, n: int) -> Seq<char>
    decreases pairs, n,
{
    if n <= 0 || n > pairs.len() {
        Seq::empty()
    } else if n == 1 {
        inspect(pairs[0].0) + ": "@ + inspect(pairs[0].1)
    } else {
        inspect_pairs(pairs, n - 1) + ", "@ + inspect(pairs[n - 1].0) + ": "@ + inspect(
            pairs[n - 1].1,
        )
    }
}

/// The printed form of a value: an integer in decimal, `true` or `false`,
/// `null`, the characters of a string, `[e1, e2]`, `{k1: v1, k2: v2}`,
/// `fn(params) {body}`, `BUILTIN`, `ERROR: ` and the message, and for a
/// returned value the form of the value inside.
pub open spec fn inspect(value: Val) -> Seq<char>
    decreases value, 0int,
{
    match value {
        Val::Integer(n) => decimal(n as int),
        Val::Boolean(b) => if b {
            "true"@
        } else {
            "false"@
        },
        Val::Null => "null"@,
        Val::Return(inner) => inspect(*inner),
        Val::Error(message) => "ERROR: "@ + message,
        Val::Function { parameters, body, env } => "fn("@ + render_parameters(
            parameters,
            parameters.len() as int,
        ) + ") {"@ + render_all(body.statements, body.statements.len() as int) + "}"@,
        Val::String(text) => text,
        Val::Builtin(_) => "BUILTIN"@,
        Val::Array(elements) => "["@ + inspect_list(elements, elements.len() as int) + "]"@,
        Val::Dict(pairs) => "{"@ + inspect_pairs(pairs, pairs.len() as int) + "}"@,
    }
}

impl View for ObjectType {
    type V = Val;

    open spec fn view(&self) -> Val {
        value_view(*self)
    }
}

impl View for Integer {
    type V = Val;

    open spec fn view(&self) -> Val {
        Val::Integer(self.value)
    }
}

impl View for Boolean {
    type V = Val;

    open spec fn view(&self) -> Val {
        Val::Boolean(self.value)
    }
}

impl View for Null {
    type V = Val;

    open spec fn view(&self) -> Val {
        Val::Null
    }
}

impl View for StringObject {
    type V = Val;

    open spec fn view(&self) -> Val {
        Val::String(self.value@)
    }
}

impl View for ReturnValue {
    type V = Val;

    open spec fn view(&self) -> Val {
        value_view(ObjectType::Return(*self))
    }
}

impl View for Error {
    type V = Val;

    open spec fn view(&self) -> Val {
        Val::Error(self.message@)
    }
}

impl View for Function {
    type V = Val;

    open spec fn view(&self) -> Val {
        value_view(ObjectType::Function(*self))
    }
}

impl View for Builtin {
    type V = Val;

    open spec fn view(&self) -> Val {
        Val::Builtin(self.function)
    }
}

impl View for Array {
    type V = Val;

    open spec fn view(&self) -> Val {
        value_view(ObjectType::Array(*self))
    }
}

impl View for Dict {
    type V = Val;

    open spec fn view(&self) -> Val {
        value_view(ObjectType::Dict(*self))
    }
}

/// Copies of the values, in order.
#[verifier::loop_isolation(false)]
pub fn clone_values(values: &Vec<ObjectType>) -> (out: Vec<ObjectType>)
    ensures
        values_view(out@) == values_view(values@),
    decreases values,
{
    let mut out: Vec<ObjectType> = Vec::new();
    let mut i: usize = 0;
    while i < values.len()
        invariant
            i <= values.len(),
            out.len() == i,
            forall|j: int| 0 <= j < i ==> value_view(out@[j]) == value_view(values@[j]),
        decreases values.len() - i,
    {
        out.push(values[i].clone());
        i += 1;
    }
    assert(values_view(out@) =~= values_view(values@));
    out
}

/// The printed forms of the values, separated by a comma and a space.
#[verifier::loop_isolation(false)]
fn inspect_values(values: &Vec<ObjectType>) -> (out: String)
    ensures
        out@ == inspect_list(values_view(values@), values.len() as int),
    decreases values,
{
    let mut out = String::new();
    let mut i: usize = 0;
    while i < values.len()
        invariant
            i <= values.len(),
            out@ == inspect_list(values_view(values@), i as int),
        decreases values.len() - i,
    {
        if i > 0 {
            out.append(", ");
        }
        let text = values[i].inspect();
        out.append(text.as_str());
        i += 1;
        assert(out@ =~= inspect_list(values_view(values@), i as int));
    }
    out
}

impl ObjectType {
    /// The type tag of the value.
    pub fn object_type(&self) -> (tag: String)
        ensures
            tag@ == type_tag(self@),
    {
        String::from_str(self.tag_text())
    }

    /// The type tag of the value, as a string slice.
    pub fn tag_text(&self) -> (tag: &'static str)
        ensures
            tag@ == type_tag(self@),
    {
        match self {
            ObjectType::Integer(_) => "INTEGER",
            ObjectType::Boolean(_) => "BOOLEAN",
            ObjectType::Null => "NULL",
            ObjectType::Return(_) => "RETURN",
            ObjectType::Error(_) => "ERROR",
            ObjectType::Function(_) => "FUNCTION",
            ObjectType::String(_) => "STRING",
            ObjectType::Builtin(_) => "BUILTIN",
            ObjectType::Array(_) => "ARRAY",
            ObjectType::Dict(_) => "DICT",
        }
    }

    /// The printed form of the value.
    pub fn inspect(&self) -> (out: String)
        ensures
            out@ == inspect(self@),
        decreases self,
    {
        match self {
            ObjectType::Integer(v) => v.inspect(),
            ObjectType::Boolean(v) => v.inspect(),
            ObjectType::Null => String::from_str("null"),
            ObjectType::Return(v) => v.inspect(),
            ObjectType::Error(v) => v.inspect(),
            ObjectType::Function(v) => v.inspect(),
            ObjectType::String(v) => v.inspect(),
            ObjectType::Builtin(v) => v.inspect(),
            ObjectType::Array(v) => v.inspect(),
            ObjectType::Dict(v) => v.inspect(),
        }
    }

    /// A copy of the value and of everything inside it.
    pub fn clone(&self) -> (copy: ObjectType)
        ensures
            copy@ == self@,
        decreases self,
    {
        match self {
            ObjectType::Integer(v) => ObjectType::Integer(v.clone()),
            ObjectType::Boolean(v) => ObjectType::Boolean(v.clone()),
            ObjectType::Null => ObjectType::Null,
            ObjectType::Return(v) => ObjectType::Return(v.clone()),
            ObjectType::Error(v) => ObjectType::Error(v.clone()),
            ObjectType::Function(v) => ObjectType::Function(v.clone()),
            ObjectType::String(v) => ObjectType::String(v.clone()),
            ObjectType::Builtin(v) => ObjectType::Builtin(v.clone()),
            ObjectType::Array(v) => ObjectType::Array(v.clone()),
            ObjectType::Dict(v) => ObjectType::Dict(v.clone()),
        }
    }
}

impl Integer {
    /// `INTEGER`.
    pub fn object_type(&self) -> (tag: String)
        ensures
            tag@ == type_tag(self@),
    {
        String::from_str("INTEGER")
    }

    /// The decimal form of the number.
    pub fn inspect(&self) -> (out: String)
        ensures
            out@ == inspect(self@),
    {
        signed_decimal_string(self.value)
    }

    /// A copy of the value.
    pub fn clone(&self) -> (copy: Integer)
        ensures
            copy@ == self@,
    {
        Integer { value: self.value }
    }
}

impl Boolean {
    /// `BOOLEAN`.
    pub fn object_type(&self) -> (tag: String)
        ensures
            tag@ == type_tag(self@),
    {
        String::from_str("BOOLEAN")
    }

    /// `true` or `false`.
    pub fn inspect(&self) -> (out: String)
        ensures
            out@ == inspect(self@),
    {
        if self.value {
            String::from_str("true")
        } else {
            String::from_str("false")
        }
    }

    /// A copy of the value.
    pub fn clone(&self) -> (copy: Boolean)
        ensures
            copy@ == self@,
    {
        Boolean { value: self.value }
    }
}

impl Null {
    /// `NULL`.
    pub fn object_type(&self) -> (tag: String)
        ensures
            tag@ == type_tag(self@),
    {
        String::from_str("NULL")
    }

    /// `null`.
    pub fn inspect(&self) -> (out: String)
        ensures
            out@ == inspect(self@),
    {
        String::from_str("null")
    }
}

impl StringObject {
    /// `STRING`.
    pub fn object_type(&self) -> (tag: String)
        ensures
            tag@ == type_tag(self@),
    {
        String::from_str("STRING")
    }

    /// The characters of the string.
    pub fn inspect(&self) -> (out: String)
        ensures
            out@ == inspect(self@),
    {
        self.value.clone()
    }

    /// A copy of the value.
    pub fn clone(&self) -> (copy: StringObject)
        ensures
            copy@ == self@,
    {
        StringObject { value: self.value.clone() }
    }
}

impl ReturnValue {
    /// `RETURN`.
    pub fn object_type(&self) -> (tag: String)
        ensures
            tag@ == type_tag(self@),
    {
        String::from_str("RETURN")
    }

    /// The printed form of the value inside.
    pub fn inspect(&self) -> (out: String)
        ensures
            out@ == inspect(self@),
        decreases self,
    {
        (*self.value).inspect()
    }

    /// A copy of the value.
    pub fn clone(&self) -> (copy: ReturnValue)
        ensures
            copy@ == self@,
        decreases self,
    {
        ReturnValue { value: Box::new((*self.value).clone()) }
    }
}

impl Error {
    /// `ERROR`.
    pub fn object_type(&self) -> (tag: String)
        ensures
            tag@ == type_tag(self@),
    {
        String::from_str("ERROR")
    }

    /// `ERROR: ` and the message.
    pub fn inspect(&self) -> (out: String)
        ensures
            out@ == inspect(self@),
    {
        let mut out = String::from_str("ERROR: ");
        out.append(self.message.as_str());
        out
    }

    /// A copy of the value.
    pub fn clone(&self) -> (copy: Error)
        ensures
            copy@ == self@,
    {
        Error { message: self.message.clone() }
    }
}

impl Function {
    /// `FUNCTION`.
    pub fn object_type(&self) -> (tag: String)
        ensures
            tag@ == type_tag(self@),
    {
        String::from_str("FUNCTION")
    }

    /// `fn(<parameters>) {<body>}`.
    pub fn inspect(&self) -> (out: String)
        ensures
            out@ == inspect(self@),
    {
        let parameters = render_parameter_list(&self.parameters);
        let body = self.body.string();
        let mut out = String::from_str("fn(");
        out.append(parameters.as_str());
        out.append(") {");
        out.append(body.as_str());
        out.append("}");
        out
    }

    /// A copy of the value.
    pub fn clone(&self) -> (copy: Function)
        ensures
            copy@ == self@,
    {
        Function {
            parameters: clone_parameters(&self.parameters),
            body: self.body.clone(),
            env: self.env,
        }
    }
}

impl Builtin {
    /// `BUILTIN`.
    pub fn object_type(&self) -> (tag: String)
        ensures
            tag@ == type_tag(self@),
    {
        String::from_str("BUILTIN")
    }

    /// `BUILTIN`.
    pub fn inspect(&self) -> (out: String)
        ensures
            out@ == inspect(self@),
    {
        String::from_str("BUILTIN")
    }

    /// A copy of the value.
    pub fn clone(&self) -> (copy: Builtin)
        ensures
            copy@ == self@,
    {
        Builtin { function: self.function }
    }
}

impl Array {
    /// `ARRAY`.
    pub fn object_type(&self) -> (tag: String)
        ensures
            tag@ == type_tag(self@),
    {
        String::from_str("ARRAY")
    }

    /// `[<element>, ..]`.
    pub fn inspect(&self) -> (out: String)
        ensures
            out@ == inspect(self@),
        decreases self,
    {
        let elements = inspect_values(&self.elements);
        let mut out = String::from_str("[");
        out.append(elements.as_str());
        out.append("]");
        out
    }

    /// A copy of the value.
    pub fn clone(&self) -> (copy: Array)
        ensures
            copy@ == self@,
        decreases self,
    {
        Array { elements: clone_values(&self.elements) }
    }
}

impl Dict {
    /// `DICT`.
    pub fn object_type(&self) -> (tag: String)
        ensures
            tag@ == type_tag(self@),
    {
        String::from_str("DICT")
    }

    /// `{<key>: <value>, ..}`, the pairs in the order of insertion.
    #[verifier::loop_isolation(false)]
    pub fn inspect(&self) -> (out: String)
        ensures
            out@ == inspect(self@),
        decreases self,
    {
        let mut out = String::from_str("{");
        let mut i: usize = 0;
        while i < self.pairs.len()
            invariant
                i <= self.pairs.len(),
                out@ == "{"@ + inspect_pairs(entries_view(self.pairs@), i as int),
            decreases self.pairs.len() - i,
        {
            if i > 0 {
                out.append(", ");
            }
            let pair = &self.pairs[i];
            let key = pair.0.inspect();
            let value = pair.1.inspect();
            out.append(key.as_str());
            out.append(": ");
            out.append(value.as_str());
            i += 1;
            assert(out@ =~= "{"@ + inspect_pairs(entries_view(self.pairs@), i as int));
        }
        out.append("}");
        out
    }

    /// A copy of the value.
    #[verifier::loop_isolation(false)]
    pub fn clone(&self) -> (copy: Dict)
        ensures
            copy@ == self@,
        decreases self,
    {
        let mut pairs: Vec<(ObjectType, ObjectType)> = Vec::new();
        let mut i: usize = 0;
        while i < self.pairs.len()
            invariant
                i <= self.pairs.len(),
                pairs.len() == i,
                forall|j: int|
                    0 <= j < i ==> value_view(pairs@[j].0) == value_view(self.pairs@[j].0)
                        && value_view(pairs@[j].1) == value_view(self.pairs@[j].1),
            decreases self.pairs.len() - i,
        {
            let pair = &self.pairs[i];
            pairs.push((pair.0.clone(), pair.1.clone()));
            i += 1;
        }
        assert(entries_view(pairs@) =~= entries_view(self.pairs@));
        Dict { pairs }
    }
}

} // verus!
