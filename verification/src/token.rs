//! The terminals of the language: every keyword, operator and punctuation
//! mark, the literal-carrying tokens, the end of input and the invalid byte.

use crate::text::{decimal, push_signed_decimal, signed_decimal_string};
use vstd::prelude::*;

verus! {

/// The tag of a token, without its payload.
#[derive(Clone, Copy, Debug, PartialEq, Eq, Structural, Hash)]
pub enum TokenKind {
    Int,
    Str,
    Bool,
    Arr,
    Fun,
    Let,
    Return,
    If,
    Elif,
    Else,
    And,
    Or,
    Not,
    Break,
    For,
    Loop,
    While,
    Id,
    ConstInt,
    ConstStr,
    ConstBool,
    Plus,
    Minus,
    Mult,
    Div,
    Mod,
    Eq,
    Neq,
    Lt,
    Gt,
    Le,
    Ge,
    Assig,
    SumAsig,
    MinAsig,
    MulAsig,
    DivAsig,
    Inc,
    Dec,
    Coma,
    Semicolon,
    Colon,
    Opar,
    Cpar,
    Obrac,
    Cbrac,
    Okey,
    Ckey,
    Arrow,
    Eof,
    Invalid,
}

/// A token as the lexer produces it.
///
/// `Id`, `ConstStr` and `Invalid` carry the text they were read from,
/// `ConstInt` the value of the digits and `ConstBool` the truth value of
/// the keyword.
#[derive(Debug, PartialEq, Eq, Hash)]
pub enum Token {
    Int,
    Str,
    Bool,
    Arr,
    Fun,
    Let,
    Return,
    If,
    Elif,
    Else,
    And,
    Or,
    Not,
    Break,
    For,
    Loop,
    While,
    Id(String),
    ConstInt(i128),
    ConstStr(String),
    ConstBool(bool),
    Plus,
    Minus,
    Mult,
    Div,
    Mod,
    Eq,
    Neq,
    Lt,
    Gt,
    Le,
    Ge,
    Assig,
    SumAsig,
    MinAsig,
    MulAsig,
    DivAsig,
    Inc,
    Dec,
    Coma,
    Semicolon,
    Colon,
    Opar,
    Cpar,
    Obrac,
    Cbrac,
    Okey,
    Ckey,
    Arrow,
    Eof,
    Invalid(String),
}

/// The mathematical model of a token: its tag and its payload. The parts of
/// the payload that the tag does not use are empty, zero and `false`.
pub struct TokenView {
    pub kind: TokenKind,
    pub text: Seq<char>,
    pub number: i128,
    pub flag: bool,
}

/// The model of a token that carries no payload.
pub open spec fn plain(kind: TokenKind) -> TokenView {
    TokenView { kind, text: Seq::empty(), number: 0, flag: false }
}

/// The model of a token that carries text.
pub open spec fn textual(kind: TokenKind, text: Seq<char>) -> TokenView {
    TokenView { kind, text, number: 0, flag: false }
}

/// The model of an integer literal.
pub open spec fn integer(value: i128) -> TokenView {
    TokenView { kind: TokenKind::ConstInt, text: Seq::empty(), number: value, flag: false }
}

/// The model of a boolean literal.
pub open spec fn boolean(value: bool) -> TokenView {
    TokenView { kind: TokenKind::ConstBool, text: Seq::empty(), number: 0, flag: value }
}

/// The name of a tag, as it is written in parse errors.
#[verifier::opaque]
pub open spec fn kind_name(kind: TokenKind) -> Seq<char> {
    match kind {
        TokenKind::Int => "Int"@,
        TokenKind::Str => "Str"@,
        TokenKind::Bool => "Bool"@,
        TokenKind::Arr => "Arr"@,
        TokenKind::Fun => "Fun"@,
        TokenKind::Let => "Let"@,
        TokenKind::Return => "Return"@,
        TokenKind::If => "If"@,
        TokenKind::Elif => "Elif"@,
        TokenKind::Else => "Else"@,
        TokenKind::And => "And"@,
        TokenKind::Or => "Or"@,
        TokenKind::Not => "Not"@,
        TokenKind::Break => "Break"@,
        TokenKind::For => "For"@,
        TokenKind::Loop => "Loop"@,
        TokenKind::While => "While"@,
        TokenKind::Id => "Id"@,
        TokenKind::ConstInt => "ConstInt"@,
        TokenKind::ConstStr => "ConstStr"@,
        TokenKind::ConstBool => "ConstBool"@,
        TokenKind::Plus => "Plus"@,
        TokenKind::Minus => "Minus"@,
        TokenKind::Mult => "Mult"@,
        TokenKind::Div => "Div"@,
        TokenKind::Mod => "Mod"@,
        TokenKind::Eq => "Eq"@,
        TokenKind::Neq => "Neq"@,
        TokenKind::Lt => "Lt"@,
        TokenKind::Gt => "Gt"@,
        TokenKind::Le => "Le"@,
        TokenKind::Ge => "Ge"@,
        TokenKind::Assig => "Assig"@,
        TokenKind::SumAsig => "SumAsig"@,
        TokenKind::MinAsig => "MinAsig"@,
        TokenKind::MulAsig => "MulAsig"@,
        TokenKind::DivAsig => "DivAsig"@,
        TokenKind::Inc => "Inc"@,
        TokenKind::Dec => "Dec"@,
        TokenKind::Coma => "Coma"@,
        TokenKind::Semicolon => "Semicolon"@,
        TokenKind::Colon => "Colon"@,
        TokenKind::Opar => "Opar"@,
        TokenKind::Cpar => "Cpar"@,
        TokenKind::Obrac => "Obrac"@,
        TokenKind::Cbrac => "Cbrac"@,
        TokenKind::Okey => "Okey"@,
        TokenKind::Ckey => "Ckey"@,
        TokenKind::Arrow => "Arrow"@,
        TokenKind::Eof => "Eof"@,
        TokenKind::Invalid => "Invalid"@,
    }
}

/// How a token without payload is spelled in source text. The tags with a
/// payload, and the end of input, have no spelling of their own.
#[verifier::opaque]
pub open spec fn kind_spelling(kind: TokenKind) -> Seq<char> {
    match kind {
        TokenKind::Int => "int"@,
        TokenKind::Str => "str"@,
        TokenKind::Bool => "bool"@,
        TokenKind::Arr => "arr"@,
        TokenKind::Fun => "fun"@,
        TokenKind::Let => "let"@,
        TokenKind::Return => "return"@,
        TokenKind::If => "if"@,
        TokenKind::Elif => "elif"@,
        TokenKind::Else => "else"@,
        TokenKind::And => "and"@,
        TokenKind::Or => "or"@,
        TokenKind::Not => "not"@,
        TokenKind::Break => "break"@,
        TokenKind::For => "for"@,
        TokenKind::Loop => "loop"@,
        TokenKind::While => "while"@,
        TokenKind::Id => ""@,
        TokenKind::ConstInt => ""@,
        TokenKind::ConstStr => ""@,
        TokenKind::ConstBool => ""@,
        TokenKind::Plus => "+"@,
        TokenKind::Minus => "-"@,
        TokenKind::Mult => "*"@,
        TokenKind::Div => "/"@,
        TokenKind::Mod => "%"@,
        TokenKind::Eq => "=="@,
        TokenKind::Neq => "!="@,
        TokenKind::Lt => "<"@,
        TokenKind::Gt => ">"@,
        TokenKind::Le => "<="@,
        TokenKind::Ge => ">="@,
        TokenKind::Assig => "="@,
        TokenKind::SumAsig => "+="@,
        TokenKind::MinAsig => "-="@,
        TokenKind::MulAsig => "*="@,
        TokenKind::DivAsig => "/="@,
        TokenKind::Inc => "++"@,
        TokenKind::Dec => "--"@,
        TokenKind::Coma => ","@,
        TokenKind::Semicolon => ";"@,
        TokenKind::Colon => ":"@,
        TokenKind::Opar => "("@,
        TokenKind::Cpar => ")"@,
        TokenKind::Obrac => "["@,
        TokenKind::Cbrac => "]"@,
        TokenKind::Okey => "{"@,
        TokenKind::Ckey => "}"@,
        TokenKind::Arrow => "->"@,
        TokenKind::Eof => ""@,
        TokenKind::Invalid => ""@,
    }
}

impl TokenView {
    /// The text a token stands for: the payload of a literal-carrying
    /// token, the spelling of any other.
    #[verifier::opaque]
    pub open spec fn literal(self) -> Seq<char> {
        match self.kind {
            TokenKind::Id | TokenKind::ConstStr | TokenKind::Invalid => self.text,
            TokenKind::ConstInt => decimal(self.number as int),
            TokenKind::ConstBool => if self.flag {
                "true"@
            } else {
                "false"@
            },
            kind => kind_spelling(kind),
        }
    }

    /// The form of a token in parse errors: the name of its tag, followed
    /// for a literal-carrying token by its payload in parentheses (text in
    /// double quotes).
    #[verifier::opaque]
    pub open spec fn describe(self) -> Seq<char> {
        match self.kind {
            TokenKind::Id | TokenKind::ConstStr | TokenKind::Invalid => kind_name(self.kind)
                + "(\""@ + self.text + "\")"@,
            TokenKind::ConstInt => kind_name(self.kind) + "("@ + decimal(self.number as int)
                + ")"@,
            TokenKind::ConstBool => kind_name(self.kind) + "("@ + (if self.flag {
                "true"@
            } else {
                "false"@
            }) + ")"@,
            kind => kind_name(kind),
        }
    }
}

/// The model of a token.
#[verifier::opaque]
pub open spec fn token_view(token: Token) -> TokenView {
    match token {
        Token::Id(text) => textual(TokenKind::Id, text@),
        Token::ConstStr(text) => textual(TokenKind::ConstStr, text@),
        Token::Invalid(text) => textual(TokenKind::Invalid, text@),
        Token::ConstInt(value) => integer(value),
        Token::ConstBool(value) => boolean(value),
        Token::Int => plain(TokenKind::Int),
        Token::Str => plain(TokenKind::Str),
        Token::Bool => plain(TokenKind::Bool),
        Token::Arr => plain(TokenKind::Arr),
        Token::Fun => plain(TokenKind::Fun),
        Token::Let => plain(TokenKind::Let),
        Token::Return => plain(TokenKind::Return),
        Token::If => plain(TokenKind::If),
        Token::Elif => plain(TokenKind::Elif),
        Token::Else => plain(TokenKind::Else),
        Token::And => plain(TokenKind::And),
        Token::Or => plain(TokenKind::Or),
        Token::Not => plain(TokenKind::Not),
        Token::Break => plain(TokenKind::Break),
        Token::For => plain(TokenKind::For),
        Token::Loop => plain(TokenKind::Loop),
        Token::While => plain(TokenKind::While),
        Token::Plus => plain(TokenKind::Plus),
        Token::Minus => plain(TokenKind::Minus),
        Token::Mult => plain(TokenKind::Mult),
        Token::Div => plain(TokenKind::Div),
        Token::Mod => plain(TokenKind::Mod),
        Token::Eq => plain(TokenKind::Eq),
        Token::Neq => plain(TokenKind::Neq),
        Token::Lt => plain(TokenKind::Lt),
        Token::Gt => plain(TokenKind::Gt),
        Token::Le => plain(TokenKind::Le),
        Token::Ge => plain(TokenKind::Ge),
        Token::Assig => plain(TokenKind::Assig),
        Token::SumAsig => plain(TokenKind::SumAsig),
        Token::MinAsig => plain(TokenKind::MinAsig),
        Token::MulAsig => plain(TokenKind::MulAsig),
        Token::DivAsig => plain(TokenKind::DivAsig),
        Token::Inc => plain(TokenKind::Inc),
        Token::Dec => plain(TokenKind::Dec),
        Token::Coma => plain(TokenKind::Coma),
        Token::Semicolon => plain(TokenKind::Semicolon),
        Token::Colon => plain(TokenKind::Colon),
        Token::Opar => plain(TokenKind::Opar),
        Token::Cpar => plain(TokenKind::Cpar),
        Token::Obrac => plain(TokenKind::Obrac),
        Token::Cbrac => plain(TokenKind::Cbrac),
        Token::Okey => plain(TokenKind::Okey),
        Token::Ckey => plain(TokenKind::Ckey),
        Token::Arrow => plain(TokenKind::Arrow),
        Token::Eof => plain(TokenKind::Eof),
    }
}

impl View for Token {
    type V = TokenView;

    open spec fn view(&self) -> TokenView {
        token_view(*self)
    }
}

/// The name of a tag, as it is written in parse errors.
pub fn kind_name_text(kind: TokenKind) -> (name: &'static str)
    ensures
        name@ == kind_name(kind),
{
    proof {
        reveal(kind_name);
    }
    match kind {
        TokenKind::Int => "Int",
        TokenKind::Str => "Str",
        TokenKind::Bool => "Bool",
        TokenKind::Arr => "Arr",
        TokenKind::Fun => "Fun",
        TokenKind::Let => "Let",
        TokenKind::Return => "Return",
        TokenKind::If => "If",
        TokenKind::Elif => "Elif",
        TokenKind::Else => "Else",
        TokenKind::And => "And",
        TokenKind::Or => "Or",
        TokenKind::Not => "Not",
        TokenKind::Break => "Break",
        TokenKind::For => "For",
        TokenKind::Loop => "Loop",
        TokenKind::While => "While",
        TokenKind::Id => "Id",
        TokenKind::ConstInt => "ConstInt",
        TokenKind::ConstStr => "ConstStr",
        TokenKind::ConstBool => "ConstBool",
        TokenKind::Plus => "Plus",
        TokenKind::Minus => "Minus",
        TokenKind::Mult => "Mult",
        TokenKind::Div => "Div",
        TokenKind::Mod => "Mod",
        TokenKind::Eq => "Eq",
        TokenKind::Neq => "Neq",
        TokenKind::Lt => "Lt",
        TokenKind::Gt => "Gt",
        TokenKind::Le => "Le",
        TokenKind::Ge => "Ge",
        TokenKind::Assig => "Assig",
        TokenKind::SumAsig => "SumAsig",
        TokenKind::MinAsig => "MinAsig",
        TokenKind::MulAsig => "MulAsig",
        TokenKind::DivAsig => "DivAsig",
        TokenKind::Inc => "Inc",
        TokenKind::Dec => "Dec",
        TokenKind::Coma => "Coma",
        TokenKind::Semicolon => "Semicolon",
        TokenKind::Colon => "Colon",
        TokenKind::Opar => "Opar",
        TokenKind::Cpar => "Cpar",
        TokenKind::Obrac => "Obrac",
        TokenKind::Cbrac => "Cbrac",
        TokenKind::Okey => "Okey",
        TokenKind::Ckey => "Ckey",
        TokenKind::Arrow => "Arrow",
        TokenKind::Eof => "Eof",
        TokenKind::Invalid => "Invalid",
    }
}

/// How a token without payload is spelled in source text.
pub fn kind_spelling_text(kind: TokenKind) -> (spelling: &'static str)
    ensures
        spelling@ == kind_spelling(kind),
{
    proof {
        reveal(kind_spelling);
    }
    match kind {
        TokenKind::Int => "int",
        TokenKind::Str => "str",
        TokenKind::Bool => "bool",
        TokenKind::Arr => "arr",
        TokenKind::Fun => "fun",
        TokenKind::Let => "let",
        TokenKind::Return => "return",
        TokenKind::If => "if",
        TokenKind::Elif => "elif",
        TokenKind::Else => "else",
        TokenKind::And => "and",
        TokenKind::Or => "or",
        TokenKind::Not => "not",
        TokenKind::Break => "break",
        TokenKind::For => "for",
        TokenKind::Loop => "loop",
        TokenKind::While => "while",
        TokenKind::Id => "",
        TokenKind::ConstInt => "",
        TokenKind::ConstStr => "",
        TokenKind::ConstBool => "",
        TokenKind::Plus => "+",
        TokenKind::Minus => "-",
        TokenKind::Mult => "*",
        TokenKind::Div => "/",
        TokenKind::Mod => "%",
        TokenKind::Eq => "==",
        TokenKind::Neq => "!=",
        TokenKind::Lt => "<",
        TokenKind::Gt => ">",
        TokenKind::Le => "<=",
        TokenKind::Ge => ">=",
        TokenKind::Assig => "=",
        TokenKind::SumAsig => "+=",
        TokenKind::MinAsig => "-=",
        TokenKind::MulAsig => "*=",
        TokenKind::DivAsig => "/=",
        TokenKind::Inc => "++",
        TokenKind::Dec => "--",
        TokenKind::Coma => ",",
        TokenKind::Semicolon => ";",
        TokenKind::Colon => ":",
        TokenKind::Opar => "(",
        TokenKind::Cpar => ")",
        TokenKind::Obrac => "[",
        TokenKind::Cbrac => "]",
        TokenKind::Okey => "{",
        TokenKind::Ckey => "}",
        TokenKind::Arrow => "->",
        TokenKind::Eof => "",
        TokenKind::Invalid => "",
    }
}

impl Token {
    /// The tag of the token.
    pub fn kind(&self) -> (kind: TokenKind)
        ensures
            kind == self@.kind,
    {
        proof {
            reveal(token_view);
        }
        match self {
            Token::Int => TokenKind::Int,
            Token::Str => TokenKind::Str,
            Token::Bool => TokenKind::Bool,
            Token::Arr => TokenKind::Arr,
            Token::Fun => TokenKind::Fun,
            Token::Let => TokenKind::Let,
            Token::Return => TokenKind::Return,
            Token::If => TokenKind::If,
            Token::Elif => TokenKind::Elif,
            Token::Else => TokenKind::Else,
            Token::And => TokenKind::And,
            Token::Or => TokenKind::Or,
            Token::Not => TokenKind::Not,
            Token::Break => TokenKind::Break,
            Token::For => TokenKind::For,
            Token::Loop => TokenKind::Loop,
            Token::While => TokenKind::While,
            Token::Id(_) => TokenKind::Id,
            Token::ConstInt(_) => TokenKind::ConstInt,
            Token::ConstStr(_) => TokenKind::ConstStr,
            Token::ConstBool(_) => TokenKind::ConstBool,
            Token::Plus => TokenKind::Plus,
            Token::Minus => TokenKind::Minus,
            Token::Mult => TokenKind::Mult,
            Token::Div => TokenKind::Div,
            Token::Mod => TokenKind::Mod,
            Token::Eq => TokenKind::Eq,
            Token::Neq => TokenKind::Neq,
            Token::Lt => TokenKind::Lt,
            Token::Gt => TokenKind::Gt,
            Token::Le => TokenKind::Le,
            Token::Ge => TokenKind::Ge,
            Token::Assig => TokenKind::Assig,
            Token::SumAsig => TokenKind::SumAsig,
            Token::MinAsig => TokenKind::MinAsig,
            Token::MulAsig => TokenKind::MulAsig,
            Token::DivAsig => TokenKind::DivAsig,
            Token::Inc => TokenKind::Inc,
            Token::Dec => TokenKind::Dec,
            Token::Coma => TokenKind::Coma,
            Token::Semicolon => TokenKind::Semicolon,
            Token::Colon => TokenKind::Colon,
            Token::Opar => TokenKind::Opar,
            Token::Cpar => TokenKind::Cpar,
            Token::Obrac => TokenKind::Obrac,
            Token::Cbrac => TokenKind::Cbrac,
            Token::Okey => TokenKind::Okey,
            Token::Ckey => TokenKind::Ckey,
            Token::Arrow => TokenKind::Arrow,
            Token::Eof => TokenKind::Eof,
            Token::Invalid(_) => TokenKind::Invalid,
        }
    }

    /// Whether the token has the given tag.
    pub fn is(&self, kind: TokenKind) -> (r: bool)
        ensures
            r == (self@.kind == kind),
    {
        self.kind() == kind
    }

    /// The text the token stands for: see [`TokenView::literal`].
    pub fn literal(&self) -> (text: String)
        ensures
            text@ == self@.literal(),
    {
        proof {
            reveal(token_view);
            reveal(TokenView::literal);
        }
        match self {
            Token::Id(text) => text.clone(),
            Token::ConstStr(text) => text.clone(),
            Token::Invalid(text) => text.clone(),
            Token::ConstInt(value) => signed_decimal_string(*value),
            Token::ConstBool(value) => if *value {
                String::from_str("true")
            } else {
                String::from_str("false")
            },
            _ => String::from_str(kind_spelling_text(self.kind())),
        }
    }

    /// The form of the token in parse errors: see [`TokenView::describe`].
    pub fn describe(&self) -> (text: String)
        ensures
            text@ == self@.describe(),
    {
        proof {
            reveal(token_view);
            reveal(TokenView::describe);
        }
        let mut out = String::from_str(kind_name_text(self.kind()));
        match self {
            Token::Id(text) => {
                out.append("(\"");
                out.append(text.as_str());
                out.append("\")");
            },
            Token::ConstStr(text) => {
                out.append("(\"");
                out.append(text.as_str());
                out.append("\")");
            },
            Token::Invalid(text) => {
                out.append("(\"");
                out.append(text.as_str());
                out.append("\")");
            },
            Token::ConstInt(value) => {
                out.append("(");
                push_signed_decimal(&mut out, *value);
                out.append(")");
            },
            Token::ConstBool(value) => {
                out.append("(");
                if *value {
                    out.append("true");
                } else {
                    out.append("false");
                }
                out.append(")");
            },
            _ => {},
        }
        assert(out@ =~= self@.describe());
        out
    }
}

impl Token {
    /// The value of an integer literal; zero for any other token.
    pub fn number(&self) -> (value: i128)
        ensures
            value == self@.number,
    {
        proof {
            reveal(token_view);
        }
        match self {
            Token::ConstInt(value) => *value,
            _ => 0,
        }
    }

    /// The truth value of a boolean literal; `false` for any other token.
    pub fn flag(&self) -> (value: bool)
        ensures
            value == self@.flag,
    {
        proof {
            reveal(token_view);
        }
        match self {
            Token::ConstBool(value) => *value,
            _ => false,
        }
    }

    /// The text that an identifier, a string literal or an invalid token
    /// carries; nothing for any other token.
    pub fn text(&self) -> (text: String)
        ensures
            text@ == self@.text,
    {
        proof {
            reveal(token_view);
        }
        match self {
            Token::Id(text) => text.clone(),
            Token::ConstStr(text) => text.clone(),
            Token::Invalid(text) => text.clone(),
            _ => String::new(),
        }
    }
}

impl Clone for Token {
    /// A copy of the token, payload included.
    fn clone(&self) -> (copy: Token)
        ensures
            copy == *self,
    {
        match self {
            Token::Int => Token::Int,
            Token::Str => Token::Str,
            Token::Bool => Token::Bool,
            Token::Arr => Token::Arr,
            Token::Fun => Token::Fun,
            Token::Let => Token::Let,
            Token::Return => Token::Return,
            Token::If => Token::If,
            Token::Elif => Token::Elif,
            Token::Else => Token::Else,
            Token::And => Token::And,
            Token::Or => Token::Or,
            Token::Not => Token::Not,
            Token::Break => Token::Break,
            Token::For => Token::For,
            Token::Loop => Token::Loop,
            Token::While => Token::While,
            Token::Id(text) => Token::Id(text.clone()),
            Token::ConstInt(value) => Token::ConstInt(*value),
            Token::ConstStr(text) => Token::ConstStr(text.clone()),
            Token::ConstBool(value) => Token::ConstBool(*value),
            Token::Plus => Token::Plus,
            Token::Minus => Token::Minus,
            Token::Mult => Token::Mult,
            Token::Div => Token::Div,
            Token::Mod => Token::Mod,
            Token::Eq => Token::Eq,
            Token::Neq => Token::Neq,
            Token::Lt => Token::Lt,
            Token::Gt => Token::Gt,
            Token::Le => Token::Le,
            Token::Ge => Token::Ge,
            Token::Assig => Token::Assig,
            Token::SumAsig => Token::SumAsig,
            Token::MinAsig => Token::MinAsig,
            Token::MulAsig => Token::MulAsig,
            Token::DivAsig => Token::DivAsig,
            Token::Inc => Token::Inc,
            Token::Dec => Token::Dec,
            Token::Coma => Token::Coma,
            Token::Semicolon => Token::Semicolon,
            Token::Colon => Token::Colon,
            Token::Opar => Token::Opar,
            Token::Cpar => Token::Cpar,
            Token::Obrac => Token::Obrac,
            Token::Cbrac => Token::Cbrac,
            Token::Okey => Token::Okey,
            Token::Ckey => Token::Ckey,
            Token::Arrow => Token::Arrow,
            Token::Eof => Token::Eof,
            Token::Invalid(text) => Token::Invalid(text.clone()),
        }
    }
}

} // verus!
