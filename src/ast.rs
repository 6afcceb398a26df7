//! The syntax tree the generator consumes: the statements and expressions of
//! the supported JavaScript subset, plus a marker for every other form so that
//! the generator can report it.

use vstd::prelude::*;

verus! {

/// Binary operators.
#[derive(Clone, Copy, Debug, PartialEq, Eq, Structural)]
pub enum BinaryOp {
    Eq,
    NEq,
    StrictEq,
    StrictNEq,
    Lt,
    LEq,
    Gt,
    GEq,
    LShift,
    RShift,
    URShift,
    Plus,
    Minus,
    Times,
    Div,
    Mod,
    BitOr,
    BitXor,
    BitAnd,
    In,
    Instanceof,
}

/// Assignment operators, plain and compound.
#[derive(Clone, Copy, Debug, PartialEq, Eq, Structural)]
pub enum AssignOp {
    Eq,
    PlusEq,
    MinusEq,
    TimesEq,
    DivEq,
    ModEq,
    LShiftEq,
    RShiftEq,
    URShiftEq,
    BitOrEq,
    BitXorEq,
    BitAndEq,
}

/// What an assignment writes to.
#[derive(Debug)]
pub enum AssignTarget {
    /// A variable.
    Id(String),
    /// `object.name`
    Dot(Box<Expr>, String),
    /// `object[key]`
    Brack(Box<Expr>, Box<Expr>),
}

/// The left side of an assignment: a simple target or a destructuring pattern.
#[derive(Debug)]
pub enum AssignPatt {
    Simple(AssignTarget),
    Destructuring,
}

/// Expressions.
#[derive(Debug)]
pub enum Expr {
    Id(String),
    /// A string literal, with its value (escapes already decoded).
    Str(String),
    /// A number literal, as the text of its value.
    Number(String),
    True,
    False,
    Null,
    /// An array literal; `None` is a hole.
    Arr(Vec<Option<Expr>>),
    Binop(BinaryOp, Box<Expr>, Box<Expr>),
    Dot(Box<Expr>, String),
    Brack(Box<Expr>, Box<Expr>),
    Assign(AssignOp, AssignPatt, Box<Expr>),
    Call(Box<Expr>, Vec<Expr>),
    /// Any other expression form, by the name of its kind.
    Other(String),
}

/// A function parameter: a name, or a destructuring pattern.
#[derive(Debug)]
pub enum Param {
    Simple(String),
    Destructuring,
}

/// One declarator of a variable declaration.
#[derive(Debug)]
pub enum Dtor {
    /// `name` or `name = init`
    Simple(String, Option<Expr>),
    /// A destructuring declarator.
    Destructuring,
}

/// A function declaration.
#[derive(Debug)]
pub struct Fun {
    pub id: Option<String>,
    pub params: Vec<Param>,
    /// The body: a block.
    pub body: Box<Stmt>,
}

/// Statements.
#[derive(Debug)]
pub enum Stmt {
    Expr(Expr),
    Var(Vec<Dtor>),
    Return(Option<Expr>),
    If(Expr, Box<Stmt>, Option<Box<Stmt>>),
    While(Expr, Box<Stmt>),
    Block(Vec<StmtListItem>),
    /// Any other statement form, by the name of its kind.
    Other(String),
}

/// An item of a statement list: a function declaration or a statement.
#[derive(Debug)]
pub enum StmtListItem {
    Fun(Fun),
    Stmt(Stmt),
}

/// A whole program.
#[derive(Debug)]
pub struct Script {
    pub body: Vec<StmtListItem>,
}

/// The source text of a binary operator.
pub open spec fn binop_spec(op: BinaryOp) -> Seq<char> {
    match op {
        BinaryOp::Eq => "=="@,
        BinaryOp::NEq => "!="@,
        BinaryOp::StrictEq => "==="@,
        BinaryOp::StrictNEq => "!=="@,
        BinaryOp::Lt => "<"@,
        BinaryOp::LEq => "<="@,
        BinaryOp::Gt => ">"@,
        BinaryOp::GEq => ">="@,
        BinaryOp::LShift => "<<"@,
        BinaryOp::RShift => ">>"@,
        BinaryOp::URShift => ">>>"@,
        BinaryOp::Plus => "+"@,
        BinaryOp::Minus => "-"@,
        BinaryOp::Times => "*"@,
        BinaryOp::Div => "/"@,
        BinaryOp::Mod => "%"@,
        BinaryOp::BitOr => "|"@,
        BinaryOp::BitXor => "^"@,
        BinaryOp::BitAnd => "&"@,
        BinaryOp::In => "in"@,
        BinaryOp::Instanceof => "instanceof"@,
    }
}

/// The source text of an assignment operator.
pub open spec fn assop_spec(op: AssignOp) -> Seq<char> {
    match op {
        AssignOp::Eq => "="@,
        AssignOp::PlusEq => "+="@,
        AssignOp::MinusEq => "-="@,
        AssignOp::TimesEq => "*="@,
        AssignOp::DivEq => "/="@,
        AssignOp::ModEq => "%="@,
        AssignOp::LShiftEq => "<<="@,
        AssignOp::RShiftEq => ">>="@,
        AssignOp::URShiftEq => ">>>="@,
        AssignOp::BitOrEq => "|="@,
        AssignOp::BitXorEq => "^="@,
        AssignOp::BitAndEq => "&="@,
    }
}

impl BinaryOp {
    /// The operator as written in source.
    pub fn text(&self) -> (r: &'static str)
        ensures
            r@ == binop_spec(*self),
    {
        match self {
            BinaryOp::Eq => "==",
            BinaryOp::NEq => "!=",
            BinaryOp::StrictEq => "===",
            BinaryOp::StrictNEq => "!==",
            BinaryOp::Lt => "<",
            BinaryOp::LEq => "<=",
            BinaryOp::Gt => ">",
            BinaryOp::GEq => ">=",
            BinaryOp::LShift => "<<",
            BinaryOp::RShift => ">>",
            BinaryOp::URShift => ">>>",
            BinaryOp::Plus => "+",
            BinaryOp::Minus => "-",
            BinaryOp::Times => "*",
            BinaryOp::Div => "/",
            BinaryOp::Mod => "%",
            BinaryOp::BitOr => "|",
            BinaryOp::BitXor => "^",
            BinaryOp::BitAnd => "&",
            BinaryOp::In => "in",
            BinaryOp::Instanceof => "instanceof",
        }
    }
}

impl AssignOp {
    /// The operator as written in source, and in C++.
    pub fn text(&self) -> (r: &'static str)
        ensures
            r@ == assop_spec(*self),
    {
        match self {
            AssignOp::Eq => "=",
            AssignOp::PlusEq => "+=",
            AssignOp::MinusEq => "-=",
            AssignOp::TimesEq => "*=",
            AssignOp::DivEq => "/=",
            AssignOp::ModEq => "%=",
            AssignOp::LShiftEq => "<<=",
            AssignOp::RShiftEq => ">>=",
            AssignOp::URShiftEq => ">>>=",
            AssignOp::BitOrEq => "|=",
            AssignOp::BitXorEq => "^=",
            AssignOp::BitAndEq => "&=",
        }
    }
}

} // verus!
