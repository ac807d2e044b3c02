//! Function bodies and annotations as the compiler hands them over.

use crate::symbol::Symbol;
use vstd::prelude::*;

verus! {

/// The operator of a call expression.
#[derive(Clone, Copy, Debug, PartialEq, Eq, Structural)]
pub enum Operation {
    MoveFunction,
    Pack,
    Tuple,
    Select,
    Add,
    Sub,
    Mul,
    Mod,
    Div,
    BitOr,
    BitAnd,
    Xor,
    Shl,
    Shr,
    And,
    Or,
    Eq,
    Neq,
    Lt,
    Gt,
    Le,
    Ge,
    Copy,
    Move,
    Not,
    Cast,
    Negate,
    Exists,
    BorrowGlobal,
    Borrow,
    Deref,
    MoveTo,
    MoveFrom,
    Freeze,
    Abort,
    Vector,
    NoOp,
    /// An operator this library has no name for.
    Unknown,
}

impl Operation {
    /// The text an operator is written as.
    pub open spec fn tag(self) -> Seq<char> {
        match self {
            Operation::MoveFunction => "MoveFunction"@,
            Operation::Pack => "Pack"@,
            Operation::Tuple => "Tuple"@,
            Operation::Select => "Select"@,
            Operation::Add => "Add"@,
            Operation::Sub => "Sub"@,
            Operation::Mul => "Mul"@,
            Operation::Mod => "Mod"@,
            Operation::Div => "Div"@,
            Operation::BitOr => "BitOr"@,
            Operation::BitAnd => "BitAnd"@,
            Operation::Xor => "Xor"@,
            Operation::Shl => "Shl"@,
            Operation::Shr => "Shr"@,
            Operation::And => "And"@,
            Operation::Or => "Or"@,
            Operation::Eq => "Eq"@,
            Operation::Neq => "Neq"@,
            Operation::Lt => "Lt"@,
            Operation::Gt => "Gt"@,
            Operation::Le => "Le"@,
            Operation::Ge => "Ge"@,
            Operation::Copy => "Copy"@,
            Operation::Move => "Move"@,
            Operation::Not => "Not"@,
            Operation::Cast => "Cast"@,
            Operation::Negate => "Negate"@,
            Operation::Exists => "Exists"@,
            Operation::BorrowGlobal => "BorrowGlobal"@,
            Operation::Borrow => "Borrow"@,
            Operation::Deref => "Deref"@,
            Operation::MoveTo => "MoveTo"@,
            Operation::MoveFrom => "MoveFrom"@,
            Operation::Freeze => "Freeze"@,
            Operation::Abort => "Abort"@,
            Operation::Vector => "Vector"@,
            Operation::NoOp => "NoOp"@,
            Operation::Unknown => "Unknown"@,
        }
    }

    pub fn name(self) -> (text: &'static str)
        ensures
            text@ == self.tag(),
    {
        match self {
            Operation::MoveFunction => "MoveFunction",
            Operation::Pack => "Pack",
            Operation::Tuple => "Tuple",
            Operation::Select => "Select",
            Operation::Add => "Add",
            Operation::Sub => "Sub",
            Operation::Mul => "Mul",
            Operation::Mod => "Mod",
            Operation::Div => "Div",
            Operation::BitOr => "BitOr",
            Operation::BitAnd => "BitAnd",
            Operation::Xor => "Xor",
            Operation::Shl => "Shl",
            Operation::Shr => "Shr",
            Operation::And => "And",
            Operation::Or => "Or",
            Operation::Eq => "Eq",
            Operation::Neq => "Neq",
            Operation::Lt => "Lt",
            Operation::Gt => "Gt",
            Operation::Le => "Le",
            Operation::Ge => "Ge",
            Operation::Copy => "Copy",
            Operation::Move => "Move",
            Operation::Not => "Not",
            Operation::Cast => "Cast",
            Operation::Negate => "Negate",
            Operation::Exists => "Exists",
            Operation::BorrowGlobal => "BorrowGlobal",
            Operation::Borrow => "Borrow",
            Operation::Deref => "Deref",
            Operation::MoveTo => "MoveTo",
            Operation::MoveFrom => "MoveFrom",
            Operation::Freeze => "Freeze",
            Operation::Abort => "Abort",
            Operation::Vector => "Vector",
            Operation::NoOp => "NoOp",
            Operation::Unknown => "Unknown",
        }
    }
}

/// An expression of a function body.
///
/// The constructs that are written out in full have a variant each; every
/// other construct arrives as [`Exp::Other`].
#[derive(Debug)]
pub enum Exp {
    /// A literal, as the compiler wrote it.
    Value { text: String },
    /// A reference to a local variable.
    LocalVar { name: Symbol },
    /// An operator applied to arguments.
    Call { operation: Operation, args: Vec<Exp> },
    /// A block that binds a pattern and evaluates `body`.
    Block { body: Box<Exp> },
    /// A loop around `body`.
    Loop { body: Box<Exp> },
    /// An assignment of `rhs` to a pattern.
    Assign { rhs: Box<Exp> },
    /// A return of `value`.
    Return { value: Box<Exp> },
    /// A conditional.
    IfElse { cond: Box<Exp>, then_branch: Box<Exp>, else_branch: Box<Exp> },
    /// Any other construct, with the compiler's description of it.
    Other { description: String },
}

/// An annotation attached to a module, a struct or a function: its
/// interned name and the compiler's description of its whole content.
#[derive(Debug)]
pub struct Attribute {
    pub name: Symbol,
    pub description: String,
}

} // verus!
