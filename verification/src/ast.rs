//! The syntax tree that the evaluator consumes.
//!
//! Trees are built elsewhere (by a parser, or by hand) and are only read
//! here.  Children are owned by their parent, so a tree has no sharing and
//! no cycles.

use vstd::prelude::*;

verus! {

/// A unary operator written in front of its operand.
#[derive(Clone, Copy, Debug, PartialEq, Eq)]
pub enum Prefix {
    /// Logical not, `!`.
    Bang,
    /// Arithmetic negation, `-`.
    Minus,
}

/// A binary operator written between its operands.
#[derive(Clone, Copy, Debug, PartialEq, Eq)]
pub enum Operator {
    /// `+`
    Plus,
    /// `-`
    Minus,
    /// `*`
    Multiply,
    /// `/`
    Divide,
    /// `<`
    LessThan,
    /// `>`
    GreaterThan,
    /// `==`
    Equals,
    /// `!=`
    NotEquals,
}

/// An expression node.
#[derive(Debug, PartialEq, Eq)]
pub enum Expr {
    /// An integer literal.
    Const(i32),
    /// A boolean literal.
    Boolean(bool),
    /// A reference to a named binding.  Bindings have no evaluation rule.
    Ident(String),
    /// A prefix operator applied to one operand.
    Prefix { prefix: Prefix, value: Box<Expr> },
    /// An infix operator applied to two operands.
    Infix { left: Box<Expr>, operator: Operator, right: Box<Expr> },
    /// A conditional.  An absent `else` branch is an empty `alternative`.
    If { condition: Box<Expr>, consequence: Vec<Statement>, alternative: Vec<Statement> },
}

/// A statement node.
#[derive(Debug, PartialEq, Eq)]
pub enum Statement {
    /// `let name = value;`.  Bindings have no evaluation rule.
    Let { name: String, value: Expr },
    /// `return value;`
    Return { value: Expr },
    /// An expression in statement position.
    Expression(Expr),
}

} // verus!
