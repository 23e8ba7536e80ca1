//! The evaluator: result values, errors, and the functions that reduce a
//! syntax tree to a value.
//!
//! Evaluation is a pure function of the tree.  [`semantics`] defines it as
//! mathematical functions, every function here is proved to compute exactly
//! those, and [`laws`] proves general facts about them.
//!
//! Nothing here panics.  Where evaluation cannot go on (an operator meets an
//! operand of the wrong type, a node has no evaluation rule, a division by
//! zero, an arithmetic result that does not fit in 32 bits) it stops at
//! once with an [`EvalError`]; there is no recovery and no partial result.
//! Evaluation recurses as deep as the tree is nested, and nothing here
//! bounds the stack that this takes.

use vstd::prelude::*;
use crate::ast::{Expr, Operator, Prefix, Statement};
use crate::eval::laws::law_sequence_value_well_formed;
use crate::eval::semantics::{
    expr_value, infix_result, prefix_result, program_value, sequence_value, statement_value,
};

pub mod laws;
pub mod semantics;

verus! {

/// The value that evaluation produces.
#[derive(Debug, PartialEq, Eq)]
pub enum Object {
    /// A signed 32-bit integer.
    Integer(i32),
    /// A truth value.
    Boolean(bool),
    /// The absence of a value: what an empty statement sequence yields.
    Null,
    /// A value on its way out of the enclosing statement sequences.  It is
    /// made by a `return` statement and removed again at program level.
    Return(Box<Object>),
}

impl Object {
    /// The value without its `Return` tag, if it has one.
    pub open spec fn payload(self) -> Object {
        match self {
            Object::Return(inner) => *inner,
            other => other,
        }
    }

    /// A `Return` never holds another `Return`.
    pub open spec fn well_formed(self) -> bool {
        self matches Object::Return(inner) ==> !(*inner is Return)
    }
}

/// Why evaluation stopped without a value.
#[derive(Clone, Copy, Debug, PartialEq, Eq)]
pub enum EvalError {
    /// A prefix operator met an operand of a type it does not accept.
    PrefixTypeMismatch(Prefix),
    /// An infix operator met operands of types it does not accept.
    InfixTypeMismatch(Operator),
    /// The expression is of a kind that has no evaluation rule.
    NotImplemented,
    /// The statement is of a kind that has no evaluation rule.
    UnsupportedStatement,
    /// The right operand of `/` was zero.
    DivisionByZero,
    /// The exact result of an arithmetic operator does not fit in 32 bits.
    Overflow,
}

/// What evaluation comes to: a value, or the error that stopped it.
pub type EvalResult = Result<Object, EvalError>;

impl EvalError {
    /// The text of [`EvalError::message`].
    pub open spec fn message_text(self) -> Seq<char> {
        match self {
            EvalError::PrefixTypeMismatch(prefix) => match prefix {
                Prefix::Bang => "! operator only valid for boolean type"@,
                Prefix::Minus => "minus operator only valid for integer type"@,
            },
            EvalError::InfixTypeMismatch(operator) => match operator {
                Operator::Plus => "plus operator only valid on integer types"@,
                Operator::Minus => "minus operator only valid on integer types"@,
                Operator::Multiply => "multiply operator only valid on integer types"@,
                Operator::Divide => "divide operator only valid on integer types"@,
                Operator::LessThan => "less than operator only valid on integer types"@,
                Operator::GreaterThan => "greater than operator only valid on integer types"@,
                Operator::Equals => "equals operator used on invalid types"@,
                Operator::NotEquals => "not equals operator used on invalid types"@,
            },
            EvalError::NotImplemented => "eval expr not implemented for this type"@,
            EvalError::UnsupportedStatement => "unsupported statement type"@,
            EvalError::DivisionByZero => "attempt to divide by zero"@,
            EvalError::Overflow => "arithmetic result does not fit in 32 bits"@,
        }
    }

    /// A sentence that names the operator or the kind of node that failed,
    /// and why.
    pub fn message(&self) -> (text: &'static str)
        ensures
            text@ == self.message_text(),
    {
        match self {
            EvalError::PrefixTypeMismatch(prefix) => match prefix {
                Prefix::Bang => "! operator only valid for boolean type",
                Prefix::Minus => "minus operator only valid for integer type",
            },
            EvalError::InfixTypeMismatch(operator) => match operator {
                Operator::Plus => "plus operator only valid on integer types",
                Operator::Minus => "minus operator only valid on integer types",
                Operator::Multiply => "multiply operator only valid on integer types",
                Operator::Divide => "divide operator only valid on integer types",
                Operator::LessThan => "less than operator only valid on integer types",
                Operator::GreaterThan => "greater than operator only valid on integer types",
                Operator::Equals => "equals operator used on invalid types",
                Operator::NotEquals => "not equals operator used on invalid types",
            },
            EvalError::NotImplemented => "eval expr not implemented for this type",
            EvalError::UnsupportedStatement => "unsupported statement type",
            EvalError::DivisionByZero => "attempt to divide by zero",
            EvalError::Overflow => "arithmetic result does not fit in 32 bits",
        }
    }
}

/// Applies a prefix operator to an evaluated operand: `!` negates a
/// boolean, `-` negates an integer.  Any other operand is a type error;
/// negating the least integer is an overflow.
pub fn eval_prefix(prefix: Prefix, operand: Object) -> (result: EvalResult)
    ensures
        result == prefix_result(prefix, operand),
{
    match prefix {
        Prefix::Bang => match operand {
            Object::Boolean(val) => Ok(Object::Boolean(!val)),
            _ => Err(EvalError::PrefixTypeMismatch(prefix)),
        },
        Prefix::Minus => match operand {
            Object::Integer(val) => match 0i32.checked_sub(val) {
                Some(negated) => Ok(Object::Integer(negated)),
                None => Err(EvalError::Overflow),
            },
            _ => Err(EvalError::PrefixTypeMismatch(prefix)),
        },
    }
}

/// Applies an infix operator to two evaluated operands.
///
/// `+ - * /` take two integers and give the exact integer result, with `/`
/// rounding toward zero; a zero divisor is [`EvalError::DivisionByZero`] and
/// a result outside 32 bits is [`EvalError::Overflow`].  `<` and `>` take
/// two integers and give a boolean.  `==` and `!=` take two integers or two
/// booleans and give a boolean.  Every other pairing of operands is a type
/// error that names the operator.
pub fn eval_infix(operator: Operator, left: Object, right: Object) -> (result: EvalResult)
    ensures
        result == infix_result(operator, left, right),
{
    match (left, right) {
        (Object::Integer(a), Object::Integer(b)) => match operator {
            Operator::Plus => checked(a.checked_add(b)),
            Operator::Minus => checked(a.checked_sub(b)),
            Operator::Multiply => checked(a.checked_mul(b)),
            Operator::Divide => if b == 0 {
                Err(EvalError::DivisionByZero)
            } else {
                checked(a.checked_div(b))
            },
            Operator::LessThan => Ok(Object::Boolean(a < b)),
            Operator::GreaterThan => Ok(Object::Boolean(a > b)),
            Operator::Equals => Ok(Object::Boolean(a == b)),
            Operator::NotEquals => Ok(Object::Boolean(a != b)),
        },
        (Object::Boolean(a), Object::Boolean(b)) => match operator {
            Operator::Equals => Ok(Object::Boolean(a == b)),
            Operator::NotEquals => Ok(Object::Boolean(a != b)),
            _ => Err(EvalError::InfixTypeMismatch(operator)),
        },
        _ => Err(EvalError::InfixTypeMismatch(operator)),
    }
}

/// An integer result from a checked operation: `None` is an overflow.
fn checked(outcome: Option<i32>) -> (result: EvalResult)
    ensures
        result == match outcome {
            Some(n) => EvalResult::Ok(Object::Integer(n)),
            None => Err(EvalError::Overflow),
        },
{
    match outcome {
        Some(n) => Ok(Object::Integer(n)),
        None => Err(EvalError::Overflow),
    }
}

/// Evaluates an expression.
///
/// A literal is its own value.  The operand of a prefix operator and both
/// operands of an infix operator, left before right, are evaluated before
/// the operator is applied, and the first error among them is the result.
/// A conditional evaluates its condition and then the consequence if the
/// condition is exactly `true`, else the alternative; the branch is
/// evaluated as a statement sequence, so it may come back with a `Return`.
/// An identifier has no evaluation rule.
pub fn eval_expr(expression: Expr) -> (result: EvalResult)
    ensures
        result == expr_value(expression),
        result matches Ok(v) ==> v.well_formed(),
    decreases expression,
{
    match expression {
        Expr::Const(num) => Ok(Object::Integer(num)),
        Expr::Boolean(val) => Ok(Object::Boolean(val)),
        Expr::Ident(_) => Err(EvalError::NotImplemented),
        Expr::Prefix { prefix, value } => match eval_expr(*value) {
            Ok(operand) => eval_prefix(prefix, operand),
            Err(error) => Err(error),
        },
        Expr::Infix { left, operator, right } => match eval_expr(*left) {
            Ok(l) => match eval_expr(*right) {
                Ok(r) => eval_infix(operator, l, r),
                Err(error) => Err(error),
            },
            Err(error) => Err(error),
        },
        Expr::If { condition, consequence, alternative } => match eval_expr(*condition) {
            Ok(Object::Boolean(true)) => eval_statements(consequence),
            Ok(_) => eval_statements(alternative),
            Err(error) => Err(error),
        },
    }
}

/// Evaluates a statement.
///
/// An expression statement has the value of its expression.  A `return`
/// gives the value of its expression a `Return` tag, unless the value
/// comes with one already.  A `let` has no evaluation rule.
pub fn eval_statement(statement: Statement) -> (result: EvalResult)
    ensures
        result == statement_value(statement),
        result matches Ok(v) ==> v.well_formed(),
    decreases statement,
{
    match statement {
        Statement::Expression(expr) => eval_expr(expr),
        Statement::Return { value } => match eval_expr(value) {
            Ok(Object::Return(inner)) => Ok(Object::Return(inner)),
            Ok(v) => Ok(Object::Return(Box::new(v))),
            Err(error) => Err(error),
        },
        Statement::Let { .. } => Err(EvalError::UnsupportedStatement),
    }
}

/// Evaluates a statement sequence in order.
///
/// The first statement that fails ends the sequence with its error, and the
/// first whose value is a `Return` ends it with that value, tag and all;
/// what follows is not evaluated.  Otherwise the value is that of the last
/// statement, and `Null` for an empty sequence.
pub fn eval_statements(statements: Vec<Statement>) -> (result: EvalResult)
    ensures
        result == sequence_value(statements@),
        result matches Ok(v) ==> v.well_formed(),
    decreases statements,
{
    proof {
        law_sequence_value_well_formed(statements@);
    }
    let mut result = Object::Null;
    assert(statements@.skip(0) == statements@);
    for statement in iter: statements
        invariant
            iter.index() < statements@.len() ==> sequence_value(statements@) == sequence_value(
                statements@.skip(iter.index()),
            ),
            iter.index() == statements@.len() ==> sequence_value(statements@) == EvalResult::Ok(
                result,
            ),
    {
        let ghost rest = statements@.skip(iter.index());
        assert(rest.subrange(1, rest.len() as int) == statements@.skip(iter.index() + 1));
        result = eval_statement(statement)?;
        if let Object::Return(_) = &result {
            return Ok(result);
        }
    }
    Ok(result)
}

/// Evaluates a program: its statement sequence, with the `Return` tag
/// taken off the result.  This is the one place where the tag comes off,
/// and no value that leaves here has one.
pub fn eval_program(statements: Vec<Statement>) -> (result: EvalResult)
    ensures
        result == program_value(statements@),
        result matches Ok(v) ==> !(v is Return),
{
    match eval_statements(statements) {
        Ok(Object::Return(inner)) => Ok(*inner),
        Ok(v) => Ok(v),
        Err(error) => Err(error),
    }
}

} // verus!
