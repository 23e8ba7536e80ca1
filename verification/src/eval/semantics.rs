//! What evaluation means, as mathematical functions on syntax trees.
//!
//! Trees and values are plain data and stand for themselves here; a `Vec`
//! of statements is taken by its view, a `Seq`.  Arithmetic is on `int`, so
//! a result is exact or, where it does not fit in 32 bits, an overflow.
//!
//! Every function here is total: a tree either has a value or has the error
//! that stops its evaluation.  Operands are evaluated left to right and the
//! first error wins.

use vstd::prelude::*;
use crate::ast::{Expr, Operator, Prefix, Statement};
use crate::eval::{EvalError, EvalResult, Object};

verus! {

/// The integer `v` as a result: itself when it fits in 32 bits.
pub open spec fn integer_result(v: int) -> EvalResult {
    if i32::MIN <= v <= i32::MAX {
        Ok(Object::Integer(v as i32))
    } else {
        Err(EvalError::Overflow)
    }
}

/// The quotient of `a` by `b`, rounded toward zero.
pub open spec fn truncating_quotient(a: int, b: int) -> int
    recommends
        b != 0,
{
    if a >= 0 && b > 0 {
        a / b
    } else if a < 0 && b < 0 {
        (-a) / (-b)
    } else if a < 0 {
        -((-a) / b)
    } else {
        -(a / (-b))
    }
}

/// The result of a prefix operator on an evaluated operand.
pub open spec fn prefix_result(prefix: Prefix, operand: Object) -> EvalResult {
    match (prefix, operand) {
        (Prefix::Bang, Object::Boolean(b)) => Ok(Object::Boolean(!b)),
        (Prefix::Minus, Object::Integer(n)) => integer_result(-n),
        _ => Err(EvalError::PrefixTypeMismatch(prefix)),
    }
}

/// The result of an infix operator on two evaluated operands.
pub open spec fn infix_result(operator: Operator, left: Object, right: Object) -> EvalResult {
    match (left, right) {
        (Object::Integer(a), Object::Integer(b)) => match operator {
            Operator::Plus => integer_result(a + b),
            Operator::Minus => integer_result(a - b),
            Operator::Multiply => integer_result(a * b),
            Operator::Divide => if b == 0 {
                Err(EvalError::DivisionByZero)
            } else {
                integer_result(truncating_quotient(a as int, b as int))
            },
            Operator::LessThan => Ok(Object::Boolean(a < b)),
            Operator::GreaterThan => Ok(Object::Boolean(a > b)),
            Operator::Equals => Ok(Object::Boolean(a == b)),
            Operator::NotEquals => Ok(Object::Boolean(a != b)),
        },
        (Object::Boolean(a), Object::Boolean(b)) => match operator {
            Operator::Equals => Ok(Object::Boolean(a == b)),
            Operator::NotEquals => Ok(Object::Boolean(a != b)),
            _ => Err(EvalError::InfixTypeMismatch(operator)),
        },
        _ => Err(EvalError::InfixTypeMismatch(operator)),
    }
}

/// The value of an expression.
pub open spec fn expr_value(expression: Expr) -> EvalResult
    decreases expression,
{
    match expression {
        Expr::Const(n) => Ok(Object::Integer(n)),
        Expr::Boolean(b) => Ok(Object::Boolean(b)),
        Expr::Ident(_) => Err(EvalError::NotImplemented),
        Expr::Prefix { prefix, value } => match expr_value(*value) {
            Ok(operand) => prefix_result(prefix, operand),
            Err(error) => Err(error),
        },
        Expr::Infix { left, operator, right } => match expr_value(*left) {
            Ok(l) => match expr_value(*right) {
                Ok(r) => infix_result(operator, l, r),
                Err(error) => Err(error),
            },
            Err(error) => Err(error),
        },
        Expr::If { condition, consequence, alternative } => match expr_value(*condition) {
            Ok(test) => if test == Object::Boolean(true) {
                sequence_value(consequence@)
            } else {
                sequence_value(alternative@)
            },
            Err(error) => Err(error),
        },
    }
}

/// The value of a statement.  A `return` tags the value of its expression;
/// a value that already carries the tag keeps that one tag.
pub open spec fn statement_value(statement: Statement) -> EvalResult
    decreases statement,
{
    match statement {
        Statement::Expression(expression) => expr_value(expression),
        Statement::Return { value } => match expr_value(value) {
            Ok(v) => Ok(Object::Return(Box::new(v.payload()))),
            Err(error) => Err(error),
        },
        Statement::Let { .. } => Err(EvalError::UnsupportedStatement),
    }
}

/// The value of a statement sequence: `Null` when it is empty, else the
/// value of the first statement that fails or returns, else the value of
/// the last statement.
pub open spec fn sequence_value(statements: Seq<Statement>) -> EvalResult
    decreases statements,
{
    if statements.len() == 0 {
        Ok(Object::Null)
    } else {
        match statement_value(statements[0]) {
            Ok(v) => if v is Return || statements.len() == 1 {
                Ok(v)
            } else {
                sequence_value(statements.subrange(1, statements.len() as int))
            },
            Err(error) => Err(error),
        }
    }
}

/// The value of a program: that of its statement sequence, without the
/// `Return` tag.
pub open spec fn program_value(statements: Seq<Statement>) -> EvalResult {
    match sequence_value(statements) {
        Ok(v) => Ok(v.payload()),
        Err(error) => Err(error),
    }
}

} // verus!
