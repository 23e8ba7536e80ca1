//! General facts about evaluation, proved from the definitions in
//! [`super::semantics`].

use vstd::prelude::*;
use crate::ast::{Expr, Operator, Prefix, Statement};
use crate::eval::{EvalError, EvalResult, Object};
use crate::eval::semantics::{
    expr_value, program_value, sequence_value, statement_value, truncating_quotient,
};

verus! {

/// `!operand`
pub open spec fn not(operand: Expr) -> Expr {
    Expr::Prefix { prefix: Prefix::Bang, value: Box::new(operand) }
}

/// `-operand`
pub open spec fn negate(operand: Expr) -> Expr {
    Expr::Prefix { prefix: Prefix::Minus, value: Box::new(operand) }
}

/// `left operator right`
pub open spec fn infix(left: Expr, operator: Operator, right: Expr) -> Expr {
    Expr::Infix { left: Box::new(left), operator, right: Box::new(right) }
}

/// `if (condition) { consequence } else { alternative }`
pub open spec fn conditional(
    condition: Expr,
    consequence: Vec<Statement>,
    alternative: Vec<Statement>,
) -> Expr {
    Expr::If { condition: Box::new(condition), consequence, alternative }
}

/// `value` with a `Return` tag.
pub open spec fn returned(value: Object) -> Object {
    Object::Return(Box::new(value))
}

/// The statement has a value, and that value is not a `Return`: a sequence
/// goes on to the statement after it.
pub open spec fn passes(statement: Statement) -> bool {
    statement_value(statement) matches Ok(v) && !(v is Return)
}

/// Every statement of `statements` before index `end` passes.
pub open spec fn runs_through(statements: Seq<Statement>, end: int) -> bool {
    forall|i: int| 0 <= i < end ==> passes(#[trigger] statements[i])
}

/// No value of an expression holds a `Return` inside a `Return`.
pub proof fn law_expr_value_well_formed(expression: Expr)
    ensures
        expr_value(expression) matches Ok(v) ==> v.well_formed(),
    decreases expression,
{
    match expression {
        Expr::If { consequence, alternative, .. } => {
            law_sequence_value_well_formed(consequence@);
            law_sequence_value_well_formed(alternative@);
        },
        _ => {},
    }
}

/// No value of a statement holds a `Return` inside a `Return`.
pub proof fn law_statement_value_well_formed(statement: Statement)
    ensures
        statement_value(statement) matches Ok(v) ==> v.well_formed(),
    decreases statement,
{
    match statement {
        Statement::Expression(expression) => {
            law_expr_value_well_formed(expression);
        },
        Statement::Return { value } => {
            law_expr_value_well_formed(value);
        },
        Statement::Let { .. } => {},
    }
}

/// No value of a statement sequence holds a `Return` inside a `Return`.
pub proof fn law_sequence_value_well_formed(statements: Seq<Statement>)
    ensures
        sequence_value(statements) matches Ok(v) ==> v.well_formed(),
    decreases statements,
{
    if statements.len() > 0 {
        law_statement_value_well_formed(statements[0]);
        if statements.len() > 1 {
            law_sequence_value_well_formed(statements.subrange(1, statements.len() as int));
        }
    }
}

/// A program never yields a `Return`: the tag is taken off exactly once and
/// there is no second one beneath it.
pub proof fn law_program_value_untagged(statements: Seq<Statement>)
    ensures
        program_value(statements) matches Ok(v) ==> !(v is Return),
{
    law_sequence_value_well_formed(statements);
}

/// A statement sequence has the value, or the error, of the first of its
/// statements that fails or returns; if there is none, of its last
/// statement.
pub proof fn law_sequence_stops_at(statements: Seq<Statement>, k: int)
    requires
        0 <= k < statements.len(),
        runs_through(statements, k),
        k == statements.len() - 1 || !passes(statements[k]),
    ensures
        sequence_value(statements) == statement_value(statements[k]),
    decreases k,
{
    if k > 0 {
        let rest = statements.subrange(1, statements.len() as int);
        assert(passes(statements[0]));
        assert forall|i: int| 0 <= i < k - 1 implies passes(#[trigger] rest[i]) by {
            assert(rest[i] == statements[i + 1]);
        }
        law_sequence_stops_at(rest, k - 1);
    }
}

/// A `return` ends its statement sequence: whatever follows it, the
/// sequence has the tagged value of the `return`, and a program has that
/// value without the tag.  The statements after it are never evaluated, so
/// they may even be ones that would fail.
pub proof fn law_return_skips_rest(
    before: Seq<Statement>,
    value: Expr,
    after: Seq<Statement>,
    v: Object,
)
    requires
        runs_through(before, before.len() as int),
        expr_value(value) == EvalResult::Ok(v),
    ensures
        sequence_value(before + seq![Statement::Return { value }] + after) == EvalResult::Ok(
            returned(v.payload()),
        ),
        program_value(before + seq![Statement::Return { value }] + after) == EvalResult::Ok(
            v.payload(),
        ),
{
    let statements = before + seq![Statement::Return { value }] + after;
    let k = before.len() as int;
    assert forall|i: int| 0 <= i < k implies passes(#[trigger] statements[i]) by {
        assert(statements[i] == before[i]);
    }
    assert(statements[k] == Statement::Return { value });
    law_sequence_stops_at(statements, k);
}

/// A statement that fails ends its statement sequence and the program
/// with its error, whatever follows it.
pub proof fn law_error_skips_rest(
    before: Seq<Statement>,
    failing: Statement,
    after: Seq<Statement>,
    error: EvalError,
)
    requires
        runs_through(before, before.len() as int),
        statement_value(failing) == EvalResult::Err(error),
    ensures
        sequence_value(before + seq![failing] + after) == EvalResult::Err(error),
        program_value(before + seq![failing] + after) == EvalResult::Err(error),
{
    let statements = before + seq![failing] + after;
    let k = before.len() as int;
    assert forall|i: int| 0 <= i < k implies passes(#[trigger] statements[i]) by {
        assert(statements[i] == before[i]);
    }
    assert(statements[k] == failing);
    law_sequence_stops_at(statements, k);
}

/// A conditional has the value of the branch that its condition selects:
/// the consequence when the condition is exactly `true`, the alternative
/// for every other value; an empty alternative gives `Null`.  A condition
/// that fails makes the conditional fail.
pub proof fn law_conditional_selects(
    condition: Expr,
    consequence: Vec<Statement>,
    alternative: Vec<Statement>,
)
    ensures
        ({
            let whole = expr_value(conditional(condition, consequence, alternative));
            match expr_value(condition) {
                Ok(test) => {
                    &&& test == Object::Boolean(true) ==> whole == sequence_value(consequence@)
                    &&& test != Object::Boolean(true) ==> whole == sequence_value(alternative@)
                    &&& test != Object::Boolean(true) && alternative@.len() == 0 ==> whole
                        == EvalResult::Ok(Object::Null)
                },
                Err(error) => whole == EvalResult::Err(error),
            }
        }),
{
}

/// A `return` inside a conditional leaves the conditional too: used as a
/// statement, the conditional has the tagged value of the branch taken.
pub proof fn law_return_leaves_conditional(
    condition: Expr,
    consequence: Vec<Statement>,
    alternative: Vec<Statement>,
    v: Object,
)
    requires
        expr_value(condition) matches Ok(test) && sequence_value(
            if test == Object::Boolean(true) {
                consequence@
            } else {
                alternative@
            },
        ) == EvalResult::Ok(returned(v)),
    ensures
        statement_value(Statement::Expression(conditional(condition, consequence, alternative)))
            == EvalResult::Ok(returned(v)),
{
}

/// A `return` inside two nested conditionals ends both enclosing statement
/// sequences and the program: the program has the value of the `return`,
/// untagged, whatever follows the `return` or either conditional.
pub proof fn law_nested_return(
    outer_test: Expr,
    outer: Vec<Statement>,
    outer_else: Vec<Statement>,
    after_outer: Seq<Statement>,
    inner_test: Expr,
    inner: Vec<Statement>,
    inner_else: Vec<Statement>,
    after_inner: Seq<Statement>,
    value: Expr,
    after_return: Seq<Statement>,
    v: Object,
)
    requires
        expr_value(outer_test) == EvalResult::Ok(Object::Boolean(true)),
        expr_value(inner_test) == EvalResult::Ok(Object::Boolean(true)),
        expr_value(value) == EvalResult::Ok(v),
        inner@ == seq![Statement::Return { value }] + after_return,
        outer@ == seq![Statement::Expression(conditional(inner_test, inner, inner_else))]
            + after_inner,
    ensures
        program_value(
            seq![Statement::Expression(conditional(outer_test, outer, outer_else))] + after_outer,
        ) == EvalResult::Ok(v.payload()),
{
    let inner_if = Statement::Expression(conditional(inner_test, inner, inner_else));
    let outer_if = Statement::Expression(conditional(outer_test, outer, outer_else));
    assert(sequence_value(inner@) == EvalResult::Ok(returned(v.payload()))) by {
        assert(inner@ == Seq::<Statement>::empty() + seq![Statement::Return { value }]
            + after_return);
        law_return_skips_rest(Seq::empty(), value, after_return, v);
    }
    assert(statement_value(inner_if) == EvalResult::Ok(returned(v.payload()))) by {
        law_return_leaves_conditional(inner_test, inner, inner_else, v.payload());
    }
    assert(sequence_value(outer@) == EvalResult::Ok(returned(v.payload()))) by {
        law_sequence_stops_at(outer@, 0);
    }
    assert(statement_value(outer_if) == EvalResult::Ok(returned(v.payload()))) by {
        law_return_leaves_conditional(outer_test, outer, outer_else, v.payload());
    }
    law_sequence_stops_at(seq![outer_if] + after_outer, 0);
}

/// A program that is one integer literal has that integer as its value.
pub proof fn law_integer_literal(n: i32)
    ensures
        expr_value(Expr::Const(n)) == EvalResult::Ok(Object::Integer(n)),
        program_value(seq![Statement::Expression(Expr::Const(n))]) == EvalResult::Ok(
            Object::Integer(n),
        ),
{
    law_sequence_stops_at(seq![Statement::Expression(Expr::Const(n))], 0);
}

/// Logical not, applied twice, gives a boolean back: to a literal, and to
/// any operand whose value is a boolean.
pub proof fn law_double_not(operand: Expr, b: bool)
    ensures
        expr_value(not(not(Expr::Boolean(b)))) == EvalResult::Ok(Object::Boolean(b)),
        expr_value(operand) == EvalResult::Ok(Object::Boolean(b)) ==> expr_value(
            not(not(operand)),
        ) == EvalResult::Ok(Object::Boolean(b)),
{
    reveal_with_fuel(expr_value, 3);
}

/// Negation, applied twice, gives an integer back: to a literal, and to
/// any operand whose value is an integer.  The least integer is left out:
/// its negation does not fit in 32 bits.
pub proof fn law_double_negate(operand: Expr, n: i32)
    requires
        n != i32::MIN,
    ensures
        expr_value(negate(negate(Expr::Const(n)))) == EvalResult::Ok(Object::Integer(n)),
        expr_value(operand) == EvalResult::Ok(Object::Integer(n)) ==> expr_value(
            negate(negate(operand)),
        ) == EvalResult::Ok(Object::Integer(n)),
{
    reveal_with_fuel(expr_value, 3);
}

/// Negating the least integer is an overflow.
pub proof fn law_negate_least_overflows()
    ensures
        expr_value(negate(Expr::Const(i32::MIN))) == EvalResult::Err(EvalError::Overflow),
{
    reveal_with_fuel(expr_value, 2);
}

/// The truncating quotient is the one whose remainder is smaller in
/// magnitude than the divisor and has the sign of the dividend.
pub proof fn law_truncating_quotient(a: int, b: int)
    requires
        b != 0,
    ensures
        ({
            let r = a - truncating_quotient(a, b) * b;
            &&& (-b < r < b) || (b < r < -b)
            &&& a >= 0 ==> r >= 0
            &&& a <= 0 ==> r <= 0
        }),
{
    if a >= 0 && b > 0 {
        lemma_remainder_of_naturals(a, b);
    } else if a < 0 && b < 0 {
        lemma_remainder_of_naturals(-a, -b);
        assert(((-a) / (-b)) * (-b) == -(((-a) / (-b)) * b)) by (nonlinear_arith);
    } else if a < 0 {
        lemma_remainder_of_naturals(-a, b);
        assert((-((-a) / b)) * b == -(((-a) / b) * b)) by (nonlinear_arith);
    } else {
        lemma_remainder_of_naturals(a, -b);
        assert((-(a / (-b))) * b == (a / (-b)) * (-b)) by (nonlinear_arith);
    }
}

/// Division of integer literals gives the quotient rounded toward zero.
/// The one quotient that does not fit in 32 bits is left out.
pub proof fn law_division(a: i32, b: i32)
    requires
        b != 0,
        !(a == i32::MIN && b == -1),
    ensures
        i32::MIN <= truncating_quotient(a as int, b as int) <= i32::MAX,
        expr_value(infix(Expr::Const(a), Operator::Divide, Expr::Const(b))) == EvalResult::Ok(
            Object::Integer(truncating_quotient(a as int, b as int) as i32),
        ),
{
    reveal_with_fuel(expr_value, 2);
    lemma_quotient_bounded(a as int, b as int);
}

/// Division by zero is an error, and so is the one quotient that does not
/// fit in 32 bits, that of the least integer by -1.
pub proof fn law_division_fails(a: i32)
    ensures
        expr_value(infix(Expr::Const(a), Operator::Divide, Expr::Const(0))) == EvalResult::Err(
            EvalError::DivisionByZero,
        ),
        expr_value(infix(Expr::Const(i32::MIN), Operator::Divide, negate(Expr::Const(1))))
            == EvalResult::Err(EvalError::Overflow),
{
    reveal_with_fuel(expr_value, 3);
}

/// Equality holds between a literal and itself, for integers and for
/// booleans; between an integer and a boolean it is an error, not `false`.
pub proof fn law_equality(n: i32, b: bool)
    ensures
        expr_value(infix(Expr::Const(n), Operator::Equals, Expr::Const(n))) == EvalResult::Ok(
            Object::Boolean(true),
        ),
        expr_value(infix(Expr::Boolean(b), Operator::Equals, Expr::Boolean(b))) == EvalResult::Ok(
            Object::Boolean(true),
        ),
        expr_value(infix(Expr::Const(n), Operator::Equals, Expr::Boolean(b))) == EvalResult::Err(
            EvalError::InfixTypeMismatch(Operator::Equals),
        ),
        expr_value(infix(Expr::Boolean(b), Operator::Equals, Expr::Const(n))) == EvalResult::Err(
            EvalError::InfixTypeMismatch(Operator::Equals),
        ),
{
    reveal_with_fuel(expr_value, 2);
}

/// Equality of two operands that have values: `true` between an operand
/// and itself when its value is an integer or a boolean; an error when one
/// value is an integer and the other a boolean; and between two integers or
/// two booleans, whether the values are the same, which is the opposite of
/// what `!=` gives.
pub proof fn law_equality_of_operands(left: Expr, right: Expr, l: Object, r: Object)
    requires
        expr_value(left) == EvalResult::Ok(l),
        expr_value(right) == EvalResult::Ok(r),
    ensures
        l is Integer || l is Boolean ==> expr_value(infix(left, Operator::Equals, left))
            == EvalResult::Ok(Object::Boolean(true)),
        (l is Integer && r is Boolean) || (l is Boolean && r is Integer) ==> expr_value(
            infix(left, Operator::Equals, right),
        ) == EvalResult::Err(EvalError::InfixTypeMismatch(Operator::Equals)),
        (l is Integer && r is Integer) || (l is Boolean && r is Boolean) ==> {
            &&& expr_value(infix(left, Operator::Equals, right)) == EvalResult::Ok(
                Object::Boolean(l == r),
            )
            &&& expr_value(infix(left, Operator::NotEquals, right)) == EvalResult::Ok(
                Object::Boolean(l != r),
            )
        },
{
}

/// An error's message tells which error it is: no two errors share one.
pub proof fn law_messages_differ(a: EvalError, b: EvalError)
    ensures
        a.message_text() == b.message_text() <==> a == b,
{
    reveal_strlit("! operator only valid for boolean type");
    reveal_strlit("minus operator only valid for integer type");
    reveal_strlit("plus operator only valid on integer types");
    reveal_strlit("minus operator only valid on integer types");
    reveal_strlit("multiply operator only valid on integer types");
    reveal_strlit("divide operator only valid on integer types");
    reveal_strlit("less than operator only valid on integer types");
    reveal_strlit("greater than operator only valid on integer types");
    reveal_strlit("equals operator used on invalid types");
    reveal_strlit("not equals operator used on invalid types");
    reveal_strlit("eval expr not implemented for this type");
    reveal_strlit("unsupported statement type");
    reveal_strlit("attempt to divide by zero");
    reveal_strlit("arithmetic result does not fit in 32 bits");
    // Messages of one length differ in their first character, or in the
    // one at index 26, where "for" or "on" begins.
    if a.message_text() == b.message_text() {
        assert(a.message_text().len() == b.message_text().len());
        assert(a.message_text()[0] == b.message_text()[0]);
        assert(a.message_text()[26] == b.message_text()[26]);
    }
}

/// For a dividend that is not negative and a positive divisor, the
/// remainder lies between zero and the divisor.
proof fn lemma_remainder_of_naturals(a: int, b: int)
    requires
        a >= 0,
        b > 0,
    ensures
        0 <= a - (a / b) * b < b,
{
    assert(0 <= a - (a / b) * b < b) by (nonlinear_arith)
        requires
            a >= 0,
            b > 0,
    ;
}

/// The truncating quotient by 1 is the dividend, by -1 its negation; by
/// anything else it is at most half the dividend in magnitude.
proof fn lemma_quotient_bounded(a: int, b: int)
    requires
        b != 0,
    ensures
        b == 1 ==> truncating_quotient(a, b) == a,
        b == -1 ==> truncating_quotient(a, b) == -a,
        (b > 1 || b < -1) && a >= 0 ==> -a <= 2 * truncating_quotient(a, b) <= a,
        (b > 1 || b < -1) && a <= 0 ==> a <= 2 * truncating_quotient(a, b) <= -a,
{
    if a >= 0 && b > 0 {
        lemma_quotient_of_naturals(a, b);
    } else if a < 0 && b < 0 {
        lemma_quotient_of_naturals(-a, -b);
    } else if a < 0 {
        lemma_quotient_of_naturals(-a, b);
    } else {
        lemma_quotient_of_naturals(a, -b);
    }
}

/// For a dividend that is not negative and a positive divisor: the
/// quotient by 1 is the dividend, by more than 1 at most half of it.
proof fn lemma_quotient_of_naturals(a: int, b: int)
    requires
        a >= 0,
        b > 0,
    ensures
        0 <= a / b,
        b == 1 ==> a / b == a,
        b > 1 ==> 2 * (a / b) <= a,
{
    assert(0 <= a / b && (a / b) * b <= a) by (nonlinear_arith)
        requires
            a >= 0,
            b > 0,
    ;
    if b > 1 {
        assert(2 * (a / b) <= (a / b) * b) by (nonlinear_arith)
            requires
                0 <= a / b,
                b >= 2,
        ;
    }
}

} // verus!
