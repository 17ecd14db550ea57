//! The binary operators, each on the pairs of values it is defined on.

use crate::evaluator::{
    environment_view, evaluate_spec, returned, EvaluationResult, FaultView, ResultView,
    RuntimeFault, Types,
};
use crate::float::{
    float_add, float_difference, float_divide, float_from_int, float_is_zero, float_multiply,
    float_of_int, float_product, float_quotient, float_rem, float_remainder, float_subtract,
    float_sum, is_zero,
};
use crate::syntax::{depth, higher, ExpressionView, SyntaxKind, SyntaxView, TokenView, Tokens};
use vstd::prelude::*;

verus! {

/// Two operands as numbers of one kind.
#[derive(Clone, Copy)]
pub enum Numbers {
    /// Two integers.
    Ints(i64, i64),
    /// Two floating-point numbers. Where one operand was an integer, this is
    /// the floating-point number nearest to it.
    Floats(u64, u64),
    /// At least one operand is no number.
    Neither,
}

/// Two operands as numbers of one kind: an integer beside a floating-point
/// number becomes one.
pub open spec fn numbers(left: ResultView, right: ResultView) -> Numbers {
    match (left, right) {
        (ResultView::Int(a), ResultView::Int(b)) => Numbers::Ints(a, b),
        (ResultView::Float(a), ResultView::Float(b)) => Numbers::Floats(a, b),
        (ResultView::Int(a), ResultView::Float(b)) => Numbers::Floats(float_of_int(a), b),
        (ResultView::Float(a), ResultView::Int(b)) => Numbers::Floats(a, float_of_int(b)),
        _ => Numbers::Neither,
    }
}

/// Whether a value is the integer zero or a floating-point zero.
pub open spec fn is_zero_number(value: ResultView) -> bool {
    match value {
        ResultView::Int(number) => number == 0,
        ResultView::Float(bits) => is_zero(bits),
        _ => false,
    }
}

/// An integer result, or the overflow where the number does not fit 64 bits.
pub open spec fn int_result(number: int) -> Result<ResultView, FaultView> {
    if i64::MIN <= number <= i64::MAX {
        Ok(ResultView::Int(number as i64))
    } else {
        Err(FaultView::IntegerOverflow)
    }
}

/// The remainder of an integer division that rounds towards zero: it has the
/// sign of the dividend.
pub open spec fn truncated_remainder(dividend: int, divisor: int) -> int
    recommends
        divisor != 0,
{
    let magnitude = if divisor < 0 {
        -divisor
    } else {
        divisor
    };
    if dividend >= 0 {
        dividend % magnitude
    } else {
        -((-dividend) % magnitude)
    }
}

/// The fault of an operator on operands that it is not defined on.
pub open spec fn invalid_operands(
    operator: SyntaxView,
    left: ResultView,
    right: ResultView,
) -> Result<
    ResultView,
    FaultView,
> {
    Err(FaultView::InvalidOperands { operator, left, right })
}

/// What a binary operator makes of two values.
///
/// - `+` concatenates two strings and adds two numbers.
/// - `-` and `*` subtract and multiply two numbers.
/// - `/` divides two numbers and always gives a floating-point number. A
///   right operand that is zero is a division by zero.
/// - `%` gives the remainder of two numbers. Between integers it has the sign
///   of the left operand, and a right operand that is zero is a division by
///   zero.
/// - `&&` is the conjunction of two booleans.
/// - `!=` tells whether two booleans differ.
///
/// Two integers give an integer, and an overflow where it does not fit 64
/// bits. Two numbers of which one is a floating-point number give a
/// floating-point number. Every other pairing, and every other operator, is a
/// fault that names the operator and the operands.
pub open spec fn apply_binary(operator: SyntaxView, left: ResultView, right: ResultView) -> Result<
    ResultView,
    FaultView,
> {
    match operator {
        SyntaxView::Token(TokenView::PlusToken) => match (left, right) {
            (ResultView::String(a), ResultView::String(b)) => Ok(ResultView::String(a + b)),
            _ => match numbers(left, right) {
                Numbers::Ints(a, b) => int_result(a + b),
                Numbers::Floats(a, b) => Ok(ResultView::Float(float_sum(a, b))),
                Numbers::Neither => invalid_operands(operator, left, right),
            },
        },
        SyntaxView::Token(TokenView::MinusToken) => match numbers(left, right) {
            Numbers::Ints(a, b) => int_result(a - b),
            Numbers::Floats(a, b) => Ok(ResultView::Float(float_difference(a, b))),
            Numbers::Neither => invalid_operands(operator, left, right),
        },
        SyntaxView::Token(TokenView::StarToken) => match numbers(left, right) {
            Numbers::Ints(a, b) => int_result(a * b),
            Numbers::Floats(a, b) => Ok(ResultView::Float(float_product(a, b))),
            Numbers::Neither => invalid_operands(operator, left, right),
        },
        SyntaxView::Token(TokenView::SlashToken) => match numbers(left, right) {
            Numbers::Neither => invalid_operands(operator, left, right),
            Numbers::Ints(a, b) => if is_zero_number(right) {
                Err(FaultView::DivisionByZero)
            } else {
                Ok(ResultView::Float(float_quotient(float_of_int(a), float_of_int(b))))
            },
            Numbers::Floats(a, b) => if is_zero_number(right) {
                Err(FaultView::DivisionByZero)
            } else {
                Ok(ResultView::Float(float_quotient(a, b)))
            },
        },
        SyntaxView::Token(TokenView::PercentToken) => match numbers(left, right) {
            Numbers::Ints(a, b) => if b == 0 {
                Err(FaultView::DivisionByZero)
            } else if a == i64::MIN && b == -1 {
                Err(FaultView::IntegerOverflow)
            } else {
                Ok(ResultView::Int(truncated_remainder(a as int, b as int) as i64))
            },
            Numbers::Floats(a, b) => Ok(ResultView::Float(float_remainder(a, b))),
            Numbers::Neither => invalid_operands(operator, left, right),
        },
        SyntaxView::Token(TokenView::BangEqualsToken) => match (left, right) {
            (ResultView::Boolean(a), ResultView::Boolean(b)) => Ok(ResultView::Boolean(a != b)),
            _ => invalid_operands(operator, left, right),
        },
        SyntaxView::Token(TokenView::AmpersandAmpersandToken) => match (left, right) {
            (ResultView::Boolean(a), ResultView::Boolean(b)) => Ok(ResultView::Boolean(a && b)),
            _ => invalid_operands(operator, left, right),
        },
        _ => invalid_operands(operator, left, right),
    }
}

/// The depth of the deepest of a binary expression's three children.
pub open spec fn binary_depth(left: SyntaxView, right: SyntaxView, operator: SyntaxView) -> nat {
    higher(depth(left), higher(depth(operator), depth(right)))
}

/// The binary expression with the given children.
pub open spec fn binary_node(
    left: SyntaxView,
    operator: SyntaxView,
    right: SyntaxView,
) -> SyntaxView {
    SyntaxView::Expression(
        ExpressionView::BinaryExpressionSyntax {
            left: Box::new(left),
            operator: Box::new(operator),
            right: Box::new(right),
        },
    )
}

/// Two operands as numbers of one kind.
fn numbers_of(left: &EvaluationResult, right: &EvaluationResult) -> (pair: Numbers)
    ensures
        pair == numbers(left@, right@),
{
    match (left, right) {
        (EvaluationResult::Int(a), EvaluationResult::Int(b)) => Numbers::Ints(*a, *b),
        (EvaluationResult::Float(a), EvaluationResult::Float(b)) => Numbers::Floats(*a, *b),
        (EvaluationResult::Int(a), EvaluationResult::Float(b)) => Numbers::Floats(
            float_from_int(*a),
            *b,
        ),
        (EvaluationResult::Float(a), EvaluationResult::Int(b)) => Numbers::Floats(
            *a,
            float_from_int(*b),
        ),
        _ => Numbers::Neither,
    }
}

/// Whether a value is the integer zero or a floating-point zero.
fn is_zero_value(value: &EvaluationResult) -> (zero: bool)
    ensures
        zero == is_zero_number(value@),
{
    match value {
        EvaluationResult::Int(number) => *number == 0,
        EvaluationResult::Float(bits) => float_is_zero(*bits),
        _ => false,
    }
}

/// An integer result, or the overflow where there is no number.
pub fn int_outcome(number: Option<i64>) -> (result: Result<EvaluationResult, RuntimeFault>)
    ensures
        returned(result) == match number {
            Some(value) => Ok::<ResultView, FaultView>(ResultView::Int(value)),
            None => Err(FaultView::IntegerOverflow),
        },
{
    match number {
        Some(value) => Ok(EvaluationResult::Int(value)),
        None => Err(RuntimeFault::IntegerOverflow),
    }
}

/// A floating-point result.
pub fn float_outcome(bits: u64) -> (result: Result<EvaluationResult, RuntimeFault>)
    ensures
        returned(result) == Ok::<ResultView, FaultView>(ResultView::Float(bits)),
{
    Ok(EvaluationResult::Float(bits))
}

/// What the operator makes of the two values, where it is defined on them.
fn compute(operator: &SyntaxKind, left: &EvaluationResult, right: &EvaluationResult) -> (result:
    Option<Result<EvaluationResult, RuntimeFault>>)
    ensures
        match result {
            Some(computed) => returned(computed) == apply_binary(operator@, left@, right@),
            None => apply_binary(operator@, left@, right@) == invalid_operands(
                operator@,
                left@,
                right@,
            ),
        },
{
    let pair = numbers_of(left, right);
    match operator {
        SyntaxKind::Token(Tokens::PlusToken) => match (left, right) {
            (EvaluationResult::String(a), EvaluationResult::String(b)) => Some(
                Ok(EvaluationResult::String(a.clone().concat(b.as_str()))),
            ),
            _ => match pair {
                Numbers::Ints(a, b) => Some(int_outcome(a.checked_add(b))),
                Numbers::Floats(a, b) => Some(float_outcome(float_add(a, b))),
                Numbers::Neither => None,
            },
        },
        SyntaxKind::Token(Tokens::MinusToken) => match pair {
            Numbers::Ints(a, b) => Some(int_outcome(a.checked_sub(b))),
            Numbers::Floats(a, b) => Some(float_outcome(float_subtract(a, b))),
            Numbers::Neither => None,
        },
        SyntaxKind::Token(Tokens::StarToken) => match pair {
            Numbers::Ints(a, b) => Some(int_outcome(a.checked_mul(b))),
            Numbers::Floats(a, b) => Some(float_outcome(float_multiply(a, b))),
            Numbers::Neither => None,
        },
        SyntaxKind::Token(Tokens::SlashToken) => match pair {
            Numbers::Neither => None,
            Numbers::Ints(a, b) => {
                if is_zero_value(right) {
                    Some(Err(RuntimeFault::DivisionByZero))
                } else {
                    Some(float_outcome(float_divide(float_from_int(a), float_from_int(b))))
                }
            },
            Numbers::Floats(a, b) => {
                if is_zero_value(right) {
                    Some(Err(RuntimeFault::DivisionByZero))
                } else {
                    Some(float_outcome(float_divide(a, b)))
                }
            },
        },
        SyntaxKind::Token(Tokens::PercentToken) => match pair {
            Numbers::Ints(a, b) => {
                if b == 0 {
                    Some(Err(RuntimeFault::DivisionByZero))
                } else {
                    proof {
                        lemma_truncated_remainder(a, b);
                    }
                    Some(int_outcome(a.checked_rem(b)))
                }
            },
            Numbers::Floats(a, b) => Some(float_outcome(float_rem(a, b))),
            Numbers::Neither => None,
        },
        SyntaxKind::Token(Tokens::BangEqualsToken) => match (left, right) {
            (EvaluationResult::Boolean(a), EvaluationResult::Boolean(b)) => Some(
                Ok(EvaluationResult::Boolean(*a != *b)),
            ),
            _ => None,
        },
        SyntaxKind::Token(Tokens::AmpersandAmpersandToken) => match (left, right) {
            (EvaluationResult::Boolean(a), EvaluationResult::Boolean(b)) => Some(
                Ok(EvaluationResult::Boolean(*a && *b)),
            ),
            _ => None,
        },
        _ => None,
    }
}

/// The remainder that `checked_rem` computes is the truncated remainder.
proof fn lemma_truncated_remainder(a: i64, b: i64)
    requires
        b != 0,
    ensures
        a.checked_rem(b) == if a == i64::MIN && b == -1 {
            None::<i64>
        } else {
            Some(truncated_remainder(a as int, b as int) as i64)
        },
        !(a == i64::MIN && b == -1) ==> i64::MIN <= truncated_remainder(a as int, b as int)
            <= i64::MAX,
{
    let x = a as int;
    let d = b as int;
    let magnitude: int = if d < 0 {
        -d
    } else {
        d
    };
    assert(d * -1 == -d);
    assert(x * -1 == -x);
    assert(0int % magnitude == 0) by (nonlinear_arith)
        requires
            magnitude > 0,
    ;
    if x >= 0 {
        assert(0 <= x % magnitude < magnitude) by (nonlinear_arith)
            requires
                magnitude > 0,
                x >= 0,
        ;
    } else {
        assert(0 <= (-x) % magnitude < magnitude) by (nonlinear_arith)
            requires
                magnitude > 0,
        ;
        assert(((-x) % magnitude) * -1 == -((-x) % magnitude));
    }
}

/// Applies a binary operator to two values.
pub fn apply(operator: SyntaxKind, left: EvaluationResult, right: EvaluationResult) -> (result:
    Result<EvaluationResult, RuntimeFault>)
    ensures
        returned(result) == apply_binary(operator@, left@, right@),
{
    match compute(&operator, &left, &right) {
        Some(computed) => computed,
        None => Err(RuntimeFault::InvalidOperands { operator, left, right }),
    }
}

/// Evaluates the left operand, then the right one, and applies the operator
/// to what they are worth.
pub fn evaluate(
    left: SyntaxKind,
    right: SyntaxKind,
    operator: SyntaxKind,
    variables: &mut Vec<(String, Types)>,
) -> (result: Result<EvaluationResult, RuntimeFault>)
    ensures
        ({
            let outcome = evaluate_spec(
                binary_node(left@, operator@, right@),
                environment_view(old(variables)@),
            );
            &&& returned(result) == outcome.result
            &&& environment_view(final(variables)@) == outcome.variables
        }),
    decreases binary_depth(left@, right@, operator@), 1nat,
{
    let left = crate::evaluator::evaluate(left, variables)?;
    let right = crate::evaluator::evaluate(right, variables)?;
    apply(operator, left, right)
}

/// Dividing a number by zero is a fault, whether the zero is an integer or a
/// floating-point number of either sign.
pub proof fn lemma_division_by_zero(left: ResultView, right: ResultView)
    requires
        !(numbers(left, right) is Neither),
        is_zero_number(right),
    ensures
        apply_binary(SyntaxView::Token(TokenView::SlashToken), left, right) == Err::<
            ResultView,
            FaultView,
        >(FaultView::DivisionByZero),
{
}

/// Dividing two integers gives a floating-point number, never an integer.
pub proof fn lemma_division_gives_float(left: i64, right: i64)
    requires
        right != 0,
    ensures
        apply_binary(
            SyntaxView::Token(TokenView::SlashToken),
            ResultView::Int(left),
            ResultView::Int(right),
        ) == Ok::<ResultView, FaultView>(
            ResultView::Float(float_quotient(float_of_int(left), float_of_int(right))),
        ),
{
}

} // verus!
