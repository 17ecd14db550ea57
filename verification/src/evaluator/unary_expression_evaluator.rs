//! The unary operators: `+` and `-` on numbers, `!` on booleans.

use crate::evaluator::{
    environment_view, evaluate_spec, returned, EvaluationResult, FaultView, ResultView,
    RuntimeFault, Types,
};
use crate::float::{float_negate, negation};
use crate::syntax::{depth, ExpressionView, SyntaxKind, SyntaxView, TokenView, Tokens};
use vstd::prelude::*;

verus! {

/// What a unary operator makes of a value.
///
/// `+` keeps an integer or a floating-point number. `-` negates one; the
/// integer that has no negative within 64 bits overflows. `!` negates a
/// boolean. Every other pairing is a fault that names the operator and the
/// operand.
pub open spec fn apply_unary(operator: SyntaxView, operand: ResultView) -> Result<
    ResultView,
    FaultView,
> {
    match (operator, operand) {
        (SyntaxView::Token(TokenView::PlusToken), ResultView::Int(value)) => Ok(
            ResultView::Int(value),
        ),
        (SyntaxView::Token(TokenView::PlusToken), ResultView::Float(bits)) => Ok(
            ResultView::Float(bits),
        ),
        (SyntaxView::Token(TokenView::MinusToken), ResultView::Int(value)) => if value
            == i64::MIN {
            Err(FaultView::IntegerOverflow)
        } else {
            Ok(ResultView::Int((-value) as i64))
        },
        (SyntaxView::Token(TokenView::MinusToken), ResultView::Float(bits)) => Ok(
            ResultView::Float(negation(bits)),
        ),
        (SyntaxView::Token(TokenView::BangToken), ResultView::Boolean(value)) => Ok(
            ResultView::Boolean(!value),
        ),
        _ => Err(FaultView::InvalidOperand { operator, operand }),
    }
}

/// The unary expression with the given operator and operand.
pub open spec fn unary_node(operator: SyntaxView, operand: SyntaxView) -> SyntaxView {
    SyntaxView::Expression(
        ExpressionView::UnaryExpressionSyntax {
            operator: Box::new(operator),
            operand: Box::new(operand),
        },
    )
}

/// Applies a unary operator to a value.
pub fn apply(operator: SyntaxKind, operand: EvaluationResult) -> (result: Result<
    EvaluationResult,
    RuntimeFault,
>)
    ensures
        returned(result) == apply_unary(operator@, operand@),
{
    match (&operator, &operand) {
        (SyntaxKind::Token(Tokens::PlusToken), EvaluationResult::Int(value)) => Ok(
            EvaluationResult::Int(*value),
        ),
        (SyntaxKind::Token(Tokens::PlusToken), EvaluationResult::Float(bits)) => Ok(
            EvaluationResult::Float(*bits),
        ),
        (SyntaxKind::Token(Tokens::MinusToken), EvaluationResult::Int(value)) => {
            if *value == i64::MIN {
                Err(RuntimeFault::IntegerOverflow)
            } else {
                Ok(EvaluationResult::Int(-*value))
            }
        },
        (SyntaxKind::Token(Tokens::MinusToken), EvaluationResult::Float(bits)) => Ok(
            EvaluationResult::Float(float_negate(*bits)),
        ),
        (SyntaxKind::Token(Tokens::BangToken), EvaluationResult::Boolean(value)) => Ok(
            EvaluationResult::Boolean(!*value),
        ),
        _ => Err(RuntimeFault::InvalidOperand { operator, operand }),
    }
}

/// Evaluates the operand and applies the operator to what it is worth.
pub fn evaluate(
    operator: SyntaxKind,
    operand: SyntaxKind,
    variables: &mut Vec<(String, Types)>,
) -> (result:
    Result<EvaluationResult, RuntimeFault>)
    ensures
        ({
            let outcome = evaluate_spec(
                unary_node(operator@, operand@),
                environment_view(old(variables)@),
            );
            &&& returned(result) == outcome.result
            &&& environment_view(final(variables)@) == outcome.variables
        }),
    decreases depth(operand@), 1nat,
{
    let value = crate::evaluator::evaluate(operand, variables)?;
    apply(operator, value)
}

} // verus!
