//! How tightly the operators bind. A higher number binds tighter; 0 means
//! that the node is no operator of that kind.

use crate::syntax::{SyntaxKind, SyntaxView, TokenView, Tokens};
use vstd::prelude::*;

verus! {

/// The binding strength of a binary operator: 1 for `+` and `-`, 2 for `&&`
/// and `||`, 3 for `*` and `/`, 4 for `%` and `!=`.
pub open spec fn binary_precedence(kind: SyntaxView) -> nat {
    match kind {
        SyntaxView::Token(TokenView::PlusToken) => 1,
        SyntaxView::Token(TokenView::MinusToken) => 1,
        SyntaxView::Token(TokenView::AmpersandAmpersandToken) => 2,
        SyntaxView::Token(TokenView::PipePipeToken) => 2,
        SyntaxView::Token(TokenView::StarToken) => 3,
        SyntaxView::Token(TokenView::SlashToken) => 3,
        SyntaxView::Token(TokenView::PercentToken) => 4,
        SyntaxView::Token(TokenView::BangEqualsToken) => 4,
        _ => 0,
    }
}

/// The binding strength of a unary operator: 6 for `!`, 5 for `+` and `-`.
pub open spec fn unary_precedence(kind: SyntaxView) -> nat {
    match kind {
        SyntaxView::Token(TokenView::BangToken) => 6,
        SyntaxView::Token(TokenView::PlusToken) => 5,
        SyntaxView::Token(TokenView::MinusToken) => 5,
        _ => 0,
    }
}

pub fn binary_operator_precedence(kind: SyntaxKind) -> (precedence: usize)
    ensures
        precedence == binary_precedence(kind@),
{
    match kind {
        SyntaxKind::Token(Tokens::PlusToken) => 1,
        SyntaxKind::Token(Tokens::MinusToken) => 1,
        SyntaxKind::Token(Tokens::AmpersandAmpersandToken) => 2,
        SyntaxKind::Token(Tokens::PipePipeToken) => 2,
        SyntaxKind::Token(Tokens::StarToken) => 3,
        SyntaxKind::Token(Tokens::SlashToken) => 3,
        SyntaxKind::Token(Tokens::PercentToken) => 4,
        SyntaxKind::Token(Tokens::BangEqualsToken) => 4,
        _ => 0,
    }
}

pub fn unary_operator_precedence(kind: SyntaxKind) -> (precedence: usize)
    ensures
        precedence == unary_precedence(kind@),
{
    match kind {
        SyntaxKind::Token(Tokens::BangToken) => 6,
        SyntaxKind::Token(Tokens::PlusToken) => 5,
        SyntaxKind::Token(Tokens::MinusToken) => 5,
        _ => 0,
    }
}

} // verus!
