//! The syntax model: tokens, keywords, expressions and statements, each with
//! the mathematical view that the contracts of the other modules speak of.
//!
//! A view replaces every `String` by the sequence of its characters, so that
//! two nodes are structurally equal exactly when their views are equal.

use vstd::prelude::*;

verus! {

/// A literal value as it stands in the source text.
///
/// A floating-point literal is held as the bit pattern of its IEEE 754
/// binary64 value.
#[allow(inconsistent_fields)]
#[derive(Debug, PartialEq)]
pub enum LiteralToken {
    Int { value: i64 },
    Float { bits: u64 },
    String { value: String },
    Char { value: char },
    Bool { value: bool },
    Null,
}

/// The view of a [`LiteralToken`].
#[allow(inconsistent_fields)]
pub enum LiteralView {
    Int { value: i64 },
    Float { bits: u64 },
    String { value: Seq<char> },
    Char { value: char },
    Bool { value: bool },
    Null,
}

impl View for LiteralToken {
    type V = LiteralView;

    open spec fn view(&self) -> LiteralView {
        match self {
            LiteralToken::Int { value } => LiteralView::Int { value: *value },
            LiteralToken::Float { bits } => LiteralView::Float { bits: *bits },
            LiteralToken::String { value } => LiteralView::String { value: value@ },
            LiteralToken::Char { value } => LiteralView::Char { value: *value },
            LiteralToken::Bool { value } => LiteralView::Bool { value: *value },
            LiteralToken::Null => LiteralView::Null,
        }
    }
}

impl Clone for LiteralToken {
    fn clone(&self) -> (copy: Self)
        ensures
            copy@ == self@,
    {
        match self {
            LiteralToken::Int { value } => LiteralToken::Int { value: *value },
            LiteralToken::Float { bits } => LiteralToken::Float { bits: *bits },
            LiteralToken::String { value } => LiteralToken::String { value: value.clone() },
            LiteralToken::Char { value } => LiteralToken::Char { value: *value },
            LiteralToken::Bool { value } => LiteralToken::Bool { value: *value },
            LiteralToken::Null => LiteralToken::Null,
        }
    }
}

impl LiteralToken {
    /// Structural equality of two literals.
    pub fn matches(&self, other: &LiteralToken) -> (same: bool)
        ensures
            same == (self@ == other@),
    {
        match (self, other) {
            (LiteralToken::Int { value: a }, LiteralToken::Int { value: b }) => *a == *b,
            (LiteralToken::Float { bits: a }, LiteralToken::Float { bits: b }) => *a == *b,
            (LiteralToken::String { value: a }, LiteralToken::String { value: b }) => *a == *b,
            (LiteralToken::Char { value: a }, LiteralToken::Char { value: b }) => *a == *b,
            (LiteralToken::Bool { value: a }, LiteralToken::Bool { value: b }) => *a == *b,
            (LiteralToken::Null, LiteralToken::Null) => true,
            _ => false,
        }
    }
}

/// The terminals of the language, and the markers that only diagnostics use.
#[allow(inconsistent_fields)]
#[derive(Debug, PartialEq)]
pub enum Tokens {
    BadToken { value: String },
    LiteralToken { value: LiteralToken },
    NumberToken { bits: u64 },
    IdentifierToken { value: String },
    CommentToken { value: String },
    UnknownToken { value: String },
    EndOfFileToken,
    WhiteSpaceToken,
    PlusToken,
    MinusToken,
    StarToken,
    SlashToken,
    PercentToken,
    EqualsToken,
    EqualsEqualsToken,
    BangEqualsToken,
    OpenParenthesisToken,
    CloseParenthesisToken,
    SemiColonToken,
    ColonToken,
    CommaToken,
    DotToken,
    BangToken,
    AmpersandToken,
    AmpersandAmpersandToken,
    PipeToken,
    PipePipeToken,
    CaretToken,
    TildeToken,
    QuestionMarkToken,
    LessThanToken,
    GreaterThanToken,
    HashToken,
    AtToken,
    DollarToken,
    BackSlashToken,
    SingleQuoteToken,
    DoubleQuoteToken,
    BackTickToken,
    NewLineToken,
    TabToken,
    OpenBracketToken,
    CloseBracketToken,
    OpenBraceToken,
    CloseBraceToken,
    BinaryOperatorToken,
    UnaryOperatorToken,
}

/// The view of a [`Tokens`] value.
#[allow(inconsistent_fields)]
pub enum TokenView {
    BadToken { value: Seq<char> },
    LiteralToken { value: LiteralView },
    NumberToken { bits: u64 },
    IdentifierToken { value: Seq<char> },
    CommentToken { value: Seq<char> },
    UnknownToken { value: Seq<char> },
    EndOfFileToken,
    WhiteSpaceToken,
    PlusToken,
    MinusToken,
    StarToken,
    SlashToken,
    PercentToken,
    EqualsToken,
    EqualsEqualsToken,
    BangEqualsToken,
    OpenParenthesisToken,
    CloseParenthesisToken,
    SemiColonToken,
    ColonToken,
    CommaToken,
    DotToken,
    BangToken,
    AmpersandToken,
    AmpersandAmpersandToken,
    PipeToken,
    PipePipeToken,
    CaretToken,
    TildeToken,
    QuestionMarkToken,
    LessThanToken,
    GreaterThanToken,
    HashToken,
    AtToken,
    DollarToken,
    BackSlashToken,
    SingleQuoteToken,
    DoubleQuoteToken,
    BackTickToken,
    NewLineToken,
    TabToken,
    OpenBracketToken,
    CloseBracketToken,
    OpenBraceToken,
    CloseBraceToken,
    BinaryOperatorToken,
    UnaryOperatorToken,
}

impl View for Tokens {
    type V = TokenView;

    open spec fn view(&self) -> TokenView {
        match self {
            Tokens::BadToken { value } => TokenView::BadToken { value: value@ },
            Tokens::LiteralToken { value } => TokenView::LiteralToken { value: value@ },
            Tokens::NumberToken { bits } => TokenView::NumberToken { bits: *bits },
            Tokens::IdentifierToken { value } => TokenView::IdentifierToken { value: value@ },
            Tokens::CommentToken { value } => TokenView::CommentToken { value: value@ },
            Tokens::UnknownToken { value } => TokenView::UnknownToken { value: value@ },
            Tokens::EndOfFileToken => TokenView::EndOfFileToken,
            Tokens::WhiteSpaceToken => TokenView::WhiteSpaceToken,
            Tokens::PlusToken => TokenView::PlusToken,
            Tokens::MinusToken => TokenView::MinusToken,
            Tokens::StarToken => TokenView::StarToken,
            Tokens::SlashToken => TokenView::SlashToken,
            Tokens::PercentToken => TokenView::PercentToken,
            Tokens::EqualsToken => TokenView::EqualsToken,
            Tokens::EqualsEqualsToken => TokenView::EqualsEqualsToken,
            Tokens::BangEqualsToken => TokenView::BangEqualsToken,
            Tokens::OpenParenthesisToken => TokenView::OpenParenthesisToken,
            Tokens::CloseParenthesisToken => TokenView::CloseParenthesisToken,
            Tokens::SemiColonToken => TokenView::SemiColonToken,
            Tokens::ColonToken => TokenView::ColonToken,
            Tokens::CommaToken => TokenView::CommaToken,
            Tokens::DotToken => TokenView::DotToken,
            Tokens::BangToken => TokenView::BangToken,
            Tokens::AmpersandToken => TokenView::AmpersandToken,
            Tokens::AmpersandAmpersandToken => TokenView::AmpersandAmpersandToken,
            Tokens::PipeToken => TokenView::PipeToken,
            Tokens::PipePipeToken => TokenView::PipePipeToken,
            Tokens::CaretToken => TokenView::CaretToken,
            Tokens::TildeToken => TokenView::TildeToken,
            Tokens::QuestionMarkToken => TokenView::QuestionMarkToken,
            Tokens::LessThanToken => TokenView::LessThanToken,
            Tokens::GreaterThanToken => TokenView::GreaterThanToken,
            Tokens::HashToken => TokenView::HashToken,
            Tokens::AtToken => TokenView::AtToken,
            Tokens::DollarToken => TokenView::DollarToken,
            Tokens::BackSlashToken => TokenView::BackSlashToken,
            Tokens::SingleQuoteToken => TokenView::SingleQuoteToken,
            Tokens::DoubleQuoteToken => TokenView::DoubleQuoteToken,
            Tokens::BackTickToken => TokenView::BackTickToken,
            Tokens::NewLineToken => TokenView::NewLineToken,
            Tokens::TabToken => TokenView::TabToken,
            Tokens::OpenBracketToken => TokenView::OpenBracketToken,
            Tokens::CloseBracketToken => TokenView::CloseBracketToken,
            Tokens::OpenBraceToken => TokenView::OpenBraceToken,
            Tokens::CloseBraceToken => TokenView::CloseBraceToken,
            Tokens::BinaryOperatorToken => TokenView::BinaryOperatorToken,
            Tokens::UnaryOperatorToken => TokenView::UnaryOperatorToken,
        }
    }
}

impl Clone for Tokens {
    fn clone(&self) -> (copy: Self)
        ensures
            copy@ == self@,
    {
        match self {
            Tokens::BadToken { value } => Tokens::BadToken { value: value.clone() },
            Tokens::LiteralToken { value } => Tokens::LiteralToken { value: value.clone() },
            Tokens::NumberToken { bits } => Tokens::NumberToken { bits: *bits },
            Tokens::IdentifierToken { value } => Tokens::IdentifierToken { value: value.clone() },
            Tokens::CommentToken { value } => Tokens::CommentToken { value: value.clone() },
            Tokens::UnknownToken { value } => Tokens::UnknownToken { value: value.clone() },
            Tokens::EndOfFileToken => Tokens::EndOfFileToken,
            Tokens::WhiteSpaceToken => Tokens::WhiteSpaceToken,
            Tokens::PlusToken => Tokens::PlusToken,
            Tokens::MinusToken => Tokens::MinusToken,
            Tokens::StarToken => Tokens::StarToken,
            Tokens::SlashToken => Tokens::SlashToken,
            Tokens::PercentToken => Tokens::PercentToken,
            Tokens::EqualsToken => Tokens::EqualsToken,
            Tokens::EqualsEqualsToken => Tokens::EqualsEqualsToken,
            Tokens::BangEqualsToken => Tokens::BangEqualsToken,
            Tokens::OpenParenthesisToken => Tokens::OpenParenthesisToken,
            Tokens::CloseParenthesisToken => Tokens::CloseParenthesisToken,
            Tokens::SemiColonToken => Tokens::SemiColonToken,
            Tokens::ColonToken => Tokens::ColonToken,
            Tokens::CommaToken => Tokens::CommaToken,
            Tokens::DotToken => Tokens::DotToken,
            Tokens::BangToken => Tokens::BangToken,
            Tokens::AmpersandToken => Tokens::AmpersandToken,
            Tokens::AmpersandAmpersandToken => Tokens::AmpersandAmpersandToken,
            Tokens::PipeToken => Tokens::PipeToken,
            Tokens::PipePipeToken => Tokens::PipePipeToken,
            Tokens::CaretToken => Tokens::CaretToken,
            Tokens::TildeToken => Tokens::TildeToken,
            Tokens::QuestionMarkToken => Tokens::QuestionMarkToken,
            Tokens::LessThanToken => Tokens::LessThanToken,
            Tokens::GreaterThanToken => Tokens::GreaterThanToken,
            Tokens::HashToken => Tokens::HashToken,
            Tokens::AtToken => Tokens::AtToken,
            Tokens::DollarToken => Tokens::DollarToken,
            Tokens::BackSlashToken => Tokens::BackSlashToken,
            Tokens::SingleQuoteToken => Tokens::SingleQuoteToken,
            Tokens::DoubleQuoteToken => Tokens::DoubleQuoteToken,
            Tokens::BackTickToken => Tokens::BackTickToken,
            Tokens::NewLineToken => Tokens::NewLineToken,
            Tokens::TabToken => Tokens::TabToken,
            Tokens::OpenBracketToken => Tokens::OpenBracketToken,
            Tokens::CloseBracketToken => Tokens::CloseBracketToken,
            Tokens::OpenBraceToken => Tokens::OpenBraceToken,
            Tokens::CloseBraceToken => Tokens::CloseBraceToken,
            Tokens::BinaryOperatorToken => Tokens::BinaryOperatorToken,
            Tokens::UnaryOperatorToken => Tokens::UnaryOperatorToken,
        }
    }
}

impl Tokens {
    /// Structural equality of two tokens.
    pub fn matches(&self, other: &Tokens) -> (same: bool)
        ensures
            same == (self@ == other@),
    {
        match (self, other) {
            (Tokens::BadToken { value: a }, Tokens::BadToken { value: b }) => *a == *b,
            (Tokens::LiteralToken { value: a }, Tokens::LiteralToken { value: b }) => a.matches(b),
            (Tokens::NumberToken { bits: a }, Tokens::NumberToken { bits: b }) => *a == *b,
            (Tokens::IdentifierToken {
                value: a,
            }, Tokens::IdentifierToken { value: b }) => *a == *b,
            (Tokens::CommentToken { value: a }, Tokens::CommentToken { value: b }) => *a == *b,
            (Tokens::UnknownToken { value: a }, Tokens::UnknownToken { value: b }) => *a == *b,
            (Tokens::EndOfFileToken, Tokens::EndOfFileToken) => true,
            (Tokens::WhiteSpaceToken, Tokens::WhiteSpaceToken) => true,
            (Tokens::PlusToken, Tokens::PlusToken) => true,
            (Tokens::MinusToken, Tokens::MinusToken) => true,
            (Tokens::StarToken, Tokens::StarToken) => true,
            (Tokens::SlashToken, Tokens::SlashToken) => true,
            (Tokens::PercentToken, Tokens::PercentToken) => true,
            (Tokens::EqualsToken, Tokens::EqualsToken) => true,
            (Tokens::EqualsEqualsToken, Tokens::EqualsEqualsToken) => true,
            (Tokens::BangEqualsToken, Tokens::BangEqualsToken) => true,
            (Tokens::OpenParenthesisToken, Tokens::OpenParenthesisToken) => true,
            (Tokens::CloseParenthesisToken, Tokens::CloseParenthesisToken) => true,
            (Tokens::SemiColonToken, Tokens::SemiColonToken) => true,
            (Tokens::ColonToken, Tokens::ColonToken) => true,
            (Tokens::CommaToken, Tokens::CommaToken) => true,
            (Tokens::DotToken, Tokens::DotToken) => true,
            (Tokens::BangToken, Tokens::BangToken) => true,
            (Tokens::AmpersandToken, Tokens::AmpersandToken) => true,
            (Tokens::AmpersandAmpersandToken, Tokens::AmpersandAmpersandToken) => true,
            (Tokens::PipeToken, Tokens::PipeToken) => true,
            (Tokens::PipePipeToken, Tokens::PipePipeToken) => true,
            (Tokens::CaretToken, Tokens::CaretToken) => true,
            (Tokens::TildeToken, Tokens::TildeToken) => true,
            (Tokens::QuestionMarkToken, Tokens::QuestionMarkToken) => true,
            (Tokens::LessThanToken, Tokens::LessThanToken) => true,
            (Tokens::GreaterThanToken, Tokens::GreaterThanToken) => true,
            (Tokens::HashToken, Tokens::HashToken) => true,
            (Tokens::AtToken, Tokens::AtToken) => true,
            (Tokens::DollarToken, Tokens::DollarToken) => true,
            (Tokens::BackSlashToken, Tokens::BackSlashToken) => true,
            (Tokens::SingleQuoteToken, Tokens::SingleQuoteToken) => true,
            (Tokens::DoubleQuoteToken, Tokens::DoubleQuoteToken) => true,
            (Tokens::BackTickToken, Tokens::BackTickToken) => true,
            (Tokens::NewLineToken, Tokens::NewLineToken) => true,
            (Tokens::TabToken, Tokens::TabToken) => true,
            (Tokens::OpenBracketToken, Tokens::OpenBracketToken) => true,
            (Tokens::CloseBracketToken, Tokens::CloseBracketToken) => true,
            (Tokens::OpenBraceToken, Tokens::OpenBraceToken) => true,
            (Tokens::CloseBraceToken, Tokens::CloseBraceToken) => true,
            (Tokens::BinaryOperatorToken, Tokens::BinaryOperatorToken) => true,
            (Tokens::UnaryOperatorToken, Tokens::UnaryOperatorToken) => true,
            _ => false,
        }
    }
}

/// The reserved words.
#[derive(Clone, Copy, Debug, PartialEq, Eq, Structural)]
pub enum Keywords {
    LetKeyword,
    IfKeyword,
    ElseKeyword,
    ForKeyword,
    LoopKeyword,
    BreakKeyword,
    ContinueKeyword,
    MatchKeyword,
    TrueKeyword,
    FalseKeyword,
    NullKeyword,
}

/// The expression shapes.
#[derive(Debug, PartialEq)]
pub enum ExpressionSyntax {
    BinaryExpressionSyntax {
        left: Box<SyntaxKind>,
        operator: Box<SyntaxKind>,
        right: Box<SyntaxKind>,
    },
    ParenthesizedExpressionSyntax {
        open_parenthesis_token: Box<SyntaxKind>,
        expression: Box<SyntaxKind>,
        close_parenthesis_token: Box<SyntaxKind>,
    },
    UnaryExpressionSyntax {
        operator: Box<SyntaxKind>,
        operand: Box<SyntaxKind>,
    },
    LiteralExpressionSyntax {
        expression: Box<SyntaxKind>,
    },
    IdentifierExpressionSyntax {
        identifier: Box<SyntaxKind>,
    },
}

/// The view of an [`ExpressionSyntax`].
pub enum ExpressionView {
    BinaryExpressionSyntax {
        left: Box<SyntaxView>,
        operator: Box<SyntaxView>,
        right: Box<SyntaxView>,
    },
    ParenthesizedExpressionSyntax {
        open_parenthesis_token: Box<SyntaxView>,
        expression: Box<SyntaxView>,
        close_parenthesis_token: Box<SyntaxView>,
    },
    UnaryExpressionSyntax {
        operator: Box<SyntaxView>,
        operand: Box<SyntaxView>,
    },
    LiteralExpressionSyntax {
        expression: Box<SyntaxView>,
    },
    IdentifierExpressionSyntax {
        identifier: Box<SyntaxView>,
    },
}

/// The statement shapes. The parser produces blocks, declarations and
/// conditionals; the other shapes are there for trees built by hand.
#[allow(inconsistent_fields)]
#[derive(Debug, PartialEq)]
pub enum StatementSyntax {
    BlockStatementSyntax {
        open_brace: Box<SyntaxKind>,
        statements: Box<SyntaxKind>,
        close_brace: Box<SyntaxKind>,
    },
    ExpressionStatementSyntax {
        expression: Box<SyntaxKind>,
        semicolon: Box<SyntaxKind>,
    },
    VariableAssignmentStatementSyntax {
        identifier: Box<SyntaxKind>,
        equals_token: Box<SyntaxKind>,
        expression: Box<SyntaxKind>,
    },
    VariableDeclarationStatementSyntax {
        keyword: Box<SyntaxKind>,
        identifier: Box<SyntaxKind>,
        equals_token: Box<SyntaxKind>,
        expression: Box<SyntaxKind>,
        semicolon: Box<SyntaxKind>,
    },
    IfStatementSyntax {
        keyword: Box<SyntaxKind>,
        open_parenthesis: Box<SyntaxKind>,
        condition: Box<SyntaxKind>,
        close_parenthesis: Box<SyntaxKind>,
        open_brace: Box<SyntaxKind>,
        body: Box<SyntaxKind>,
        close_brace: Box<SyntaxKind>,
    },
    WhileStatementSyntax {
        keyword: Box<SyntaxKind>,
        open_parenthesis: Box<SyntaxKind>,
        condition: Box<SyntaxKind>,
        close_parenthesis: Box<SyntaxKind>,
        open_brace: Box<SyntaxKind>,
        body: Box<SyntaxKind>,
        close_brace: Box<SyntaxKind>,
    },
    ForStatementSyntax {
        keyword: Box<SyntaxKind>,
        open_parenthesis: Box<SyntaxKind>,
        initializer: Box<SyntaxKind>,
        first_semicolon: Box<SyntaxKind>,
        condition: Box<SyntaxKind>,
        second_semicolon: Box<SyntaxKind>,
        incrementor: Box<SyntaxKind>,
        close_parenthesis: Box<SyntaxKind>,
        open_brace: Box<SyntaxKind>,
        body: Box<SyntaxKind>,
        close_brace: Box<SyntaxKind>,
    },
    BreakStatementSyntax {
        keyword: Box<SyntaxKind>,
        label: Option<Box<SyntaxKind>>,
        semicolon: Box<SyntaxKind>,
    },
    ContinueStatementSyntax {
        keyword: Box<SyntaxKind>,
        label: Option<Box<SyntaxKind>>,
        semicolon: Box<SyntaxKind>,
    },
    ReturnStatementSyntax {
        keyword: Box<SyntaxKind>,
        expression: Option<Box<SyntaxKind>>,
        semicolon: Box<SyntaxKind>,
    },
    MatchStatementSyntax {
        keyword: Box<SyntaxKind>,
        open_parenthesis: Box<SyntaxKind>,
        expression: Box<SyntaxKind>,
        close_parenthesis: Box<SyntaxKind>,
        open_brace: Box<SyntaxKind>,
        arms: Box<SyntaxKind>,
        close_brace: Box<SyntaxKind>,
    },
}

/// The view of a [`StatementSyntax`].
#[allow(inconsistent_fields)]
pub enum StatementView {
    BlockStatementSyntax {
        open_brace: Box<SyntaxView>,
        statements: Box<SyntaxView>,
        close_brace: Box<SyntaxView>,
    },
    ExpressionStatementSyntax {
        expression: Box<SyntaxView>,
        semicolon: Box<SyntaxView>,
    },
    VariableAssignmentStatementSyntax {
        identifier: Box<SyntaxView>,
        equals_token: Box<SyntaxView>,
        expression: Box<SyntaxView>,
    },
    VariableDeclarationStatementSyntax {
        keyword: Box<SyntaxView>,
        identifier: Box<SyntaxView>,
        equals_token: Box<SyntaxView>,
        expression: Box<SyntaxView>,
        semicolon: Box<SyntaxView>,
    },
    IfStatementSyntax {
        keyword: Box<SyntaxView>,
        open_parenthesis: Box<SyntaxView>,
        condition: Box<SyntaxView>,
        close_parenthesis: Box<SyntaxView>,
        open_brace: Box<SyntaxView>,
        body: Box<SyntaxView>,
        close_brace: Box<SyntaxView>,
    },
    WhileStatementSyntax {
        keyword: Box<SyntaxView>,
        open_parenthesis: Box<SyntaxView>,
        condition: Box<SyntaxView>,
        close_parenthesis: Box<SyntaxView>,
        open_brace: Box<SyntaxView>,
        body: Box<SyntaxView>,
        close_brace: Box<SyntaxView>,
    },
    ForStatementSyntax {
        keyword: Box<SyntaxView>,
        open_parenthesis: Box<SyntaxView>,
        initializer: Box<SyntaxView>,
        first_semicolon: Box<SyntaxView>,
        condition: Box<SyntaxView>,
        second_semicolon: Box<SyntaxView>,
        incrementor: Box<SyntaxView>,
        close_parenthesis: Box<SyntaxView>,
        open_brace: Box<SyntaxView>,
        body: Box<SyntaxView>,
        close_brace: Box<SyntaxView>,
    },
    BreakStatementSyntax {
        keyword: Box<SyntaxView>,
        label: Option<Box<SyntaxView>>,
        semicolon: Box<SyntaxView>,
    },
    ContinueStatementSyntax {
        keyword: Box<SyntaxView>,
        label: Option<Box<SyntaxView>>,
        semicolon: Box<SyntaxView>,
    },
    ReturnStatementSyntax {
        keyword: Box<SyntaxView>,
        expression: Option<Box<SyntaxView>>,
        semicolon: Box<SyntaxView>,
    },
    MatchStatementSyntax {
        keyword: Box<SyntaxView>,
        open_parenthesis: Box<SyntaxView>,
        expression: Box<SyntaxView>,
        close_parenthesis: Box<SyntaxView>,
        open_brace: Box<SyntaxView>,
        arms: Box<SyntaxView>,
        close_brace: Box<SyntaxView>,
    },
}

/// A syntax node: a token, a keyword, an expression or a statement.
#[derive(Debug, PartialEq)]
pub enum SyntaxKind {
    Token(Tokens),
    Expression(ExpressionSyntax),
    Statement(StatementSyntax),
    Keyword(Keywords),
}

/// The view of a [`SyntaxKind`].
pub enum SyntaxView {
    Token(TokenView),
    Expression(ExpressionView),
    Statement(StatementView),
    Keyword(Keywords),
}

/// The view of a node: the same tree, with every string as its characters.
pub open spec fn syntax_view(node: SyntaxKind) -> SyntaxView
    decreases node,
{
    match node {
        SyntaxKind::Token(token) => SyntaxView::Token(token@),
        SyntaxKind::Keyword(keyword) => SyntaxView::Keyword(keyword),
        SyntaxKind::Expression(expression) => SyntaxView::Expression(expression_view(expression)),
        SyntaxKind::Statement(statement) => SyntaxView::Statement(statement_view(statement)),
    }
}

/// The view of an optional child.
pub open spec fn optional_view(child: Option<Box<SyntaxKind>>) -> Option<Box<SyntaxView>>
    decreases child,
{
    match child {
        Some(node) => Some(Box::new(syntax_view(*node))),
        None => None,
    }
}

/// The view of an expression.
pub open spec fn expression_view(expression: ExpressionSyntax) -> ExpressionView
    decreases expression,
{
    match expression {
        ExpressionSyntax::BinaryExpressionSyntax {
            left,
            operator,
            right,
        } => ExpressionView::BinaryExpressionSyntax {
            left: Box::new(syntax_view(*left)),
            operator: Box::new(syntax_view(*operator)),
            right: Box::new(syntax_view(*right)),
        },
        ExpressionSyntax::ParenthesizedExpressionSyntax {
            open_parenthesis_token,
            expression,
            close_parenthesis_token,
        } => ExpressionView::ParenthesizedExpressionSyntax {
            open_parenthesis_token: Box::new(syntax_view(*open_parenthesis_token)),
            expression: Box::new(syntax_view(*expression)),
            close_parenthesis_token: Box::new(syntax_view(*close_parenthesis_token)),
        },
        ExpressionSyntax::UnaryExpressionSyntax {
            operator,
            operand,
        } => ExpressionView::UnaryExpressionSyntax {
            operator: Box::new(syntax_view(*operator)),
            operand: Box::new(syntax_view(*operand)),
        },
        ExpressionSyntax::LiteralExpressionSyntax {
            expression,
        } => ExpressionView::LiteralExpressionSyntax {
            expression: Box::new(syntax_view(*expression)),
        },
        ExpressionSyntax::IdentifierExpressionSyntax {
            identifier,
        } => ExpressionView::IdentifierExpressionSyntax {
            identifier: Box::new(syntax_view(*identifier)),
        },
    }
}

/// The view of a statement.
pub open spec fn statement_view(statement: StatementSyntax) -> StatementView
    decreases statement,
{
    match statement {
        StatementSyntax::BlockStatementSyntax {
            open_brace,
            statements,
            close_brace,
        } => StatementView::BlockStatementSyntax {
            open_brace: Box::new(syntax_view(*open_brace)),
            statements: Box::new(syntax_view(*statements)),
            close_brace: Box::new(syntax_view(*close_brace)),
        },
        StatementSyntax::ExpressionStatementSyntax {
            expression,
            semicolon,
        } => StatementView::ExpressionStatementSyntax {
            expression: Box::new(syntax_view(*expression)),
            semicolon: Box::new(syntax_view(*semicolon)),
        },
        StatementSyntax::VariableAssignmentStatementSyntax {
            identifier,
            equals_token,
            expression,
        } => StatementView::VariableAssignmentStatementSyntax {
            identifier: Box::new(syntax_view(*identifier)),
            equals_token: Box::new(syntax_view(*equals_token)),
            expression: Box::new(syntax_view(*expression)),
        },
        StatementSyntax::VariableDeclarationStatementSyntax {
            keyword,
            identifier,
            equals_token,
            expression,
            semicolon,
        } => StatementView::VariableDeclarationStatementSyntax {
            keyword: Box::new(syntax_view(*keyword)),
            identifier: Box::new(syntax_view(*identifier)),
            equals_token: Box::new(syntax_view(*equals_token)),
            expression: Box::new(syntax_view(*expression)),
            semicolon: Box::new(syntax_view(*semicolon)),
        },
        StatementSyntax::IfStatementSyntax {
            keyword,
            open_parenthesis,
            condition,
            close_parenthesis,
            open_brace,
            body,
            close_brace,
        } => StatementView::IfStatementSyntax {
            keyword: Box::new(syntax_view(*keyword)),
            open_parenthesis: Box::new(syntax_view(*open_parenthesis)),
            condition: Box::new(syntax_view(*condition)),
            close_parenthesis: Box::new(syntax_view(*close_parenthesis)),
            open_brace: Box::new(syntax_view(*open_brace)),
            body: Box::new(syntax_view(*body)),
            close_brace: Box::new(syntax_view(*close_brace)),
        },
        StatementSyntax::WhileStatementSyntax {
            keyword,
            open_parenthesis,
            condition,
            close_parenthesis,
            open_brace,
            body,
            close_brace,
        } => StatementView::WhileStatementSyntax {
            keyword: Box::new(syntax_view(*keyword)),
            open_parenthesis: Box::new(syntax_view(*open_parenthesis)),
            condition: Box::new(syntax_view(*condition)),
            close_parenthesis: Box::new(syntax_view(*close_parenthesis)),
            open_brace: Box::new(syntax_view(*open_brace)),
            body: Box::new(syntax_view(*body)),
            close_brace: Box::new(syntax_view(*close_brace)),
        },
        StatementSyntax::ForStatementSyntax {
            keyword,
            open_parenthesis,
            initializer,
            first_semicolon,
            condition,
            second_semicolon,
            incrementor,
            close_parenthesis,
            open_brace,
            body,
            close_brace,
        } => StatementView::ForStatementSyntax {
            keyword: Box::new(syntax_view(*keyword)),
            open_parenthesis: Box::new(syntax_view(*open_parenthesis)),
            initializer: Box::new(syntax_view(*initializer)),
            first_semicolon: Box::new(syntax_view(*first_semicolon)),
            condition: Box::new(syntax_view(*condition)),
            second_semicolon: Box::new(syntax_view(*second_semicolon)),
            incrementor: Box::new(syntax_view(*incrementor)),
            close_parenthesis: Box::new(syntax_view(*close_parenthesis)),
            open_brace: Box::new(syntax_view(*open_brace)),
            body: Box::new(syntax_view(*body)),
            close_brace: Box::new(syntax_view(*close_brace)),
        },
        StatementSyntax::BreakStatementSyntax {
            keyword,
            label,
            semicolon,
        } => StatementView::BreakStatementSyntax {
            keyword: Box::new(syntax_view(*keyword)),
            label: optional_view(label),
            semicolon: Box::new(syntax_view(*semicolon)),
        },
        StatementSyntax::ContinueStatementSyntax {
            keyword,
            label,
            semicolon,
        } => StatementView::ContinueStatementSyntax {
            keyword: Box::new(syntax_view(*keyword)),
            label: optional_view(label),
            semicolon: Box::new(syntax_view(*semicolon)),
        },
        StatementSyntax::ReturnStatementSyntax {
            keyword,
            expression,
            semicolon,
        } => StatementView::ReturnStatementSyntax {
            keyword: Box::new(syntax_view(*keyword)),
            expression: optional_view(expression),
            semicolon: Box::new(syntax_view(*semicolon)),
        },
        StatementSyntax::MatchStatementSyntax {
            keyword,
            open_parenthesis,
            expression,
            close_parenthesis,
            open_brace,
            arms,
            close_brace,
        } => StatementView::MatchStatementSyntax {
            keyword: Box::new(syntax_view(*keyword)),
            open_parenthesis: Box::new(syntax_view(*open_parenthesis)),
            expression: Box::new(syntax_view(*expression)),
            close_parenthesis: Box::new(syntax_view(*close_parenthesis)),
            open_brace: Box::new(syntax_view(*open_brace)),
            arms: Box::new(syntax_view(*arms)),
            close_brace: Box::new(syntax_view(*close_brace)),
        },
    }
}

impl View for ExpressionSyntax {
    type V = ExpressionView;

    open spec fn view(&self) -> ExpressionView {
        expression_view(*self)
    }
}

impl View for StatementSyntax {
    type V = StatementView;

    open spec fn view(&self) -> StatementView {
        statement_view(*self)
    }
}

impl View for SyntaxKind {
    type V = SyntaxView;

    open spec fn view(&self) -> SyntaxView {
        syntax_view(*self)
    }
}

/// The larger of two numbers.
pub open spec fn higher(a: nat, b: nat) -> nat {
    if a >= b {
        a
    } else {
        b
    }
}

/// The depth of an optional child, and 0 where there is none.
pub open spec fn optional_depth(child: Option<Box<SyntaxView>>) -> nat
    decreases child,
{
    match child {
        Some(node) => depth(*node),
        None => 0,
    }
}

/// How far a tree reaches down: 0 for a token or a keyword, and one more than
/// the deepest child for an expression or a statement.
pub open spec fn depth(node: SyntaxView) -> nat
    decreases node,
{
    match node {
        SyntaxView::Token(_) => 0,
        SyntaxView::Keyword(_) => 0,
        SyntaxView::Expression(
            ExpressionView::BinaryExpressionSyntax { left, operator, right },
        ) => {
            let deepest = depth(*left);
            let deepest = higher(deepest, depth(*operator));
            let deepest = higher(deepest, depth(*right));
            1 + deepest
        },
        SyntaxView::Expression(
            ExpressionView::ParenthesizedExpressionSyntax {
                open_parenthesis_token,
                expression,
                close_parenthesis_token,
            },
        ) => {
            let deepest = depth(*open_parenthesis_token);
            let deepest = higher(deepest, depth(*expression));
            let deepest = higher(deepest, depth(*close_parenthesis_token));
            1 + deepest
        },
        SyntaxView::Expression(ExpressionView::UnaryExpressionSyntax { operator, operand }) => {
            let deepest = depth(*operator);
            let deepest = higher(deepest, depth(*operand));
            1 + deepest
        },
        SyntaxView::Expression(ExpressionView::LiteralExpressionSyntax { expression }) => {
            let deepest = depth(*expression);
            1 + deepest
        },
        SyntaxView::Expression(ExpressionView::IdentifierExpressionSyntax { identifier }) => {
            let deepest = depth(*identifier);
            1 + deepest
        },
        SyntaxView::Statement(
            StatementView::BlockStatementSyntax { open_brace, statements, close_brace },
        ) => {
            let deepest = depth(*open_brace);
            let deepest = higher(deepest, depth(*statements));
            let deepest = higher(deepest, depth(*close_brace));
            1 + deepest
        },
        SyntaxView::Statement(
            StatementView::ExpressionStatementSyntax { expression, semicolon },
        ) => {
            let deepest = depth(*expression);
            let deepest = higher(deepest, depth(*semicolon));
            1 + deepest
        },
        SyntaxView::Statement(
            StatementView::VariableAssignmentStatementSyntax {
                identifier,
                equals_token,
                expression,
            },
        ) => {
            let deepest = depth(*identifier);
            let deepest = higher(deepest, depth(*equals_token));
            let deepest = higher(deepest, depth(*expression));
            1 + deepest
        },
        SyntaxView::Statement(
            StatementView::VariableDeclarationStatementSyntax {
                keyword,
                identifier,
                equals_token,
                expression,
                semicolon,
            },
        ) => {
            let deepest = depth(*keyword);
            let deepest = higher(deepest, depth(*identifier));
            let deepest = higher(deepest, depth(*equals_token));
            let deepest = higher(deepest, depth(*expression));
            let deepest = higher(deepest, depth(*semicolon));
            1 + deepest
        },
        SyntaxView::Statement(
            StatementView::IfStatementSyntax {
                keyword,
                open_parenthesis,
                condition,
                close_parenthesis,
                open_brace,
                body,
                close_brace,
            },
        ) => {
            let deepest = depth(*keyword);
            let deepest = higher(deepest, depth(*open_parenthesis));
            let deepest = higher(deepest, depth(*condition));
            let deepest = higher(deepest, depth(*close_parenthesis));
            let deepest = higher(deepest, depth(*open_brace));
            let deepest = higher(deepest, depth(*body));
            let deepest = higher(deepest, depth(*close_brace));
            1 + deepest
        },
        SyntaxView::Statement(
            StatementView::WhileStatementSyntax {
                keyword,
                open_parenthesis,
                condition,
                close_parenthesis,
                open_brace,
                body,
                close_brace,
            },
        ) => {
            let deepest = depth(*keyword);
            let deepest = higher(deepest, depth(*open_parenthesis));
            let deepest = higher(deepest, depth(*condition));
            let deepest = higher(deepest, depth(*close_parenthesis));
            let deepest = higher(deepest, depth(*open_brace));
            let deepest = higher(deepest, depth(*body));
            let deepest = higher(deepest, depth(*close_brace));
            1 + deepest
        },
        SyntaxView::Statement(
            StatementView::ForStatementSyntax {
                keyword,
                open_parenthesis,
                initializer,
                first_semicolon,
                condition,
                second_semicolon,
                incrementor,
                close_parenthesis,
                open_brace,
                body,
                close_brace,
            },
        ) => {
            let deepest = depth(*keyword);
            let deepest = higher(deepest, depth(*open_parenthesis));
            let deepest = higher(deepest, depth(*initializer));
            let deepest = higher(deepest, depth(*first_semicolon));
            let deepest = higher(deepest, depth(*condition));
            let deepest = higher(deepest, depth(*second_semicolon));
            let deepest = higher(deepest, depth(*incrementor));
            let deepest = higher(deepest, depth(*close_parenthesis));
            let deepest = higher(deepest, depth(*open_brace));
            let deepest = higher(deepest, depth(*body));
            let deepest = higher(deepest, depth(*close_brace));
            1 + deepest
        },
        SyntaxView::Statement(
            StatementView::BreakStatementSyntax { keyword, label, semicolon },
        ) => {
            let deepest = depth(*keyword);
            let deepest = higher(deepest, optional_depth(label));
            let deepest = higher(deepest, depth(*semicolon));
            1 + deepest
        },
        SyntaxView::Statement(
            StatementView::ContinueStatementSyntax { keyword, label, semicolon },
        ) => {
            let deepest = depth(*keyword);
            let deepest = higher(deepest, optional_depth(label));
            let deepest = higher(deepest, depth(*semicolon));
            1 + deepest
        },
        SyntaxView::Statement(
            StatementView::ReturnStatementSyntax { keyword, expression, semicolon },
        ) => {
            let deepest = depth(*keyword);
            let deepest = higher(deepest, optional_depth(expression));
            let deepest = higher(deepest, depth(*semicolon));
            1 + deepest
        },
        SyntaxView::Statement(
            StatementView::MatchStatementSyntax {
                keyword,
                open_parenthesis,
                expression,
                close_parenthesis,
                open_brace,
                arms,
                close_brace,
            },
        ) => {
            let deepest = depth(*keyword);
            let deepest = higher(deepest, depth(*open_parenthesis));
            let deepest = higher(deepest, depth(*expression));
            let deepest = higher(deepest, depth(*close_parenthesis));
            let deepest = higher(deepest, depth(*open_brace));
            let deepest = higher(deepest, depth(*arms));
            let deepest = higher(deepest, depth(*close_brace));
            1 + deepest
        },
    }
}

/// Copies an optional child.
fn clone_optional(child: &Option<Box<SyntaxKind>>) -> (copy: Option<Box<SyntaxKind>>)
    ensures
        optional_view(copy) == optional_view(*child),
    decreases child,
{
    match child {
        Some(node) => Some(Box::new(clone_node(node))),
        None => None,
    }
}

/// Copies a node with everything below it.
fn clone_node(node: &SyntaxKind) -> (copy: SyntaxKind)
    ensures
        copy@ == node@,
    decreases node,
{
    match node {
        SyntaxKind::Token(token) => SyntaxKind::Token(token.clone()),
        SyntaxKind::Keyword(keyword) => SyntaxKind::Keyword(*keyword),
        SyntaxKind::Expression(expression) => SyntaxKind::Expression(clone_expression(expression)),
        SyntaxKind::Statement(statement) => SyntaxKind::Statement(clone_statement(statement)),
    }
}

/// Copies an expression with everything below it.
fn clone_expression(expression: &ExpressionSyntax) -> (copy: ExpressionSyntax)
    ensures
        copy@ == expression@,
    decreases expression,
{
    match expression {
        ExpressionSyntax::BinaryExpressionSyntax {
            left,
            operator,
            right,
        } => ExpressionSyntax::BinaryExpressionSyntax {
            left: Box::new(clone_node(left)),
            operator: Box::new(clone_node(operator)),
            right: Box::new(clone_node(right)),
        },
        ExpressionSyntax::ParenthesizedExpressionSyntax {
            open_parenthesis_token,
            expression,
            close_parenthesis_token,
        } => ExpressionSyntax::ParenthesizedExpressionSyntax {
            open_parenthesis_token: Box::new(clone_node(open_parenthesis_token)),
            expression: Box::new(clone_node(expression)),
            close_parenthesis_token: Box::new(clone_node(close_parenthesis_token)),
        },
        ExpressionSyntax::UnaryExpressionSyntax {
            operator,
            operand,
        } => ExpressionSyntax::UnaryExpressionSyntax {
            operator: Box::new(clone_node(operator)),
            operand: Box::new(clone_node(operand)),
        },
        ExpressionSyntax::LiteralExpressionSyntax {
            expression,
        } => ExpressionSyntax::LiteralExpressionSyntax {
            expression: Box::new(clone_node(expression)),
        },
        ExpressionSyntax::IdentifierExpressionSyntax {
            identifier,
        } => ExpressionSyntax::IdentifierExpressionSyntax {
            identifier: Box::new(clone_node(identifier)),
        },
    }
}

/// Copies a statement with everything below it.
fn clone_statement(statement: &StatementSyntax) -> (copy: StatementSyntax)
    ensures
        copy@ == statement@,
    decreases statement,
{
    match statement {
        StatementSyntax::BlockStatementSyntax {
            open_brace,
            statements,
            close_brace,
        } => StatementSyntax::BlockStatementSyntax {
            open_brace: Box::new(clone_node(open_brace)),
            statements: Box::new(clone_node(statements)),
            close_brace: Box::new(clone_node(close_brace)),
        },
        StatementSyntax::ExpressionStatementSyntax {
            expression,
            semicolon,
        } => StatementSyntax::ExpressionStatementSyntax {
            expression: Box::new(clone_node(expression)),
            semicolon: Box::new(clone_node(semicolon)),
        },
        StatementSyntax::VariableAssignmentStatementSyntax {
            identifier,
            equals_token,
            expression,
        } => StatementSyntax::VariableAssignmentStatementSyntax {
            identifier: Box::new(clone_node(identifier)),
            equals_token: Box::new(clone_node(equals_token)),
            expression: Box::new(clone_node(expression)),
        },
        StatementSyntax::VariableDeclarationStatementSyntax {
            keyword,
            identifier,
            equals_token,
            expression,
            semicolon,
        } => StatementSyntax::VariableDeclarationStatementSyntax {
            keyword: Box::new(clone_node(keyword)),
            identifier: Box::new(clone_node(identifier)),
            equals_token: Box::new(clone_node(equals_token)),
            expression: Box::new(clone_node(expression)),
            semicolon: Box::new(clone_node(semicolon)),
        },
        StatementSyntax::IfStatementSyntax {
            keyword,
            open_parenthesis,
            condition,
            close_parenthesis,
            open_brace,
            body,
            close_brace,
        } => StatementSyntax::IfStatementSyntax {
            keyword: Box::new(clone_node(keyword)),
            open_parenthesis: Box::new(clone_node(open_parenthesis)),
            condition: Box::new(clone_node(condition)),
            close_parenthesis: Box::new(clone_node(close_parenthesis)),
            open_brace: Box::new(clone_node(open_brace)),
            body: Box::new(clone_node(body)),
            close_brace: Box::new(clone_node(close_brace)),
        },
        StatementSyntax::WhileStatementSyntax {
            keyword,
            open_parenthesis,
            condition,
            close_parenthesis,
            open_brace,
            body,
            close_brace,
        } => StatementSyntax::WhileStatementSyntax {
            keyword: Box::new(clone_node(keyword)),
            open_parenthesis: Box::new(clone_node(open_parenthesis)),
            condition: Box::new(clone_node(condition)),
            close_parenthesis: Box::new(clone_node(close_parenthesis)),
            open_brace: Box::new(clone_node(open_brace)),
            body: Box::new(clone_node(body)),
            close_brace: Box::new(clone_node(close_brace)),
        },
        StatementSyntax::ForStatementSyntax {
            keyword,
            open_parenthesis,
            initializer,
            first_semicolon,
            condition,
            second_semicolon,
            incrementor,
            close_parenthesis,
            open_brace,
            body,
            close_brace,
        } => StatementSyntax::ForStatementSyntax {
            keyword: Box::new(clone_node(keyword)),
            open_parenthesis: Box::new(clone_node(open_parenthesis)),
            initializer: Box::new(clone_node(initializer)),
            first_semicolon: Box::new(clone_node(first_semicolon)),
            condition: Box::new(clone_node(condition)),
            second_semicolon: Box::new(clone_node(second_semicolon)),
            incrementor: Box::new(clone_node(incrementor)),
            close_parenthesis: Box::new(clone_node(close_parenthesis)),
            open_brace: Box::new(clone_node(open_brace)),
            body: Box::new(clone_node(body)),
            close_brace: Box::new(clone_node(close_brace)),
        },
        StatementSyntax::BreakStatementSyntax {
            keyword,
            label,
            semicolon,
        } => StatementSyntax::BreakStatementSyntax {
            keyword: Box::new(clone_node(keyword)),
            label: clone_optional(label),
            semicolon: Box::new(clone_node(semicolon)),
        },
        StatementSyntax::ContinueStatementSyntax {
            keyword,
            label,
            semicolon,
        } => StatementSyntax::ContinueStatementSyntax {
            keyword: Box::new(clone_node(keyword)),
            label: clone_optional(label),
            semicolon: Box::new(clone_node(semicolon)),
        },
        StatementSyntax::ReturnStatementSyntax {
            keyword,
            expression,
            semicolon,
        } => StatementSyntax::ReturnStatementSyntax {
            keyword: Box::new(clone_node(keyword)),
            expression: clone_optional(expression),
            semicolon: Box::new(clone_node(semicolon)),
        },
        StatementSyntax::MatchStatementSyntax {
            keyword,
            open_parenthesis,
            expression,
            close_parenthesis,
            open_brace,
            arms,
            close_brace,
        } => StatementSyntax::MatchStatementSyntax {
            keyword: Box::new(clone_node(keyword)),
            open_parenthesis: Box::new(clone_node(open_parenthesis)),
            expression: Box::new(clone_node(expression)),
            close_parenthesis: Box::new(clone_node(close_parenthesis)),
            open_brace: Box::new(clone_node(open_brace)),
            arms: Box::new(clone_node(arms)),
            close_brace: Box::new(clone_node(close_brace)),
        },
    }
}

impl Clone for ExpressionSyntax {
    fn clone(&self) -> (copy: Self)
        ensures
            copy@ == self@,
    {
        clone_expression(self)
    }
}

impl Clone for StatementSyntax {
    fn clone(&self) -> (copy: Self)
        ensures
            copy@ == self@,
    {
        clone_statement(self)
    }
}

impl Clone for SyntaxKind {
    fn clone(&self) -> (copy: Self)
        ensures
            copy@ == self@,
    {
        clone_node(self)
    }
}

/// Structural equality of two optional children.
fn same_optional(left: &Option<Box<SyntaxKind>>, right: &Option<Box<SyntaxKind>>) -> (same: bool)
    ensures
        same == (optional_view(*left) == optional_view(*right)),
    decreases left,
{
    match (left, right) {
        (Some(a), Some(b)) => same_node(a, b),
        (None, None) => true,
        _ => false,
    }
}

/// Structural equality of two nodes.
fn same_node(left: &SyntaxKind, right: &SyntaxKind) -> (same: bool)
    ensures
        same == (left@ == right@),
    decreases left,
{
    match (left, right) {
        (SyntaxKind::Token(a), SyntaxKind::Token(b)) => a.matches(b),
        (SyntaxKind::Keyword(a), SyntaxKind::Keyword(b)) => *a == *b,
        (SyntaxKind::Expression(a), SyntaxKind::Expression(b)) => same_expression(a, b),
        (SyntaxKind::Statement(a), SyntaxKind::Statement(b)) => same_statement(a, b),
        _ => false,
    }
}

/// Structural equality of two expressions.
fn same_expression(left: &ExpressionSyntax, right: &ExpressionSyntax) -> (same: bool)
    ensures
        same == (left@ == right@),
    decreases left,
{
    match (left, right) {
        (
            ExpressionSyntax::BinaryExpressionSyntax {
                left: left_a,
                operator: operator_a,
                right: right_a,
            },
            ExpressionSyntax::BinaryExpressionSyntax {
                left: left_b,
                operator: operator_b,
                right: right_b,
            },
        ) => {
            same_node(left_a, left_b)
                && same_node(operator_a, operator_b)
                && same_node(right_a, right_b)
        },
        (
            ExpressionSyntax::ParenthesizedExpressionSyntax {
                open_parenthesis_token: open_parenthesis_token_a,
                expression: expression_a,
                close_parenthesis_token: close_parenthesis_token_a,
            },
            ExpressionSyntax::ParenthesizedExpressionSyntax {
                open_parenthesis_token: open_parenthesis_token_b,
                expression: expression_b,
                close_parenthesis_token: close_parenthesis_token_b,
            },
        ) => {
            same_node(open_parenthesis_token_a, open_parenthesis_token_b)
                && same_node(expression_a, expression_b)
                && same_node(close_parenthesis_token_a, close_parenthesis_token_b)
        },
        (
            ExpressionSyntax::UnaryExpressionSyntax { operator: operator_a, operand: operand_a },
            ExpressionSyntax::UnaryExpressionSyntax { operator: operator_b, operand: operand_b },
        ) => {
            same_node(operator_a, operator_b)
                && same_node(operand_a, operand_b)
        },
        (
            ExpressionSyntax::LiteralExpressionSyntax { expression: expression_a },
            ExpressionSyntax::LiteralExpressionSyntax { expression: expression_b },
        ) => {
            same_node(expression_a, expression_b)
        },
        (
            ExpressionSyntax::IdentifierExpressionSyntax { identifier: identifier_a },
            ExpressionSyntax::IdentifierExpressionSyntax { identifier: identifier_b },
        ) => {
            same_node(identifier_a, identifier_b)
        },
        _ => false,
    }
}

/// Structural equality of two statements.
fn same_statement(left: &StatementSyntax, right: &StatementSyntax) -> (same: bool)
    ensures
        same == (left@ == right@),
    decreases left,
{
    match (left, right) {
        (
            StatementSyntax::BlockStatementSyntax {
                open_brace: open_brace_a,
                statements: statements_a,
                close_brace: close_brace_a,
            },
            StatementSyntax::BlockStatementSyntax {
                open_brace: open_brace_b,
                statements: statements_b,
                close_brace: close_brace_b,
            },
        ) => {
            same_node(open_brace_a, open_brace_b)
                && same_node(statements_a, statements_b)
                && same_node(close_brace_a, close_brace_b)
        },
        (
            StatementSyntax::ExpressionStatementSyntax {
                expression: expression_a,
                semicolon: semicolon_a,
            },
            StatementSyntax::ExpressionStatementSyntax {
                expression: expression_b,
                semicolon: semicolon_b,
            },
        ) => {
            same_node(expression_a, expression_b)
                && same_node(semicolon_a, semicolon_b)
        },
        (
            StatementSyntax::VariableAssignmentStatementSyntax {
                identifier: identifier_a,
                equals_token: equals_token_a,
                expression: expression_a,
            },
            StatementSyntax::VariableAssignmentStatementSyntax {
                identifier: identifier_b,
                equals_token: equals_token_b,
                expression: expression_b,
            },
        ) => {
            same_node(identifier_a, identifier_b)
                && same_node(equals_token_a, equals_token_b)
                && same_node(expression_a, expression_b)
        },
        (
            StatementSyntax::VariableDeclarationStatementSyntax {
                keyword: keyword_a,
                identifier: identifier_a,
                equals_token: equals_token_a,
                expression: expression_a,
                semicolon: semicolon_a,
            },
            StatementSyntax::VariableDeclarationStatementSyntax {
                keyword: keyword_b,
                identifier: identifier_b,
                equals_token: equals_token_b,
                expression: expression_b,
                semicolon: semicolon_b,
            },
        ) => {
            same_node(keyword_a, keyword_b)
                && same_node(identifier_a, identifier_b)
                && same_node(equals_token_a, equals_token_b)
                && same_node(expression_a, expression_b)
                && same_node(semicolon_a, semicolon_b)
        },
        (
            StatementSyntax::IfStatementSyntax {
                keyword: keyword_a,
                open_parenthesis: open_parenthesis_a,
                condition: condition_a,
                close_parenthesis: close_parenthesis_a,
                open_brace: open_brace_a,
                body: body_a,
                close_brace: close_brace_a,
            },
            StatementSyntax::IfStatementSyntax {
                keyword: keyword_b,
                open_parenthesis: open_parenthesis_b,
                condition: condition_b,
                close_parenthesis: close_parenthesis_b,
                open_brace: open_brace_b,
                body: body_b,
                close_brace: close_brace_b,
            },
        ) => {
            same_node(keyword_a, keyword_b)
                && same_node(open_parenthesis_a, open_parenthesis_b)
                && same_node(condition_a, condition_b)
                && same_node(close_parenthesis_a, close_parenthesis_b)
                && same_node(open_brace_a, open_brace_b)
                && same_node(body_a, body_b)
                && same_node(close_brace_a, close_brace_b)
        },
        (
            StatementSyntax::WhileStatementSyntax {
                keyword: keyword_a,
                open_parenthesis: open_parenthesis_a,
                condition: condition_a,
                close_parenthesis: close_parenthesis_a,
                open_brace: open_brace_a,
                body: body_a,
                close_brace: close_brace_a,
            },
            StatementSyntax::WhileStatementSyntax {
                keyword: keyword_b,
                open_parenthesis: open_parenthesis_b,
                condition: condition_b,
                close_parenthesis: close_parenthesis_b,
                open_brace: open_brace_b,
                body: body_b,
                close_brace: close_brace_b,
            },
        ) => {
            same_node(keyword_a, keyword_b)
                && same_node(open_parenthesis_a, open_parenthesis_b)
                && same_node(condition_a, condition_b)
                && same_node(close_parenthesis_a, close_parenthesis_b)
                && same_node(open_brace_a, open_brace_b)
                && same_node(body_a, body_b)
                && same_node(close_brace_a, close_brace_b)
        },
        (
            StatementSyntax::ForStatementSyntax {
                keyword: keyword_a,
                open_parenthesis: open_parenthesis_a,
                initializer: initializer_a,
                first_semicolon: first_semicolon_a,
                condition: condition_a,
                second_semicolon: second_semicolon_a,
                incrementor: incrementor_a,
                close_parenthesis: close_parenthesis_a,
                open_brace: open_brace_a,
                body: body_a,
                close_brace: close_brace_a,
            },
            StatementSyntax::ForStatementSyntax {
                keyword: keyword_b,
                open_parenthesis: open_parenthesis_b,
                initializer: initializer_b,
                first_semicolon: first_semicolon_b,
                condition: condition_b,
                second_semicolon: second_semicolon_b,
                incrementor: incrementor_b,
                close_parenthesis: close_parenthesis_b,
                open_brace: open_brace_b,
                body: body_b,
                close_brace: close_brace_b,
            },
        ) => {
            same_node(keyword_a, keyword_b)
                && same_node(open_parenthesis_a, open_parenthesis_b)
                && same_node(initializer_a, initializer_b)
                && same_node(first_semicolon_a, first_semicolon_b)
                && same_node(condition_a, condition_b)
                && same_node(second_semicolon_a, second_semicolon_b)
                && same_node(incrementor_a, incrementor_b)
                && same_node(close_parenthesis_a, close_parenthesis_b)
                && same_node(open_brace_a, open_brace_b)
                && same_node(body_a, body_b)
                && same_node(close_brace_a, close_brace_b)
        },
        (
            StatementSyntax::BreakStatementSyntax {
                keyword: keyword_a,
                label: label_a,
                semicolon: semicolon_a,
            },
            StatementSyntax::BreakStatementSyntax {
                keyword: keyword_b,
                label: label_b,
                semicolon: semicolon_b,
            },
        ) => {
            same_node(keyword_a, keyword_b)
                && same_optional(label_a, label_b)
                && same_node(semicolon_a, semicolon_b)
        },
        (
            StatementSyntax::ContinueStatementSyntax {
                keyword: keyword_a,
                label: label_a,
                semicolon: semicolon_a,
            },
            StatementSyntax::ContinueStatementSyntax {
                keyword: keyword_b,
                label: label_b,
                semicolon: semicolon_b,
            },
        ) => {
            same_node(keyword_a, keyword_b)
                && same_optional(label_a, label_b)
                && same_node(semicolon_a, semicolon_b)
        },
        (
            StatementSyntax::ReturnStatementSyntax {
                keyword: keyword_a,
                expression: expression_a,
                semicolon: semicolon_a,
            },
            StatementSyntax::ReturnStatementSyntax {
                keyword: keyword_b,
                expression: expression_b,
                semicolon: semicolon_b,
            },
        ) => {
            same_node(keyword_a, keyword_b)
                && same_optional(expression_a, expression_b)
                && same_node(semicolon_a, semicolon_b)
        },
        (
            StatementSyntax::MatchStatementSyntax {
                keyword: keyword_a,
                open_parenthesis: open_parenthesis_a,
                expression: expression_a,
                close_parenthesis: close_parenthesis_a,
                open_brace: open_brace_a,
                arms: arms_a,
                close_brace: close_brace_a,
            },
            StatementSyntax::MatchStatementSyntax {
                keyword: keyword_b,
                open_parenthesis: open_parenthesis_b,
                expression: expression_b,
                close_parenthesis: close_parenthesis_b,
                open_brace: open_brace_b,
                arms: arms_b,
                close_brace: close_brace_b,
            },
        ) => {
            same_node(keyword_a, keyword_b)
                && same_node(open_parenthesis_a, open_parenthesis_b)
                && same_node(expression_a, expression_b)
                && same_node(close_parenthesis_a, close_parenthesis_b)
                && same_node(open_brace_a, open_brace_b)
                && same_node(arms_a, arms_b)
                && same_node(close_brace_a, close_brace_b)
        },
        _ => false,
    }
}

impl SyntaxKind {
    /// Whether two nodes are structurally equal: the same shape with equal
    /// values over the whole subtree.
    pub fn matches(&self, other: &SyntaxKind) -> (same: bool)
        ensures
            same == (self@ == other@),
    {
        same_node(self, other)
    }

    /// Takes a node out of its box.
    pub fn from(kind: Box<SyntaxKind>) -> (node: SyntaxKind)
        ensures
            node@ == kind@,
    {
        *kind
    }
}


/// What a line of an outline shows behind its indentation.
#[derive(Debug, PartialEq)]
pub enum OutlineLabel {
    /// The name of a shape whose children follow on the next lines.
    Name(String),
    /// A node that is shown whole.
    Node(SyntaxKind),
}

/// The view of an [`OutlineLabel`].
pub enum OutlineLabelView {
    Name(Seq<char>),
    Node(SyntaxView),
}

/// One line of an outline: its indentation and what it shows.
#[derive(Debug, PartialEq)]
pub struct OutlineLine {
    pub prefix: String,
    pub label: OutlineLabel,
}

/// The view of an [`OutlineLine`].
pub struct OutlineLineView {
    pub prefix: Seq<char>,
    pub label: OutlineLabelView,
}

impl View for OutlineLabel {
    type V = OutlineLabelView;

    open spec fn view(&self) -> OutlineLabelView {
        match self {
            OutlineLabel::Name(name) => OutlineLabelView::Name(name@),
            OutlineLabel::Node(node) => OutlineLabelView::Node(node@),
        }
    }
}

impl View for OutlineLine {
    type V = OutlineLineView;

    open spec fn view(&self) -> OutlineLineView {
        OutlineLineView { prefix: self.prefix@, label: self.label@ }
    }
}

/// The views of the lines of an outline.
pub open spec fn outline_view(lines: Seq<OutlineLine>) -> Seq<OutlineLineView> {
    Seq::new(lines.len(), |i: int| lines[i]@)
}

/// The line that names a shape.
pub open spec fn heading(prefix: Seq<char>, name: Seq<char>) -> Seq<OutlineLineView> {
    seq![OutlineLineView { prefix, label: OutlineLabelView::Name(name) }]
}

/// The outline of a tree: one line for each node, parents before children
/// and children in their order, each child one tab further in than its
/// parent.
///
/// Binary, parenthesized, unary and literal expressions, blocks, expression
/// statements, assignments, conditionals and `for` loops are shown by their
/// name, with their children below. Every other node is shown whole on one
/// line.
pub open spec fn outline_of(node: SyntaxView, prefix: Seq<char>) -> Seq<OutlineLineView>
    decreases node,
{
    let inner = prefix.push('\t');
    match node {
        SyntaxView::Expression(
            ExpressionView::BinaryExpressionSyntax { left, operator, right },
        ) => heading(prefix, "BinaryExpressionSyntax"@)
            + outline_of(*left, inner)
            + outline_of(*operator, inner)
            + outline_of(*right, inner),
        SyntaxView::Expression(
            ExpressionView::ParenthesizedExpressionSyntax {
                open_parenthesis_token,
                expression,
                close_parenthesis_token,
            },
        ) => heading(prefix, "ParenthesizedExpressionSyntax"@)
            + outline_of(*open_parenthesis_token, inner)
            + outline_of(*expression, inner)
            + outline_of(*close_parenthesis_token, inner),
        SyntaxView::Expression(
            ExpressionView::UnaryExpressionSyntax { operator, operand },
        ) => heading(prefix, "UnaryExpressionSyntax"@)
            + outline_of(*operator, inner)
            + outline_of(*operand, inner),
        SyntaxView::Expression(
            ExpressionView::LiteralExpressionSyntax { expression },
        ) => heading(prefix, "LiteralExpressionSyntax"@)
            + outline_of(*expression, inner),
        SyntaxView::Statement(
            StatementView::BlockStatementSyntax { open_brace, statements, close_brace },
        ) => heading(prefix, "BlockStatementSyntax"@)
            + outline_of(*open_brace, inner)
            + outline_of(*statements, inner)
            + outline_of(*close_brace, inner),
        SyntaxView::Statement(
            StatementView::ExpressionStatementSyntax { expression, semicolon },
        ) => heading(prefix, "ExpressionStatementSyntax"@)
            + outline_of(*expression, inner)
            + outline_of(*semicolon, inner),
        SyntaxView::Statement(
            StatementView::VariableAssignmentStatementSyntax {
                identifier,
                equals_token,
                expression,
            },
        ) => heading(prefix, "VariableAssignmentStatementSyntax"@)
            + outline_of(*identifier, inner)
            + outline_of(*equals_token, inner)
            + outline_of(*expression, inner),
        SyntaxView::Statement(
            StatementView::IfStatementSyntax {
                keyword,
                open_parenthesis,
                condition,
                close_parenthesis,
                open_brace,
                body,
                close_brace,
            },
        ) => heading(prefix, "IfStatementSyntax"@)
            + outline_of(*keyword, inner)
            + outline_of(*open_parenthesis, inner)
            + outline_of(*condition, inner)
            + outline_of(*close_parenthesis, inner)
            + outline_of(*open_brace, inner)
            + outline_of(*body, inner)
            + outline_of(*close_brace, inner),
        SyntaxView::Statement(
            StatementView::ForStatementSyntax {
                keyword,
                open_parenthesis,
                initializer,
                first_semicolon,
                condition,
                second_semicolon,
                incrementor,
                close_parenthesis,
                open_brace,
                body,
                close_brace,
            },
        ) => heading(prefix, "ForStatementSyntax"@)
            + outline_of(*keyword, inner)
            + outline_of(*open_parenthesis, inner)
            + outline_of(*initializer, inner)
            + outline_of(*first_semicolon, inner)
            + outline_of(*condition, inner)
            + outline_of(*second_semicolon, inner)
            + outline_of(*incrementor, inner)
            + outline_of(*close_parenthesis, inner)
            + outline_of(*open_brace, inner)
            + outline_of(*body, inner)
            + outline_of(*close_brace, inner),
        _ => seq![OutlineLineView { prefix, label: OutlineLabelView::Node(node) }],
    }
}

/// Appends the line that names a shape.
fn push_heading(lines: &mut Vec<OutlineLine>, prefix: &String, name: &'static str)
    ensures
        outline_view(final(lines)@) == outline_view(old(lines)@) + heading(prefix@, name@),
{
    lines.push(OutlineLine {
        prefix: prefix.clone(),
        label: OutlineLabel::Name(String::from_str(name)),
    });
    assert(outline_view(lines@) =~= outline_view(old(lines)@) + heading(prefix@, name@));
}

/// Lines that are joined in two steps are the same whichever step comes
/// first.
proof fn lemma_lines_regroup(
    first: Seq<OutlineLineView>,
    second: Seq<OutlineLineView>,
    third: Seq<OutlineLineView>,
)
    ensures
        (first + second) + third == first + (second + third),
{
    assert((first + second) + third =~= first + (second + third));
}

/// Appends the line for a node that is shown whole.
fn push_whole(lines: &mut Vec<OutlineLine>, prefix: &String, node: SyntaxKind)
    ensures
        outline_view(final(lines)@) == outline_view(old(lines)@) + seq![
            OutlineLineView { prefix: prefix@, label: OutlineLabelView::Node(node@) },
        ],
{
    lines.push(OutlineLine { prefix: prefix.clone(), label: OutlineLabel::Node(node) });
    assert(outline_view(lines@) =~= outline_view(old(lines)@) + seq![
        OutlineLineView { prefix: prefix@, label: OutlineLabelView::Node(node@) },
    ]);
}

/// Appends the outline of a tree to the lines.
fn outline_into(node: &SyntaxKind, prefix: &String, lines: &mut Vec<OutlineLine>)
    ensures
        outline_view(final(lines)@) == outline_view(old(lines)@) + outline_of(node@, prefix@),
    decreases node,
{
    match node {
        SyntaxKind::Expression(expression) => outline_expression(expression, prefix, lines),
        SyntaxKind::Statement(statement) => outline_statement(statement, prefix, lines),
        _ => push_whole(lines, prefix, node.clone()),
    }
}

/// Appends the outline of an expression to the lines.
fn outline_expression(expression: &ExpressionSyntax, prefix: &String, lines: &mut Vec<OutlineLine>)
    ensures
        outline_view(final(lines)@) == outline_view(old(lines)@) + outline_of(
            SyntaxView::Expression(expression@),
            prefix@,
        ),
    decreases expression,
{
    let mut inner = prefix.clone();
    inner.push('\t');
    let ghost start = outline_view(lines@);
    match expression {
        ExpressionSyntax::BinaryExpressionSyntax { left, operator, right } => {
            push_heading(lines, prefix, "BinaryExpressionSyntax");
            let ghost mut shown = heading(prefix@, "BinaryExpressionSyntax"@);
            outline_into(left, &inner, lines);
            proof {
                lemma_lines_regroup(start, shown, outline_of(left@, inner@));
                shown = shown + outline_of(left@, inner@);
            }
            outline_into(operator, &inner, lines);
            proof {
                lemma_lines_regroup(start, shown, outline_of(operator@, inner@));
                shown = shown + outline_of(operator@, inner@);
            }
            outline_into(right, &inner, lines);
            proof {
                lemma_lines_regroup(start, shown, outline_of(right@, inner@));
                shown = shown + outline_of(right@, inner@);
            }
        },
        ExpressionSyntax::ParenthesizedExpressionSyntax {
            open_parenthesis_token,
            expression,
            close_parenthesis_token,
        } => {
            push_heading(lines, prefix, "ParenthesizedExpressionSyntax");
            let ghost mut shown = heading(prefix@, "ParenthesizedExpressionSyntax"@);
            outline_into(open_parenthesis_token, &inner, lines);
            proof {
                lemma_lines_regroup(start, shown, outline_of(open_parenthesis_token@, inner@));
                shown = shown + outline_of(open_parenthesis_token@, inner@);
            }
            outline_into(expression, &inner, lines);
            proof {
                lemma_lines_regroup(start, shown, outline_of(expression@, inner@));
                shown = shown + outline_of(expression@, inner@);
            }
            outline_into(close_parenthesis_token, &inner, lines);
            proof {
                lemma_lines_regroup(start, shown, outline_of(close_parenthesis_token@, inner@));
                shown = shown + outline_of(close_parenthesis_token@, inner@);
            }
        },
        ExpressionSyntax::UnaryExpressionSyntax { operator, operand } => {
            push_heading(lines, prefix, "UnaryExpressionSyntax");
            let ghost mut shown = heading(prefix@, "UnaryExpressionSyntax"@);
            outline_into(operator, &inner, lines);
            proof {
                lemma_lines_regroup(start, shown, outline_of(operator@, inner@));
                shown = shown + outline_of(operator@, inner@);
            }
            outline_into(operand, &inner, lines);
            proof {
                lemma_lines_regroup(start, shown, outline_of(operand@, inner@));
                shown = shown + outline_of(operand@, inner@);
            }
        },
        ExpressionSyntax::LiteralExpressionSyntax { expression } => {
            push_heading(lines, prefix, "LiteralExpressionSyntax");
            let ghost mut shown = heading(prefix@, "LiteralExpressionSyntax"@);
            outline_into(expression, &inner, lines);
            proof {
                lemma_lines_regroup(start, shown, outline_of(expression@, inner@));
                shown = shown + outline_of(expression@, inner@);
            }
        },
        _ => push_whole(lines, prefix, SyntaxKind::Expression(expression.clone())),
    }
}

/// Appends the outline of a statement to the lines.
fn outline_statement(statement: &StatementSyntax, prefix: &String, lines: &mut Vec<OutlineLine>)
    ensures
        outline_view(final(lines)@) == outline_view(old(lines)@) + outline_of(
            SyntaxView::Statement(statement@),
            prefix@,
        ),
    decreases statement,
{
    let mut inner = prefix.clone();
    inner.push('\t');
    let ghost start = outline_view(lines@);
    match statement {
        StatementSyntax::BlockStatementSyntax { open_brace, statements, close_brace } => {
            push_heading(lines, prefix, "BlockStatementSyntax");
            let ghost mut shown = heading(prefix@, "BlockStatementSyntax"@);
            outline_into(open_brace, &inner, lines);
            proof {
                lemma_lines_regroup(start, shown, outline_of(open_brace@, inner@));
                shown = shown + outline_of(open_brace@, inner@);
            }
            outline_into(statements, &inner, lines);
            proof {
                lemma_lines_regroup(start, shown, outline_of(statements@, inner@));
                shown = shown + outline_of(statements@, inner@);
            }
            outline_into(close_brace, &inner, lines);
            proof {
                lemma_lines_regroup(start, shown, outline_of(close_brace@, inner@));
                shown = shown + outline_of(close_brace@, inner@);
            }
        },
        StatementSyntax::ExpressionStatementSyntax { expression, semicolon } => {
            push_heading(lines, prefix, "ExpressionStatementSyntax");
            let ghost mut shown = heading(prefix@, "ExpressionStatementSyntax"@);
            outline_into(expression, &inner, lines);
            proof {
                lemma_lines_regroup(start, shown, outline_of(expression@, inner@));
                shown = shown + outline_of(expression@, inner@);
            }
            outline_into(semicolon, &inner, lines);
            proof {
                lemma_lines_regroup(start, shown, outline_of(semicolon@, inner@));
                shown = shown + outline_of(semicolon@, inner@);
            }
        },
        StatementSyntax::VariableAssignmentStatementSyntax {
            identifier,
            equals_token,
            expression,
        } => {
            push_heading(lines, prefix, "VariableAssignmentStatementSyntax");
            let ghost mut shown = heading(prefix@, "VariableAssignmentStatementSyntax"@);
            outline_into(identifier, &inner, lines);
            proof {
                lemma_lines_regroup(start, shown, outline_of(identifier@, inner@));
                shown = shown + outline_of(identifier@, inner@);
            }
            outline_into(equals_token, &inner, lines);
            proof {
                lemma_lines_regroup(start, shown, outline_of(equals_token@, inner@));
                shown = shown + outline_of(equals_token@, inner@);
            }
            outline_into(expression, &inner, lines);
            proof {
                lemma_lines_regroup(start, shown, outline_of(expression@, inner@));
                shown = shown + outline_of(expression@, inner@);
            }
        },
        StatementSyntax::IfStatementSyntax {
            keyword,
            open_parenthesis,
            condition,
            close_parenthesis,
            open_brace,
            body,
            close_brace,
        } => {
            push_heading(lines, prefix, "IfStatementSyntax");
            let ghost mut shown = heading(prefix@, "IfStatementSyntax"@);
            outline_into(keyword, &inner, lines);
            proof {
                lemma_lines_regroup(start, shown, outline_of(keyword@, inner@));
                shown = shown + outline_of(keyword@, inner@);
            }
            outline_into(open_parenthesis, &inner, lines);
            proof {
                lemma_lines_regroup(start, shown, outline_of(open_parenthesis@, inner@));
                shown = shown + outline_of(open_parenthesis@, inner@);
            }
            outline_into(condition, &inner, lines);
            proof {
                lemma_lines_regroup(start, shown, outline_of(condition@, inner@));
                shown = shown + outline_of(condition@, inner@);
            }
            outline_into(close_parenthesis, &inner, lines);
            proof {
                lemma_lines_regroup(start, shown, outline_of(close_parenthesis@, inner@));
                shown = shown + outline_of(close_parenthesis@, inner@);
            }
            outline_into(open_brace, &inner, lines);
            proof {
                lemma_lines_regroup(start, shown, outline_of(open_brace@, inner@));
                shown = shown + outline_of(open_brace@, inner@);
            }
            outline_into(body, &inner, lines);
            proof {
                lemma_lines_regroup(start, shown, outline_of(body@, inner@));
                shown = shown + outline_of(body@, inner@);
            }
            outline_into(close_brace, &inner, lines);
            proof {
                lemma_lines_regroup(start, shown, outline_of(close_brace@, inner@));
                shown = shown + outline_of(close_brace@, inner@);
            }
        },
        StatementSyntax::ForStatementSyntax {
            keyword,
            open_parenthesis,
            initializer,
            first_semicolon,
            condition,
            second_semicolon,
            incrementor,
            close_parenthesis,
            open_brace,
            body,
            close_brace,
        } => {
            push_heading(lines, prefix, "ForStatementSyntax");
            let ghost mut shown = heading(prefix@, "ForStatementSyntax"@);
            outline_into(keyword, &inner, lines);
            proof {
                lemma_lines_regroup(start, shown, outline_of(keyword@, inner@));
                shown = shown + outline_of(keyword@, inner@);
            }
            outline_into(open_parenthesis, &inner, lines);
            proof {
                lemma_lines_regroup(start, shown, outline_of(open_parenthesis@, inner@));
                shown = shown + outline_of(open_parenthesis@, inner@);
            }
            outline_into(initializer, &inner, lines);
            proof {
                lemma_lines_regroup(start, shown, outline_of(initializer@, inner@));
                shown = shown + outline_of(initializer@, inner@);
            }
            outline_into(first_semicolon, &inner, lines);
            proof {
                lemma_lines_regroup(start, shown, outline_of(first_semicolon@, inner@));
                shown = shown + outline_of(first_semicolon@, inner@);
            }
            outline_into(condition, &inner, lines);
            proof {
                lemma_lines_regroup(start, shown, outline_of(condition@, inner@));
                shown = shown + outline_of(condition@, inner@);
            }
            outline_into(second_semicolon, &inner, lines);
            proof {
                lemma_lines_regroup(start, shown, outline_of(second_semicolon@, inner@));
                shown = shown + outline_of(second_semicolon@, inner@);
            }
            outline_into(incrementor, &inner, lines);
            proof {
                lemma_lines_regroup(start, shown, outline_of(incrementor@, inner@));
                shown = shown + outline_of(incrementor@, inner@);
            }
            outline_into(close_parenthesis, &inner, lines);
            proof {
                lemma_lines_regroup(start, shown, outline_of(close_parenthesis@, inner@));
                shown = shown + outline_of(close_parenthesis@, inner@);
            }
            outline_into(open_brace, &inner, lines);
            proof {
                lemma_lines_regroup(start, shown, outline_of(open_brace@, inner@));
                shown = shown + outline_of(open_brace@, inner@);
            }
            outline_into(body, &inner, lines);
            proof {
                lemma_lines_regroup(start, shown, outline_of(body@, inner@));
                shown = shown + outline_of(body@, inner@);
            }
            outline_into(close_brace, &inner, lines);
            proof {
                lemma_lines_regroup(start, shown, outline_of(close_brace@, inner@));
                shown = shown + outline_of(close_brace@, inner@);
            }
        },
        _ => push_whole(lines, prefix, SyntaxKind::Statement(statement.clone())),
    }
}

/// A node together with the offset of its first character in the source text.
#[derive(Debug, PartialEq)]
pub struct SyntaxKindDescriptor {
    position: usize,
    syntax: SyntaxKind,
}

/// The view of a [`SyntaxKindDescriptor`].
pub struct DescriptorView {
    pub position: usize,
    pub syntax: SyntaxView,
}

impl View for SyntaxKindDescriptor {
    type V = DescriptorView;

    closed spec fn view(&self) -> DescriptorView {
        DescriptorView { position: self.position, syntax: self.syntax@ }
    }
}

impl Clone for SyntaxKindDescriptor {
    fn clone(&self) -> (copy: Self)
        ensures
            copy@ == self@,
    {
        SyntaxKindDescriptor { position: self.position, syntax: self.syntax.clone() }
    }
}

impl SyntaxKindDescriptor {
    pub fn new(position: usize, syntax: SyntaxKind) -> (descriptor: Self)
        ensures
            descriptor@ == (DescriptorView { position, syntax: syntax@ }),
    {
        Self { position, syntax }
    }

    pub fn position(&self) -> (position: usize)
        ensures
            position == self@.position,
    {
        self.position
    }

    pub fn syntax(&self) -> (syntax: SyntaxKind)
        ensures
            syntax@ == self@.syntax,
    {
        self.syntax.clone()
    }

    /// The outline of the tree, line by line.
    pub fn outline(&self) -> (lines: Vec<OutlineLine>)
        ensures
            outline_view(lines@) == outline_of(self@.syntax, Seq::empty()),
    {
        let mut lines: Vec<OutlineLine> = Vec::new();
        let prefix = String::new();
        outline_into(&self.syntax, &prefix, &mut lines);
        assert(outline_view(lines@) =~= outline_of(self@.syntax, Seq::empty()));
        lines
    }

    /// The outline of the tree as text, line by line, for a display to
    /// print.
    pub fn render(&self) -> (lines: Vec<String>)
        ensures
            lines.len() == outline_of(self@.syntax, Seq::empty()).len(),
            forall|i: int|
                0 <= i < lines.len() ==> is_text_of(
                    #[trigger] lines[i]@,
                    outline_of(self@.syntax, Seq::empty())[i],
                ),
    {
        let outline = self.outline();
        let mut lines: Vec<String> = Vec::new();
        let mut index: usize = 0;
        while index < outline.len()
            invariant
                index <= outline.len(),
                lines.len() == index,
                outline_view(outline@) == outline_of(self@.syntax, Seq::empty()),
                forall|i: int|
                    0 <= i < lines.len() ==> is_text_of(
                        #[trigger] lines[i]@,
                        outline_of(self@.syntax, Seq::empty())[i],
                    ),
            decreases outline.len() - index,
        {
            assert(outline_view(outline@)[index as int] == outline@[index as int]@);
            lines.push(render_line(&outline[index]));
            index += 1;
        }
        lines
    }
}

/// `format!` with `{:?}` writes a node out as text. Nothing is claimed of
/// the result.
#[verifier::external_body]
pub(crate) fn debug_text(node: &SyntaxKind) -> (text: String) {
    format!("{:?}", node)
}

/// Whether a text shows a line of an outline: behind the indentation stands
/// the name, or the node written out in some way.
pub open spec fn is_text_of(text: Seq<char>, line: OutlineLineView) -> bool {
    match line.label {
        OutlineLabelView::Name(name) => text == line.prefix + name,
        OutlineLabelView::Node(_) => exists|shown: Seq<char>|
            text == #[trigger] (line.prefix + shown),
    }
}

/// A line of an outline as text.
pub fn render_line(line: &OutlineLine) -> (text: String)
    ensures
        is_text_of(text@, line@),
{
    let mut text = line.prefix.clone();
    match &line.label {
        OutlineLabel::Name(name) => {
            text.append(name.as_str());
        },
        OutlineLabel::Node(node) => {
            let shown = debug_text(node);
            text.append(shown.as_str());
            assert(text@ == line@.prefix + shown@);
        },
    }
    text
}

} // verus!
