//! The parser: recursive descent with precedence climbing over the tokens,
//! which never stops at an error. Where a token is missing it reports the
//! error, puts a placeholder in the tree and goes on.
//!
//! [`parse_expression_spec`], [`parse_binary_tail`] and
//! [`parse_primary_spec`] say which tree and which errors the tokens from an
//! offset give, and how many tokens are taken; the methods of [`Parser`]
//! compute exactly that.

pub mod precedence;

use crate::diagnostics::{Diagnostics, ErrorKind, ErrorView};
use crate::parser::precedence::{
    binary_operator_precedence, binary_precedence, unary_operator_precedence, unary_precedence,
};
use crate::syntax::{
    DescriptorView, ExpressionSyntax, ExpressionView, Keywords, LiteralToken, LiteralView,
    StatementSyntax, StatementView, SyntaxKind, SyntaxKindDescriptor, SyntaxView, TokenView,
    Tokens,
};
use vstd::prelude::*;

verus! {

/// An error of the parser in words, with the node it is about.
#[derive(Debug, PartialEq)]
pub struct ParserError {
    pub descriptor: SyntaxKindDescriptor,
    pub message: String,
}

/// The view of a [`ParserError`].
pub struct ParserErrorView {
    pub descriptor: DescriptorView,
    pub message: Seq<char>,
}

impl View for ParserError {
    type V = ParserErrorView;

    open spec fn view(&self) -> ParserErrorView {
        ParserErrorView { descriptor: self.descriptor@, message: self.message@ }
    }
}

impl Clone for ParserError {
    fn clone(&self) -> (copy: Self)
        ensures
            copy@ == self@,
    {
        ParserError { descriptor: self.descriptor.clone(), message: self.message.clone() }
    }
}

/// The parser's state: the tokens, the cursor and the errors found so far.
pub struct Parser {
    tokens: Vec<SyntaxKindDescriptor>,
    position: usize,
    diagnostics: Diagnostics,
}

/// The text of the placeholder that stands where no expression could start.
pub const BAD_TOKEN: &'static str = "Bad Token";

/// What the error says was expected where an expression should start.
pub const EXPECTED_EXPRESSION_START: &'static str = "identifier";

/// What the error says was expected behind `let`.
pub const EXPECTED_NAME: &'static str = "id";

/// What one step of the parser gives: the node, how many tokens it took, and
/// the errors it reported.
pub struct Parsed {
    pub node: DescriptorView,
    pub consumed: nat,
    pub errors: Seq<ErrorView>,
}

/// A node at an offset.
pub open spec fn node_at(position: usize, syntax: SyntaxView) -> DescriptorView {
    DescriptorView { position, syntax }
}

/// The token at the cursor. Behind the last token it is an end-of-file
/// token, tagged with the cursor.
pub open spec fn peek_at(tokens: Seq<DescriptorView>, position: nat) -> DescriptorView {
    if position < tokens.len() {
        tokens[position as int]
    } else {
        node_at(position as usize, SyntaxView::Token(TokenView::EndOfFileToken))
    }
}

/// How many tokens are left at the cursor.
pub open spec fn tokens_left(tokens: Seq<DescriptorView>, position: nat) -> nat {
    if position < tokens.len() {
        (tokens.len() - position) as nat
    } else {
        0
    }
}

/// Requires a token. If the token at the cursor is structurally equal to the
/// expected one, it is taken. If not, nothing is taken, an unexpected-token
/// error names what was expected and what was found, at the offset of what
/// was found, and the result is a node of the expected shape, tagged with the
/// cursor.
pub open spec fn match_token_spec(
    tokens: Seq<DescriptorView>,
    position: nat,
    expected: DescriptorView,
) -> Parsed {
    let found = peek_at(tokens, position);
    if found.syntax == expected.syntax {
        Parsed { node: found, consumed: 1, errors: Seq::empty() }
    } else {
        Parsed {
            node: node_at(position as usize, expected.syntax),
            consumed: 0,
            errors: seq![
                ErrorView::UnexpectedToken { expected, found, position: found.position },
            ],
        }
    }
}

/// Requires the given token at the cursor.
pub open spec fn expect(tokens: Seq<DescriptorView>, position: nat, token: TokenView) -> Parsed {
    match_token_spec(tokens, position, node_at(position as usize, SyntaxView::Token(token)))
}

/// The placeholder for an expression that could not start.
pub open spec fn bad_token() -> SyntaxView {
    SyntaxView::Token(TokenView::BadToken { value: BAD_TOKEN@ })
}

/// The shape that an error names as expected where it wanted a name.
pub open spec fn expected_text(position: usize, text: Seq<char>) -> DescriptorView {
    node_at(
        position,
        SyntaxView::Token(TokenView::LiteralToken { value: LiteralView::String { value: text } }),
    )
}

/// Whether a node is a literal that stands for itself as an expression: an
/// integer, a floating-point number, a string or a boolean.
pub open spec fn is_plain_literal(syntax: SyntaxView) -> bool {
    match syntax {
        SyntaxView::Token(TokenView::LiteralToken { value: LiteralView::Int { .. } }) => true,
        SyntaxView::Token(TokenView::LiteralToken { value: LiteralView::Float { .. } }) => true,
        SyntaxView::Token(TokenView::LiteralToken { value: LiteralView::String { .. } }) => true,
        SyntaxView::Token(TokenView::LiteralToken { value: LiteralView::Bool { .. } }) => true,
        _ => false,
    }
}

/// The expression at the cursor that binds tighter than `parent_precedence`.
///
/// A unary operator whose strength is at least `parent_precedence` takes the
/// whole expression behind it as its operand. Anything else starts with a
/// primary expression. Behind either, binary operators are folded in by
/// [`parse_binary_tail`]. Every node built here is tagged with the offset of
/// the expression's first token.
pub open spec fn parse_expression_spec(
    tokens: Seq<DescriptorView>,
    position: nat,
    parent_precedence: nat,
) -> Parsed
    decreases tokens_left(tokens, position), 2nat,
{
    let current = peek_at(tokens, position);
    let strength = unary_precedence(current.syntax);
    let left = if strength != 0 && strength >= parent_precedence {
        let operand = parse_expression_spec(tokens, position + 1, 0);
        Parsed {
            node: node_at(
                current.position,
                SyntaxView::Expression(
                    ExpressionView::UnaryExpressionSyntax {
                        operator: Box::new(current.syntax),
                        operand: Box::new(operand.node.syntax),
                    },
                ),
            ),
            consumed: 1 + operand.consumed,
            errors: operand.errors,
        }
    } else {
        parse_primary_spec(tokens, position)
    };
    let tail = parse_binary_tail(
        tokens,
        position + left.consumed,
        left.node,
        current.position,
        parent_precedence,
    );
    Parsed {
        node: tail.node,
        consumed: left.consumed + tail.consumed,
        errors: left.errors + tail.errors,
    }
}

/// Folds the binary operators at the cursor into `left`.
///
/// An operator is taken while it binds strictly tighter than
/// `parent_precedence`. Its right operand is the expression behind it that
/// binds tighter than the operator itself, so an operator of the same
/// strength further right is left for the next round: operators of one
/// strength associate to the left.
pub open spec fn parse_binary_tail(
    tokens: Seq<DescriptorView>,
    position: nat,
    left: DescriptorView,
    origin: usize,
    parent_precedence: nat,
) -> Parsed
    decreases tokens_left(tokens, position), 1nat,
{
    let operator = peek_at(tokens, position);
    let strength = binary_precedence(operator.syntax);
    if strength == 0 || strength <= parent_precedence {
        Parsed { node: left, consumed: 0, errors: Seq::empty() }
    } else {
        let right = parse_expression_spec(tokens, position + 1, strength);
        let folded = node_at(
            origin,
            SyntaxView::Expression(
                ExpressionView::BinaryExpressionSyntax {
                    left: Box::new(left.syntax),
                    operator: Box::new(operator.syntax),
                    right: Box::new(right.node.syntax),
                },
            ),
        );
        let rest = parse_binary_tail(
            tokens,
            position + 1 + right.consumed,
            folded,
            origin,
            parent_precedence,
        );
        Parsed {
            node: rest.node,
            consumed: 1 + right.consumed + rest.consumed,
            errors: right.errors + rest.errors,
        }
    }
}

/// The primary expression at the cursor.
///
/// - `(` starts a parenthesized expression.
/// - An integer, floating-point, string or boolean literal and an identifier
///   are each a literal expression.
/// - `{` starts a block.
/// - `let` starts a declaration.
/// - `if` starts a conditional.
/// - At any other token an error is reported, nothing is taken, and the
///   result is the placeholder.
pub open spec fn parse_primary_spec(tokens: Seq<DescriptorView>, position: nat) -> Parsed
    decreases tokens_left(tokens, position), 1nat,
{
    let current = peek_at(tokens, position);
    if current.syntax == SyntaxView::Token(TokenView::OpenParenthesisToken) {
        parenthesized_spec(tokens, position)
    } else if is_plain_literal(current.syntax) || current.syntax is Token
        && current.syntax->Token_0 is IdentifierToken {
        Parsed {
            node: node_at(
                current.position,
                SyntaxView::Expression(
                    ExpressionView::LiteralExpressionSyntax {
                        expression: Box::new(current.syntax),
                    },
                ),
            ),
            consumed: 1,
            errors: Seq::empty(),
        }
    } else if current.syntax == SyntaxView::Token(TokenView::OpenBraceToken) {
        block_spec(tokens, position)
    } else if current.syntax == SyntaxView::Keyword(Keywords::LetKeyword) {
        declaration_spec(tokens, position)
    } else if current.syntax == SyntaxView::Keyword(Keywords::IfKeyword) {
        conditional_spec(tokens, position)
    } else {
        Parsed {
            node: node_at(current.position, bad_token()),
            consumed: 0,
            errors: seq![
                ErrorView::UnexpectedToken {
                    expected: expected_text(position as usize, EXPECTED_EXPRESSION_START@),
                    found: current,
                    position: current.position,
                },
            ],
        }
    }
}

/// The parenthesized expression whose `(` is at the cursor: the expression
/// behind it, and then `)` is required.
pub open spec fn parenthesized_spec(tokens: Seq<DescriptorView>, position: nat) -> Parsed
    recommends
        position < tokens.len(),
    decreases tokens_left(tokens, position), 0nat,
    when position < tokens.len()
{
    let current = peek_at(tokens, position);
    let inner = parse_expression_spec(tokens, position + 1, 0);
    let close = expect(tokens, position + 1 + inner.consumed, TokenView::CloseParenthesisToken);
    Parsed {
        node: node_at(
            current.position,
            SyntaxView::Expression(
                ExpressionView::ParenthesizedExpressionSyntax {
                    open_parenthesis_token: Box::new(current.syntax),
                    expression: Box::new(inner.node.syntax),
                    close_parenthesis_token: Box::new(close.node.syntax),
                },
            ),
        ),
        consumed: 1 + inner.consumed + close.consumed,
        errors: inner.errors + close.errors,
    }
}

/// The block whose `{` is at the cursor: one primary expression behind it,
/// and then `}` is required.
pub open spec fn block_spec(tokens: Seq<DescriptorView>, position: nat) -> Parsed
    recommends
        position < tokens.len(),
    decreases tokens_left(tokens, position), 0nat,
    when position < tokens.len()
{
    let current = peek_at(tokens, position);
    let inner = parse_primary_spec(tokens, position + 1);
    let close = expect(tokens, position + 1 + inner.consumed, TokenView::CloseBraceToken);
    Parsed {
        node: node_at(
            current.position,
            SyntaxView::Statement(
                StatementView::BlockStatementSyntax {
                    open_brace: Box::new(current.syntax),
                    statements: Box::new(inner.node.syntax),
                    close_brace: Box::new(close.node.syntax),
                },
            ),
        ),
        consumed: 1 + inner.consumed + close.consumed,
        errors: inner.errors + close.errors,
    }
}

/// The declaration whose `let` is at the cursor. The token behind `let` is
/// taken whatever it is. If it is an identifier, `=` is required, then comes
/// the expression, and `;` is required. If not, an error is reported at that
/// token and the result is the placeholder.
pub open spec fn declaration_spec(tokens: Seq<DescriptorView>, position: nat) -> Parsed
    recommends
        position < tokens.len(),
    decreases tokens_left(tokens, position), 0nat,
    when position < tokens.len()
{
    let current = peek_at(tokens, position);
    let identifier = peek_at(tokens, position + 1);
    if identifier.syntax is Token && identifier.syntax->Token_0 is IdentifierToken {
        let equals = expect(tokens, position + 2, TokenView::EqualsToken);
        let value_start = position + 2 + equals.consumed;
        let value = parse_expression_spec(tokens, value_start, 0);
        let semicolon = expect(tokens, value_start + value.consumed, TokenView::SemiColonToken);
        Parsed {
            node: node_at(
                current.position,
                SyntaxView::Statement(
                    StatementView::VariableDeclarationStatementSyntax {
                        keyword: Box::new(current.syntax),
                        identifier: Box::new(identifier.syntax),
                        equals_token: Box::new(equals.node.syntax),
                        expression: Box::new(value.node.syntax),
                        semicolon: Box::new(semicolon.node.syntax),
                    },
                ),
            ),
            consumed: 2 + equals.consumed + value.consumed + semicolon.consumed,
            errors: equals.errors + value.errors + semicolon.errors,
        }
    } else {
        Parsed {
            node: node_at(current.position, bad_token()),
            consumed: 2,
            errors: seq![
                ErrorView::UnexpectedToken {
                    expected: expected_text(identifier.position, EXPECTED_NAME@),
                    found: identifier,
                    position: identifier.position,
                },
            ],
        }
    }
}

/// What the first half of a conditional gives: `(` is required, then comes
/// the condition, and `)` and `{` are required.
pub struct ConditionalHead {
    pub open: Parsed,
    pub condition: Parsed,
    pub close: Parsed,
    pub open_brace: Parsed,
}

impl ConditionalHead {
    /// How many tokens the head took.
    pub open spec fn consumed(self) -> nat {
        self.open.consumed + self.condition.consumed + self.close.consumed
            + self.open_brace.consumed
    }

    /// The errors that the head reported.
    pub open spec fn errors(self) -> Seq<ErrorView> {
        self.open.errors + self.condition.errors + self.close.errors + self.open_brace.errors
    }
}

/// The head of the conditional whose `if` is in front of the cursor.
pub open spec fn conditional_head(tokens: Seq<DescriptorView>, position: nat) -> ConditionalHead
    decreases tokens_left(tokens, position), 3nat,
{
    let open = expect(tokens, position, TokenView::OpenParenthesisToken);
    let condition_start = position + open.consumed;
    let condition = parse_expression_spec(tokens, condition_start, 0);
    let close_start = condition_start + condition.consumed;
    let close = expect(tokens, close_start, TokenView::CloseParenthesisToken);
    let open_brace = expect(tokens, close_start + close.consumed, TokenView::OpenBraceToken);
    ConditionalHead { open, condition, close, open_brace }
}

/// The conditional whose `if` is at the cursor: its head, the body, and then
/// `}` is required.
pub open spec fn conditional_spec(tokens: Seq<DescriptorView>, position: nat) -> Parsed
    recommends
        position < tokens.len(),
    decreases tokens_left(tokens, position), 0nat,
    when position < tokens.len()
{
    let current = peek_at(tokens, position);
    let head = conditional_head(tokens, position + 1);
    let body_start = position + 1 + head.consumed();
    let body = parse_expression_spec(tokens, body_start, 0);
    let close_brace = expect(tokens, body_start + body.consumed, TokenView::CloseBraceToken);
    Parsed {
        node: node_at(
            current.position,
            SyntaxView::Statement(
                StatementView::IfStatementSyntax {
                    keyword: Box::new(current.syntax),
                    open_parenthesis: Box::new(head.open.node.syntax),
                    condition: Box::new(head.condition.node.syntax),
                    close_parenthesis: Box::new(head.close.node.syntax),
                    open_brace: Box::new(head.open_brace.node.syntax),
                    body: Box::new(body.node.syntax),
                    close_brace: Box::new(close_brace.node.syntax),
                },
            ),
        ),
        consumed: 1 + head.consumed() + body.consumed + close_brace.consumed,
        errors: head.errors() + body.errors + close_brace.errors,
    }
}

/// A whole parse from the cursor: one expression, and then the end-of-file
/// token is required.
pub open spec fn parse_spec(tokens: Seq<DescriptorView>, position: nat) -> Parsed {
    let root = parse_expression_spec(tokens, position, 0);
    let end = expect(tokens, position + root.consumed, TokenView::EndOfFileToken);
    Parsed {
        node: root.node,
        consumed: root.consumed + end.consumed,
        errors: root.errors + end.errors,
    }
}

/// Whether a token is an expression by itself: a plain literal or an
/// identifier.
pub open spec fn is_operand(token: DescriptorView) -> bool {
    is_plain_literal(token.syntax) || token.syntax is Token && token.syntax->Token_0
        is IdentifierToken
}

/// The literal expression around a token.
pub open spec fn operand(token: DescriptorView) -> SyntaxView {
    SyntaxView::Expression(
        ExpressionView::LiteralExpressionSyntax { expression: Box::new(token.syntax) },
    )
}

/// The binary expression of an operator between two expressions.
pub open spec fn binary(
    left: SyntaxView,
    operator: DescriptorView,
    right: SyntaxView,
) -> SyntaxView {
    SyntaxView::Expression(
        ExpressionView::BinaryExpressionSyntax {
            left: Box::new(left),
            operator: Box::new(operator.syntax),
            right: Box::new(right),
        },
    )
}

/// An operand is a primary expression of one token, and no unary operator.
pub proof fn lemma_operand_is_primary(tokens: Seq<DescriptorView>, position: nat)
    requires
        position < tokens.len(),
        is_operand(tokens[position as int]),
    ensures
        unary_precedence(tokens[position as int].syntax) == 0,
        parse_primary_spec(tokens, position) == (Parsed {
            node: node_at(tokens[position as int].position, operand(tokens[position as int])),
            consumed: 1,
            errors: Seq::empty(),
        }),
{
}

/// An operand by itself parses to its literal expression: one token is
/// taken, and nothing is reported.
pub proof fn lemma_operand_alone(tokens: Seq<DescriptorView>, position: nat, parent: nat)
    requires
        position < tokens.len(),
        is_operand(tokens[position as int]),
        binary_precedence(peek_at(tokens, position + 1).syntax) <= parent,
    ensures
        parse_expression_spec(tokens, position, parent) == (Parsed {
            node: node_at(tokens[position as int].position, operand(tokens[position as int])),
            consumed: 1,
            errors: Seq::empty(),
        }),
{
    lemma_operand_is_primary(tokens, position);
    let current = tokens[position as int];
    let primary = parse_primary_spec(tokens, position);
    let tail = parse_binary_tail(tokens, position + 1, primary.node, current.position, parent);
    assert(primary.errors + tail.errors =~= Seq::<ErrorView>::empty());
}

/// Two operators between three operands. If the second operator binds
/// tighter than the first, it takes the second and the third operand, and the
/// first operator takes the first operand and that expression. If it binds as
/// tightly as the first or less, the first operator takes the first two
/// operands, and the second operator takes that expression and the third
/// operand: operators of one strength associate to the left. Nothing is
/// reported either way.
pub proof fn lemma_two_operators(
    a: DescriptorView,
    first: DescriptorView,
    b: DescriptorView,
    second: DescriptorView,
    c: DescriptorView,
    end: DescriptorView,
)
    requires
        is_operand(a),
        is_operand(b),
        is_operand(c),
        binary_precedence(first.syntax) > 0,
        binary_precedence(second.syntax) > 0,
        end.syntax == SyntaxView::Token(TokenView::EndOfFileToken),
    ensures
        ({
            let parsed = parse_spec(seq![a, first, b, second, c, end], 0);
            &&& parsed.errors == Seq::<ErrorView>::empty()
            &&& parsed.consumed == 6
            &&& parsed.node.position == a.position
            &&& parsed.node.syntax == if binary_precedence(second.syntax) > binary_precedence(
                first.syntax,
            ) {
                binary(operand(a), first, binary(operand(b), second, operand(c)))
            } else {
                binary(binary(operand(a), first, operand(b)), second, operand(c))
            }
        }),
{
    let tokens = seq![a, first, b, second, c, end];
    let nothing = Seq::<ErrorView>::empty();
    let low = binary_precedence(first.syntax);
    let high = binary_precedence(second.syntax);
    assert(nothing + nothing =~= nothing);
    lemma_operand_is_primary(tokens, 0);
    lemma_operand_is_primary(tokens, 2);
    lemma_operand_alone(tokens, 4, high);
    let third = parse_expression_spec(tokens, 4, high);
    if high > low {
        let inner = node_at(b.position, binary(operand(b), second, operand(c)));
        let inner_tail = parse_binary_tail(
            tokens,
            3,
            node_at(b.position, operand(b)),
            b.position,
            low,
        );
        assert(parse_binary_tail(tokens, 5, inner, b.position, low).consumed == 0);
        assert(inner_tail.node == inner);
        assert(inner_tail.consumed == 2);
        assert(inner_tail.errors =~= nothing);
        let right = parse_expression_spec(tokens, 2, low);
        assert(right.node == inner);
        assert(right.consumed == 3);
        assert(right.errors =~= nothing);
        let whole = node_at(a.position, binary(operand(a), first, inner.syntax));
        let outer_tail = parse_binary_tail(
            tokens,
            1,
            node_at(a.position, operand(a)),
            a.position,
            0,
        );
        assert(parse_binary_tail(tokens, 5, whole, a.position, 0).consumed == 0);
        assert(outer_tail.node == whole);
        assert(outer_tail.consumed == 4);
        assert(outer_tail.errors =~= nothing);
    } else {
        lemma_operand_alone(tokens, 2, low);
        let left = node_at(a.position, binary(operand(a), first, operand(b)));
        let whole = node_at(a.position, binary(left.syntax, second, operand(c)));
        assert(parse_binary_tail(tokens, 5, whole, a.position, 0).consumed == 0);
        let rest = parse_binary_tail(tokens, 3, left, a.position, 0);
        assert(rest.node == whole);
        assert(rest.consumed == 2);
        assert(rest.errors =~= nothing);
        let outer_tail = parse_binary_tail(
            tokens,
            1,
            node_at(a.position, operand(a)),
            a.position,
            0,
        );
        assert(outer_tail.node == whole);
        assert(outer_tail.consumed == 4);
        assert(outer_tail.errors =~= nothing);
    }
    let root = parse_expression_spec(tokens, 0, 0);
    assert(root.consumed == 5);
    assert(root.errors =~= nothing);
    let parsed = parse_spec(tokens, 0);
    assert(parsed.errors =~= nothing);
}

/// The string with the characters of a literal.
fn text_of(literal: &'static str) -> (text: String)
    ensures
        text@ == literal@,
{
    String::from_str(literal)
}

/// The placeholder for an expression that could not start.
fn bad_token_node() -> (node: SyntaxKind)
    ensures
        node@ == bad_token(),
{
    SyntaxKind::Token(Tokens::BadToken { value: text_of(BAD_TOKEN) })
}

/// The shape that an error names as expected where it wanted a name.
fn expected_text_node(position: usize, text: &'static str) -> (node: SyntaxKindDescriptor)
    ensures
        node@ == expected_text(position, text@),
{
    SyntaxKindDescriptor::new(
        position,
        SyntaxKind::Token(
            Tokens::LiteralToken { value: LiteralToken::String { value: text_of(text) } },
        ),
    )
}

/// Whether a node is an identifier token.
fn is_identifier(syntax: &SyntaxKind) -> (identifier: bool)
    ensures
        identifier == (syntax@ is Token && syntax@->Token_0 is IdentifierToken),
{
    match syntax {
        SyntaxKind::Token(Tokens::IdentifierToken { .. }) => true,
        _ => false,
    }
}

/// Whether a node is an integer, floating-point, string or boolean literal.
fn is_plain_literal_node(syntax: &SyntaxKind) -> (plain: bool)
    ensures
        plain == is_plain_literal(syntax@),
{
    match syntax {
        SyntaxKind::Token(Tokens::LiteralToken { value: LiteralToken::Int { .. } }) => true,
        SyntaxKind::Token(Tokens::LiteralToken { value: LiteralToken::Float { .. } }) => true,
        SyntaxKind::Token(Tokens::LiteralToken { value: LiteralToken::String { .. } }) => true,
        SyntaxKind::Token(Tokens::LiteralToken { value: LiteralToken::Bool { .. } }) => true,
        _ => false,
    }
}

impl Parser {
    /// A parser at the first of `tokens`, with no errors yet, about `input`.
    pub fn new(tokens: Vec<SyntaxKindDescriptor>, input: String) -> (parser: Parser)
        requires
            tokens.len() <= usize::MAX - 2,
        ensures
            parser.well_formed(),
            parser.cursor() == 0,
            parser.errors() == Seq::<ErrorView>::empty(),
            parser.input() == input@,
            parser.tokens().len() == tokens.len(),
            forall|i: int| 0 <= i < tokens.len() ==> #[trigger] parser.tokens()[i] == tokens[i]@,
    {
        Parser { tokens, position: 0, diagnostics: Diagnostics::new(input) }
    }

    /// The tokens being parsed.
    pub closed spec fn tokens(&self) -> Seq<DescriptorView> {
        Seq::new(self.tokens@.len(), |i: int| self.tokens@[i]@)
    }

    /// The index of the next token to look at.
    pub closed spec fn cursor(&self) -> nat {
        self.position as nat
    }

    /// The errors reported so far.
    pub closed spec fn errors(&self) -> Seq<ErrorView> {
        self.diagnostics@.errors
    }

    /// The input that the errors are about.
    pub closed spec fn input(&self) -> Seq<char> {
        self.diagnostics@.input
    }

    /// The cursor is no further than one behind the last token, and the
    /// furthest cursor fits the machine's integers.
    pub closed spec fn well_formed(&self) -> bool {
        &&& self.tokens@.len() <= usize::MAX - 2
        &&& self.position <= self.tokens@.len() + 1
    }

    /// The token `offset` places behind the cursor. Behind the last token it
    /// is an end-of-file token, tagged with the cursor.
    fn peek(&self, offset: usize) -> (token: SyntaxKindDescriptor)
        ensures
            token@ == if self.cursor() + offset < self.tokens().len() {
                self.tokens()[self.cursor() + offset]
            } else {
                node_at(self.cursor() as usize, SyntaxView::Token(TokenView::EndOfFileToken))
            },
    {
        if offset >= self.tokens.len() || self.position >= self.tokens.len() - offset {
            return SyntaxKindDescriptor::new(
                self.position,
                SyntaxKind::Token(Tokens::EndOfFileToken),
            );
        }
        self.tokens[self.position + offset].clone()
    }

    /// The token at the cursor.
    fn current(&self) -> (token: SyntaxKindDescriptor)
        ensures
            token@ == peek_at(self.tokens(), self.cursor()),
    {
        self.peek(0)
    }

    /// Moves the cursor to the next token.
    fn next(&mut self)
        requires
            old(self).cursor() < usize::MAX,
        ensures
            final(self).cursor() == old(self).cursor() + 1,
            final(self).tokens() == old(self).tokens(),
            final(self).errors() == old(self).errors(),
            final(self).input() == old(self).input(),
    {
        self.position += 1;
    }

    /// Takes the token at the cursor.
    fn next_token(&mut self) -> (token: SyntaxKindDescriptor)
        requires
            old(self).cursor() < usize::MAX,
        ensures
            token@ == peek_at(old(self).tokens(), old(self).cursor()),
            final(self).cursor() == old(self).cursor() + 1,
            final(self).tokens() == old(self).tokens(),
            final(self).errors() == old(self).errors(),
            final(self).input() == old(self).input(),
    {
        let current = self.current();
        self.next();
        current
    }

    /// Requires a token of the shape of `descriptor` at the cursor.
    fn match_token(&mut self, descriptor: SyntaxKindDescriptor) -> (token: SyntaxKindDescriptor)
        requires
            old(self).well_formed(),
        ensures
            final(self).tokens() == old(self).tokens(),
            final(self).input() == old(self).input(),
            ({
                let step = match_token_spec(old(self).tokens(), old(self).cursor(), descriptor@);
                &&& token@ == step.node
                &&& final(self).cursor() == old(self).cursor() + step.consumed
                &&& final(self).errors() == old(self).errors() + step.errors
            }),
    {
        let kind = descriptor.syntax();
        let found = self.current();
        if found.syntax().matches(&kind) {
            proof {
                assert(self.errors() + Seq::<ErrorView>::empty() =~= self.errors());
            }
            return self.next_token();
        }
        let position = found.position();
        self.diagnostics.add_error(ErrorKind::UnexpectedToken {
            expected: descriptor,
            found,
            position,
        });
        SyntaxKindDescriptor::new(self.position, kind)
    }

    /// Requires the given token at the cursor.
    fn expect_token(&mut self, token: Tokens) -> (found: SyntaxKindDescriptor)
        requires
            old(self).well_formed(),
        ensures
            final(self).tokens() == old(self).tokens(),
            final(self).input() == old(self).input(),
            ({
                let step = expect(old(self).tokens(), old(self).cursor(), token@);
                &&& found@ == step.node
                &&& final(self).cursor() == old(self).cursor() + step.consumed
                &&& final(self).errors() == old(self).errors() + step.errors
            }),
    {
        self.match_token(SyntaxKindDescriptor::new(self.position, SyntaxKind::Token(token)))
    }

    /// The expression at the cursor that binds tighter than
    /// `parent_precedence`, which is 0 where none is given.
    fn parse_expression(&mut self, parent_precedence: Option<usize>) -> (node: SyntaxKindDescriptor)
        requires
            old(self).well_formed(),
        ensures
            final(self).well_formed(),
            final(self).tokens() == old(self).tokens(),
            final(self).input() == old(self).input(),
            ({
                let parent: nat = match parent_precedence {
                    Some(precedence) => precedence as nat,
                    None => 0,
                };
                let step = parse_expression_spec(old(self).tokens(), old(self).cursor(), parent);
                &&& node@ == step.node
                &&& final(self).cursor() == old(self).cursor() + step.consumed
                &&& final(self).errors() == old(self).errors() + step.errors
            }),
        decreases tokens_left(old(self).tokens(), old(self).cursor()), 2nat,
    {
        let parent_precedence = match parent_precedence {
            Some(precedence) => precedence,
            None => 0,
        };
        let ghost tokens = self.tokens();
        let ghost start = self.cursor();
        let ghost reported = self.errors();
        let current = self.current();
        let origin = current.position();
        let unary_precedence = unary_operator_precedence(current.syntax());
        let mut left = if unary_precedence != 0 && unary_precedence >= parent_precedence {
            let operator = self.next_token().syntax();
            let operand = self.parse_expression(None);
            SyntaxKindDescriptor::new(
                origin,
                SyntaxKind::Expression(
                    ExpressionSyntax::UnaryExpressionSyntax {
                        operand: Box::new(operand.syntax()),
                        operator: Box::new(operator),
                    },
                ),
            )
        } else {
            self.parse_primary_expression()
        };
        let ghost first = left@;
        let ghost tail_start = self.cursor();
        let ghost tail_reported = self.errors();
        proof {
            assert(tail_reported + Seq::<ErrorView>::empty() =~= tail_reported);
        }
        loop
            invariant
                self.well_formed(),
                self.tokens() == tokens,
                tokens == old(self).tokens(),
                self.input() == old(self).input(),
                start == old(self).cursor(),
                start <= tail_start <= self.cursor(),
                ({
                    let whole = parse_binary_tail(
                        tokens,
                        tail_start,
                        first,
                        origin,
                        parent_precedence as nat,
                    );
                    let rest = parse_binary_tail(
                        tokens,
                        self.cursor(),
                        left@,
                        origin,
                        parent_precedence as nat,
                    );
                    &&& whole.node == rest.node
                    &&& tail_start + whole.consumed == self.cursor() + rest.consumed
                    &&& tail_reported + whole.errors == self.errors() + rest.errors
                }),
            ensures
                self.well_formed(),
                self.tokens() == tokens,
                self.input() == old(self).input(),
                ({
                    let whole = parse_binary_tail(
                        tokens,
                        tail_start,
                        first,
                        origin,
                        parent_precedence as nat,
                    );
                    &&& whole.node == left@
                    &&& tail_start + whole.consumed == self.cursor()
                    &&& tail_reported + whole.errors == self.errors()
                }),
            decreases tokens_left(tokens, self.cursor()),
        {
            let precedence = binary_operator_precedence(self.current().syntax());
            if precedence == 0 || precedence <= parent_precedence {
                proof {
                    assert(self.errors() + Seq::<ErrorView>::empty() =~= self.errors());
                }
                break ;
            }
            let ghost before = left@;
            let ghost reported_before = self.errors();
            let ghost operator_at = self.cursor();
            let operator = self.next_token().syntax();
            let right = self.parse_expression(Some(precedence));
            left =
            SyntaxKindDescriptor::new(
                origin,
                SyntaxKind::Expression(
                    ExpressionSyntax::BinaryExpressionSyntax {
                        left: Box::new(left.syntax()),
                        operator: Box::new(operator),
                        right: Box::new(right.syntax()),
                    },
                ),
            );
            proof {
                let right_step = parse_expression_spec(tokens, operator_at + 1, precedence as nat);
                let rest = parse_binary_tail(
                    tokens,
                    self.cursor(),
                    left@,
                    origin,
                    parent_precedence as nat,
                );
                assert((reported_before + right_step.errors) + rest.errors =~= reported_before + (
                right_step.errors + rest.errors));
            }
        }
        proof {
            let left_step = if unary_precedence != 0 && unary_precedence >= parent_precedence {
                let operand = parse_expression_spec(tokens, start + 1, 0);
                Parsed {
                    node: first,
                    consumed: 1 + operand.consumed,
                    errors: operand.errors,
                }
            } else {
                parse_primary_spec(tokens, start)
            };
            let tail = parse_binary_tail(
                tokens,
                tail_start,
                first,
                origin,
                parent_precedence as nat,
            );
            assert((reported + left_step.errors) + tail.errors =~= reported + (left_step.errors
                + tail.errors));
        }
        left
    }

    /// The primary expression at the cursor.
    fn parse_primary_expression(&mut self) -> (node: SyntaxKindDescriptor)
        requires
            old(self).well_formed(),
        ensures
            final(self).well_formed(),
            final(self).tokens() == old(self).tokens(),
            final(self).input() == old(self).input(),
            ({
                let step = parse_primary_spec(old(self).tokens(), old(self).cursor());
                &&& node@ == step.node
                &&& final(self).cursor() == old(self).cursor() + step.consumed
                &&& final(self).errors() == old(self).errors() + step.errors
            }),
        decreases tokens_left(old(self).tokens(), old(self).cursor()), 1nat,
    {
        let current = self.current();
        let kind = current.syntax();
        if kind.matches(&SyntaxKind::Token(Tokens::OpenParenthesisToken)) {
            return self.parse_parenthesized(current);
        }
        if is_plain_literal_node(&kind) || is_identifier(&kind) {
            let literal = self.next_token();
            proof {
                assert(self.errors() + Seq::<ErrorView>::empty() =~= self.errors());
            }
            return SyntaxKindDescriptor::new(
                current.position(),
                SyntaxKind::Expression(
                    ExpressionSyntax::LiteralExpressionSyntax {
                        expression: Box::new(literal.syntax()),
                    },
                ),
            );
        }
        if kind.matches(&SyntaxKind::Token(Tokens::OpenBraceToken)) {
            return self.parse_block(current);
        }
        if kind.matches(&SyntaxKind::Keyword(Keywords::LetKeyword)) {
            return self.parse_declaration(current);
        }
        if kind.matches(&SyntaxKind::Keyword(Keywords::IfKeyword)) {
            return self.parse_conditional(current);
        }
        let position = current.position();
        self.diagnostics.add_error(
            ErrorKind::UnexpectedToken {
                expected: expected_text_node(self.position, EXPECTED_EXPRESSION_START),
                position,
                found: current,
            },
        );
        SyntaxKindDescriptor::new(position, bad_token_node())
    }

    /// The parenthesized expression that starts with `current`, the token at
    /// the cursor.
    fn parse_parenthesized(&mut self, current: SyntaxKindDescriptor) -> (node: SyntaxKindDescriptor)
        requires
            old(self).well_formed(),
            current@ == peek_at(old(self).tokens(), old(self).cursor()),
            current@.syntax == SyntaxView::Token(TokenView::OpenParenthesisToken),
        ensures
            final(self).well_formed(),
            final(self).tokens() == old(self).tokens(),
            final(self).input() == old(self).input(),
            ({
                let step = parenthesized_spec(old(self).tokens(), old(self).cursor());
                &&& node@ == step.node
                &&& final(self).cursor() == old(self).cursor() + step.consumed
                &&& final(self).errors() == old(self).errors() + step.errors
            }),
        decreases tokens_left(old(self).tokens(), old(self).cursor()), 0nat,
    {
        let ghost tokens = self.tokens();
        let ghost start = self.cursor();
        let ghost reported = self.errors();
        let left = self.next_token();
        let expression = self.parse_expression(None);
        let right = self.expect_token(Tokens::CloseParenthesisToken);
        proof {
            let inner = parse_expression_spec(tokens, start + 1, 0);
            let close = expect(
                tokens,
                start + 1 + inner.consumed,
                TokenView::CloseParenthesisToken,
            );
            assert((reported + inner.errors) + close.errors =~= reported + (inner.errors
                + close.errors));
        }
        SyntaxKindDescriptor::new(
            current.position(),
            SyntaxKind::Expression(
                ExpressionSyntax::ParenthesizedExpressionSyntax {
                    open_parenthesis_token: Box::new(left.syntax()),
                    expression: Box::new(expression.syntax()),
                    close_parenthesis_token: Box::new(right.syntax()),
                },
            ),
        )
    }

    /// The block that starts with `current`, the token at the cursor.
    fn parse_block(&mut self, current: SyntaxKindDescriptor) -> (node: SyntaxKindDescriptor)
        requires
            old(self).well_formed(),
            current@ == peek_at(old(self).tokens(), old(self).cursor()),
            current@.syntax == SyntaxView::Token(TokenView::OpenBraceToken),
        ensures
            final(self).well_formed(),
            final(self).tokens() == old(self).tokens(),
            final(self).input() == old(self).input(),
            ({
                let step = block_spec(old(self).tokens(), old(self).cursor());
                &&& node@ == step.node
                &&& final(self).cursor() == old(self).cursor() + step.consumed
                &&& final(self).errors() == old(self).errors() + step.errors
            }),
        decreases tokens_left(old(self).tokens(), old(self).cursor()), 0nat,
    {
        let ghost tokens = self.tokens();
        let ghost start = self.cursor();
        let ghost reported = self.errors();
        let open_brace = self.next_token();
        let statements = self.parse_primary_expression();
        let close_brace = self.expect_token(Tokens::CloseBraceToken);
        proof {
            let inner = parse_primary_spec(tokens, start + 1);
            let close = expect(tokens, start + 1 + inner.consumed, TokenView::CloseBraceToken);
            assert((reported + inner.errors) + close.errors =~= reported + (inner.errors
                + close.errors));
        }
        SyntaxKindDescriptor::new(
            current.position(),
            SyntaxKind::Statement(
                StatementSyntax::BlockStatementSyntax {
                    open_brace: Box::new(open_brace.syntax()),
                    statements: Box::new(statements.syntax()),
                    close_brace: Box::new(close_brace.syntax()),
                },
            ),
        )
    }

    /// The declaration that starts with `current`, the token at the cursor.
    fn parse_declaration(&mut self, current: SyntaxKindDescriptor) -> (node: SyntaxKindDescriptor)
        requires
            old(self).well_formed(),
            current@ == peek_at(old(self).tokens(), old(self).cursor()),
            current@.syntax == SyntaxView::Keyword(Keywords::LetKeyword),
        ensures
            final(self).well_formed(),
            final(self).tokens() == old(self).tokens(),
            final(self).input() == old(self).input(),
            ({
                let step = declaration_spec(old(self).tokens(), old(self).cursor());
                &&& node@ == step.node
                &&& final(self).cursor() == old(self).cursor() + step.consumed
                &&& final(self).errors() == old(self).errors() + step.errors
            }),
        decreases tokens_left(old(self).tokens(), old(self).cursor()), 0nat,
    {
        let ghost tokens = self.tokens();
        let ghost start = self.cursor();
        let ghost reported = self.errors();
        let let_keyword = self.next_token();
        let identifier = self.next_token();
        if is_identifier(&identifier.syntax()) {
            let equals_token = self.expect_token(Tokens::EqualsToken);
            let expression = self.parse_expression(None);
            let semicolon_token = self.expect_token(Tokens::SemiColonToken);
            proof {
                let equals = expect(tokens, start + 2, TokenView::EqualsToken);
                let value_start = start + 2 + equals.consumed;
                let value = parse_expression_spec(tokens, value_start, 0);
                let semicolon = expect(
                    tokens,
                    value_start + value.consumed,
                    TokenView::SemiColonToken,
                );
                assert(((reported + equals.errors) + value.errors) + semicolon.errors =~= reported
                    + (equals.errors + value.errors + semicolon.errors));
            }
            return SyntaxKindDescriptor::new(
                current.position(),
                SyntaxKind::Statement(
                    StatementSyntax::VariableDeclarationStatementSyntax {
                        keyword: Box::new(let_keyword.syntax()),
                        identifier: Box::new(identifier.syntax()),
                        equals_token: Box::new(equals_token.syntax()),
                        expression: Box::new(expression.syntax()),
                        semicolon: Box::new(semicolon_token.syntax()),
                    },
                ),
            );
        }
        let position = identifier.position();
        self.diagnostics.add_error(
            ErrorKind::UnexpectedToken {
                expected: expected_text_node(position, EXPECTED_NAME),
                position,
                found: identifier,
            },
        );
        SyntaxKindDescriptor::new(current.position(), bad_token_node())
    }

    /// The head of a conditional: `(`, the condition, `)` and `{`.
    fn parse_conditional_head(&mut self) -> (head: (
        SyntaxKindDescriptor,
        SyntaxKindDescriptor,
        SyntaxKindDescriptor,
        SyntaxKindDescriptor,
    ))
        requires
            old(self).well_formed(),
        ensures
            final(self).well_formed(),
            final(self).tokens() == old(self).tokens(),
            final(self).input() == old(self).input(),
            ({
                let step = conditional_head(old(self).tokens(), old(self).cursor());
                &&& head.0@ == step.open.node
                &&& head.1@ == step.condition.node
                &&& head.2@ == step.close.node
                &&& head.3@ == step.open_brace.node
                &&& final(self).cursor() == old(self).cursor() + step.consumed()
                &&& final(self).errors() == old(self).errors() + step.errors()
            }),
        decreases tokens_left(old(self).tokens(), old(self).cursor()), 3nat,
    {
        let ghost reported = self.errors();
        let open_parenthesis = self.expect_token(Tokens::OpenParenthesisToken);
        let condition = self.parse_expression(None);
        let close_parenthesis = self.expect_token(Tokens::CloseParenthesisToken);
        let open_braces = self.expect_token(Tokens::OpenBraceToken);
        proof {
            let step = conditional_head(old(self).tokens(), old(self).cursor());
            assert((((reported + step.open.errors) + step.condition.errors) + step.close.errors)
                + step.open_brace.errors =~= reported + step.errors());
        }
        (open_parenthesis, condition, close_parenthesis, open_braces)
    }

    /// The conditional that starts with `current`, the token at the cursor.
    fn parse_conditional(&mut self, current: SyntaxKindDescriptor) -> (node: SyntaxKindDescriptor)
        requires
            old(self).well_formed(),
            current@ == peek_at(old(self).tokens(), old(self).cursor()),
            current@.syntax == SyntaxView::Keyword(Keywords::IfKeyword),
        ensures
            final(self).well_formed(),
            final(self).tokens() == old(self).tokens(),
            final(self).input() == old(self).input(),
            ({
                let step = conditional_spec(old(self).tokens(), old(self).cursor());
                &&& node@ == step.node
                &&& final(self).cursor() == old(self).cursor() + step.consumed
                &&& final(self).errors() == old(self).errors() + step.errors
            }),
        decreases tokens_left(old(self).tokens(), old(self).cursor()), 0nat,
    {
        let ghost tokens = self.tokens();
        let ghost start = self.cursor();
        let ghost reported = self.errors();
        let if_keyword = self.next_token();
        let (open_parenthesis, condition, close_parenthesis, open_braces) =
            self.parse_conditional_head();
        let body = self.parse_expression(None);
        let close_braces = self.expect_token(Tokens::CloseBraceToken);
        proof {
            let head = conditional_head(tokens, start + 1);
            let body_start = start + 1 + head.consumed();
            let body_step = parse_expression_spec(tokens, body_start, 0);
            let close_brace = expect(
                tokens,
                body_start + body_step.consumed,
                TokenView::CloseBraceToken,
            );
            assert(((reported + head.errors()) + body_step.errors) + close_brace.errors
                =~= reported + (head.errors() + body_step.errors + close_brace.errors));
        }
        SyntaxKindDescriptor::new(
            current.position(),
            SyntaxKind::Statement(
                StatementSyntax::IfStatementSyntax {
                    keyword: Box::new(if_keyword.syntax()),
                    open_brace: Box::new(open_braces.syntax()),
                    close_brace: Box::new(close_braces.syntax()),
                    open_parenthesis: Box::new(open_parenthesis.syntax()),
                    close_parenthesis: Box::new(close_parenthesis.syntax()),
                    condition: Box::new(condition.syntax()),
                    body: Box::new(body.syntax()),
                },
            ),
        )
    }

    /// Parses the tokens from the cursor on: one expression, behind which the
    /// end-of-file token is required.
    ///
    /// The result is the expression's tree. Every error found on the way has
    /// joined the errors, in the order in which it was found; no error stops
    /// the parse.
    pub fn parse(&mut self) -> (root: SyntaxKindDescriptor)
        requires
            old(self).well_formed(),
        ensures
            final(self).tokens() == old(self).tokens(),
            final(self).input() == old(self).input(),
            ({
                let whole = parse_spec(old(self).tokens(), old(self).cursor());
                &&& root@ == whole.node
                &&& final(self).cursor() == old(self).cursor() + whole.consumed
                &&& final(self).errors() == old(self).errors() + whole.errors
            }),
    {
        let ghost reported = self.errors();
        let expression = self.parse_expression(None);
        self.expect_token(Tokens::EndOfFileToken);
        proof {
            let root = parse_expression_spec(old(self).tokens(), old(self).cursor(), 0);
            let end = expect(
                old(self).tokens(),
                old(self).cursor() + root.consumed,
                TokenView::EndOfFileToken,
            );
            assert((reported + root.errors) + end.errors =~= reported + (root.errors + end.errors));
        }
        expression
    }

    /// The errors reported so far, with the input they are about.
    pub fn diagnostics(&self) -> (diagnostics: Diagnostics)
        ensures
            diagnostics@.errors == self.errors(),
            diagnostics@.input == self.input(),
    {
        self.diagnostics.clone()
    }
}

} // verus!
