use expr_interp::syntax::{
    ExpressionSyntax, Keywords, LiteralToken, OutlineLabel, OutlineLine, StatementSyntax,
    SyntaxKind, SyntaxKindDescriptor, Tokens,
};

fn token(token: Tokens) -> SyntaxKind {
    SyntaxKind::Token(token)
}

fn boxed(token: Tokens) -> Box<SyntaxKind> {
    Box::new(SyntaxKind::Token(token))
}

fn number(value: i64) -> SyntaxKind {
    SyntaxKind::Expression(ExpressionSyntax::LiteralExpressionSyntax {
        expression: boxed(Tokens::LiteralToken { value: LiteralToken::Int { value } }),
    })
}

fn sum(left: SyntaxKind, right: SyntaxKind) -> SyntaxKind {
    SyntaxKind::Expression(ExpressionSyntax::BinaryExpressionSyntax {
        left: Box::new(left),
        operator: boxed(Tokens::PlusToken),
        right: Box::new(right),
    })
}

fn name(prefix: &str, name: &str) -> OutlineLine {
    OutlineLine { prefix: prefix.to_string(), label: OutlineLabel::Name(name.to_string()) }
}

fn whole(prefix: &str, node: SyntaxKind) -> OutlineLine {
    OutlineLine { prefix: prefix.to_string(), label: OutlineLabel::Node(node) }
}

#[test]
fn equal_trees_match() {
    assert!(sum(number(1), number(2)).matches(&sum(number(1), number(2))));
    assert!(!sum(number(1), number(2)).matches(&sum(number(1), number(3))));
    assert!(!sum(number(1), number(2)).matches(&sum(number(2), number(1))));
    assert!(!sum(number(1), number(2)).matches(&number(1)));
}

#[test]
fn tokens_match_by_kind_and_value() {
    assert!(token(Tokens::PlusToken).matches(&token(Tokens::PlusToken)));
    assert!(!token(Tokens::PlusToken).matches(&token(Tokens::MinusToken)));
    let a = token(Tokens::IdentifierToken { value: "a".to_string() });
    let b = token(Tokens::IdentifierToken { value: "b".to_string() });
    assert!(a.matches(&a.clone()));
    assert!(!a.matches(&b));
    assert!(!a.matches(&token(Tokens::BadToken { value: "a".to_string() })));
    assert!(!token(Tokens::NumberToken { bits: 1 }).matches(&token(Tokens::NumberToken { bits: 2 })));
    assert!(token(Tokens::NumberToken { bits: 1 }).matches(&token(Tokens::NumberToken { bits: 1 })));
}

#[test]
fn literals_match_by_kind_and_value() {
    let one = LiteralToken::Int { value: 1 };
    assert!(one.matches(&LiteralToken::Int { value: 1 }));
    assert!(!one.matches(&LiteralToken::Int { value: 2 }));
    assert!(!one.matches(&LiteralToken::Float { bits: 1 }));
    assert!(LiteralToken::Null.matches(&LiteralToken::Null));
    assert!(LiteralToken::Char { value: 'a' }.matches(&LiteralToken::Char { value: 'a' }));
    assert!(!LiteralToken::Bool { value: true }.matches(&LiteralToken::Bool { value: false }));
    let text = LiteralToken::String { value: "a".to_string() };
    assert!(text.matches(&text.clone()));
    assert!(!text.matches(&LiteralToken::String { value: "b".to_string() }));
}

#[test]
fn keywords_match_themselves() {
    let keyword = SyntaxKind::Keyword(Keywords::LetKeyword);
    assert!(keyword.matches(&SyntaxKind::Keyword(Keywords::LetKeyword)));
    assert!(!keyword.matches(&SyntaxKind::Keyword(Keywords::IfKeyword)));
    assert!(!keyword.matches(&token(Tokens::PlusToken)));
}

#[test]
fn statements_match_with_their_optional_children() {
    let with = |label: Option<Box<SyntaxKind>>| {
        SyntaxKind::Statement(StatementSyntax::BreakStatementSyntax {
            keyword: Box::new(SyntaxKind::Keyword(Keywords::BreakKeyword)),
            label,
            semicolon: boxed(Tokens::SemiColonToken),
        })
    };
    let label = || Some(boxed(Tokens::IdentifierToken { value: "out".to_string() }));
    assert!(with(None).matches(&with(None)));
    assert!(with(label()).matches(&with(label())));
    assert!(!with(label()).matches(&with(None)));
    assert!(!with(None).matches(&with(label())));
    assert_eq!(with(label()).clone(), with(label()));
}

#[test]
fn matching_agrees_with_equality() {
    let nodes = vec![
        token(Tokens::PlusToken),
        token(Tokens::EndOfFileToken),
        SyntaxKind::Keyword(Keywords::TrueKeyword),
        number(1),
        number(2),
        sum(number(1), number(2)),
        sum(sum(number(1), number(2)), number(3)),
    ];
    for left in &nodes {
        for right in &nodes {
            assert_eq!(left.matches(right), left == right);
        }
    }
}

#[test]
fn copy_is_equal() {
    let tree = sum(sum(number(1), number(2)), number(3));
    assert_eq!(tree.clone(), tree);
    let descriptor = SyntaxKindDescriptor::new(3, tree);
    assert_eq!(descriptor.clone(), descriptor);
}

#[test]
fn node_comes_out_of_its_box() {
    assert_eq!(SyntaxKind::from(Box::new(number(1))), number(1));
}

#[test]
fn descriptor_gives_what_it_was_made_with() {
    let descriptor = SyntaxKindDescriptor::new(7, number(4));
    assert_eq!(descriptor.position(), 7);
    assert_eq!(descriptor.syntax(), number(4));
}

#[test]
fn outline_of_a_token_is_one_line() {
    let descriptor = SyntaxKindDescriptor::new(0, token(Tokens::PlusToken));
    assert_eq!(descriptor.outline(), vec![whole("", token(Tokens::PlusToken))]);
}

#[test]
fn outline_of_an_expression() {
    let descriptor = SyntaxKindDescriptor::new(0, sum(number(1), number(2)));
    let one = token(Tokens::LiteralToken { value: LiteralToken::Int { value: 1 } });
    let two = token(Tokens::LiteralToken { value: LiteralToken::Int { value: 2 } });
    assert_eq!(
        descriptor.outline(),
        vec![
            name("", "BinaryExpressionSyntax"),
            name("\t", "LiteralExpressionSyntax"),
            whole("\t\t", one),
            whole("\t", token(Tokens::PlusToken)),
            name("\t", "LiteralExpressionSyntax"),
            whole("\t\t", two),
        ]
    );
}

#[test]
fn outline_shows_a_declaration_whole() {
    let declaration = SyntaxKind::Statement(StatementSyntax::VariableDeclarationStatementSyntax {
        keyword: Box::new(SyntaxKind::Keyword(Keywords::LetKeyword)),
        identifier: boxed(Tokens::IdentifierToken { value: "x".to_string() }),
        equals_token: boxed(Tokens::EqualsToken),
        expression: Box::new(number(1)),
        semicolon: boxed(Tokens::SemiColonToken),
    });
    let descriptor = SyntaxKindDescriptor::new(0, declaration.clone());
    assert_eq!(descriptor.outline(), vec![whole("", declaration)]);
}

#[test]
fn outline_of_nested_shapes() {
    let unary = SyntaxKind::Expression(ExpressionSyntax::UnaryExpressionSyntax {
        operator: boxed(Tokens::MinusToken),
        operand: Box::new(SyntaxKind::Expression(
            ExpressionSyntax::ParenthesizedExpressionSyntax {
                open_parenthesis_token: boxed(Tokens::OpenParenthesisToken),
                expression: Box::new(SyntaxKind::Keyword(Keywords::NullKeyword)),
                close_parenthesis_token: boxed(Tokens::CloseParenthesisToken),
            },
        )),
    });
    let block = SyntaxKind::Statement(StatementSyntax::BlockStatementSyntax {
        open_brace: boxed(Tokens::OpenBraceToken),
        statements: Box::new(unary),
        close_brace: boxed(Tokens::CloseBraceToken),
    });
    assert_eq!(
        SyntaxKindDescriptor::new(0, block).outline(),
        vec![
            name("", "BlockStatementSyntax"),
            whole("\t", token(Tokens::OpenBraceToken)),
            name("\t", "UnaryExpressionSyntax"),
            whole("\t\t", token(Tokens::MinusToken)),
            name("\t\t", "ParenthesizedExpressionSyntax"),
            whole("\t\t\t", token(Tokens::OpenParenthesisToken)),
            whole("\t\t\t", SyntaxKind::Keyword(Keywords::NullKeyword)),
            whole("\t\t\t", token(Tokens::CloseParenthesisToken)),
            whole("\t", token(Tokens::CloseBraceToken)),
        ]
    );
}

#[test]
fn outline_of_a_conditional_names_its_seven_children() {
    let conditional = SyntaxKind::Statement(StatementSyntax::IfStatementSyntax {
        keyword: Box::new(SyntaxKind::Keyword(Keywords::IfKeyword)),
        open_parenthesis: boxed(Tokens::OpenParenthesisToken),
        condition: boxed(Tokens::AtToken),
        close_parenthesis: boxed(Tokens::CloseParenthesisToken),
        open_brace: boxed(Tokens::OpenBraceToken),
        body: boxed(Tokens::DollarToken),
        close_brace: boxed(Tokens::CloseBraceToken),
    });
    let lines = SyntaxKindDescriptor::new(0, conditional).outline();
    assert_eq!(lines.len(), 8);
    assert_eq!(lines[0], name("", "IfStatementSyntax"));
    assert_eq!(lines[3], whole("\t", token(Tokens::AtToken)));
    assert_eq!(lines[6], whole("\t", token(Tokens::DollarToken)));
}

#[test]
fn outline_as_text() {
    let descriptor = SyntaxKindDescriptor::new(0, sum(number(1), number(2)));
    assert_eq!(
        descriptor.render(),
        vec![
            "BinaryExpressionSyntax",
            "\tLiteralExpressionSyntax",
            "\t\tToken(LiteralToken { value: Int { value: 1 } })",
            "\tToken(PlusToken)",
            "\tLiteralExpressionSyntax",
            "\t\tToken(LiteralToken { value: Int { value: 2 } })",
        ]
    );
    assert_eq!(
        SyntaxKindDescriptor::new(0, SyntaxKind::Keyword(Keywords::LetKeyword)).render(),
        vec!["Keyword(LetKeyword)"]
    );
}
