use expr_interp::evaluator::binary_expression_evaluator;
use expr_interp::evaluator::binary_expression_evaluator::{float_outcome, int_outcome};
use expr_interp::evaluator::unary_expression_evaluator;
use expr_interp::evaluator::{evaluate, force, store, EvaluationResult, RuntimeFault, Types};
use expr_interp::float::{float_is_zero, float_negate, SIGN_BIT};
use expr_interp::syntax::{
    ExpressionSyntax, Keywords, LiteralToken, StatementSyntax, SyntaxKind, Tokens,
};

type Variables = Vec<(String, Types)>;

fn token(token: Tokens) -> SyntaxKind {
    SyntaxKind::Token(token)
}

fn literal(value: LiteralToken) -> SyntaxKind {
    SyntaxKind::Expression(ExpressionSyntax::LiteralExpressionSyntax {
        expression: Box::new(token(Tokens::LiteralToken { value })),
    })
}

fn integer(value: i64) -> SyntaxKind {
    literal(LiteralToken::Int { value })
}

fn fraction(value: f64) -> SyntaxKind {
    literal(LiteralToken::Float { bits: value.to_bits() })
}

fn text(value: &str) -> SyntaxKind {
    literal(LiteralToken::String { value: value.to_string() })
}

fn truth(value: bool) -> SyntaxKind {
    literal(LiteralToken::Bool { value })
}

fn variable(name: &str) -> SyntaxKind {
    SyntaxKind::Expression(ExpressionSyntax::LiteralExpressionSyntax {
        expression: Box::new(identifier(name)),
    })
}

fn identifier(name: &str) -> SyntaxKind {
    token(Tokens::IdentifierToken { value: name.to_string() })
}

fn binary(left: SyntaxKind, operator: Tokens, right: SyntaxKind) -> SyntaxKind {
    SyntaxKind::Expression(ExpressionSyntax::BinaryExpressionSyntax {
        left: Box::new(left),
        operator: Box::new(token(operator)),
        right: Box::new(right),
    })
}

fn unary(operator: Tokens, operand: SyntaxKind) -> SyntaxKind {
    SyntaxKind::Expression(ExpressionSyntax::UnaryExpressionSyntax {
        operator: Box::new(token(operator)),
        operand: Box::new(operand),
    })
}

fn declaration(name: SyntaxKind, expression: SyntaxKind) -> SyntaxKind {
    SyntaxKind::Statement(StatementSyntax::VariableDeclarationStatementSyntax {
        keyword: Box::new(SyntaxKind::Keyword(Keywords::LetKeyword)),
        identifier: Box::new(name),
        equals_token: Box::new(token(Tokens::EqualsToken)),
        expression: Box::new(expression),
        semicolon: Box::new(token(Tokens::SemiColonToken)),
    })
}

fn assignment(name: SyntaxKind, expression: SyntaxKind) -> SyntaxKind {
    SyntaxKind::Statement(StatementSyntax::VariableAssignmentStatementSyntax {
        identifier: Box::new(name),
        equals_token: Box::new(token(Tokens::EqualsToken)),
        expression: Box::new(expression),
    })
}

fn value(syntax: SyntaxKind) -> Result<EvaluationResult, RuntimeFault> {
    evaluate(syntax, &mut Vec::new())
}

fn float(result: Result<EvaluationResult, RuntimeFault>) -> f64 {
    match result {
        Ok(EvaluationResult::Float(bits)) => f64::from_bits(bits),
        other => panic!("no floating-point number: {:?}", other),
    }
}

fn invalid(
    operator: Tokens,
    left: EvaluationResult,
    right: EvaluationResult,
) -> Result<EvaluationResult, RuntimeFault> {
    Err(RuntimeFault::InvalidOperands { operator: token(operator), left, right })
}

#[test]
fn literals_are_worth_themselves() {
    assert_eq!(value(integer(-3)), Ok(EvaluationResult::Int(-3)));
    assert_eq!(value(fraction(2.5)), Ok(EvaluationResult::Float(2.5f64.to_bits())));
    assert_eq!(value(text("ab")), Ok(EvaluationResult::String("ab".to_string())));
    assert_eq!(value(truth(true)), Ok(EvaluationResult::Boolean(true)));
    assert_eq!(value(literal(LiteralToken::Char { value: 'c' })), Ok(EvaluationResult::Char('c')));
    assert_eq!(value(literal(LiteralToken::Null)), Ok(EvaluationResult::Null));
}

#[test]
fn keywords_in_literal_expressions() {
    let keyword = |keyword: Keywords| {
        value(SyntaxKind::Expression(ExpressionSyntax::LiteralExpressionSyntax {
            expression: Box::new(SyntaxKind::Keyword(keyword)),
        }))
    };
    assert_eq!(keyword(Keywords::TrueKeyword), Ok(EvaluationResult::Boolean(true)));
    assert_eq!(keyword(Keywords::FalseKeyword), Ok(EvaluationResult::Boolean(false)));
    assert_eq!(keyword(Keywords::NullKeyword), Ok(EvaluationResult::Null));
    assert_eq!(
        keyword(Keywords::LetKeyword),
        Err(RuntimeFault::InvalidLiteral { expression: SyntaxKind::Keyword(Keywords::LetKeyword) })
    );
}

#[test]
fn integer_arithmetic() {
    assert_eq!(value(binary(integer(7), Tokens::PlusToken, integer(5))), Ok(EvaluationResult::Int(12)));
    assert_eq!(value(binary(integer(7), Tokens::MinusToken, integer(9))), Ok(EvaluationResult::Int(-2)));
    assert_eq!(value(binary(integer(-7), Tokens::StarToken, integer(6))), Ok(EvaluationResult::Int(-42)));
    assert_eq!(value(binary(integer(7), Tokens::PercentToken, integer(3))), Ok(EvaluationResult::Int(1)));
}

#[test]
fn integer_remainder_has_the_sign_of_the_left_operand() {
    assert_eq!(value(binary(integer(-7), Tokens::PercentToken, integer(3))), Ok(EvaluationResult::Int(-1)));
    assert_eq!(value(binary(integer(7), Tokens::PercentToken, integer(-3))), Ok(EvaluationResult::Int(1)));
    assert_eq!(value(binary(integer(-7), Tokens::PercentToken, integer(-3))), Ok(EvaluationResult::Int(-1)));
    assert_eq!(value(binary(integer(-6), Tokens::PercentToken, integer(3))), Ok(EvaluationResult::Int(0)));
    assert_eq!(
        value(binary(integer(i64::MIN), Tokens::PercentToken, integer(2))),
        Ok(EvaluationResult::Int(0))
    );
    assert_eq!(
        value(binary(integer(i64::MAX), Tokens::PercentToken, integer(i64::MIN))),
        Ok(EvaluationResult::Int(i64::MAX))
    );
}

#[test]
fn integer_overflow_is_a_fault() {
    let overflow = Err(RuntimeFault::IntegerOverflow);
    assert_eq!(value(binary(integer(i64::MAX), Tokens::PlusToken, integer(1))), overflow);
    assert_eq!(value(binary(integer(i64::MIN), Tokens::MinusToken, integer(1))), overflow);
    assert_eq!(value(binary(integer(i64::MAX), Tokens::StarToken, integer(2))), overflow);
    assert_eq!(value(binary(integer(i64::MIN), Tokens::PercentToken, integer(-1))), overflow);
    assert_eq!(value(unary(Tokens::MinusToken, integer(i64::MIN))), overflow);
    assert_eq!(
        value(binary(integer(i64::MAX), Tokens::PlusToken, integer(0))),
        Ok(EvaluationResult::Int(i64::MAX))
    );
}

#[test]
fn float_arithmetic() {
    assert_eq!(float(value(binary(fraction(1.5), Tokens::PlusToken, fraction(2.25)))), 3.75);
    assert_eq!(float(value(binary(fraction(1.5), Tokens::MinusToken, fraction(2.25)))), -0.75);
    assert_eq!(float(value(binary(fraction(1.5), Tokens::StarToken, fraction(2.5)))), 3.75);
    assert_eq!(float(value(binary(fraction(7.5), Tokens::SlashToken, fraction(2.5)))), 3.0);
    assert_eq!(float(value(binary(fraction(7.5), Tokens::PercentToken, fraction(2.0)))), 1.5);
    assert_eq!(float(value(binary(fraction(-7.5), Tokens::PercentToken, fraction(2.0)))), -1.5);
}

#[test]
fn float_arithmetic_rounds_as_the_hardware_does() {
    let pairs = [(0.1, 0.2), (1.0e308, 1.0e308), (1.0, 3.0), (5.0e-324, 2.0), (-2.5, 0.3)];
    for (a, b) in pairs {
        assert_eq!(float(value(binary(fraction(a), Tokens::PlusToken, fraction(b)))), a + b);
        assert_eq!(float(value(binary(fraction(a), Tokens::MinusToken, fraction(b)))), a - b);
        assert_eq!(float(value(binary(fraction(a), Tokens::StarToken, fraction(b)))), a * b);
        assert_eq!(float(value(binary(fraction(a), Tokens::SlashToken, fraction(b)))), a / b);
        assert_eq!(float(value(binary(fraction(a), Tokens::PercentToken, fraction(b)))), a % b);
    }
}

#[test]
fn mixed_arithmetic_gives_floats() {
    assert_eq!(float(value(binary(integer(1), Tokens::PlusToken, fraction(2.5)))), 3.5);
    assert_eq!(float(value(binary(fraction(2.5), Tokens::PlusToken, integer(1)))), 3.5);
    assert_eq!(float(value(binary(integer(1), Tokens::MinusToken, fraction(2.5)))), -1.5);
    assert_eq!(float(value(binary(fraction(2.5), Tokens::MinusToken, integer(1)))), 1.5);
    assert_eq!(float(value(binary(integer(3), Tokens::StarToken, fraction(2.5)))), 7.5);
    assert_eq!(float(value(binary(fraction(2.5), Tokens::StarToken, integer(3)))), 7.5);
    assert_eq!(float(value(binary(integer(5), Tokens::SlashToken, fraction(2.5)))), 2.0);
    assert_eq!(float(value(binary(fraction(2.5), Tokens::SlashToken, integer(5)))), 0.5);
    assert_eq!(float(value(binary(integer(5), Tokens::PercentToken, fraction(1.5)))), 0.5);
    assert_eq!(float(value(binary(fraction(5.5), Tokens::PercentToken, integer(2)))), 1.5);
}

#[test]
fn integer_becomes_the_nearest_float() {
    let large = 9007199254740993i64;
    assert_eq!(
        float(value(binary(integer(large), Tokens::PlusToken, fraction(0.0)))),
        9007199254740992.0
    );
    assert_eq!(
        float(value(binary(integer(i64::MIN), Tokens::StarToken, fraction(1.0)))),
        -9223372036854775808.0
    );
    assert_eq!(
        float(value(binary(integer(i64::MAX), Tokens::StarToken, fraction(1.0)))),
        9223372036854775807.0
    );
}

#[test]
fn division_always_gives_a_float() {
    assert_eq!(float(value(binary(integer(7), Tokens::SlashToken, integer(2)))), 3.5);
    assert_eq!(float(value(binary(integer(6), Tokens::SlashToken, integer(3)))), 2.0);
    assert_eq!(float(value(binary(integer(-1), Tokens::SlashToken, integer(3)))), -1.0 / 3.0);
}

#[test]
fn division_by_any_zero_is_a_fault() {
    let zero = Err(RuntimeFault::DivisionByZero);
    assert_eq!(value(binary(integer(5), Tokens::SlashToken, integer(0))), zero);
    assert_eq!(value(binary(fraction(5.0), Tokens::SlashToken, fraction(0.0))), zero);
    assert_eq!(value(binary(fraction(5.0), Tokens::SlashToken, fraction(-0.0))), zero);
    assert_eq!(value(binary(integer(5), Tokens::SlashToken, fraction(0.0))), zero);
    assert_eq!(value(binary(fraction(5.0), Tokens::SlashToken, integer(0))), zero);
    assert_eq!(value(binary(integer(0), Tokens::SlashToken, integer(0))), zero);
    assert_eq!(value(binary(integer(5), Tokens::PercentToken, integer(0))), zero);
}

#[test]
fn float_remainder_by_zero_is_no_fault() {
    assert!(float(value(binary(fraction(5.0), Tokens::PercentToken, fraction(0.0)))).is_nan());
    assert!(float(value(binary(integer(5), Tokens::PercentToken, fraction(0.0)))).is_nan());
}

#[test]
fn division_of_zero_is_no_fault() {
    assert_eq!(float(value(binary(fraction(0.0), Tokens::SlashToken, fraction(4.0)))), 0.0);
}

#[test]
fn strings_are_concatenated() {
    assert_eq!(
        value(binary(text("ab"), Tokens::PlusToken, text("cd"))),
        Ok(EvaluationResult::String("abcd".to_string()))
    );
    assert_eq!(
        value(binary(text("ab"), Tokens::MinusToken, text("cd"))),
        invalid(
            Tokens::MinusToken,
            EvaluationResult::String("ab".to_string()),
            EvaluationResult::String("cd".to_string())
        )
    );
}

#[test]
fn booleans() {
    let and = Tokens::AmpersandAmpersandToken;
    assert_eq!(value(binary(truth(true), and, truth(true))), Ok(EvaluationResult::Boolean(true)));
    let and = Tokens::AmpersandAmpersandToken;
    assert_eq!(value(binary(truth(true), and, truth(false))), Ok(EvaluationResult::Boolean(false)));
    assert_eq!(
        value(binary(truth(true), Tokens::BangEqualsToken, truth(false))),
        Ok(EvaluationResult::Boolean(true))
    );
    assert_eq!(
        value(binary(truth(true), Tokens::BangEqualsToken, truth(true))),
        Ok(EvaluationResult::Boolean(false))
    );
}

#[test]
fn inequality_is_for_booleans_only() {
    assert_eq!(
        value(binary(integer(1), Tokens::BangEqualsToken, integer(2))),
        invalid(Tokens::BangEqualsToken, EvaluationResult::Int(1), EvaluationResult::Int(2))
    );
}

#[test]
fn disjunction_is_not_evaluated() {
    assert_eq!(
        value(binary(truth(true), Tokens::PipePipeToken, truth(false))),
        invalid(
            Tokens::PipePipeToken,
            EvaluationResult::Boolean(true),
            EvaluationResult::Boolean(false)
        )
    );
}

#[test]
fn unlisted_pairings_are_faults() {
    assert_eq!(
        value(binary(integer(1), Tokens::PlusToken, text("a"))),
        invalid(Tokens::PlusToken, EvaluationResult::Int(1), EvaluationResult::String("a".to_string()))
    );
    assert_eq!(
        value(binary(truth(true), Tokens::StarToken, integer(2))),
        invalid(Tokens::StarToken, EvaluationResult::Boolean(true), EvaluationResult::Int(2))
    );
    assert_eq!(
        value(binary(integer(1), Tokens::AmpersandAmpersandToken, truth(true))),
        invalid(
            Tokens::AmpersandAmpersandToken,
            EvaluationResult::Int(1),
            EvaluationResult::Boolean(true)
        )
    );
    assert_eq!(
        value(binary(text("a"), Tokens::SlashToken, integer(0))),
        invalid(Tokens::SlashToken, EvaluationResult::String("a".to_string()), EvaluationResult::Int(0))
    );
    assert_eq!(
        value(binary(integer(1), Tokens::EqualsEqualsToken, integer(1))),
        invalid(Tokens::EqualsEqualsToken, EvaluationResult::Int(1), EvaluationResult::Int(1))
    );
}

#[test]
fn unary_operators() {
    assert_eq!(value(unary(Tokens::PlusToken, integer(4))), Ok(EvaluationResult::Int(4)));
    assert_eq!(value(unary(Tokens::MinusToken, integer(4))), Ok(EvaluationResult::Int(-4)));
    assert_eq!(float(value(unary(Tokens::PlusToken, fraction(4.5)))), 4.5);
    assert_eq!(float(value(unary(Tokens::MinusToken, fraction(4.5)))), -4.5);
    assert_eq!(
        value(unary(Tokens::MinusToken, fraction(0.0))),
        Ok(EvaluationResult::Float((-0.0f64).to_bits()))
    );
    assert_eq!(value(unary(Tokens::BangToken, truth(false))), Ok(EvaluationResult::Boolean(true)));
}

#[test]
fn unary_mismatches_are_faults() {
    assert_eq!(
        value(unary(Tokens::BangToken, integer(1))),
        Err(RuntimeFault::InvalidOperand {
            operator: token(Tokens::BangToken),
            operand: EvaluationResult::Int(1)
        })
    );
    assert_eq!(
        value(unary(Tokens::MinusToken, truth(true))),
        Err(RuntimeFault::InvalidOperand {
            operator: token(Tokens::MinusToken),
            operand: EvaluationResult::Boolean(true)
        })
    );
    assert_eq!(
        value(unary(Tokens::StarToken, integer(1))),
        Err(RuntimeFault::InvalidOperand {
            operator: token(Tokens::StarToken),
            operand: EvaluationResult::Int(1)
        })
    );
}

#[test]
fn parentheses_change_nothing() {
    let inner = binary(integer(2), Tokens::PlusToken, integer(3));
    let node = SyntaxKind::Expression(ExpressionSyntax::ParenthesizedExpressionSyntax {
        open_parenthesis_token: Box::new(token(Tokens::OpenParenthesisToken)),
        expression: Box::new(inner),
        close_parenthesis_token: Box::new(token(Tokens::CloseParenthesisToken)),
    });
    assert_eq!(value(node), Ok(EvaluationResult::Int(5)));
}

#[test]
fn declaration_appends() {
    let mut variables: Variables = Vec::new();
    assert_eq!(
        evaluate(declaration(identifier("x"), integer(1)), &mut variables),
        Ok(EvaluationResult::Null)
    );
    assert_eq!(
        evaluate(declaration(identifier("y"), fraction(2.5)), &mut variables),
        Ok(EvaluationResult::Null)
    );
    assert_eq!(
        evaluate(
            declaration(identifier("z"), literal(LiteralToken::Char { value: 'c' })),
            &mut variables
        ),
        Ok(EvaluationResult::Null)
    );
    assert_eq!(
        variables,
        vec![
            ("x".to_string(), Types::Int(1)),
            ("y".to_string(), Types::Float(2.5f64.to_bits())),
            ("z".to_string(), Types::Char('c')),
        ]
    );
}

#[test]
fn second_declaration_stays_behind_the_first() {
    let mut variables: Variables = Vec::new();
    evaluate(declaration(identifier("x"), integer(1)), &mut variables).unwrap();
    evaluate(declaration(identifier("x"), integer(2)), &mut variables).unwrap();
    assert_eq!(
        variables,
        vec![("x".to_string(), Types::Int(1)), ("x".to_string(), Types::Int(2))]
    );
    assert_eq!(evaluate(variable("x"), &mut variables), Ok(EvaluationResult::Int(1)));
}

#[test]
fn assignment_leaves_one_entry_at_the_end() {
    let mut variables: Variables = Vec::new();
    evaluate(declaration(identifier("x"), integer(1)), &mut variables).unwrap();
    evaluate(declaration(identifier("y"), integer(2)), &mut variables).unwrap();
    evaluate(declaration(identifier("x"), integer(3)), &mut variables).unwrap();
    assert_eq!(
        evaluate(assignment(identifier("x"), text("new")), &mut variables),
        Ok(EvaluationResult::Null)
    );
    assert_eq!(
        variables,
        vec![("y".to_string(), Types::Int(2)), ("x".to_string(), Types::String("new".to_string()))]
    );
    assert_eq!(
        evaluate(variable("x"), &mut variables),
        Ok(EvaluationResult::String("new".to_string()))
    );
}

#[test]
fn assignment_to_a_new_name_declares_it() {
    let mut variables: Variables = Vec::new();
    evaluate(assignment(identifier("x"), fraction(1.5)), &mut variables).unwrap();
    assert_eq!(variables, vec![("x".to_string(), Types::Float(1.5f64.to_bits()))]);
}

#[test]
fn variables_are_found_by_name() {
    let mut variables: Variables = vec![
        ("a".to_string(), Types::Int(1)),
        ("b".to_string(), Types::Boolean(true)),
        ("c".to_string(), Types::Null),
        ("d".to_string(), Types::Char('d')),
        ("e".to_string(), Types::Float(0.5f64.to_bits())),
        ("f".to_string(), Types::String("f".to_string())),
    ];
    assert_eq!(evaluate(variable("a"), &mut variables), Ok(EvaluationResult::Int(1)));
    assert_eq!(evaluate(variable("b"), &mut variables), Ok(EvaluationResult::Boolean(true)));
    assert_eq!(evaluate(variable("c"), &mut variables), Ok(EvaluationResult::Null));
    assert_eq!(evaluate(variable("d"), &mut variables), Ok(EvaluationResult::Char('d')));
    assert_eq!(evaluate(variable("e"), &mut variables), Ok(EvaluationResult::Float(0.5f64.to_bits())));
    assert_eq!(evaluate(variable("f"), &mut variables), Ok(EvaluationResult::String("f".to_string())));
    assert_eq!(variables.len(), 6);
}

#[test]
fn unknown_variable_is_a_fault() {
    assert_eq!(
        value(variable("nowhere")),
        Err(RuntimeFault::UndefinedVariable { name: "nowhere".to_string() })
    );
}

#[test]
fn declaration_needs_an_identifier() {
    let mut variables: Variables = Vec::new();
    assert_eq!(
        evaluate(declaration(token(Tokens::PlusToken), integer(1)), &mut variables),
        Err(RuntimeFault::InvalidIdentifier { identifier: token(Tokens::PlusToken) })
    );
    assert_eq!(
        evaluate(assignment(integer(1), integer(1)), &mut variables),
        Err(RuntimeFault::InvalidIdentifier { identifier: integer(1) })
    );
    assert!(variables.is_empty());
}

#[test]
fn fault_in_the_expression_stores_nothing() {
    let mut variables: Variables = vec![("x".to_string(), Types::Int(1))];
    assert_eq!(
        evaluate(
            assignment(identifier("x"), binary(integer(1), Tokens::SlashToken, integer(0))),
            &mut variables
        ),
        Err(RuntimeFault::DivisionByZero)
    );
    assert_eq!(variables, vec![("x".to_string(), Types::Int(1))]);
}

#[test]
fn left_operand_is_evaluated_first() {
    let mut variables: Variables = Vec::new();
    let left = binary(integer(1), Tokens::SlashToken, integer(0));
    let right = variable("nowhere");
    assert_eq!(
        evaluate(binary(left, Tokens::PlusToken, right), &mut variables),
        Err(RuntimeFault::DivisionByZero)
    );
    let left = variable("nowhere");
    let right = binary(integer(1), Tokens::SlashToken, integer(0));
    assert_eq!(
        evaluate(binary(left, Tokens::PlusToken, right), &mut variables),
        Err(RuntimeFault::UndefinedVariable { name: "nowhere".to_string() })
    );
}

#[test]
fn declaration_inside_an_expression_is_seen_to_its_right() {
    let mut variables: Variables = Vec::new();
    let left = declaration(identifier("x"), integer(4));
    let right = variable("x");
    assert_eq!(
        evaluate(binary(left, Tokens::PlusToken, right), &mut variables),
        Err(RuntimeFault::InvalidOperands {
            operator: token(Tokens::PlusToken),
            left: EvaluationResult::Null,
            right: EvaluationResult::Int(4),
        })
    );
    assert_eq!(variables, vec![("x".to_string(), Types::Int(4))]);
}

#[test]
fn other_shapes_have_no_value() {
    let block = SyntaxKind::Statement(StatementSyntax::BlockStatementSyntax {
        open_brace: Box::new(token(Tokens::OpenBraceToken)),
        statements: Box::new(integer(1)),
        close_brace: Box::new(token(Tokens::CloseBraceToken)),
    });
    assert_eq!(
        value(block.clone()),
        Err(RuntimeFault::UnsupportedSyntax { syntax: block })
    );
    assert_eq!(
        value(token(Tokens::PlusToken)),
        Err(RuntimeFault::UnsupportedSyntax { syntax: token(Tokens::PlusToken) })
    );
    assert_eq!(
        value(SyntaxKind::Keyword(Keywords::TrueKeyword)),
        Err(RuntimeFault::UnsupportedSyntax { syntax: SyntaxKind::Keyword(Keywords::TrueKeyword) })
    );
    let wrapped = SyntaxKind::Expression(ExpressionSyntax::IdentifierExpressionSyntax {
        identifier: Box::new(identifier("x")),
    });
    assert_eq!(value(wrapped.clone()), Err(RuntimeFault::UnsupportedSyntax { syntax: wrapped }));
}

#[test]
fn operand_evaluators_take_the_children() {
    let mut variables: Variables = Vec::new();
    assert_eq!(
        binary_expression_evaluator::evaluate(
            integer(8),
            integer(2),
            token(Tokens::MinusToken),
            &mut variables
        ),
        Ok(EvaluationResult::Int(6))
    );
    assert_eq!(
        unary_expression_evaluator::evaluate(token(Tokens::MinusToken), integer(8), &mut variables),
        Ok(EvaluationResult::Int(-8))
    );
}

#[test]
fn operators_apply_to_values() {
    assert_eq!(
        binary_expression_evaluator::apply(
            token(Tokens::StarToken),
            EvaluationResult::Int(6),
            EvaluationResult::Int(7)
        ),
        Ok(EvaluationResult::Int(42))
    );
    assert_eq!(
        binary_expression_evaluator::apply(
            token(Tokens::PlusToken),
            EvaluationResult::Syntax(integer(1)),
            EvaluationResult::Int(7)
        ),
        invalid(Tokens::PlusToken, EvaluationResult::Syntax(integer(1)), EvaluationResult::Int(7))
    );
    assert_eq!(
        unary_expression_evaluator::apply(token(Tokens::BangToken), EvaluationResult::Boolean(true)),
        Ok(EvaluationResult::Boolean(false))
    );
}

#[test]
fn forcing_evaluates_a_node_and_keeps_a_value() {
    let mut variables: Variables = vec![("x".to_string(), Types::Int(2))];
    assert_eq!(force(EvaluationResult::Int(1), &mut variables), Ok(EvaluationResult::Int(1)));
    assert_eq!(
        force(
            EvaluationResult::Syntax(binary(variable("x"), Tokens::StarToken, integer(3))),
            &mut variables
        ),
        Ok(EvaluationResult::Int(6))
    );
    assert_eq!(
        force(EvaluationResult::Syntax(variable("y")), &mut variables),
        Err(RuntimeFault::UndefinedVariable { name: "y".to_string() })
    );
}

#[test]
fn literal_expression_around_an_expression_has_no_value() {
    assert_eq!(
        value(SyntaxKind::Expression(ExpressionSyntax::LiteralExpressionSyntax {
            expression: Box::new(integer(1)),
        })),
        Err(RuntimeFault::InvalidLiteral { expression: integer(1) })
    );
}

#[test]
fn a_node_cannot_be_stored() {
    let mut variables: Variables = vec![("x".to_string(), Types::Int(1))];
    let node = EvaluationResult::Syntax(integer(2));
    assert_eq!(
        store(identifier("x"), node.clone(), &mut variables, true),
        Err(RuntimeFault::InvalidValue { value: node.clone() })
    );
    assert_eq!(
        store(identifier("x"), node.clone(), &mut variables, false),
        Err(RuntimeFault::InvalidValue { value: node })
    );
    assert_eq!(variables, vec![("x".to_string(), Types::Int(1))]);
}

#[test]
fn storing_with_and_without_replacing() {
    let mut variables: Variables = vec![("x".to_string(), Types::Int(1))];
    assert_eq!(
        store(identifier("x"), EvaluationResult::Int(2), &mut variables, false),
        Ok(EvaluationResult::Null)
    );
    assert_eq!(variables, vec![("x".to_string(), Types::Int(1)), ("x".to_string(), Types::Int(2))]);
    assert_eq!(
        store(identifier("x"), EvaluationResult::Boolean(true), &mut variables, true),
        Ok(EvaluationResult::Null)
    );
    assert_eq!(variables, vec![("x".to_string(), Types::Boolean(true))]);
    assert_eq!(
        store(token(Tokens::PlusToken), EvaluationResult::Int(2), &mut variables, true),
        Err(RuntimeFault::InvalidIdentifier { identifier: token(Tokens::PlusToken) })
    );
    assert_eq!(variables, vec![("x".to_string(), Types::Boolean(true))]);
}

#[test]
fn zero_and_sign() {
    assert!(float_is_zero(0.0f64.to_bits()));
    assert!(float_is_zero((-0.0f64).to_bits()));
    assert!(!float_is_zero(1.0f64.to_bits()));
    assert!(!float_is_zero(f64::NAN.to_bits()));
    assert!(!float_is_zero(5.0e-324f64.to_bits()));
    assert_eq!(float_negate(1.5f64.to_bits()), (-1.5f64).to_bits());
    assert_eq!(float_negate(f64::INFINITY.to_bits()), f64::NEG_INFINITY.to_bits());
    assert_eq!(SIGN_BIT, 1u64 << 63);
}

#[test]
fn copies_are_equal() {
    let result = EvaluationResult::String("a".to_string());
    assert_eq!(result.clone(), result);
    let stored = Types::Float(1.5f64.to_bits());
    assert_eq!(stored.clone(), stored);
    let node = EvaluationResult::Syntax(binary(integer(1), Tokens::PlusToken, integer(2)));
    assert_eq!(node.clone(), node);
}

#[test]
fn outcomes_wrap_what_was_computed() {
    assert_eq!(float_outcome(12), Ok(EvaluationResult::Float(12)));
    assert_eq!(int_outcome(Some(-4)), Ok(EvaluationResult::Int(-4)));
    assert_eq!(int_outcome(None), Err(RuntimeFault::IntegerOverflow));
}
