use expr_interp::diagnostics::ErrorKind;
use expr_interp::lexer::source_text::SourceText;
use expr_interp::lexer::{
    belongs, belongs_given, holds_point, is_ascii_letter, numeral_token, CharClass, Lexer,
    LexerError, MALFORMED_NUMERAL, UNTERMINATED_STRING,
};
use expr_interp::syntax::{Keywords, LiteralToken, SyntaxKind, SyntaxKindDescriptor, Tokens};

fn lexer_for(input: &str) -> Lexer {
    Lexer::new(SourceText::new(input.to_string()))
}

fn lex(input: &str) -> (Vec<SyntaxKindDescriptor>, Vec<ErrorKind>) {
    let mut lexer = lexer_for(input);
    let tokens = lexer.lex().expect("the input holds a literal without a value");
    (tokens, lexer.diagnostics().errors)
}

fn fault(input: &str) -> LexerError {
    lexer_for(input).lex().expect_err("the input was tokenized")
}

fn token(position: usize, token: Tokens) -> SyntaxKindDescriptor {
    SyntaxKindDescriptor::new(position, SyntaxKind::Token(token))
}

fn keyword(position: usize, keyword: Keywords) -> SyntaxKindDescriptor {
    SyntaxKindDescriptor::new(position, SyntaxKind::Keyword(keyword))
}

fn literal(position: usize, value: LiteralToken) -> SyntaxKindDescriptor {
    token(position, Tokens::LiteralToken { value })
}

fn identifier(position: usize, name: &str) -> SyntaxKindDescriptor {
    token(position, Tokens::IdentifierToken { value: name.to_string() })
}

#[test]
fn empty_input_is_the_end_of_file_alone() {
    let (tokens, errors) = lex("");
    assert_eq!(tokens, vec![token(0, Tokens::EndOfFileToken)]);
    assert!(errors.is_empty());
}

#[test]
fn whitespace_is_left_out() {
    let (tokens, errors) = lex(" \t\n 7 \n");
    assert_eq!(
        tokens,
        vec![literal(4, LiteralToken::Int { value: 7 }), token(7, Tokens::EndOfFileToken)]
    );
    assert!(errors.is_empty());
}

#[test]
fn carriage_return_is_unknown() {
    let (tokens, errors) = lex("\r");
    assert_eq!(
        tokens,
        vec![
            token(0, Tokens::UnknownToken { value: "\r".to_string() }),
            token(1, Tokens::EndOfFileToken)
        ]
    );
    assert_eq!(errors.len(), 1);
}

#[test]
fn single_character_punctuation() {
    let (tokens, errors) = lex("+-*/%();:{}[]");
    assert_eq!(
        tokens,
        vec![
            token(0, Tokens::PlusToken),
            token(1, Tokens::MinusToken),
            token(2, Tokens::StarToken),
            token(3, Tokens::SlashToken),
            token(4, Tokens::PercentToken),
            token(5, Tokens::OpenParenthesisToken),
            token(6, Tokens::CloseParenthesisToken),
            token(7, Tokens::SemiColonToken),
            token(8, Tokens::ColonToken),
            token(9, Tokens::OpenBraceToken),
            token(10, Tokens::CloseBraceToken),
            token(11, Tokens::OpenBracketToken),
            token(12, Tokens::CloseBracketToken),
            token(13, Tokens::EndOfFileToken),
        ]
    );
    assert!(errors.is_empty());
}

#[test]
fn two_character_operators() {
    let (tokens, errors) = lex("&& & || | == = != !");
    assert_eq!(
        tokens,
        vec![
            token(0, Tokens::AmpersandAmpersandToken),
            token(3, Tokens::AmpersandToken),
            token(5, Tokens::PipePipeToken),
            token(8, Tokens::PipeToken),
            token(10, Tokens::EqualsEqualsToken),
            token(13, Tokens::EqualsToken),
            token(15, Tokens::BangEqualsToken),
            token(18, Tokens::BangToken),
            token(19, Tokens::EndOfFileToken),
        ]
    );
    assert!(errors.is_empty());
}

#[test]
fn three_equals_are_two_tokens() {
    let (tokens, _) = lex("===");
    assert_eq!(
        tokens,
        vec![
            token(0, Tokens::EqualsEqualsToken),
            token(2, Tokens::EqualsToken),
            token(3, Tokens::EndOfFileToken)
        ]
    );
}

#[test]
fn keywords_are_recognised() {
    let (tokens, errors) = lex("let if else for loop break continue match");
    assert_eq!(
        tokens,
        vec![
            keyword(0, Keywords::LetKeyword),
            keyword(4, Keywords::IfKeyword),
            keyword(7, Keywords::ElseKeyword),
            keyword(12, Keywords::ForKeyword),
            keyword(16, Keywords::LoopKeyword),
            keyword(21, Keywords::BreakKeyword),
            keyword(27, Keywords::ContinueKeyword),
            keyword(36, Keywords::MatchKeyword),
            token(41, Tokens::EndOfFileToken),
        ]
    );
    assert!(errors.is_empty());
}

#[test]
fn true_and_false_are_boolean_literals() {
    let (tokens, _) = lex("true false");
    assert_eq!(
        tokens,
        vec![
            literal(0, LiteralToken::Bool { value: true }),
            literal(5, LiteralToken::Bool { value: false }),
            token(10, Tokens::EndOfFileToken),
        ]
    );
}

#[test]
fn null_is_an_identifier() {
    let (tokens, _) = lex("null");
    assert_eq!(tokens, vec![identifier(0, "null"), token(4, Tokens::EndOfFileToken)]);
}

#[test]
fn identifiers_take_letters_digits_and_underscores() {
    let (tokens, errors) = lex("_a1 lettuce x_2y Ünï");
    assert_eq!(
        tokens,
        vec![
            identifier(0, "_a1"),
            identifier(4, "lettuce"),
            identifier(12, "x_2y"),
            token(17, Tokens::UnknownToken { value: "Ü".to_string() }),
            identifier(18, "nï"),
            token(20, Tokens::EndOfFileToken),
        ]
    );
    assert_eq!(errors.len(), 1);
}

#[test]
fn integer_literals() {
    let (tokens, _) = lex("0 007 123456789");
    assert_eq!(
        tokens,
        vec![
            literal(0, LiteralToken::Int { value: 0 }),
            literal(2, LiteralToken::Int { value: 7 }),
            literal(6, LiteralToken::Int { value: 123456789 }),
            token(15, Tokens::EndOfFileToken),
        ]
    );
}

#[test]
fn largest_integer_literal() {
    let (tokens, _) = lex("9223372036854775807");
    assert_eq!(tokens[0], literal(0, LiteralToken::Int { value: i64::MAX }));
    let error = fault("9223372036854775808");
    assert_eq!(error.message, MALFORMED_NUMERAL);
}

#[test]
fn float_literals() {
    let (tokens, _) = lex("3.5 0.25 1. 6.02e23 1.5e-3 2.0e+2");
    assert_eq!(
        tokens,
        vec![
            literal(0, LiteralToken::Float { bits: 3.5f64.to_bits() }),
            literal(4, LiteralToken::Float { bits: 0.25f64.to_bits() }),
            literal(9, LiteralToken::Float { bits: 1.0f64.to_bits() }),
            literal(12, LiteralToken::Float { bits: 6.02e23f64.to_bits() }),
            literal(20, LiteralToken::Float { bits: 1.5e-3f64.to_bits() }),
            literal(27, LiteralToken::Float { bits: 2.0e+2f64.to_bits() }),
            token(33, Tokens::EndOfFileToken),
        ]
    );
}

#[test]
fn float_literals_are_rounded_to_the_nearest_value() {
    for text in ["0.1", "0.3", "2.2250738585072014e-308", "1.7976931348623157e308", "123456789.123456789"] {
        let (tokens, _) = lex(text);
        let expected: f64 = text.parse().unwrap();
        assert_eq!(tokens[0], literal(0, LiteralToken::Float { bits: expected.to_bits() }), "{}", text);
    }
}

#[test]
fn sign_inside_a_numeral_belongs_to_it() {
    let error = fault("10-3");
    assert_eq!(
        error,
        LexerError {
            descriptor: token(0, Tokens::BadToken { value: "10-3".to_string() }),
            message: MALFORMED_NUMERAL.to_string(),
        }
    );
    assert_eq!(fault("1+2").message, MALFORMED_NUMERAL);
}

#[test]
fn malformed_numerals_stop_the_pass() {
    for text in ["1e5", "1.2.3", "1.5e", "1.5e+", "1.e", "2.-1", "1.5e3.0", "1.5ee3", "12e"] {
        let error = fault(text);
        assert_eq!(
            error,
            LexerError {
                descriptor: token(0, Tokens::BadToken { value: text.to_string() }),
                message: MALFORMED_NUMERAL.to_string(),
            },
            "{}",
            text
        );
    }
}

#[test]
fn numerals_run_over_every_numeric_character() {
    for text in ["1٣", "2²", "3½", "4.٣"] {
        assert_eq!(
            fault(text),
            LexerError {
                descriptor: token(0, Tokens::BadToken { value: text.to_string() }),
                message: MALFORMED_NUMERAL.to_string(),
            },
            "{}",
            text
        );
    }
    let (tokens, errors) = lex("1x");
    assert_eq!(
        tokens,
        vec![
            literal(0, LiteralToken::Int { value: 1 }),
            identifier(1, "x"),
            token(2, Tokens::EndOfFileToken)
        ]
    );
    assert!(errors.is_empty());
}

#[test]
fn words_run_over_every_alphanumeric_character() {
    let (tokens, errors) = lex("aé٣² b-c");
    assert_eq!(
        tokens,
        vec![
            identifier(0, "aé٣²"),
            identifier(5, "b"),
            token(6, Tokens::MinusToken),
            identifier(7, "c"),
            token(8, Tokens::EndOfFileToken),
        ]
    );
    assert!(errors.is_empty());
}

#[test]
fn failure_leaves_the_earlier_errors_and_names_the_literal() {
    let mut lexer = lexer_for("@ 1.2.3");
    let error = lexer.lex().expect_err("the input was tokenized");
    assert_eq!(error.descriptor, token(2, Tokens::BadToken { value: "1.2.3".to_string() }));
    assert_eq!(lexer.diagnostics().errors.len(), 1);
}

#[test]
fn string_literals() {
    let (tokens, errors) = lex("\"hello world\" \"\"");
    assert_eq!(
        tokens,
        vec![
            literal(0, LiteralToken::String { value: "hello world".to_string() }),
            literal(14, LiteralToken::String { value: String::new() }),
            token(16, Tokens::EndOfFileToken),
        ]
    );
    assert!(errors.is_empty());
}

#[test]
fn string_literal_has_no_escapes() {
    let (tokens, _) = lex("\"a\\\" b");
    assert_eq!(
        tokens,
        vec![
            literal(0, LiteralToken::String { value: "a\\".to_string() }),
            identifier(5, "b"),
            token(6, Tokens::EndOfFileToken),
        ]
    );
}

#[test]
fn unterminated_string_stops_the_pass() {
    assert_eq!(
        fault("\"abc"),
        LexerError {
            descriptor: token(0, Tokens::BadToken { value: "\"abc".to_string() }),
            message: UNTERMINATED_STRING.to_string(),
        }
    );
}

#[test]
fn character_literal() {
    let (tokens, errors) = lex("'a' 'b'");
    assert_eq!(
        tokens,
        vec![
            literal(0, LiteralToken::Char { value: 'a' }),
            literal(4, LiteralToken::Char { value: 'b' }),
            token(7, Tokens::EndOfFileToken),
        ]
    );
    assert!(errors.is_empty());
}

#[test]
fn character_literal_without_closing_quote() {
    let (tokens, errors) = lex("'ab");
    let found = literal(0, LiteralToken::Char { value: 'a' });
    assert_eq!(tokens, vec![found, identifier(2, "b"), token(3, Tokens::EndOfFileToken)]);
    assert_eq!(
        errors,
        vec![ErrorKind::ExpectedToken {
            expected: token(0, Tokens::SingleQuoteToken),
            found: literal(2, LiteralToken::Char { value: 'a' }),
            position: 2,
        }]
    );
}

#[test]
fn lone_quote_at_the_end() {
    let (tokens, errors) = lex("'");
    assert_eq!(
        tokens,
        vec![literal(0, LiteralToken::Char { value: '\0' }), token(2, Tokens::EndOfFileToken)]
    );
    assert_eq!(errors.len(), 1);
    assert_eq!(errors[0].position(), 2);
}

#[test]
fn comment_runs_to_the_end_of_the_line() {
    let (tokens, errors) = lex("1 # one\n2");
    assert_eq!(
        tokens,
        vec![
            literal(0, LiteralToken::Int { value: 1 }),
            token(2, Tokens::CommentToken { value: "# one".to_string() }),
            literal(8, LiteralToken::Int { value: 2 }),
            token(9, Tokens::EndOfFileToken),
        ]
    );
    assert!(errors.is_empty());
}

#[test]
fn nul_character_ends_the_pass() {
    let (tokens, errors) = lex("1\0 2");
    assert_eq!(
        tokens,
        vec![literal(0, LiteralToken::Int { value: 1 }), token(1, Tokens::EndOfFileToken)]
    );
    assert!(errors.is_empty());
}

#[test]
fn every_unknown_character_is_reported() {
    let (tokens, errors) = lex("@ $ 1");
    assert_eq!(
        tokens,
        vec![
            token(0, Tokens::UnknownToken { value: "@".to_string() }),
            token(2, Tokens::UnknownToken { value: "$".to_string() }),
            literal(4, LiteralToken::Int { value: 1 }),
            token(5, Tokens::EndOfFileToken),
        ]
    );
    assert_eq!(
        errors,
        vec![
            ErrorKind::UnknownToken {
                token: token(0, Tokens::UnknownToken { value: "@".to_string() }),
                position: 0
            },
            ErrorKind::UnknownToken {
                token: token(2, Tokens::UnknownToken { value: "$".to_string() }),
                position: 2
            },
        ]
    );
}

#[test]
fn tokens_end_with_one_end_of_file() {
    for text in ["", "1 + 2", "let x = 3;", "@@@", "'", "# only a comment", "(((", "a\nb\nc"] {
        let (tokens, _) = lex(text);
        let end = SyntaxKind::Token(Tokens::EndOfFileToken);
        assert_eq!(tokens.iter().filter(|token| token.syntax() == end).count(), 1, "{:?}", text);
        assert_eq!(tokens.last().unwrap().syntax(), end, "{:?}", text);
        let blank = SyntaxKind::Token(Tokens::WhiteSpaceToken);
        assert!(tokens.iter().all(|token| token.syntax() != blank), "{:?}", text);
    }
}

#[test]
fn second_pass_gives_the_end_of_file_again() {
    let mut lexer = lexer_for("1");
    assert_eq!(lexer.lex().unwrap().len(), 2);
    assert_eq!(lexer.lex().unwrap(), vec![token(1, Tokens::EndOfFileToken)]);
}

#[test]
fn diagnostics_hold_the_input() {
    let lexer = lexer_for("let x");
    assert_eq!(lexer.diagnostics().input, "let x");
    assert!(!lexer.diagnostics().has_errors());
}

#[test]
fn numeral_token_takes_the_float_value_as_given() {
    let chars: Vec<char> = "x1.5y".chars().collect();
    assert_eq!(
        numeral_token(&chars, 1, 4, Some(77)),
        Ok(literal(1, LiteralToken::Float { bits: 77 }))
    );
    assert_eq!(
        numeral_token(&chars, 1, 4, None),
        Err(LexerError {
            descriptor: token(1, Tokens::BadToken { value: "1.5".to_string() }),
            message: MALFORMED_NUMERAL.to_string(),
        })
    );
    let chars: Vec<char> = "1.2.3".chars().collect();
    assert!(numeral_token(&chars, 0, 5, Some(77)).is_err());
    let chars: Vec<char> = "120".chars().collect();
    assert_eq!(numeral_token(&chars, 0, 3, Some(77)), Ok(literal(0, LiteralToken::Int { value: 120 })));
    assert_eq!(numeral_token(&chars, 0, 3, None), Ok(literal(0, LiteralToken::Int { value: 120 })));
    assert_eq!(numeral_token(&chars, 1, 3, None), Ok(literal(1, LiteralToken::Int { value: 20 })));
    let chars: Vec<char> = "1e5".chars().collect();
    assert!(numeral_token(&chars, 0, 3, Some(77)).is_err());
}

#[test]
fn character_classes() {
    for c in [' ', '\n', '\t'] {
        assert!(belongs(CharClass::Blank, c));
    }
    for c in ['\r', 'a', '\0', '\u{a0}'] {
        assert!(!belongs(CharClass::Blank, c));
    }
    for c in ['0', '9', '.', 'e', '+', '-', '٣', '²'] {
        assert!(belongs(CharClass::Numeral, c), "{}", c);
    }
    for c in ['E', 'a', ' ', ',', '\0', '_'] {
        assert!(!belongs(CharClass::Numeral, c), "{}", c);
    }
    for c in ['a', 'Z', '0', '_', 'é', '٣'] {
        assert!(belongs(CharClass::Word, c), "{}", c);
    }
    for c in [' ', '-', '.', '\0', '+'] {
        assert!(!belongs(CharClass::Word, c), "{}", c);
    }
    assert!(belongs(CharClass::Comment, '#'));
    assert!(belongs(CharClass::Comment, '\r'));
    assert!(!belongs(CharClass::Comment, '\n'));
    assert!(!belongs(CharClass::Comment, '\0'));
    assert!(belongs(CharClass::StringBody, '\0'));
    assert!(belongs(CharClass::StringBody, '\n'));
    assert!(!belongs(CharClass::StringBody, '"'));

    assert!(belongs_given(CharClass::Numeral, 'x', true, false));
    assert!(!belongs_given(CharClass::Numeral, 'x', false, true));
    assert!(belongs_given(CharClass::Numeral, '7', false, false));
    assert!(belongs_given(CharClass::Word, '?', false, true));
    assert!(!belongs_given(CharClass::Word, '?', true, false));
    assert!(belongs_given(CharClass::Word, 'q', false, false));
    assert!(!belongs_given(CharClass::Blank, 'q', true, true));

    assert!(is_ascii_letter('a') && is_ascii_letter('z') && is_ascii_letter('A') && is_ascii_letter('Z'));
    assert!(!is_ascii_letter('@') && !is_ascii_letter('[') && !is_ascii_letter('`') && !is_ascii_letter('{'));
    assert!(!is_ascii_letter('é'));

    let chars: Vec<char> = "12.5".chars().collect();
    assert!(holds_point(&chars, 0, 4));
    assert!(holds_point(&chars, 2, 3));
    assert!(!holds_point(&chars, 0, 2));
    assert!(!holds_point(&chars, 3, 4));
    assert!(!holds_point(&chars, 2, 2));
}
