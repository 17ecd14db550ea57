use expr_interp::diagnostics::{context_in, decimal_text, message, Context, Diagnostics, ErrorKind};
use expr_interp::error_handler::{
    error_line, handle_parser_errors, render_report, report, ErrorReport,
};
use expr_interp::parser::ParserError;
use expr_interp::syntax::{SyntaxKind, SyntaxKindDescriptor, Tokens};

fn at(position: usize, token: Tokens) -> SyntaxKindDescriptor {
    SyntaxKindDescriptor::new(position, SyntaxKind::Token(token))
}

fn unknown(position: usize) -> ErrorKind {
    ErrorKind::UnknownToken { token: at(position, Tokens::AtToken), position }
}

fn context(before: &str, marked: &str, after: &str) -> Context {
    Context { before: before.to_string(), marked: marked.to_string(), after: after.to_string() }
}

#[test]
fn new_diagnostics_hold_the_input_and_no_error() {
    let diagnostics = Diagnostics::new("let x".to_string());
    assert_eq!(diagnostics.input, "let x");
    assert!(diagnostics.errors.is_empty());
    assert!(!diagnostics.has_errors());
}

#[test]
fn errors_are_kept_in_their_order() {
    let mut diagnostics = Diagnostics::new(String::new());
    diagnostics.add_error(unknown(3));
    diagnostics.add_error(unknown(1));
    assert!(diagnostics.has_errors());
    assert_eq!(diagnostics.errors, vec![unknown(3), unknown(1)]);
}

#[test]
fn merging_puts_the_other_errors_behind() {
    let mut first = Diagnostics::new("first".to_string());
    first.add_error(unknown(1));
    let mut second = Diagnostics::new("second".to_string());
    second.add_error(unknown(2));
    second.add_error(unknown(3));
    first.merge(second);
    assert_eq!(first.errors, vec![unknown(1), unknown(2), unknown(3)]);
    assert_eq!(first.input, "first");
}

#[test]
fn merging_nothing_changes_nothing() {
    let mut first = Diagnostics::new("first".to_string());
    first.merge(Diagnostics::new("second".to_string()));
    assert!(!first.has_errors());
    first.add_error(unknown(1));
    first.merge(Diagnostics::new("second".to_string()));
    assert_eq!(first.errors, vec![unknown(1)]);
}

#[test]
fn every_kind_carries_its_offset() {
    let node = at(0, Tokens::PlusToken);
    let errors = vec![
        ErrorKind::UnknownToken { token: node.clone(), position: 1 },
        ErrorKind::UnexpectedToken { expected: node.clone(), found: node.clone(), position: 2 },
        ErrorKind::UnexpectedEndOfFile { expected: node.clone(), position: 3 },
        ErrorKind::ExpectedToken { expected: node.clone(), found: node.clone(), position: 4 },
        ErrorKind::ExpectedExpression { found: node.clone(), position: 5 },
        ErrorKind::ExpectedIdentifier { found: node.clone(), position: 6 },
        ErrorKind::ExpectedEquals { found: node.clone(), position: 7 },
        ErrorKind::ExpectedSemicolon { found: node.clone(), position: 8 },
        ErrorKind::ParserError { token: node.clone(), position: 9 },
        ErrorKind::LexerError { token: node.clone(), position: 10 },
        ErrorKind::InvalidCharacterError { token: node.clone(), position: 11 },
    ];
    let positions: Vec<usize> = errors.iter().map(|error| error.position()).collect();
    assert_eq!(positions, vec![1, 2, 3, 4, 5, 6, 7, 8, 9, 10, 11]);
    for error in &errors {
        assert_eq!(&error.clone(), error);
    }
}

#[test]
fn context_in_the_middle_of_a_long_text() {
    let text = "0123456789abcdefghijklmnopqrstuvwxyz";
    assert_eq!(context_in(text, 15), context("56789abcde", "f", "ghijklmno"));
}

#[test]
fn context_near_the_start() {
    let text = "0123456789abcdefghijklmnopqrstuvwxyz";
    assert_eq!(context_in(text, 0), context("", "0", "123456789"));
    assert_eq!(context_in(text, 3), context("012", "3", "456789abc"));
    assert_eq!(context_in(text, 10), context("0123456789", "a", "bcdefghij"));
    assert_eq!(context_in(text, 11), context("123456789a", "b", "cdefghijk"));
}

#[test]
fn context_near_the_end() {
    let text = "0123456789abcdefghijklmnopqrstuvwxyz";
    assert_eq!(context_in(text, 30), context("klmnopqrst", "u", "vwxyz"));
    assert_eq!(context_in(text, 35), context("pqrstuvwxy", "z", ""));
    assert_eq!(context_in(text, 36), context("qrstuvwxyz", "", ""));
}

#[test]
fn context_behind_the_end() {
    let text = "0123456789abcdefghijklmnopqrstuvwxyz";
    assert_eq!(context_in(text, 40), context("uvwxyz", "", ""));
    assert_eq!(context_in(text, 46), context("", "", ""));
    assert_eq!(context_in(text, 1000), context("", "", ""));
    assert_eq!(context_in(text, usize::MAX), context("", "", ""));
}

#[test]
fn context_in_a_short_text() {
    assert_eq!(context_in("", 0), context("", "", ""));
    assert_eq!(context_in("ab", 1), context("a", "b", ""));
    assert_eq!(context_in("let = 5;", 4), context("let ", "=", " 5;"));
}

#[test]
fn context_counts_characters() {
    assert_eq!(context_in("äöüßéèêëàâç", 5), context("äöüßé", "è", "êëàâç"));
}

#[test]
fn diagnostics_give_the_context_of_each_error() {
    let mut diagnostics = Diagnostics::new("let = 5;".to_string());
    diagnostics.add_error(unknown(4));
    diagnostics.add_error(unknown(0));
    assert_eq!(diagnostics.context(4), context("let ", "=", " 5;"));
    assert_eq!(
        diagnostics.contexts(),
        vec![context("let ", "=", " 5;"), context("", "l", "et = 5;")]
    );
    assert_eq!(diagnostics.clone(), diagnostics);
}

#[test]
fn numbers_in_decimal() {
    assert_eq!(decimal_text(0), "0");
    assert_eq!(decimal_text(7), "7");
    assert_eq!(decimal_text(10), "10");
    assert_eq!(decimal_text(1234567890), "1234567890");
    assert_eq!(decimal_text(usize::MAX), usize::MAX.to_string());
}

/// The text without the escape sequences that paint it.
fn plain(text: &str) -> String {
    let mut plain = String::new();
    let mut chars = text.chars();
    while let Some(c) = chars.next() {
        if c == '\u{1b}' {
            for escaped in chars.by_ref() {
                if escaped == 'm' {
                    break;
                }
            }
        } else {
            plain.push(c);
        }
    }
    plain
}

#[test]
fn message_about_an_unexpected_token() {
    assert_eq!(
        message("Error", "Unexpected token", "let = 5;", 4, Some("Token(EqualsToken)")),
        "Error: Unexpected token let = 5; found at position 4. Expected Token(EqualsToken)."
    );
    assert_eq!(
        message("Error", "Unknown token", "1 @", 2, None),
        "Error: Unknown token 1 @ found at position 2."
    );
    assert_eq!(message("", "", "", 0, Some("")), ":   found at position 0. Expected .");
    assert_eq!(message("", "", "", 10, None), ":   found at position 10.");
}

#[test]
fn every_kind_has_its_headline() {
    let node = at(0, Tokens::PlusToken);
    let with = |error: ErrorKind| (error.headline(), error.expected().is_some());
    assert_eq!(
        with(ErrorKind::UnknownToken { token: node.clone(), position: 1 }),
        ("Unknown token", false)
    );
    assert_eq!(
        with(ErrorKind::UnexpectedToken { expected: node.clone(), found: node.clone(), position: 2 }),
        ("Unexpected token", true)
    );
    assert_eq!(
        with(ErrorKind::UnexpectedEndOfFile { expected: node.clone(), position: 3 }),
        ("Unexpected end of file", true)
    );
    assert_eq!(
        with(ErrorKind::ExpectedToken { expected: node.clone(), found: node.clone(), position: 4 }),
        ("Missing token", true)
    );
    assert_eq!(
        with(ErrorKind::ExpectedExpression { found: node.clone(), position: 5 }),
        ("Missing expression", false)
    );
    assert_eq!(
        with(ErrorKind::ExpectedIdentifier { found: node.clone(), position: 6 }),
        ("Missing identifier", false)
    );
    assert_eq!(
        with(ErrorKind::ExpectedEquals { found: node.clone(), position: 7 }),
        ("Missing equals sign", false)
    );
    assert_eq!(
        with(ErrorKind::ExpectedSemicolon { found: node.clone(), position: 8 }),
        ("Missing semicolon", false)
    );
    assert_eq!(with(ErrorKind::ParserError { token: node.clone(), position: 9 }), ("Parser error", false));
    assert_eq!(with(ErrorKind::LexerError { token: node.clone(), position: 10 }), ("Lexer error", false));
    assert_eq!(
        with(ErrorKind::InvalidCharacterError { token: node.clone(), position: 11 }),
        ("Invalid character", false)
    );
    let expected = at(3, Tokens::SemiColonToken);
    let error = ErrorKind::UnexpectedEndOfFile { expected: expected.clone(), position: 3 };
    assert_eq!(error.expected(), Some(&expected));
}

#[test]
fn errors_are_rendered_in_their_order() {
    let mut diagnostics = Diagnostics::new("let = 5; @".to_string());
    diagnostics.add_error(ErrorKind::UnexpectedToken {
        expected: at(4, Tokens::CloseParenthesisToken),
        found: at(4, Tokens::EqualsToken),
        position: 4,
    });
    diagnostics.add_error(ErrorKind::UnknownToken { token: at(9, Tokens::AtToken), position: 9 });
    let lines: Vec<String> = diagnostics.render().iter().map(|line| plain(line)).collect();
    assert_eq!(
        lines,
        vec![
            "Error: Unexpected token let = 5; @ found at position 4. Expected Token(CloseParenthesisToken).",
            "Error: Unknown token let = 5; @ found at position 9.",
        ]
    );
    assert_eq!(
        plain(&diagnostics.render_error(&diagnostics.errors[1])),
        "Error: Unknown token let = 5; @ found at position 9."
    );
    assert!(Diagnostics::new(String::new()).render().is_empty());
}

#[test]
fn rendering_shows_ten_characters_on_either_side() {
    let mut diagnostics = Diagnostics::new("0123456789abcdefghijklmnopqrstuvwxyz".to_string());
    diagnostics.add_error(unknown(15));
    assert_eq!(
        plain(&diagnostics.render()[0]),
        "Error: Unknown token 56789abcdefghijklmno found at position 15."
    );
}

#[test]
fn line_about_a_parser_error() {
    assert_eq!(
        error_line("Error: ", "Expected a number", "1 + ", "12"),
        "Error:  Expected a number. ...1 + ... at position 12"
    );
}

#[test]
fn no_parser_error_is_fine() {
    assert_eq!(handle_parser_errors(Vec::new(), "1 + 2".to_string()), (true, Vec::new()));
}

#[test]
fn parser_errors_are_reported_with_their_context() {
    let errors = vec![
        ParserError { descriptor: at(4, Tokens::EqualsToken), message: "no name".to_string() },
        ParserError { descriptor: at(30, Tokens::EndOfFileToken), message: "too far".to_string() },
    ];
    assert_eq!(errors[0].clone(), errors[0]);
    let first = report(&errors[0], "let = 5;");
    assert_eq!(
        first,
        ErrorReport { message: "no name".to_string(), context: context("let ", "=", " 5;"), position: 4 }
    );
    assert_eq!(
        report(&errors[1], "let = 5;"),
        ErrorReport { message: "too far".to_string(), context: context("", "", ""), position: 30 }
    );
    assert_eq!(plain(&render_report(&first)), "Error:  no name. ...let = 5;... at position 4");
    let (fine, lines) = handle_parser_errors(errors, "let = 5;".to_string());
    assert!(!fine);
    let lines: Vec<String> = lines.iter().map(|line| plain(line)).collect();
    assert_eq!(
        lines,
        vec![
            "Error:  no name. ...let = 5;... at position 4",
            "Error:  too far. ...... at position 30",
        ]
    );
}
