use expr_interp::evaluator::{EvaluationResult, RuntimeFault, Types};
use expr_interp::lexer::MALFORMED_NUMERAL;
use expr_interp::session::{analyse, command_of, interpret, Command, Session, Step};
use expr_interp::syntax::{SyntaxKind, Tokens};

fn handle(session: &mut Session, line: &str) -> Step {
    session.handle(line.to_string())
}

fn result_of(step: Step) -> Option<Result<EvaluationResult, RuntimeFault>> {
    match step {
        Step::Interpreted(Ok(cycle)) => cycle.result,
        other => panic!("the line was not interpreted: {:?}", other),
    }
}

#[test]
fn commands_are_whole_lines() {
    assert_eq!(command_of(&"#clear".to_string()), Command::Clear);
    assert_eq!(command_of(&"#exit".to_string()), Command::Exit);
    assert_eq!(command_of(&"#show_tree".to_string()), Command::ShowTree);
    assert_eq!(command_of(&"#show_stack".to_string()), Command::ShowStack);
    assert_eq!(command_of(&"#clear ".to_string()), Command::Interpret);
    assert_eq!(command_of(&"#Exit".to_string()), Command::Interpret);
    assert_eq!(command_of(&"exit".to_string()), Command::Interpret);
    assert_eq!(command_of(&"".to_string()), Command::Interpret);
    assert_eq!(command_of(&"1 + 2".to_string()), Command::Interpret);
}

#[test]
fn new_session_is_empty() {
    let session = Session::new();
    assert!(!session.show_tree);
    assert!(!session.show_stack);
    assert!(session.variables.is_empty());
}

#[test]
fn switches_turn_on_and_off() {
    let mut session = Session::new();
    assert_eq!(handle(&mut session, "#show_tree"), Step::Switched);
    assert!(session.show_tree);
    assert!(!session.show_stack);
    assert_eq!(handle(&mut session, "#show_stack"), Step::Switched);
    assert!(session.show_tree);
    assert!(session.show_stack);
    assert_eq!(handle(&mut session, "#show_tree"), Step::Switched);
    assert!(!session.show_tree);
    assert!(session.show_stack);
}

#[test]
fn clear_empties_the_variables_only() {
    let mut session = Session::new();
    handle(&mut session, "#show_stack");
    handle(&mut session, "let x = 1;");
    assert_eq!(session.variables.len(), 1);
    assert_eq!(handle(&mut session, "#clear"), Step::Cleared);
    assert!(session.variables.is_empty());
    assert!(session.show_stack);
}

#[test]
fn exit_changes_nothing() {
    let mut session = Session::new();
    handle(&mut session, "let x = 1;");
    assert_eq!(handle(&mut session, "#exit"), Step::Exit);
    assert_eq!(session.variables, vec![("x".to_string(), Types::Int(1))]);
}

#[test]
fn variables_live_from_line_to_line() {
    let mut session = Session::new();
    assert_eq!(result_of(handle(&mut session, "let x = 5 + 5;")), Some(Ok(EvaluationResult::Null)));
    assert_eq!(result_of(handle(&mut session, "let y = x * 2;")), Some(Ok(EvaluationResult::Null)));
    assert_eq!(result_of(handle(&mut session, "x + y")), Some(Ok(EvaluationResult::Int(30))));
    assert_eq!(
        session.variables,
        vec![("x".to_string(), Types::Int(10)), ("y".to_string(), Types::Int(20))]
    );
}

#[test]
fn input_with_errors_is_not_evaluated() {
    let mut session = Session::new();
    handle(&mut session, "let x = 1;");
    let step = handle(&mut session, "let y = x +;");
    match step {
        Step::Interpreted(Ok(cycle)) => {
            assert!(cycle.result.is_none());
            assert!(cycle.analysis.diagnostics.has_errors());
        }
        other => panic!("the line was not interpreted: {:?}", other),
    }
    assert_eq!(session.variables, vec![("x".to_string(), Types::Int(1))]);
}

#[test]
fn declaration_with_an_error_declares_nothing() {
    let mut variables = Vec::new();
    let cycle = interpret("let x = 1".to_string(), &mut variables).unwrap();
    assert!(cycle.result.is_none());
    assert_eq!(cycle.analysis.diagnostics.errors.len(), 1);
    assert!(variables.is_empty());
}

#[test]
fn unknown_character_keeps_the_evaluator_away() {
    let mut variables = Vec::new();
    let cycle = interpret("1 @".to_string(), &mut variables).unwrap();
    assert!(cycle.result.is_none());
    assert_eq!(cycle.analysis.diagnostics.errors.len(), 2);
    assert_eq!(cycle.analysis.diagnostics.errors[0].position(), 2);
}

#[test]
fn fault_is_no_diagnostic() {
    let mut variables = Vec::new();
    let cycle = interpret("5 / 0".to_string(), &mut variables).unwrap();
    assert!(!cycle.analysis.diagnostics.has_errors());
    assert_eq!(cycle.result, Some(Err(RuntimeFault::DivisionByZero)));
    let cycle = interpret("5.0 / 0.0".to_string(), &mut variables).unwrap();
    assert!(!cycle.analysis.diagnostics.has_errors());
    assert_eq!(cycle.result, Some(Err(RuntimeFault::DivisionByZero)));
}

#[test]
fn fault_keeps_what_was_declared() {
    let mut session = Session::new();
    handle(&mut session, "let x = 2;");
    assert_eq!(
        result_of(handle(&mut session, "x + nowhere")),
        Some(Err(RuntimeFault::UndefinedVariable { name: "nowhere".to_string() }))
    );
    assert_eq!(session.variables, vec![("x".to_string(), Types::Int(2))]);
}

#[test]
fn literal_without_a_value_ends_the_line() {
    let mut session = Session::new();
    handle(&mut session, "let x = 2;");
    match handle(&mut session, "x + 10-3") {
        Step::Interpreted(Err(error)) => {
            assert_eq!(error.message, MALFORMED_NUMERAL);
            assert_eq!(error.descriptor.position(), 4);
        }
        other => panic!("the line was tokenized: {:?}", other),
    }
    assert_eq!(session.variables, vec![("x".to_string(), Types::Int(2))]);
}

#[test]
fn analysis_holds_tokens_tree_and_errors() {
    let analysis = analyse("1 + @".to_string()).unwrap();
    assert_eq!(analysis.tokens.len(), 4);
    assert_eq!(analysis.tree.position(), 0);
    assert_eq!(analysis.diagnostics.input, "1 + @");
    assert_eq!(analysis.diagnostics.errors.len(), 3);
    assert_eq!(
        analysis.tokens[2].syntax(),
        SyntaxKind::Token(Tokens::UnknownToken { value: "@".to_string() })
    );
    let positions: Vec<usize> =
        analysis.diagnostics.errors.iter().map(|error| error.position()).collect();
    assert_eq!(positions, vec![4, 4, 4]);
}

#[test]
fn tokenizer_errors_come_before_parser_errors() {
    let analysis = analyse(") @".to_string()).unwrap();
    let kinds: Vec<bool> = analysis
        .diagnostics
        .errors
        .iter()
        .map(|error| matches!(error, expr_interp::diagnostics::ErrorKind::UnknownToken { .. }))
        .collect();
    assert_eq!(kinds, vec![true, false, false]);
}

#[test]
fn unknown_command_is_a_comment() {
    let mut session = Session::new();
    match handle(&mut session, "#help") {
        Step::Interpreted(Ok(cycle)) => {
            assert!(cycle.result.is_none());
            assert_eq!(
                cycle.analysis.tokens[0].syntax(),
                SyntaxKind::Token(Tokens::CommentToken { value: "#help".to_string() })
            );
        }
        other => panic!("the line was not interpreted: {:?}", other),
    }
}

#[test]
fn strings_and_booleans_through_the_whole_pipeline() {
    let mut session = Session::new();
    assert_eq!(
        result_of(handle(&mut session, "\"ab\" + \"cd\"")),
        Some(Ok(EvaluationResult::String("abcd".to_string())))
    );
    assert_eq!(
        result_of(handle(&mut session, "true && false")),
        Some(Ok(EvaluationResult::Boolean(false)))
    );
    assert_eq!(
        result_of(handle(&mut session, "!true != true")),
        Some(Ok(EvaluationResult::Boolean(true)))
    );
    assert_eq!(result_of(handle(&mut session, "-(2 + 3) * 4")), Some(Ok(EvaluationResult::Int(-20))));
    assert_eq!(result_of(handle(&mut session, "7 % 4 * 2")), Some(Ok(EvaluationResult::Int(6))));
}
