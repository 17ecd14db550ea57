//! A session: the variables that live from one input to the next, the two
//! display switches, and what one line of input comes to.
//!
//! A line is a command of the session or a text to interpret. A text is
//! tokenized and parsed; only a text without errors is evaluated.

use crate::diagnostics::{Diagnostics, ErrorView};
use crate::evaluator::{
    environment_view, evaluate, evaluate_spec, returned, Environment, EvaluationResult, FaultView,
    ResultView, RuntimeFault, Types,
};
use crate::lexer::numeral::{digits_end, float_shape, int_literal, is_digit};
use crate::lexer::source_text::SourceText;
use crate::lexer::{
    in_class, lemma_token_count, lex_from, numeral_value, run_end, scan_token, token_at, CharClass,
    LexRun, Lexer, LexerError, LexerErrorView,
};
use crate::parser::{
    parse_binary_tail, parse_expression_spec, parse_primary_spec, parse_spec, Parser,
};
use crate::syntax::{DescriptorView, LiteralView, SyntaxKindDescriptor, TokenView};
use vstd::prelude::*;

verus! {

/// The longest text that can be interpreted: its tokens and two cursor
/// positions behind them must fit the machine's integers.
pub const MAX_INPUT: usize = usize::MAX - 4;

/// What tokenizing and parsing make of a text.
#[derive(Debug, PartialEq)]
pub struct Analysis {
    pub tokens: Vec<SyntaxKindDescriptor>,
    pub tree: SyntaxKindDescriptor,
    pub diagnostics: Diagnostics,
}

/// The view of an [`Analysis`].
pub struct AnalysisView {
    pub tokens: Seq<DescriptorView>,
    pub tree: DescriptorView,
    pub errors: Seq<ErrorView>,
    pub input: Seq<char>,
}

impl View for Analysis {
    type V = AnalysisView;

    open spec fn view(&self) -> AnalysisView {
        AnalysisView {
            tokens: Seq::new(self.tokens@.len(), |i: int| self.tokens@[i]@),
            tree: self.tree@,
            errors: self.diagnostics@.errors,
            input: self.diagnostics@.input,
        }
    }
}

/// What interpreting a text comes to: its analysis and, where the text has no
/// errors, the result of evaluating its tree.
#[derive(Debug, PartialEq)]
pub struct Cycle {
    pub analysis: Analysis,
    pub result: Option<Result<EvaluationResult, RuntimeFault>>,
}

/// The view of a [`Cycle`].
pub struct CycleView {
    pub analysis: AnalysisView,
    pub result: Option<Result<ResultView, FaultView>>,
}

impl View for Cycle {
    type V = CycleView;

    open spec fn view(&self) -> CycleView {
        CycleView {
            analysis: self.analysis@,
            result: match self.result {
                Some(result) => Some(returned(result)),
                None => None,
            },
        }
    }
}

/// The analysis of a text: its tokens from the first character on, the tree
/// that they parse to, and the errors of the tokenizer followed by those of
/// the parser. Tokenizing may fail, and nothing is parsed then.
pub open spec fn analyse_spec(text: Seq<char>) -> Result<AnalysisView, LexerErrorView> {
    let run = lex_from(text, 0);
    match run.fault {
        Some(fault) => Err(fault),
        None => {
            let parsed = parse_spec(run.tokens, 0);
            Ok(
                AnalysisView {
                    tokens: run.tokens,
                    tree: parsed.node,
                    errors: run.errors + parsed.errors,
                    input: text,
                },
            )
        },
    }
}

/// What interpreting a text comes to, and the variables behind it. A text
/// with errors is not evaluated and leaves the variables as they are.
pub open spec fn interpret_spec(text: Seq<char>, variables: Environment) -> Result<
    (CycleView, Environment),
    LexerErrorView,
> {
    match analyse_spec(text) {
        Err(fault) => Err(fault),
        Ok(analysis) => if analysis.errors.len() > 0 {
            Ok((CycleView { analysis, result: None }, variables))
        } else {
            let outcome = evaluate_spec(analysis.tree.syntax, variables);
            Ok((CycleView { analysis, result: Some(outcome.result) }, outcome.variables))
        },
    }
}

/// A copy of the tokens.
fn copy_tokens(tokens: &Vec<SyntaxKindDescriptor>) -> (copy: Vec<SyntaxKindDescriptor>)
    ensures
        copy.len() == tokens.len(),
        forall|i: int| 0 <= i < copy.len() ==> (#[trigger] copy[i])@ == tokens[i]@,
{
    let mut copy: Vec<SyntaxKindDescriptor> = Vec::new();
    let mut index: usize = 0;
    while index < tokens.len()
        invariant
            index <= tokens.len(),
            copy.len() == index,
            forall|i: int| 0 <= i < copy.len() ==> (#[trigger] copy[i])@ == tokens[i]@,
        decreases tokens.len() - index,
    {
        copy.push(tokens[index].clone());
        index += 1;
    }
    copy
}

/// Tokenizes and parses a text.
pub fn analyse(input: String) -> (result: Result<Analysis, LexerError>)
    requires
        input@.len() <= MAX_INPUT,
    ensures
        match analyse_spec(input@) {
            Ok(analysis) => result matches Ok(found) && found@ == analysis,
            Err(fault) => result matches Err(error) && error@ == fault,
        },
{
    let source = SourceText::new(input.clone());
    let mut lexer = Lexer::new(source);
    let tokens = lexer.lex()?;
    proof {
        lemma_token_count(input@, 0);
    }
    let mut diagnostics = lexer.diagnostics();
    let copy = copy_tokens(&tokens);
    let ghost copied = copy@;
    let mut parser = Parser::new(copy, input);
    let ghost parsed_tokens = parser.tokens();
    let tree = parser.parse();
    diagnostics.merge(parser.diagnostics());
    let analysis = Analysis { tokens, tree, diagnostics };
    proof {
        let run = lex_from(input@, 0);
        assert forall|i: int| 0 <= i < parsed_tokens.len() implies parsed_tokens[i]
            == run.tokens[i] by {
            assert(copied[i]@ == tokens[i]@);
        }
        assert(parsed_tokens =~= run.tokens);
        assert(analysis@.tokens =~= run.tokens);
        assert(Seq::<ErrorView>::empty() + run.errors =~= run.errors);
        assert(Seq::<ErrorView>::empty() + parse_spec(run.tokens, 0).errors =~= parse_spec(
            run.tokens,
            0,
        ).errors);
    }
    Ok(analysis)
}

/// Interprets a text against the variables: analyses it and, if it has no
/// errors, evaluates its tree.
pub fn interpret(input: String, variables: &mut Vec<(String, Types)>) -> (result: Result<
    Cycle,
    LexerError,
>)
    requires
        input@.len() <= MAX_INPUT,
    ensures
        match interpret_spec(input@, environment_view(old(variables)@)) {
            Ok((cycle, after)) => {
                &&& result matches Ok(found)
                &&& found@ == cycle
                &&& environment_view(final(variables)@) == after
            },
            Err(fault) => {
                &&& result matches Err(error)
                &&& error@ == fault
                &&& final(variables)@ == old(variables)@
            },
        },
{
    let analysis = analyse(input)?;
    if analysis.diagnostics.has_errors() {
        return Ok(Cycle { analysis, result: None });
    }
    let result = evaluate(analysis.tree.syntax(), variables);
    Ok(Cycle { analysis, result: Some(result) })
}

/// The line that empties the variables.
pub const CLEAR: &'static str = "#clear";

/// The line that ends the session.
pub const EXIT: &'static str = "#exit";

/// The line that switches the display of tokens and tree.
pub const SHOW_TREE: &'static str = "#show_tree";

/// The line that switches the display of the variables.
pub const SHOW_STACK: &'static str = "#show_stack";

/// What a line asks of the session.
#[derive(Clone, Copy, Debug, PartialEq, Eq, Structural)]
pub enum Command {
    Clear,
    Exit,
    ShowTree,
    ShowStack,
    Interpret,
}

/// What a line asks for: one of the four commands where it is exactly that
/// word, and to be interpreted otherwise.
pub open spec fn command_spec(line: Seq<char>) -> Command {
    if line == CLEAR@ {
        Command::Clear
    } else if line == EXIT@ {
        Command::Exit
    } else if line == SHOW_TREE@ {
        Command::ShowTree
    } else if line == SHOW_STACK@ {
        Command::ShowStack
    } else {
        Command::Interpret
    }
}

/// Whether a line is the given word.
fn is_line(line: &String, word: &'static str) -> (same: bool)
    ensures
        same == (line@ == word@),
{
    let other = String::from_str(word);
    *line == other
}

/// What a line asks for.
pub fn command_of(line: &String) -> (command: Command)
    ensures
        command == command_spec(line@),
{
    if is_line(line, CLEAR) {
        Command::Clear
    } else if is_line(line, EXIT) {
        Command::Exit
    } else if is_line(line, SHOW_TREE) {
        Command::ShowTree
    } else if is_line(line, SHOW_STACK) {
        Command::ShowStack
    } else {
        Command::Interpret
    }
}

/// The state that lasts from one line to the next.
#[derive(Debug, PartialEq)]
pub struct Session {
    pub show_tree: bool,
    pub show_stack: bool,
    pub variables: Vec<(String, Types)>,
}

/// What the session did with a line, for the caller to act on.
#[derive(Debug, PartialEq)]
pub enum Step {
    /// The variables were emptied; the screen is to be cleared.
    Cleared,
    /// The session is over.
    Exit,
    /// A display switch was turned.
    Switched,
    /// The line was interpreted.
    Interpreted(Result<Cycle, LexerError>),
}

impl Session {
    /// A session with no variables and both displays off.
    pub fn new() -> (session: Self)
        ensures
            !session.show_tree,
            !session.show_stack,
            session.variables@ == Seq::<(String, Types)>::empty(),
    {
        Session { show_tree: false, show_stack: false, variables: Vec::new() }
    }

    /// Takes one line, with the blanks at its ends already removed.
    ///
    /// `#clear` empties the variables, `#exit` changes nothing, `#show_tree`
    /// and `#show_stack` turn their switch. Every other line is interpreted
    /// against the variables, and the switches stay.
    pub fn handle(&mut self, line: String) -> (step: Step)
        requires
            line@.len() <= MAX_INPUT,
        ensures
            match command_spec(line@) {
                Command::Clear => {
                    &&& step is Cleared
                    &&& final(self).variables@ == Seq::<(String, Types)>::empty()
                    &&& final(self).show_tree == old(self).show_tree
                    &&& final(self).show_stack == old(self).show_stack
                },
                Command::Exit => step is Exit && *final(self) == *old(self),
                Command::ShowTree => {
                    &&& step is Switched
                    &&& final(self).show_tree == !old(self).show_tree
                    &&& final(self).show_stack == old(self).show_stack
                    &&& final(self).variables == old(self).variables
                },
                Command::ShowStack => {
                    &&& step is Switched
                    &&& final(self).show_stack == !old(self).show_stack
                    &&& final(self).show_tree == old(self).show_tree
                    &&& final(self).variables == old(self).variables
                },
                Command::Interpret => {
                    &&& final(self).show_tree == old(self).show_tree
                    &&& final(self).show_stack == old(self).show_stack
                    &&& step matches Step::Interpreted(result)
                    &&& match interpret_spec(line@, environment_view(old(self).variables@)) {
                        Ok((cycle, after)) => {
                            &&& result matches Ok(found)
                            &&& found@ == cycle
                            &&& environment_view(final(self).variables@) == after
                        },
                        Err(fault) => {
                            &&& result matches Err(error)
                            &&& error@ == fault
                            &&& final(self).variables@ == old(self).variables@
                        },
                    }
                },
            },
    {
        match command_of(&line) {
            Command::Clear => {
                self.variables.clear();
                Step::Cleared
            },
            Command::Exit => Step::Exit,
            Command::ShowTree => {
                self.show_tree = !self.show_tree;
                Step::Switched
            },
            Command::ShowStack => {
                self.show_stack = !self.show_stack;
                Step::Switched
            },
            Command::Interpret => Step::Interpreted(interpret(line, &mut self.variables)),
        }
    }
}

/// A text with errors is not evaluated: there is a result exactly where
/// nothing was reported, and without one the variables are as they were.
pub proof fn lemma_errors_keep_the_evaluator_away(text: Seq<char>, variables: Environment)
    ensures
        interpret_spec(text, variables) matches Ok((cycle, after)) ==> {
            &&& cycle.result is None <==> cycle.analysis.errors.len() > 0
            &&& cycle.result is None ==> after == variables
            &&& cycle.result matches Some(result) ==> {
                let outcome = evaluate_spec(cycle.analysis.tree.syntax, variables);
                result == outcome.result && after == outcome.variables
            }
        },
{
}

/// Whether a literal is a number.
pub open spec fn is_number(literal: LiteralView) -> bool {
    literal is Int || literal is Float
}

/// The result that a number stands for.
pub open spec fn number_result(literal: LiteralView) -> ResultView {
    match literal {
        LiteralView::Float { bits } => ResultView::Float(bits),
        LiteralView::Int { value } => ResultView::Int(value),
        _ => ResultView::Null,
    }
}

/// A run of characters of one class that reaches the text's end ends there.
proof fn lemma_run_reaches_end(text: Seq<char>, class: CharClass, from: int)
    requires
        0 <= from <= text.len(),
        forall|i: int| from <= i < text.len() ==> in_class(class, #[trigger] text[i]),
    ensures
        run_end(text, class, from) == text.len(),
    decreases text.len() - from,
{
    if from < text.len() {
        lemma_run_reaches_end(text, class, from + 1);
    }
}

/// The digits that start at `from` are digits, and they end inside the text
/// or at its end.
proof fn lemma_digits_end(text: Seq<char>, from: int)
    requires
        0 <= from <= text.len(),
    ensures
        from <= digits_end(text, from) <= text.len(),
        forall|i: int| from <= i < digits_end(text, from) ==> is_digit(#[trigger] text[i]),
    decreases text.len() - from,
{
    if from < text.len() && is_digit(text[from]) {
        lemma_digits_end(text, from + 1);
    }
}

/// A text that is a numeral is made of the characters that a numeral runs
/// over, and starts with a digit.
proof fn lemma_numeral_characters(text: Seq<char>)
    requires
        if text.contains('.') {
            float_shape(text)
        } else {
            int_literal(text) is Some
        },
    ensures
        text.len() > 0,
        is_digit(text[0]),
        forall|i: int| 0 <= i < text.len() ==> in_class(CharClass::Numeral, #[trigger] text[i]),
{
    if text.contains('.') {
        let point = digits_end(text, 0);
        lemma_digits_end(text, 0);
        lemma_digits_end(text, point + 1);
        let fraction_end = digits_end(text, point + 1);
        if fraction_end < text.len() {
            let exponent = if fraction_end + 1 < text.len() && (text[fraction_end + 1] == '+'
                || text[fraction_end + 1] == '-') {
                fraction_end + 2
            } else {
                fraction_end + 1
            };
            lemma_digits_end(text, exponent);
        }
    }
}

/// A text that is nothing but a number is tokenized to that number and the
/// end-of-file token, without errors.
pub proof fn lemma_number_is_one_token(text: Seq<char>)
    requires
        text.len() < usize::MAX,
        numeral_value(text) is Some,
    ensures
        lex_from(text, 0) == (LexRun {
            tokens: seq![
                token_at(0, TokenView::LiteralToken { value: numeral_value(text)->Some_0 }),
                token_at(text.len() as int, TokenView::EndOfFileToken),
            ],
            errors: Seq::empty(),
            position: text.len() as int,
            fault: None,
        }),
{
    lemma_numeral_characters(text);
    lemma_run_reaches_end(text, CharClass::Numeral, 0);
    assert(text.subrange(0, text.len() as int) =~= text);
    let first = scan_token(text, 0);
    let last = scan_token(text, text.len() as int);
    reveal_with_fuel(lex_from, 3);
    let run = lex_from(text, 0);
    assert(run.tokens =~= seq![
        token_at(0, TokenView::LiteralToken { value: numeral_value(text)->Some_0 }),
        token_at(text.len() as int, TokenView::EndOfFileToken),
    ]);
    assert(run.errors =~= Seq::<ErrorView>::empty());
}

/// A text that is nothing but a number is worth that number: tokenizing,
/// parsing and evaluating it reports no error, gives the integer that its
/// digits denote or the floating-point number that the literal denotes, and
/// leaves the variables as they are.
pub proof fn lemma_number_evaluates_to_itself(text: Seq<char>, variables: Environment)
    requires
        text.len() < usize::MAX,
        numeral_value(text) is Some,
    ensures
        is_number(numeral_value(text)->Some_0),
        interpret_spec(text, variables) matches Ok((cycle, after)) && {
            &&& cycle.analysis.errors.len() == 0
            &&& cycle.result == Some(
                Ok::<ResultView, FaultView>(number_result(numeral_value(text)->Some_0)),
            )
            &&& after == variables
        },
{
    lemma_number_is_one_token(text);
    let literal = TokenView::LiteralToken { value: numeral_value(text)->Some_0 };
    let tokens = lex_from(text, 0).tokens;
    let primary = parse_primary_spec(tokens, 0);
    let tail = parse_binary_tail(tokens, 1, primary.node, tokens[0].position, 0);
    let root = parse_expression_spec(tokens, 0, 0);
    assert(primary.consumed == 1);
    assert(tail.consumed == 0);
    assert(root.node == primary.node);
    let parsed = parse_spec(tokens, 0);
    assert(parsed.errors =~= Seq::<ErrorView>::empty());
    assert(Seq::<ErrorView>::empty() + parsed.errors =~= Seq::<ErrorView>::empty());
}

} // verus!
