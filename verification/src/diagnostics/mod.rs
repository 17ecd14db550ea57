//! Diagnostics: the errors that tokenizing and parsing report, each tied to a
//! position in the input, and the context that is shown around a position.

pub(crate) mod paint;

use crate::lexer::numeral::{all_digits, decimal_value, digit_value, is_digit};
use crate::syntax::{debug_text, DescriptorView, SyntaxKindDescriptor};
use crate::text::{chars_of, string_of};
use vstd::prelude::*;

verus! {

/// What went wrong, with the nodes concerned and the offset at which it was
/// found.
#[derive(Debug, PartialEq)]
pub enum ErrorKind {
    UnknownToken {
        token: SyntaxKindDescriptor,
        position: usize,
    },
    UnexpectedToken {
        expected: SyntaxKindDescriptor,
        found: SyntaxKindDescriptor,
        position: usize,
    },
    UnexpectedEndOfFile {
        expected: SyntaxKindDescriptor,
        position: usize,
    },
    ExpectedToken {
        expected: SyntaxKindDescriptor,
        found: SyntaxKindDescriptor,
        position: usize,
    },
    ExpectedExpression {
        found: SyntaxKindDescriptor,
        position: usize,
    },
    ExpectedIdentifier {
        found: SyntaxKindDescriptor,
        position: usize,
    },
    ExpectedEquals {
        found: SyntaxKindDescriptor,
        position: usize,
    },
    ExpectedSemicolon {
        found: SyntaxKindDescriptor,
        position: usize,
    },
    ParserError {
        token: SyntaxKindDescriptor,
        position: usize,
    },
    LexerError {
        token: SyntaxKindDescriptor,
        position: usize,
    },
    InvalidCharacterError {
        token: SyntaxKindDescriptor,
        position: usize,
    },
}

/// The view of an [`ErrorKind`].
pub enum ErrorView {
    UnknownToken {
        token: DescriptorView,
        position: usize,
    },
    UnexpectedToken {
        expected: DescriptorView,
        found: DescriptorView,
        position: usize,
    },
    UnexpectedEndOfFile {
        expected: DescriptorView,
        position: usize,
    },
    ExpectedToken {
        expected: DescriptorView,
        found: DescriptorView,
        position: usize,
    },
    ExpectedExpression {
        found: DescriptorView,
        position: usize,
    },
    ExpectedIdentifier {
        found: DescriptorView,
        position: usize,
    },
    ExpectedEquals {
        found: DescriptorView,
        position: usize,
    },
    ExpectedSemicolon {
        found: DescriptorView,
        position: usize,
    },
    ParserError {
        token: DescriptorView,
        position: usize,
    },
    LexerError {
        token: DescriptorView,
        position: usize,
    },
    InvalidCharacterError {
        token: DescriptorView,
        position: usize,
    },
}

impl View for ErrorKind {
    type V = ErrorView;

    open spec fn view(&self) -> ErrorView {
        match self {
            ErrorKind::UnknownToken {
                token,
                position,
            } => ErrorView::UnknownToken { token: token@, position: *position },
            ErrorKind::UnexpectedToken {
                expected,
                found,
                position,
            } => ErrorView::UnexpectedToken {
                expected: expected@,
                found: found@,
                position: *position,
            },
            ErrorKind::UnexpectedEndOfFile {
                expected,
                position,
            } => ErrorView::UnexpectedEndOfFile { expected: expected@, position: *position },
            ErrorKind::ExpectedToken {
                expected,
                found,
                position,
            } => ErrorView::ExpectedToken {
                expected: expected@,
                found: found@,
                position: *position,
            },
            ErrorKind::ExpectedExpression {
                found,
                position,
            } => ErrorView::ExpectedExpression { found: found@, position: *position },
            ErrorKind::ExpectedIdentifier {
                found,
                position,
            } => ErrorView::ExpectedIdentifier { found: found@, position: *position },
            ErrorKind::ExpectedEquals {
                found,
                position,
            } => ErrorView::ExpectedEquals { found: found@, position: *position },
            ErrorKind::ExpectedSemicolon {
                found,
                position,
            } => ErrorView::ExpectedSemicolon { found: found@, position: *position },
            ErrorKind::ParserError {
                token,
                position,
            } => ErrorView::ParserError { token: token@, position: *position },
            ErrorKind::LexerError {
                token,
                position,
            } => ErrorView::LexerError { token: token@, position: *position },
            ErrorKind::InvalidCharacterError {
                token,
                position,
            } => ErrorView::InvalidCharacterError { token: token@, position: *position },
        }
    }
}

impl Clone for ErrorKind {
    fn clone(&self) -> (copy: Self)
        ensures
            copy@ == self@,
    {
        match self {
            ErrorKind::UnknownToken {
                token,
                position,
            } => ErrorKind::UnknownToken { token: token.clone(), position: *position },
            ErrorKind::UnexpectedToken {
                expected,
                found,
                position,
            } => ErrorKind::UnexpectedToken {
                expected: expected.clone(),
                found: found.clone(),
                position: *position,
            },
            ErrorKind::UnexpectedEndOfFile {
                expected,
                position,
            } => ErrorKind::UnexpectedEndOfFile { expected: expected.clone(), position: *position },
            ErrorKind::ExpectedToken {
                expected,
                found,
                position,
            } => ErrorKind::ExpectedToken {
                expected: expected.clone(),
                found: found.clone(),
                position: *position,
            },
            ErrorKind::ExpectedExpression {
                found,
                position,
            } => ErrorKind::ExpectedExpression { found: found.clone(), position: *position },
            ErrorKind::ExpectedIdentifier {
                found,
                position,
            } => ErrorKind::ExpectedIdentifier { found: found.clone(), position: *position },
            ErrorKind::ExpectedEquals {
                found,
                position,
            } => ErrorKind::ExpectedEquals { found: found.clone(), position: *position },
            ErrorKind::ExpectedSemicolon {
                found,
                position,
            } => ErrorKind::ExpectedSemicolon { found: found.clone(), position: *position },
            ErrorKind::ParserError {
                token,
                position,
            } => ErrorKind::ParserError { token: token.clone(), position: *position },
            ErrorKind::LexerError {
                token,
                position,
            } => ErrorKind::LexerError { token: token.clone(), position: *position },
            ErrorKind::InvalidCharacterError {
                token,
                position,
            } => ErrorKind::InvalidCharacterError { token: token.clone(), position: *position },
        }
    }
}

impl ErrorKind {
    /// The offset at which the error was found.
    pub fn position(&self) -> (position: usize)
        ensures
            position == error_position(self@),
    {
        match self {
            ErrorKind::UnknownToken { position, .. } => *position,
            ErrorKind::UnexpectedToken { position, .. } => *position,
            ErrorKind::UnexpectedEndOfFile { position, .. } => *position,
            ErrorKind::ExpectedToken { position, .. } => *position,
            ErrorKind::ExpectedExpression { position, .. } => *position,
            ErrorKind::ExpectedIdentifier { position, .. } => *position,
            ErrorKind::ExpectedEquals { position, .. } => *position,
            ErrorKind::ExpectedSemicolon { position, .. } => *position,
            ErrorKind::ParserError { position, .. } => *position,
            ErrorKind::LexerError { position, .. } => *position,
            ErrorKind::InvalidCharacterError { position, .. } => *position,
        }
    }
}

/// The offset that an error carries.
pub open spec fn error_position(error: ErrorView) -> usize {
    match error {
        ErrorView::UnknownToken { position, .. } => position,
        ErrorView::UnexpectedToken { position, .. } => position,
        ErrorView::UnexpectedEndOfFile { position, .. } => position,
        ErrorView::ExpectedToken { position, .. } => position,
        ErrorView::ExpectedExpression { position, .. } => position,
        ErrorView::ExpectedIdentifier { position, .. } => position,
        ErrorView::ExpectedEquals { position, .. } => position,
        ErrorView::ExpectedSemicolon { position, .. } => position,
        ErrorView::ParserError { position, .. } => position,
        ErrorView::LexerError { position, .. } => position,
        ErrorView::InvalidCharacterError { position, .. } => position,
    }
}

/// What an error is called in a message.
pub open spec fn headline(error: ErrorView) -> Seq<char> {
    match error {
        ErrorView::UnknownToken { .. } => "Unknown token"@,
        ErrorView::UnexpectedToken { .. } => "Unexpected token"@,
        ErrorView::UnexpectedEndOfFile { .. } => "Unexpected end of file"@,
        ErrorView::ExpectedToken { .. } => "Missing token"@,
        ErrorView::ExpectedExpression { .. } => "Missing expression"@,
        ErrorView::ExpectedIdentifier { .. } => "Missing identifier"@,
        ErrorView::ExpectedEquals { .. } => "Missing equals sign"@,
        ErrorView::ExpectedSemicolon { .. } => "Missing semicolon"@,
        ErrorView::ParserError { .. } => "Parser error"@,
        ErrorView::LexerError { .. } => "Lexer error"@,
        ErrorView::InvalidCharacterError { .. } => "Invalid character"@,
    }
}

/// The node that an error expected, where it says so.
pub open spec fn expected_of(error: ErrorView) -> Option<DescriptorView> {
    match error {
        ErrorView::UnexpectedToken { expected, .. } => Some(expected),
        ErrorView::UnexpectedEndOfFile { expected, .. } => Some(expected),
        ErrorView::ExpectedToken { expected, .. } => Some(expected),
        _ => None,
    }
}

impl ErrorKind {
    /// What the error is called in a message.
    pub fn headline(&self) -> (name: &'static str)
        ensures
            name@ == headline(self@),
    {
        match self {
            ErrorKind::UnknownToken { .. } => "Unknown token",
            ErrorKind::UnexpectedToken { .. } => "Unexpected token",
            ErrorKind::UnexpectedEndOfFile { .. } => "Unexpected end of file",
            ErrorKind::ExpectedToken { .. } => "Missing token",
            ErrorKind::ExpectedExpression { .. } => "Missing expression",
            ErrorKind::ExpectedIdentifier { .. } => "Missing identifier",
            ErrorKind::ExpectedEquals { .. } => "Missing equals sign",
            ErrorKind::ExpectedSemicolon { .. } => "Missing semicolon",
            ErrorKind::ParserError { .. } => "Parser error",
            ErrorKind::LexerError { .. } => "Lexer error",
            ErrorKind::InvalidCharacterError { .. } => "Invalid character",
        }
    }

    /// The node that the error expected, where it says so.
    pub fn expected(&self) -> (expected: Option<&SyntaxKindDescriptor>)
        ensures
            match expected {
                Some(node) => expected_of(self@) == Some(node@),
                None => expected_of(self@) is None,
            },
    {
        match self {
            ErrorKind::UnexpectedToken { expected, .. } => Some(expected),
            ErrorKind::UnexpectedEndOfFile { expected, .. } => Some(expected),
            ErrorKind::ExpectedToken { expected, .. } => Some(expected),
            _ => None,
        }
    }
}

/// The errors found so far, in the order in which they were found, together
/// with the input they are about.
#[derive(Debug, PartialEq)]
pub struct Diagnostics {
    pub errors: Vec<ErrorKind>,
    pub input: String,
}

/// The view of a [`Diagnostics`].
pub struct DiagnosticsView {
    pub errors: Seq<ErrorView>,
    pub input: Seq<char>,
}

impl View for Diagnostics {
    type V = DiagnosticsView;

    open spec fn view(&self) -> DiagnosticsView {
        DiagnosticsView {
            errors: Seq::new(self.errors@.len(), |i: int| self.errors@[i]@),
            input: self.input@,
        }
    }
}

impl Clone for Diagnostics {
    fn clone(&self) -> (copy: Self)
        ensures
            copy@ == self@,
    {
        let mut errors: Vec<ErrorKind> = Vec::new();
        let mut index: usize = 0;
        while index < self.errors.len()
            invariant
                index <= self.errors.len(),
                errors.len() == index,
                forall|i: int| 0 <= i < index ==> errors@[i]@ == self.errors@[i]@,
            decreases self.errors.len() - index,
        {
            errors.push(self.errors[index].clone());
            index += 1;
        }
        let copy = Diagnostics { errors, input: self.input.clone() };
        assert(copy@.errors =~= self@.errors);
        copy
    }
}

impl Diagnostics {
    /// No errors yet, about `input`.
    pub fn new(input: String) -> (diagnostics: Self)
        ensures
            diagnostics@.errors == Seq::<ErrorView>::empty(),
            diagnostics@.input == input@,
    {
        let diagnostics = Self { errors: Vec::new(), input };
        assert(diagnostics@.errors =~= Seq::<ErrorView>::empty());
        diagnostics
    }

    /// Records one more error behind those already there.
    pub fn add_error(&mut self, error: ErrorKind)
        ensures
            final(self)@.errors == old(self)@.errors.push(error@),
            final(self)@.input == old(self)@.input,
    {
        self.errors.push(error);
        assert(self@.errors =~= old(self)@.errors.push(error@));
    }

    /// Takes over the errors of `diagnostics`, behind those already there.
    pub fn merge(&mut self, diagnostics: Diagnostics)
        ensures
            final(self)@.errors == old(self)@.errors + diagnostics@.errors,
            final(self)@.input == old(self)@.input,
    {
        let mut other = diagnostics;
        self.errors.append(&mut other.errors);
        assert(self@.errors =~= old(self)@.errors + diagnostics@.errors);
    }

    /// Whether any error was recorded.
    pub fn has_errors(&self) -> (any: bool)
        ensures
            any == (self@.errors.len() > 0),
    {
        self.errors.len() > 0
    }

    /// The input around an offset, in three parts.
    pub fn context(&self, position: usize) -> (context: Context)
        ensures
            context@ == context_of(self@.input, position),
    {
        context_in(self.input.as_str(), position)
    }

    /// The context of every error, in the order of the errors.
    pub fn contexts(&self) -> (contexts: Vec<Context>)
        ensures
            contexts.len() == self@.errors.len(),
            forall|i: int|
                0 <= i < contexts.len() ==> (#[trigger] contexts[i])@ == context_of(
                    self@.input,
                    error_position(self@.errors[i]),
                ),
    {
        let mut contexts: Vec<Context> = Vec::new();
        let mut index: usize = 0;
        while index < self.errors.len()
            invariant
                index <= self.errors.len(),
                contexts.len() == index,
                forall|i: int|
                    0 <= i < contexts.len() ==> (#[trigger] contexts[i])@ == context_of(
                        self@.input,
                        error_position(self@.errors[i]),
                    ),
            decreases self.errors.len() - index,
        {
            contexts.push(self.context(self.errors[index].position()));
            index += 1;
        }
        contexts
    }

    /// The message about one error, painted for the terminal: a red label,
    /// the input around the error in red with the character at the offset
    /// marked, the offset, and in green what was expected.
    pub fn render_error(&self, error: &ErrorKind) -> (line: String)
        ensures
            is_message_about(line@, error@),
    {
        let position = error.position();
        let context = self.context(position);
        let mut shown = context.before;
        shown.append(paint::red_bold(context.marked.as_str()).as_str());
        shown.append(context.after.as_str());
        let label = paint::red_bold(LABEL);
        let shown = paint::red_bold(shown.as_str());
        match error.expected() {
            Some(node) => {
                let expected = paint::green_bold(debug_text(&node.syntax()).as_str());
                let line = message(
                    label.as_str(),
                    error.headline(),
                    shown.as_str(),
                    position,
                    Some(expected.as_str()),
                );
                assert(line@ == message_text(
                    label@,
                    headline(error@),
                    shown@,
                    error_position(error@),
                    Some(expected@),
                ));
                line
            },
            None => {
                let line = message(
                    label.as_str(),
                    error.headline(),
                    shown.as_str(),
                    position,
                    None,
                );
                assert(line@ == message_text(
                    label@,
                    headline(error@),
                    shown@,
                    error_position(error@),
                    None,
                ));
                line
            },
        }
    }

    /// The messages about the errors, in their order, painted for the
    /// terminal.
    pub fn render(&self) -> (lines: Vec<String>)
        ensures
            lines.len() == self@.errors.len(),
            forall|i: int|
                0 <= i < lines.len() ==> is_message_about(#[trigger] lines[i]@, self@.errors[i]),
    {
        let mut lines: Vec<String> = Vec::new();
        let mut index: usize = 0;
        while index < self.errors.len()
            invariant
                index <= self.errors.len(),
                lines.len() == index,
                forall|i: int|
                    0 <= i < lines.len() ==> is_message_about(
                        #[trigger] lines[i]@,
                        self@.errors[i],
                    ),
            decreases self.errors.len() - index,
        {
            lines.push(self.render_error(&self.errors[index]));
            index += 1;
        }
        lines
    }
}

/// How many characters of the input are shown on either side of an offset.
pub const CONTEXT_WIDTH: usize = 10;

/// A cut of the input around an offset: the characters before the offset,
/// the character at the offset, and the characters behind it.
#[derive(Debug, PartialEq)]
pub struct Context {
    pub before: String,
    pub marked: String,
    pub after: String,
}

/// The view of a [`Context`].
pub struct ContextView {
    pub before: Seq<char>,
    pub marked: Seq<char>,
    pub after: Seq<char>,
}

impl View for Context {
    type V = ContextView;

    open spec fn view(&self) -> ContextView {
        ContextView { before: self.before@, marked: self.marked@, after: self.after@ }
    }
}

/// The smaller of two numbers.
pub open spec fn lower(a: int, b: int) -> int {
    if a <= b {
        a
    } else {
        b
    }
}

/// Where the context of an offset starts: ten characters before the offset,
/// or at the start of a text that has fewer before it.
pub open spec fn context_start(length: int, position: int) -> int {
    if position > CONTEXT_WIDTH {
        lower(position - CONTEXT_WIDTH, length)
    } else {
        0
    }
}

/// Where the context of an offset ends: ten characters behind the offset, or
/// at the end of a text that has fewer behind it.
pub open spec fn context_end(length: int, position: int) -> int {
    lower(position + CONTEXT_WIDTH, length)
}

/// The context of an offset in a text. Behind the text's end there is
/// nothing to show.
pub open spec fn context_of(text: Seq<char>, position: usize) -> ContextView {
    let length = text.len() as int;
    let at = lower(position as int, length);
    let marked_end = lower(position + 1, length);
    ContextView {
        before: text.subrange(context_start(length, position as int), at),
        marked: text.subrange(at, marked_end),
        after: text.subrange(marked_end, context_end(length, position as int)),
    }
}

/// The three parts of a context are the input from ten characters before the
/// offset to ten characters behind it, and the marked part is the character
/// at the offset.
pub proof fn lemma_context_is_a_cut(text: Seq<char>, position: usize)
    ensures
        ({
            let context = context_of(text, position);
            let length = text.len() as int;
            &&& context.before + context.marked + context.after == text.subrange(
                context_start(length, position as int),
                context_end(length, position as int),
            )
            &&& context.before.len() <= CONTEXT_WIDTH
            &&& context.marked.len() + context.after.len() <= CONTEXT_WIDTH
            &&& position < text.len() ==> context.marked == seq![text[position as int]]
        }),
{
    let context = context_of(text, position);
    let length = text.len() as int;
    assert(context.before + context.marked + context.after =~= text.subrange(
        context_start(length, position as int),
        context_end(length, position as int),
    ));
    if position < text.len() {
        assert(context.marked =~= seq![text[position as int]]);
    }
}

/// The character of a digit.
pub open spec fn digit_char(digit: int) -> char
    recommends
        0 <= digit <= 9,
{
    ('0' as int + digit) as char
}

/// A number in decimal digits, without leading zeros.
pub open spec fn decimal_digits(number: nat) -> Seq<char>
    decreases number,
{
    if number < 10 {
        seq![digit_char(number as int)]
    } else {
        decimal_digits(number / 10).push(digit_char((number % 10) as int))
    }
}

/// The digits of a number are digits, and they denote the number.
pub proof fn lemma_decimal_digits_denote(number: nat)
    ensures
        decimal_digits(number).len() > 0,
        all_digits(decimal_digits(number)),
        decimal_value(decimal_digits(number)) == number,
    decreases number,
{
    let digits = decimal_digits(number);
    let last = (number % 10) as int;
    assert(digit_char(last) as int == '0' as int + last);
    assert(digits.last() == digit_char(last));
    assert(digit_value(digits.last()) == last);
    if number >= 10 {
        lemma_decimal_digits_denote(number / 10);
        let front = decimal_digits(number / 10);
        assert(digits.drop_last() =~= front);
        assert forall|i: int| 0 <= i < digits.len() implies is_digit(#[trigger] digits[i]) by {
            if i < front.len() {
                assert(digits[i] == front[i]);
            }
        }
        assert(decimal_value(digits) == decimal_value(front) * 10 + last);
    } else {
        assert(digits.drop_last() =~= Seq::<char>::empty());
        assert(decimal_value(digits.drop_last()) == 0);
        assert(decimal_value(digits) == 0 * 10 + last);
    }
}

/// A number in decimal digits.
pub fn decimal_text(number: usize) -> (text: String)
    ensures
        text@ == decimal_digits(number as nat),
    decreases number,
{
    let mut text = if number < 10 {
        String::new()
    } else {
        decimal_text(number / 10)
    };
    let digit = (number % 10) as u8;
    text.push((48u8 + digit) as char);
    proof {
        assert('0' as int == 48);
        if number < 10 {
            assert(text@ =~= seq![digit_char(number as int)]);
        }
    }
    text
}

/// What is said of an error: the label, what the error is called, the
/// context in which it was found, the offset and, where the error names it,
/// what was expected.
pub open spec fn message_text(
    label: Seq<char>,
    headline: Seq<char>,
    context: Seq<char>,
    position: usize,
    expected: Option<Seq<char>>,
) -> Seq<char> {
    let found = label + ": "@ + headline + " "@ + context + " found at position "@
        + decimal_digits(position as nat) + "."@;
    match expected {
        Some(node) => found + " Expected "@ + node + "."@,
        None => found,
    }
}

/// The message about an error. The label, the context and what was expected
/// come as they are to be shown.
pub fn message(
    label: &str,
    headline: &str,
    context: &str,
    position: usize,
    expected: Option<&str>,
) -> (message: String)
    ensures
        message@ == message_text(
            label@,
            headline@,
            context@,
            position,
            match expected {
                Some(node) => Some(node@),
                None => None,
            },
        ),
{
    let mut message = String::from_str(label);
    message.append(": ");
    message.append(headline);
    message.append(" ");
    message.append(context);
    message.append(" found at position ");
    message.append(decimal_text(position).as_str());
    message.append(".");
    match expected {
        Some(node) => {
            message.append(" Expected ");
            message.append(node);
            message.append(".");
        },
        None => {},
    }
    message
}

/// Whether a line is the message about an error, in whatever colours: the
/// error's name and offset stand in it as they are, and it names what was
/// expected exactly where the error does.
pub open spec fn is_message_about(line: Seq<char>, error: ErrorView) -> bool {
    exists|label: Seq<char>, context: Seq<char>, expected: Option<Seq<char>>|
        {
            &&& expected is Some <==> expected_of(error) is Some
            &&& line == #[trigger] message_text(
                label,
                headline(error),
                context,
                error_position(error),
                expected,
            )
        }
}

/// The label in front of every message.
pub const LABEL: &'static str = "Error";

/// The context of an offset in a text.
pub fn context_in(text: &str, position: usize) -> (context: Context)
    ensures
        context@ == context_of(text@, position),
{
    let chars = chars_of(text);
    let length = chars.len();
    let at = if position < length {
        position
    } else {
        length
    };
    let start = if position > CONTEXT_WIDTH {
        if position - CONTEXT_WIDTH < length {
            position - CONTEXT_WIDTH
        } else {
            length
        }
    } else {
        0
    };
    let marked_end = if position < length {
        position + 1
    } else {
        length
    };
    let end = if position < length && length - position > CONTEXT_WIDTH {
        position + CONTEXT_WIDTH
    } else {
        length
    };
    Context {
        before: string_of(&chars, start, at),
        marked: string_of(&chars, at, marked_end),
        after: string_of(&chars, marked_end, end),
    }
}

} // verus!
