//! The tokenizer: one pass over the source text, from left to right, that
//! cuts it into position-tagged tokens.
//!
//! [`scan_token`] says which token starts at an offset and [`lex_from`] which
//! tokens a whole pass gives; [`Lexer::lex`] computes exactly those.

pub mod numeral;
pub mod source_text;

use crate::diagnostics::{Diagnostics, ErrorKind, ErrorView};
use crate::float::{float_from_literal, float_literal_value};
use crate::lexer::numeral::{
    float_shape, has_float_shape, int_literal, is_ascii_digit, is_digit, parse_int,
};
use crate::lexer::source_text::{char_or_nul, SourceText};
use crate::syntax::{
    DescriptorView, Keywords, LiteralToken, LiteralView, SyntaxKind, SyntaxKindDescriptor,
    SyntaxView, TokenView, Tokens,
};
use crate::text::{is_alphanumeric_char, is_numeric_char, string_of};
use vstd::prelude::*;

verus! {

/// Why tokenizing stopped: a literal that has no value.
#[derive(Debug, PartialEq)]
pub struct LexerError {
    pub descriptor: SyntaxKindDescriptor,
    pub message: String,
}

/// The view of a [`LexerError`].
pub struct LexerErrorView {
    pub descriptor: DescriptorView,
    pub message: Seq<char>,
}

impl View for LexerError {
    type V = LexerErrorView;

    open spec fn view(&self) -> LexerErrorView {
        LexerErrorView { descriptor: self.descriptor@, message: self.message@ }
    }
}

impl Clone for LexerError {
    fn clone(&self) -> (copy: Self)
        ensures
            copy@ == self@,
    {
        LexerError { descriptor: self.descriptor.clone(), message: self.message.clone() }
    }
}

/// The tokenizer's state: the text, the cursor and the errors found so far.
pub struct Lexer {
    input: SourceText,
    position: usize,
    diagnostics: Diagnostics,
}

/// The classes of characters that a token is a run of.
#[derive(Clone, Copy, Debug, PartialEq, Eq, Structural)]
pub enum CharClass {
    /// Spaces, line feeds and tabs.
    Blank,
    /// What a numeral is made of: numeric characters, `.`, `e`, `-` and `+`.
    Numeral,
    /// What a word is made of: alphanumeric characters and `_`.
    Word,
    /// What a comment goes on with: all but the line feed and the NUL
    /// character.
    Comment,
    /// What a string literal goes on with: all but the double quote.
    StringBody,
}

/// Whether a character is an ASCII letter.
pub open spec fn is_letter(c: char) -> bool {
    'a' <= c <= 'z' || 'A' <= c <= 'Z'
}

/// Whether a character belongs to a class, given whether it is numeric and
/// whether it is alphanumeric.
///
/// The ASCII digits and letters are numeric and alphanumeric characters. They
/// are named on their own, so that what starts a numeral or a word is known
/// to go on with it whatever the Unicode tables hold.
pub open spec fn in_class_given(
    class: CharClass,
    c: char,
    numeric: bool,
    alphanumeric: bool,
) -> bool {
    match class {
        CharClass::Blank => c == ' ' || c == '\n' || c == '\t',
        CharClass::Numeral => is_digit(c) || numeric || c == '.' || c == 'e' || c == '-' || c
            == '+',
        CharClass::Word => is_letter(c) || is_digit(c) || alphanumeric || c == '_',
        CharClass::Comment => c != '\n' && c != '\0',
        CharClass::StringBody => c != '"',
    }
}

/// Whether a character belongs to a class.
pub open spec fn in_class(class: CharClass, c: char) -> bool {
    in_class_given(class, c, is_numeric_char(c), is_alphanumeric_char(c))
}

/// Where the longest run of characters of one class ends that starts at
/// `from`: the offset of the first character not in the class, or the text's
/// length.
pub open spec fn run_end(text: Seq<char>, class: CharClass, from: int) -> int
    decreases text.len() - from,
{
    if 0 <= from < text.len() && in_class(class, text[from]) {
        run_end(text, class, from + 1)
    } else {
        from
    }
}

/// The punctuation that starts with `c`, and how many characters it takes.
/// `following` is the character behind `c`; it tells `!=`, `==`, `&&` and `||`
/// from their one-character beginnings.
pub open spec fn punctuation(c: char, following: char) -> Option<(TokenView, int)> {
    if c == '+' {
        Some((TokenView::PlusToken, 1))
    } else if c == '-' {
        Some((TokenView::MinusToken, 1))
    } else if c == '*' {
        Some((TokenView::StarToken, 1))
    } else if c == '/' {
        Some((TokenView::SlashToken, 1))
    } else if c == '%' {
        Some((TokenView::PercentToken, 1))
    } else if c == '(' {
        Some((TokenView::OpenParenthesisToken, 1))
    } else if c == ')' {
        Some((TokenView::CloseParenthesisToken, 1))
    } else if c == ';' {
        Some((TokenView::SemiColonToken, 1))
    } else if c == ':' {
        Some((TokenView::ColonToken, 1))
    } else if c == '{' {
        Some((TokenView::OpenBraceToken, 1))
    } else if c == '}' {
        Some((TokenView::CloseBraceToken, 1))
    } else if c == '[' {
        Some((TokenView::OpenBracketToken, 1))
    } else if c == ']' {
        Some((TokenView::CloseBracketToken, 1))
    } else if c == '!' {
        if following == '=' {
            Some((TokenView::BangEqualsToken, 2))
        } else {
            Some((TokenView::BangToken, 1))
        }
    } else if c == '=' {
        if following == '=' {
            Some((TokenView::EqualsEqualsToken, 2))
        } else {
            Some((TokenView::EqualsToken, 1))
        }
    } else if c == '&' {
        if following == '&' {
            Some((TokenView::AmpersandAmpersandToken, 2))
        } else {
            Some((TokenView::AmpersandToken, 1))
        }
    } else if c == '|' {
        if following == '|' {
            Some((TokenView::PipePipeToken, 2))
        } else {
            Some((TokenView::PipeToken, 1))
        }
    } else {
        None
    }
}

/// What a word is: one of the eight keywords, a boolean literal, or else an
/// identifier.
pub open spec fn classify_word(word: Seq<char>) -> SyntaxView {
    if word == "let"@ {
        SyntaxView::Keyword(Keywords::LetKeyword)
    } else if word == "if"@ {
        SyntaxView::Keyword(Keywords::IfKeyword)
    } else if word == "else"@ {
        SyntaxView::Keyword(Keywords::ElseKeyword)
    } else if word == "for"@ {
        SyntaxView::Keyword(Keywords::ForKeyword)
    } else if word == "loop"@ {
        SyntaxView::Keyword(Keywords::LoopKeyword)
    } else if word == "break"@ {
        SyntaxView::Keyword(Keywords::BreakKeyword)
    } else if word == "continue"@ {
        SyntaxView::Keyword(Keywords::ContinueKeyword)
    } else if word == "match"@ {
        SyntaxView::Keyword(Keywords::MatchKeyword)
    } else if word == "true"@ {
        SyntaxView::Token(TokenView::LiteralToken { value: LiteralView::Bool { value: true } })
    } else if word == "false"@ {
        SyntaxView::Token(TokenView::LiteralToken { value: LiteralView::Bool { value: false } })
    } else {
        SyntaxView::Token(TokenView::IdentifierToken { value: word })
    }
}

/// The literal that a numeral denotes, given the value that its text has as
/// a floating-point literal. A run with a point in it is a floating-point
/// literal and must have the shape of one; a run without is an integer
/// literal. `None` where the run has no value.
pub open spec fn numeral_given(run: Seq<char>, float: Option<u64>) -> Option<LiteralView> {
    if run.contains('.') {
        if float_shape(run) {
            match float {
                Some(bits) => Some(LiteralView::Float { bits }),
                None => None,
            }
        } else {
            None
        }
    } else {
        match int_literal(run) {
            Some(value) => Some(LiteralView::Int { value }),
            None => None,
        }
    }
}

/// The literal that a numeral denotes.
pub open spec fn numeral_value(run: Seq<char>) -> Option<LiteralView> {
    numeral_given(run, float_literal_value(run))
}

/// One step of the tokenizer: the token, the offset behind it, and the errors
/// reported on the way.
pub struct Scanned {
    pub token: DescriptorView,
    pub next: int,
    pub errors: Seq<ErrorView>,
}

/// A token at an offset.
pub open spec fn token_at(position: int, token: TokenView) -> DescriptorView {
    DescriptorView { position: position as usize, syntax: SyntaxView::Token(token) }
}

/// A step that reports nothing.
pub open spec fn plain(start: int, token: TokenView, next: int) -> Result<Scanned, LexerErrorView> {
    Ok(Scanned { token: token_at(start, token), next, errors: Seq::empty() })
}

/// The failure on a literal without a value: it names the literal's text.
pub open spec fn literal_fault(
    start: int,
    literal: Seq<char>,
    message: Seq<char>,
) -> LexerErrorView {
    LexerErrorView { descriptor: token_at(start, TokenView::BadToken { value: literal }), message }
}

/// The token that starts at `start`.
///
/// - At the NUL character, and behind the text's end, the end-of-file token,
///   which takes no character.
/// - A run of blanks is one whitespace token.
/// - `#` starts a comment, which runs to the end of the line.
/// - Punctuation takes one or two characters.
/// - `'` starts a character literal: the character behind it, and then the
///   closing quote. Where that quote is missing an error is reported, nothing
///   more is taken, and the literal stands.
/// - `"` starts a string literal, which runs to the next `"`. Without one,
///   tokenizing fails.
/// - A digit starts a numeral. Where the run has no value, tokenizing fails.
/// - A letter or `_` starts a word.
/// - Any other character is an unknown token, and an error is reported.
pub open spec fn scan_token(text: Seq<char>, start: int) -> Result<Scanned, LexerErrorView> {
    let c = char_or_nul(text, start);
    let following = char_or_nul(text, start + 1);
    if c == '\0' {
        plain(start, TokenView::EndOfFileToken, start)
    } else if in_class(CharClass::Blank, c) {
        plain(start, TokenView::WhiteSpaceToken, run_end(text, CharClass::Blank, start))
    } else if c == '#' {
        let end = run_end(text, CharClass::Comment, start);
        plain(start, TokenView::CommentToken { value: text.subrange(start, end) }, end)
    } else if punctuation(c, following) is Some {
        let (token, width) = punctuation(c, following)->Some_0;
        plain(start, token, start + width)
    } else if c == '\'' {
        let literal = TokenView::LiteralToken { value: LiteralView::Char { value: following } };
        if char_or_nul(text, start + 2) == '\'' {
            plain(start, literal, start + 3)
        } else {
            Ok(
                Scanned {
                    token: token_at(start, literal),
                    next: start + 2,
                    errors: seq![
                        ErrorView::ExpectedToken {
                            expected: token_at(start, TokenView::SingleQuoteToken),
                            found: token_at(start + 2, literal),
                            position: (start + 2) as usize,
                        },
                    ],
                },
            )
        }
    } else if c == '"' {
        let end = run_end(text, CharClass::StringBody, start + 1);
        if end < text.len() {
            plain(
                start,
                TokenView::LiteralToken {
                    value: LiteralView::String { value: text.subrange(start + 1, end) },
                },
                end + 1,
            )
        } else {
            Err(literal_fault(start, text.subrange(start, end), UNTERMINATED_STRING@))
        }
    } else if is_digit(c) {
        let end = run_end(text, CharClass::Numeral, start);
        let run = text.subrange(start, end);
        match numeral_value(run) {
            Some(value) => plain(start, TokenView::LiteralToken { value }, end),
            None => Err(literal_fault(start, run, MALFORMED_NUMERAL@)),
        }
    } else if is_letter(c) || c == '_' {
        let end = run_end(text, CharClass::Word, start);
        Ok(
            Scanned {
                token: DescriptorView {
                    position: start as usize,
                    syntax: classify_word(text.subrange(start, end)),
                },
                next: end,
                errors: Seq::empty(),
            },
        )
    } else {
        let unknown = token_at(start, TokenView::UnknownToken { value: seq![c] });
        Ok(
            Scanned {
                token: unknown,
                next: start + 1,
                errors: seq![ErrorView::UnknownToken { token: unknown, position: start as usize }],
            },
        )
    }
}

/// What [`LexerError::message`] says of a string literal that is not closed.
pub const UNTERMINATED_STRING: &'static str = "unterminated string literal";

/// What [`LexerError::message`] says of a numeral that has no value.
pub const MALFORMED_NUMERAL: &'static str = "malformed numeral";

/// What a pass of the tokenizer gives: the tokens, without the whitespace; the
/// errors reported; the offset at which it stopped; and the failure, where a
/// literal without a value stopped it before the end-of-file token.
pub struct LexRun {
    pub tokens: Seq<DescriptorView>,
    pub errors: Seq<ErrorView>,
    pub position: int,
    pub fault: Option<LexerErrorView>,
}

/// How far a pass that stands at `position` is from the furthest offset that a
/// cursor reaches, which is one behind the text's length.
pub open spec fn distance_to_end(text: Seq<char>, position: int) -> nat {
    if position <= text.len() {
        (text.len() + 1 - position) as nat
    } else {
        0
    }
}

/// The pass that starts at `position`: token after token up to the
/// end-of-file token, which is the last one. A whitespace token is left out.
/// A failure ends the pass where it stands, with what was reported before.
pub open spec fn lex_from(text: Seq<char>, position: int) -> LexRun
    recommends
        0 <= position,
    decreases distance_to_end(text, position),
    when 0 <= position
{
    match scan_token(text, position) {
        Err(fault) => LexRun {
            tokens: Seq::empty(),
            errors: Seq::empty(),
            position,
            fault: Some(fault),
        },
        Ok(step) => {
            if step.token.syntax == SyntaxView::Token(TokenView::EndOfFileToken) {
                LexRun {
                    tokens: seq![step.token],
                    errors: step.errors,
                    position: step.next,
                    fault: None,
                }
            } else {
                proof {
                    lemma_scan_advances(text, position);
                }
                let rest = lex_from(text, step.next);
                LexRun {
                    tokens: if step.token.syntax == SyntaxView::Token(TokenView::WhiteSpaceToken) {
                        rest.tokens
                    } else {
                        seq![step.token] + rest.tokens
                    },
                    errors: step.errors + rest.errors,
                    position: rest.position,
                    fault: rest.fault,
                }
            }
        },
    }
}

/// A run over characters of a class ends between its start and the text's
/// end, and past its start where the first character is in the class.
pub proof fn lemma_run_end_bounds(text: Seq<char>, class: CharClass, from: int)
    requires
        0 <= from <= text.len(),
    ensures
        from <= run_end(text, class, from) <= text.len(),
        from < text.len() && in_class(class, text[from]) ==> from < run_end(text, class, from),
        run_end(text, class, from) < text.len() ==> !in_class(
            class,
            text[run_end(text, class, from)],
        ),
        forall|i: int|
            from <= i < run_end(text, class, from) ==> in_class(class, #[trigger] text[i]),
    decreases text.len() - from,
{
    if from < text.len() && in_class(class, text[from]) {
        lemma_run_end_bounds(text, class, from + 1);
    }
}

/// Every token but the end-of-file token takes at least one character, starts
/// inside the text, and ends no further than one behind the text's end.
pub proof fn lemma_scan_advances(text: Seq<char>, start: int)
    requires
        0 <= start,
    ensures
        scan_token(text, start) matches Ok(step) ==> {
            if step.token.syntax == SyntaxView::Token(TokenView::EndOfFileToken) {
                step.next == start
            } else {
                start < text.len() && start < step.next <= text.len() + 1
            }
        },
{
    let c = char_or_nul(text, start);
    if start < text.len() {
        lemma_run_end_bounds(text, CharClass::Blank, start);
        lemma_run_end_bounds(text, CharClass::Comment, start);
        lemma_run_end_bounds(text, CharClass::Numeral, start);
        lemma_run_end_bounds(text, CharClass::Word, start);
        lemma_run_end_bounds(text, CharClass::StringBody, start + 1);
        lemma_word_is_no_end_of_file(text.subrange(start, run_end(text, CharClass::Word, start)));
    }
}

/// No word is classified as the end-of-file token.
pub proof fn lemma_word_is_no_end_of_file(word: Seq<char>)
    ensures
        classify_word(word) != SyntaxView::Token(TokenView::EndOfFileToken),
        classify_word(word) != SyntaxView::Token(TokenView::WhiteSpaceToken),
{
}

/// A pass gives at most one token for each character that is left, and the
/// end-of-file token.
pub proof fn lemma_token_count(text: Seq<char>, position: int)
    requires
        0 <= position,
    ensures
        lex_from(text, position).tokens.len() <= distance_to_end(text, position) + 1,
        lex_from(text, position).fault is None ==> lex_from(text, position).tokens.len() > 0,
    decreases distance_to_end(text, position),
{
    lemma_scan_advances(text, position);
    match scan_token(text, position) {
        Err(_) => {},
        Ok(step) => {
            if step.token.syntax != SyntaxView::Token(TokenView::EndOfFileToken) {
                lemma_token_count(text, step.next);
            }
        },
    }
}

/// A pass that does not fail ends with the end-of-file token, which stands
/// nowhere else, and no token of it is a whitespace token.
pub proof fn lemma_tokens_end_with_end_of_file(text: Seq<char>, position: int)
    requires
        0 <= position,
        lex_from(text, position).fault is None,
    ensures
        ({
            let tokens = lex_from(text, position).tokens;
            let end_of_file = SyntaxView::Token(TokenView::EndOfFileToken);
            &&& tokens.len() > 0
            &&& tokens.last().syntax == end_of_file
            &&& forall|i: int|
                0 <= i < tokens.len() - 1 ==> (#[trigger] tokens[i]).syntax != end_of_file
            &&& forall|i: int|
                0 <= i < tokens.len() ==> (#[trigger] tokens[i]).syntax != SyntaxView::Token(
                    TokenView::WhiteSpaceToken,
                )
        }),
    decreases distance_to_end(text, position),
{
    lemma_scan_advances(text, position);
    let step = scan_token(text, position)->Ok_0;
    if step.token.syntax != SyntaxView::Token(TokenView::EndOfFileToken) {
        lemma_tokens_end_with_end_of_file(text, step.next);
    }
}

/// The tokens of a pass stand in the order of the text: each is tagged with
/// an offset behind that of the token before it, none before the offset at
/// which the pass started and none further than one behind the text's end.
pub proof fn lemma_tokens_are_in_order(text: Seq<char>, position: int)
    requires
        0 <= position <= text.len() + 1,
        text.len() < usize::MAX,
    ensures
        ({
            let tokens = lex_from(text, position).tokens;
            &&& forall|i: int|
                0 <= i < tokens.len() ==> position <= (#[trigger] tokens[i]).position
                    <= text.len() + 1
            &&& forall|i: int, j: int|
                0 <= i < j < tokens.len() ==> (#[trigger] tokens[i]).position
                    < (#[trigger] tokens[j]).position
        }),
    decreases distance_to_end(text, position),
{
    lemma_scan_advances(text, position);
    match scan_token(text, position) {
        Err(_) => {},
        Ok(step) => {
            assert(step.token.position == position as usize);
            if step.token.syntax != SyntaxView::Token(TokenView::EndOfFileToken) {
                lemma_tokens_are_in_order(text, step.next);
                let rest = lex_from(text, step.next).tokens;
                let tokens = lex_from(text, position).tokens;
                if step.token.syntax != SyntaxView::Token(TokenView::WhiteSpaceToken) {
                    assert(tokens =~= seq![step.token] + rest);
                    assert forall|i: int, j: int| 0 <= i < j < tokens.len() implies (
                    #[trigger] tokens[i]).position < (#[trigger] tokens[j]).position by {
                        assert(tokens[j] == rest[j - 1]);
                        if i > 0 {
                            assert(tokens[i] == rest[i - 1]);
                        }
                    }
                    assert forall|i: int| 0 <= i < tokens.len() implies position <= (
                    #[trigger] tokens[i]).position <= text.len() + 1 by {
                        if i > 0 {
                            assert(tokens[i] == rest[i - 1]);
                        }
                    }
                }
            }
        },
    }
}

/// Whether no token but the unknown token starts with the character.
pub open spec fn is_unknown(c: char, following: char) -> bool {
    &&& c != '\0'
    &&& !in_class(CharClass::Blank, c)
    &&& c != '#'
    &&& punctuation(c, following) is None
    &&& c != '\''
    &&& c != '"'
    &&& !is_digit(c)
    &&& !is_letter(c)
    &&& c != '_'
}

/// An unknown character is reported and does not end the pass: it becomes an
/// unknown token, the error names that token at its offset, and the pass goes
/// on behind the character as it would have started there.
pub proof fn lemma_unknown_character_is_passed(text: Seq<char>, position: int)
    requires
        0 <= position < text.len(),
        is_unknown(text[position], char_or_nul(text, position + 1)),
    ensures
        ({
            let run = lex_from(text, position);
            let rest = lex_from(text, position + 1);
            let unknown = token_at(position, TokenView::UnknownToken {
                value: seq![text[position]],
            });
            &&& run.tokens == seq![unknown] + rest.tokens
            &&& run.errors == seq![
                ErrorView::UnknownToken { token: unknown, position: position as usize },
            ] + rest.errors
            &&& run.position == rest.position
            &&& run.fault == rest.fault
        }),
{
}

/// A pass fails on nothing but a numeral without a value and a string
/// literal without its closing quote.
pub proof fn lemma_only_literals_fail(text: Seq<char>, position: int)
    requires
        0 <= position,
    ensures
        scan_token(text, position) is Err ==> is_digit(char_or_nul(text, position))
            || char_or_nul(text, position) == '"',
{
}

/// Whether a character is an ASCII letter.
pub fn is_ascii_letter(c: char) -> (letter: bool)
    ensures
        letter == is_letter(c),
{
    ('a' <= c && c <= 'z') || ('A' <= c && c <= 'Z')
}

/// Whether a character belongs to a class, given whether it is numeric and
/// whether it is alphanumeric.
pub fn belongs_given(class: CharClass, c: char, numeric: bool, alphanumeric: bool) -> (inside: bool)
    ensures
        inside == in_class_given(class, c, numeric, alphanumeric),
{
    match class {
        CharClass::Blank => c == ' ' || c == '\n' || c == '\t',
        CharClass::Numeral => is_ascii_digit(c) || numeric || c == '.' || c == 'e' || c == '-' || c
            == '+',
        CharClass::Word => is_ascii_letter(c) || is_ascii_digit(c) || alphanumeric || c == '_',
        CharClass::Comment => c != '\n' && c != '\0',
        CharClass::StringBody => c != '"',
    }
}

/// Whether a character belongs to a class.
pub fn belongs(class: CharClass, c: char) -> (inside: bool)
    ensures
        inside == in_class(class, c),
{
    belongs_given(class, c, c.is_numeric(), c.is_alphanumeric())
}

/// The punctuation that starts with `c`, and how many characters it takes.
fn punctuation_token(c: char, following: char) -> (found: Option<(Tokens, usize)>)
    ensures
        match found {
            Some((token, width)) => punctuation(c, following) == Some((token@, width as int)),
            None => punctuation(c, following) is None,
        },
{
    if c == '+' {
        Some((Tokens::PlusToken, 1))
    } else if c == '-' {
        Some((Tokens::MinusToken, 1))
    } else if c == '*' {
        Some((Tokens::StarToken, 1))
    } else if c == '/' {
        Some((Tokens::SlashToken, 1))
    } else if c == '%' {
        Some((Tokens::PercentToken, 1))
    } else if c == '(' {
        Some((Tokens::OpenParenthesisToken, 1))
    } else if c == ')' {
        Some((Tokens::CloseParenthesisToken, 1))
    } else if c == ';' {
        Some((Tokens::SemiColonToken, 1))
    } else if c == ':' {
        Some((Tokens::ColonToken, 1))
    } else if c == '{' {
        Some((Tokens::OpenBraceToken, 1))
    } else if c == '}' {
        Some((Tokens::CloseBraceToken, 1))
    } else if c == '[' {
        Some((Tokens::OpenBracketToken, 1))
    } else if c == ']' {
        Some((Tokens::CloseBracketToken, 1))
    } else if c == '!' {
        if following == '=' {
            Some((Tokens::BangEqualsToken, 2))
        } else {
            Some((Tokens::BangToken, 1))
        }
    } else if c == '=' {
        if following == '=' {
            Some((Tokens::EqualsEqualsToken, 2))
        } else {
            Some((Tokens::EqualsToken, 1))
        }
    } else if c == '&' {
        if following == '&' {
            Some((Tokens::AmpersandAmpersandToken, 2))
        } else {
            Some((Tokens::AmpersandToken, 1))
        }
    } else if c == '|' {
        if following == '|' {
            Some((Tokens::PipePipeToken, 2))
        } else {
            Some((Tokens::PipeToken, 1))
        }
    } else {
        None
    }
}

/// Whether a string is the given word.
fn is_word(token: &String, word: &str) -> (same: bool)
    ensures
        same == (token@ == word@),
{
    let other = String::from_str(word);
    *token == other
}

/// Whether the characters from `start` up to `end` hold a point.
pub fn holds_point(chars: &Vec<char>, start: usize, end: usize) -> (found: bool)
    requires
        start <= end <= chars.len(),
    ensures
        found == chars@.subrange(start as int, end as int).contains('.'),
{
    let ghost run = chars@.subrange(start as int, end as int);
    let mut index: usize = start;
    while index < end
        invariant
            start <= index <= end <= chars.len(),
            run == chars@.subrange(start as int, end as int),
            forall|i: int| 0 <= i < index - start ==> run[i] != '.',
        decreases end - index,
    {
        if chars[index] == '.' {
            proof {
                assert(run[index - start] == '.');
            }
            return true;
        }
        index += 1;
    }
    false
}

/// The token of the numeral that the characters from `start` up to `end`
/// form, given the value that their text has as a floating-point literal; or
/// the failure that names the numeral, where it has no value.
pub fn numeral_token(chars: &Vec<char>, start: usize, end: usize, float: Option<u64>) -> (result:
    Result<SyntaxKindDescriptor, LexerError>)
    requires
        start <= end <= chars.len(),
    ensures
        ({
            let run = chars@.subrange(start as int, end as int);
            match numeral_given(run, float) {
                Some(value) => result matches Ok(token) && token@ == token_at(
                    start as int,
                    TokenView::LiteralToken { value },
                ),
                None => result matches Err(fault) && fault@ == literal_fault(
                    start as int,
                    run,
                    MALFORMED_NUMERAL@,
                ),
            }
        }),
{
    let literal = if holds_point(chars, start, end) {
        if has_float_shape(chars, start, end) {
            match float {
                Some(bits) => Some(LiteralToken::Float { bits }),
                None => None,
            }
        } else {
            None
        }
    } else {
        match parse_int(chars, start, end) {
            Some(value) => Some(LiteralToken::Int { value }),
            None => None,
        }
    };
    match literal {
        Some(value) => Ok(
            SyntaxKindDescriptor::new(start, SyntaxKind::Token(Tokens::LiteralToken { value })),
        ),
        None => Err(
            LexerError {
                descriptor: SyntaxKindDescriptor::new(
                    start,
                    SyntaxKind::Token(Tokens::BadToken { value: string_of(chars, start, end) }),
                ),
                message: String::from_str(MALFORMED_NUMERAL),
            },
        ),
    }
}

impl Lexer {
    /// A tokenizer at the start of `input`, with no errors yet.
    pub fn new(input: SourceText) -> (lexer: Self)
        requires
            input@.text.len() < usize::MAX,
        ensures
            lexer.well_formed(),
            lexer.text() == input@.text,
            lexer.cursor() == 0,
            lexer.errors() == Seq::<ErrorView>::empty(),
    {
        let diagnostics = Diagnostics::new(input.to_string());
        Self { input, position: 0, diagnostics }
    }

    /// The text being tokenized.
    pub closed spec fn text(&self) -> Seq<char> {
        self.input@.text
    }

    /// The offset of the next character to look at.
    pub closed spec fn cursor(&self) -> int {
        self.position as int
    }

    /// The errors reported so far.
    pub closed spec fn errors(&self) -> Seq<ErrorView> {
        self.diagnostics@.errors
    }

    /// The cursor is no further than one behind the text's end, and that
    /// offset fits the machine's integers.
    pub closed spec fn well_formed(&self) -> bool {
        &&& self.input@.text.len() < usize::MAX
        &&& self.position <= self.input@.text.len() + 1
        &&& self.diagnostics@.input == self.input@.text
    }

    /// The character `offset` places behind the cursor, or the NUL character
    /// behind the text's end.
    fn peek(&self, offset: usize) -> (c: char)
        ensures
            c == char_or_nul(self.text(), self.cursor() + offset),
    {
        let length = self.input.len();
        if self.position >= length || offset >= length - self.position {
            return '\0';
        }
        self.input.char_at(self.position + offset)
    }

    /// The character at the cursor.
    fn current(&self) -> (c: char)
        ensures
            c == char_or_nul(self.text(), self.cursor()),
    {
        self.peek(0)
    }

    /// The character behind the one at the cursor.
    fn lookahead(&self) -> (c: char)
        ensures
            c == char_or_nul(self.text(), self.cursor() + 1),
    {
        self.peek(1)
    }

    /// Moves the cursor over the characters of a class.
    fn skip_run(&mut self, class: CharClass)
        requires
            old(self).well_formed(),
            old(self).cursor() <= old(self).text().len(),
        ensures
            final(self).well_formed(),
            final(self).text() == old(self).text(),
            final(self).errors() == old(self).errors(),
            final(self).cursor() == run_end(old(self).text(), class, old(self).cursor()),
            old(self).cursor() <= final(self).cursor() <= old(self).text().len(),
    {
        let length = self.input.len();
        while self.position < length && belongs(class, self.input.char_at(self.position))
            invariant
                self.well_formed(),
                self.text() == old(self).text(),
                self.errors() == old(self).errors(),
                length == self.text().len(),
                old(self).cursor() <= self.cursor() <= length,
                run_end(self.text(), class, old(self).cursor()) == run_end(
                    self.text(),
                    class,
                    self.cursor(),
                ),
            decreases length - self.position,
        {
            self.position += 1;
        }
    }

    /// The token for a word that starts at `position`.
    fn match_keywords_and_string_literals(
        &self,
        token: &String,
        position: usize,
    ) -> (descriptor: SyntaxKindDescriptor)
        ensures
            descriptor@ == (DescriptorView { position, syntax: classify_word(token@) }),
    {
        let kind = if is_word(token, "let") {
            SyntaxKind::Keyword(Keywords::LetKeyword)
        } else if is_word(token, "if") {
            SyntaxKind::Keyword(Keywords::IfKeyword)
        } else if is_word(token, "else") {
            SyntaxKind::Keyword(Keywords::ElseKeyword)
        } else if is_word(token, "for") {
            SyntaxKind::Keyword(Keywords::ForKeyword)
        } else if is_word(token, "loop") {
            SyntaxKind::Keyword(Keywords::LoopKeyword)
        } else if is_word(token, "break") {
            SyntaxKind::Keyword(Keywords::BreakKeyword)
        } else if is_word(token, "continue") {
            SyntaxKind::Keyword(Keywords::ContinueKeyword)
        } else if is_word(token, "match") {
            SyntaxKind::Keyword(Keywords::MatchKeyword)
        } else if is_word(token, "true") {
            SyntaxKind::Token(Tokens::LiteralToken { value: LiteralToken::Bool { value: true } })
        } else if is_word(token, "false") {
            SyntaxKind::Token(Tokens::LiteralToken { value: LiteralToken::Bool { value: false } })
        } else {
            SyntaxKind::Token(Tokens::IdentifierToken { value: token.clone() })
        };
        SyntaxKindDescriptor::new(position, kind)
    }

    /// The numeral that starts at the cursor.
    fn numeral(&mut self) -> (result: Result<SyntaxKindDescriptor, LexerError>)
        requires
            old(self).well_formed(),
            old(self).cursor() < old(self).text().len(),
        ensures
            final(self).well_formed(),
            final(self).text() == old(self).text(),
            final(self).errors() == old(self).errors(),
            ({
                let start = old(self).cursor();
                let end = run_end(old(self).text(), CharClass::Numeral, start);
                let run = old(self).text().subrange(start, end);
                match numeral_value(run) {
                    Some(value) => {
                        &&& result matches Ok(token)
                        &&& token@ == token_at(start, TokenView::LiteralToken { value })
                        &&& final(self).cursor() == end
                    },
                    None => {
                        &&& result matches Err(fault)
                        &&& fault@ == literal_fault(start, run, MALFORMED_NUMERAL@)
                        &&& final(self).cursor() == start
                    },
                }
            }),
    {
        let start = self.position;
        self.skip_run(CharClass::Numeral);
        let end = self.position;
        let chars = self.input.chars();
        let float = if holds_point(chars, start, end) && has_float_shape(chars, start, end) {
            float_from_literal(self.input.bounds_to_string(start, end).as_str())
        } else {
            None
        };
        let result = numeral_token(chars, start, end, float);
        if result.is_err() {
            self.position = start;
        }
        result
    }

    /// The token that starts at the cursor. The cursor moves behind it, and
    /// what it reports joins the errors. On a failure nothing changes.
    fn next_token(&mut self) -> (result: Result<SyntaxKindDescriptor, LexerError>)
        requires
            old(self).well_formed(),
        ensures
            final(self).well_formed(),
            final(self).text() == old(self).text(),
            match scan_token(old(self).text(), old(self).cursor()) {
                Ok(step) => {
                    &&& result matches Ok(token)
                    &&& token@ == step.token
                    &&& final(self).cursor() == step.next
                    &&& final(self).errors() == old(self).errors() + step.errors
                },
                Err(fault) => {
                    &&& result matches Err(error)
                    &&& error@ == fault
                    &&& final(self).cursor() == old(self).cursor()
                    &&& final(self).errors() == old(self).errors()
                },
            },
    {
        let start = self.position;
        let length = self.input.len();
        let c = self.current();
        let following = self.lookahead();
        proof {
            lemma_scan_advances(self.text(), start as int);
            assert(self.errors() + Seq::<ErrorView>::empty() =~= self.errors());
        }
        if c == '\0' {
            return Ok(SyntaxKindDescriptor::new(start, SyntaxKind::Token(Tokens::EndOfFileToken)));
        }
        if belongs(CharClass::Blank, c) {
            self.skip_run(CharClass::Blank);
            return Ok(SyntaxKindDescriptor::new(start, SyntaxKind::Token(Tokens::WhiteSpaceToken)));
        }
        if c == '#' {
            self.skip_run(CharClass::Comment);
            let comment = self.input.bounds_to_string(start, self.position);
            return Ok(
                SyntaxKindDescriptor::new(
                    start,
                    SyntaxKind::Token(Tokens::CommentToken { value: comment }),
                ),
            );
        }
        if let Some((token, width)) = punctuation_token(c, following) {
            self.position += width;
            return Ok(SyntaxKindDescriptor::new(start, SyntaxKind::Token(token)));
        }
        if c == '\'' {
            self.position += 2;
            let closing = self.current();
            if closing == '\'' {
                self.position += 1;
            } else {
                self.diagnostics.add_error(
                    ErrorKind::ExpectedToken {
                        expected: SyntaxKindDescriptor::new(
                            start,
                            SyntaxKind::Token(Tokens::SingleQuoteToken),
                        ),
                        found: SyntaxKindDescriptor::new(
                            self.position,
                            SyntaxKind::Token(
                                Tokens::LiteralToken { value: LiteralToken::Char {
                                    value: following,
                                } },
                            ),
                        ),
                        position: self.position,
                    },
                );
                proof {
                    let step = scan_token(old(self).text(), old(self).cursor())->Ok_0;
                    assert(self.errors() =~= old(self).errors() + step.errors);
                }
            }
            return Ok(
                SyntaxKindDescriptor::new(
                    start,
                    SyntaxKind::Token(
                        Tokens::LiteralToken { value: LiteralToken::Char { value: following } },
                    ),
                ),
            );
        }
        if c == '"' {
            self.position += 1;
            self.skip_run(CharClass::StringBody);
            let end = self.position;
            if end < length {
                let value = self.input.bounds_to_string(start + 1, end);
                self.position += 1;
                return Ok(
                    SyntaxKindDescriptor::new(
                        start,
                        SyntaxKind::Token(
                            Tokens::LiteralToken { value: LiteralToken::String { value } },
                        ),
                    ),
                );
            }
            let literal = self.input.bounds_to_string(start, end);
            self.position = start;
            return Err(
                LexerError {
                    descriptor: SyntaxKindDescriptor::new(
                        start,
                        SyntaxKind::Token(Tokens::BadToken { value: literal }),
                    ),
                    message: String::from_str(UNTERMINATED_STRING),
                },
            );
        }
        if is_ascii_digit(c) {
            return self.numeral();
        }
        if is_ascii_letter(c) || c == '_' {
            self.skip_run(CharClass::Word);
            let word = self.input.bounds_to_string(start, self.position);
            return Ok(self.match_keywords_and_string_literals(&word, start));
        }
        let mut value = String::new();
        value.push(c);
        proof {
            assert(value@ =~= seq![c]);
        }
        self.diagnostics.add_error(
            ErrorKind::UnknownToken {
                token: SyntaxKindDescriptor::new(
                    start,
                    SyntaxKind::Token(Tokens::UnknownToken { value: value.clone() }),
                ),
                position: start,
            },
        );
        proof {
            let step = scan_token(old(self).text(), old(self).cursor())->Ok_0;
            assert(self.errors() =~= old(self).errors() + step.errors);
        }
        self.position += 1;
        Ok(SyntaxKindDescriptor::new(start, SyntaxKind::Token(Tokens::UnknownToken { value })))
    }

    /// The errors reported so far, with the input they are about.
    pub fn diagnostics(&self) -> (diagnostics: Diagnostics)
        ensures
            diagnostics@.errors == self.errors(),
            self.well_formed() ==> diagnostics@.input == self.text(),
    {
        self.diagnostics.clone()
    }

    /// Tokenizes the text from the cursor on.
    ///
    /// The result is the sequence of tokens up to the end-of-file token,
    /// which comes last and once, without the whitespace tokens. Unknown
    /// characters and unclosed character literals are reported as errors and
    /// do not stop the pass. A numeral without a value and a string literal
    /// without its closing quote do: the pass then fails with that literal,
    /// and the cursor stays in front of it.
    pub fn lex(&mut self) -> (result: Result<Vec<SyntaxKindDescriptor>, LexerError>)
        requires
            old(self).well_formed(),
        ensures
            final(self).well_formed(),
            final(self).text() == old(self).text(),
            ({
                let run = lex_from(old(self).text(), old(self).cursor());
                &&& final(self).cursor() == run.position
                &&& final(self).errors() == old(self).errors() + run.errors
                &&& match run.fault {
                    None => {
                        &&& result matches Ok(tokens)
                        &&& tokens.len() == run.tokens.len()
                        &&& forall|i: int|
                            0 <= i < tokens.len() ==> (#[trigger] tokens[i])@ == run.tokens[i]
                    },
                    Some(fault) => {
                        &&& result matches Err(error)
                        &&& error@ == fault
                    },
                }
            }),
    {
        let mut tokens: Vec<SyntaxKindDescriptor> = Vec::new();
        let ghost text = self.text();
        let ghost start = self.cursor();
        let ghost errors = self.errors();
        let ghost done: Seq<DescriptorView> = Seq::empty();
        proof {
            assert(errors + Seq::<ErrorView>::empty() =~= errors);
        }
        loop
            invariant
                self.well_formed(),
                self.text() == text,
                text == old(self).text(),
                start == old(self).cursor(),
                errors == old(self).errors(),
                tokens.len() == done.len(),
                forall|i: int| 0 <= i < tokens.len() ==> (#[trigger] tokens[i])@ == done[i],
                ({
                    let whole = lex_from(text, start);
                    let rest = lex_from(text, self.cursor());
                    &&& whole.tokens == done + rest.tokens
                    &&& errors + whole.errors == self.errors() + rest.errors
                    &&& whole.position == rest.position
                    &&& whole.fault == rest.fault
                }),
            decreases distance_to_end(text, self.cursor()),
        {
            let ghost before = self.cursor();
            let ghost reported = self.errors();
            proof {
                lemma_scan_advances(text, before);
            }
            let token = match self.next_token() {
                Ok(token) => token,
                Err(error) => {
                    proof {
                        assert(self.errors() + Seq::<ErrorView>::empty() =~= self.errors());
                    }
                    return Err(error);
                },
            };
            let ghost step = scan_token(text, before)->Ok_0;
            let ghost rest = lex_from(text, before);
            if token.syntax().matches(&SyntaxKind::Token(Tokens::EndOfFileToken)) {
                proof {
                    assert(done + seq![step.token] =~= done.push(step.token));
                }
                tokens.push(token);
                return Ok(tokens);
            }
            proof {
                let after = lex_from(text, step.next);
                assert((reported + step.errors) + after.errors =~= reported + (step.errors
                    + after.errors));
            }
            if token.syntax().matches(&SyntaxKind::Token(Tokens::WhiteSpaceToken)) {
                continue ;
            }
            proof {
                let after = lex_from(text, step.next);
                assert(done + (seq![step.token] + after.tokens) =~= done.push(step.token)
                    + after.tokens);
                done = done.push(step.token);
            }
            tokens.push(token);
        }
    }
}

} // verus!
