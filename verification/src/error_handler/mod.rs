//! Reports on the parser's errors in words: each with its message, the input
//! around it and its offset, and the line that shows them on the terminal.

use crate::diagnostics::paint;
use crate::diagnostics::{context_in, context_of, decimal_text, Context, ContextView};
use crate::parser::{ParserError, ParserErrorView};
use vstd::prelude::*;

verus! {

/// What is shown of one error: its message, the input around the node it is
/// about, and that node's offset.
#[derive(Debug, PartialEq)]
pub struct ErrorReport {
    pub message: String,
    pub context: Context,
    pub position: usize,
}

/// The view of an [`ErrorReport`].
pub struct ErrorReportView {
    pub message: Seq<char>,
    pub context: ContextView,
    pub position: usize,
}

impl View for ErrorReport {
    type V = ErrorReportView;

    open spec fn view(&self) -> ErrorReportView {
        ErrorReportView { message: self.message@, context: self.context@, position: self.position }
    }
}

/// The report on one error found in a text.
pub open spec fn report_of(error: ParserErrorView, text: Seq<char>) -> ErrorReportView {
    ErrorReportView {
        message: error.message,
        context: context_of(text, error.descriptor.position),
        position: error.descriptor.position,
    }
}

/// The line that is shown for an error: the label, the message, the input
/// around the error between dots, and the offset.
pub open spec fn error_line_text(
    label: Seq<char>,
    message: Seq<char>,
    range: Seq<char>,
    position: Seq<char>,
) -> Seq<char> {
    label + " "@ + message + ". ..."@ + range + "... at position "@ + position
}

/// The line that is shown for an error. The label, the range and the offset
/// come as they are to be shown.
pub fn error_line(label: &str, message: &str, range: &str, position: &str) -> (line: String)
    ensures
        line@ == error_line_text(label@, message@, range@, position@),
{
    let mut line = String::from_str(label);
    line.append(" ");
    line.append(message);
    line.append(". ...");
    line.append(range);
    line.append("... at position ");
    line.append(position);
    line
}

/// The label in front of every line.
pub const LABEL: &'static str = "Error: ";

/// Whether a line shows an error, in whatever colours: the error's message
/// stands in it as it is.
pub open spec fn is_line_about(line: Seq<char>, error: ParserErrorView) -> bool {
    exists|label: Seq<char>, range: Seq<char>, position: Seq<char>|
        line == #[trigger] error_line_text(label, error.message, range, position)
}

/// The report on one error found in a text.
pub fn report(error: &ParserError, text: &str) -> (report: ErrorReport)
    ensures
        report@ == report_of(error@, text@),
{
    let position = error.descriptor.position();
    ErrorReport { message: error.message.clone(), context: context_in(text, position), position }
}

/// The line that shows a report on the terminal: a red label, the message,
/// the input around the error in red, and the offset in bold.
pub fn render_report(report: &ErrorReport) -> (line: String)
    ensures
        exists|label: Seq<char>, range: Seq<char>, position: Seq<char>|
            line@ == #[trigger] error_line_text(label, report@.message, range, position),
{
    let mut range = report.context.before.clone();
    range.append(report.context.marked.as_str());
    range.append(report.context.after.as_str());
    let label = paint::red(LABEL);
    let range = paint::red_bold(range.as_str());
    let position = paint::bold(decimal_text(report.position).as_str());
    let line = error_line(
        label.as_str(),
        report.message.as_str(),
        range.as_str(),
        position.as_str(),
    );
    assert(line@ == error_line_text(label@, report@.message, range@, position@));
    line
}

/// Goes through the parser's errors. The first result tells whether there
/// was none; the second holds the line that shows each, in their order.
pub fn handle_parser_errors(errors: Vec<ParserError>, text: String) -> (handled: (
    bool,
    Vec<String>,
))
    ensures
        handled.0 == (errors.len() == 0),
        handled.1.len() == errors.len(),
        forall|i: int|
            0 <= i < errors.len() ==> is_line_about(#[trigger] handled.1[i]@, errors[i]@),
{
    let mut lines: Vec<String> = Vec::new();
    let mut index: usize = 0;
    while index < errors.len()
        invariant
            index <= errors.len(),
            lines.len() == index,
            forall|i: int| 0 <= i < index ==> is_line_about(#[trigger] lines[i]@, errors[i]@),
        decreases errors.len() - index,
    {
        let found = report(&errors[index], text.as_str());
        lines.push(render_report(&found));
        index += 1;
    }
    (errors.len() == 0, lines)
}

} // verus!
