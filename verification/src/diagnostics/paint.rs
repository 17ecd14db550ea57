//! Colour for the terminal, by `colored`.
//!
//! Whether `colored` paints at all is decided by the environment and by what
//! the output goes to: a painted text is the text itself or the text between
//! escape sequences. Nothing is therefore claimed of a painted text; what is
//! built from painted texts is stated for whatever they are.

use colored::Colorize;
use vstd::prelude::*;

verus! {

/// `Colorize::red` gives the text a red foreground, and `to_string` renders
/// it. Nothing is claimed of the result.
#[verifier::external_body]
pub(crate) fn red(text: &str) -> (painted: String) {
    text.red().to_string()
}

/// `Colorize::bold` makes the text bold, and `to_string` renders it. Nothing
/// is claimed of the result.
#[verifier::external_body]
pub(crate) fn bold(text: &str) -> (painted: String) {
    text.bold().to_string()
}

/// `Colorize::red` and `Colorize::bold` give the text a red foreground and
/// make it bold, and `to_string` renders it. Nothing is claimed of the
/// result.
#[verifier::external_body]
pub(crate) fn red_bold(text: &str) -> (painted: String) {
    text.red().bold().to_string()
}

/// `Colorize::green` and `Colorize::bold` give the text a green foreground
/// and make it bold, and `to_string` renders it. Nothing is claimed of the
/// result.
#[verifier::external_body]
pub(crate) fn green_bold(text: &str) -> (painted: String) {
    text.green().bold().to_string()
}

} // verus!
