//! An interpreter for a small language of expressions and declarations:
//! a tokenizer, a parser that climbs operator precedences and recovers from
//! errors, and an evaluator that walks the tree against the variables of a
//! session.
//!
//! Each stage is described by specification functions over the views of the
//! data, and the executable functions are proved to compute what those
//! describe:
//!
//! - [`lexer`] cuts the source text into position-tagged tokens;
//! - [`parser`] builds one syntax tree from the tokens;
//! - [`evaluator`] computes the tree's value;
//! - [`diagnostics`] collects the errors of the first two stages and cuts
//!   the input around them;
//! - [`session`] joins the stages and keeps the variables from one input to
//!   the next.
//!
//! Offsets count characters. Floating-point numbers are held as the bit
//! patterns of IEEE 754 binary64 values, see [`float`].

pub mod diagnostics;
pub mod error_handler;
pub mod evaluator;
pub mod float;
pub mod lexer;
pub mod parser;
pub mod session;
pub mod syntax;
pub mod text;
