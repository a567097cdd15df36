//! A recognizer for the `format!`-style interpolation mini-language.
//!
//! The library turns an interpolation string such as `"Hello {name:>8}!"`
//! into an ordered sequence of [`Token`] values: literal text runs (with
//! `{{` / `}}` already unescaped) and variable placeholders together with
//! their formatting directives. It never consults argument values and never
//! renders anything; substitution is the caller's business.
//!
//! The grammar itself is written down twice: once as specification
//! functions over `Seq<char>` (module [`grammar`]), which are the
//! mathematical statement of what the language is, and once as executable
//! parsing functions (modules [`lexer`] and [`parser`]) that are proved to
//! return exactly what the specification says, for every input. Module
//! [`laws`] proves the grammar's general properties — escaping round-trips,
//! default directives, padding exclusivity — once for all inputs.

#![verifier::loop_isolation(false)]

use vstd::prelude::*;

pub mod ast;
pub mod grammar;
pub mod laws;
pub mod lexer;
pub mod parser;

pub use ast::Align;
pub use ast::ErrorKind;
pub use ast::Expected;
pub use ast::Padding;
pub use ast::Param;
pub use ast::ParseError;
pub use ast::Style;
pub use ast::Token;
pub use ast::VarName;
pub use parser::parse;
pub use parser::parse_relaxed;

verus! {

/// The error side of a parse: the structured syntax errors found.
pub type Error = Vec<ParseError>;

} // verus!
