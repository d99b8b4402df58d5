//! A parser and lint engine for a C-style server scripting language.
//!
//! Tokens come in from a lexer, the parser builds a typed syntax tree whose
//! nodes carry exact source spans, and the lint engine walks that tree and
//! collects the issues that its rules report.

pub mod span;
pub mod token;
pub mod error;
pub mod stream;
pub mod ast;
pub mod parser;
pub mod interner;
pub mod reporting;
pub mod linter;
pub mod type_syntax;
pub mod lexer;
