//! Parser for a minimalist register-machine assembly dialect.
//!
//! A lexer (an external collaborator) turns source text into a flat sequence
//! of classified tokens.  This crate walks that sequence with a
//! whitespace-skipping cursor, recognizes mnemonics, type-checks and coerces
//! operand tokens, and assembles the typed instructions of a [`ast::Program`],
//! collecting a diagnostic for every malformed or unrecognized piece of input
//! instead of stopping.

pub mod ast;
pub mod cursor;
pub mod parser;
pub mod token;
