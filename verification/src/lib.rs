//! A census of the tokens and constructs of programs written in a small
//! C-like teaching language.
//!
//! [`parse`] takes the text of one program and returns its
//! [`Statistics`], or fails where the text is no program. An
//! [`Aggregate`] keeps the statistics of many files in the order of their
//! names.
//!
//! The modules, from the text to the counts:
//!
//! - [`lexer`] splits bytes into [`token`]s;
//! - [`syntax`] defines the syntax trees of the language: the tokens that a
//!   tree spells, which trees are well formed, and what a tree adds to each
//!   counter;
//! - [`grammar`] reads a tree out of tokens from left to right;
//! - [`soundness`] and [`completeness`] show that it finds a tree exactly
//!   where the tokens spell a well-formed one;
//! - [`parser`] is the recognizer that runs: it walks the tokens as
//!   [`grammar`] does and counts in [`statistics`] what it matches, without
//!   building a tree;
//! - [`laws`] states what holds of every census;
//! - [`aggregate`] and [`walk`] serve the tool that goes through a
//!   directory of source files.

pub mod aggregate;
pub mod completeness;
pub mod grammar;
pub mod laws;
pub mod lexer;
pub mod parser;
pub mod soundness;
pub mod statistics;
pub mod syntax;
pub mod token;
pub mod walk;

pub use aggregate::Aggregate;
pub use parser::{parse, parse_into, Error};
pub use statistics::{Counter, GrammarStatistics, LexicalStatistics, Statistics};
pub use token::Token;
pub use walk::{visit, Visit};
