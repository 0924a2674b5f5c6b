//! A lexical scanner for a small C-like scripting language.
//!
//! [`lexer::Lexer`] walks a source text and hands out one [`token::Token`]
//! per call. What it hands out is fixed by the spec functions of
//! [`grammar`]; [`laws`] proves what holds of every scan.

pub mod grammar;
pub mod laws;
pub mod lexer;
pub mod token;
