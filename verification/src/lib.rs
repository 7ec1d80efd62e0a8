//! A GNU `find`-compatible expression language: argument parsing, expression
//! trees, and the evaluation of an expression against one directory entry.
pub mod text;
pub mod expr;
pub mod grammar;
pub mod parser;
pub mod chrono_format;
pub mod eval;
pub mod eval_spec;
pub mod batch;
pub mod walker;
pub mod cli;
pub mod laws;
