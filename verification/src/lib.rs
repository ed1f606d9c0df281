//! A small statically typed imperative language: its tokenizer, its
//! recursive-descent parser and its tree-walking evaluator.
//!
//! Every stage is an executable function whose result is stated over a
//! mathematical model: a token sequence, a syntax tree and a machine state
//! made of sequences and maps.
pub mod ast;
pub mod error;
pub mod text;
pub mod token;
pub mod scanner;
pub mod subscanners;
pub mod parser;
pub mod value;
pub mod functions;
pub mod environment;
pub mod interpreter;
pub mod process;
pub mod pipeline;
pub mod message;
pub mod laws;
