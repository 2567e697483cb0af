//! FieldCalc: types, syntax trees, the parser, values and the evaluator.

pub mod types;
pub mod ast;
pub mod lexer;
pub mod grammar;
pub mod parser;
pub mod env;
pub mod builtins;
pub mod eval;
pub mod depth;
pub mod replay;
pub mod semantics;
