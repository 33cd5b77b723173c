//! A compiler for a minimal arithmetic language — numeric literals of two
//! types, unary negation, the four binary operators, grouping, a print
//! statement and a variable declaration — emitting textual assembly for a
//! single native target.
//!
//! The back end is specified and proved against a ghost model of its whole
//! observable state (`compiler::GenState`): the two register-pool pointers,
//! the literal pool, and the four output sections as character sequences.
//! Type-directed instruction selection, the stack-discipline register
//! allocator and constant-literal pooling are verified down to the exact
//! emitted text.

pub mod compiler;
pub mod lexer;
pub mod parser;
