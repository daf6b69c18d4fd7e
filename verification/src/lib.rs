//! The core of a compiler for a C-like language.
//!
//! * [`ast`] holds the typed tree and the semantic check, which walks the
//!   tree in a chain of scopes and reports the first rule that is broken.
//! * [`codegen`] lowers a checked tree to x86-64 assembly text. It lends out
//!   scratch registers, lays local variables out on the stack and writes the
//!   sections of an assembly unit.
//! * [`preprocessor`] replaces macros in text and splices included files in.
//! * [`parser`] holds the builders that a grammar's actions call.
//!
//! What each function does is stated in its contract, over the mathematical
//! values of the types involved, and proved.

pub mod ast;
pub mod codegen;
pub mod error;
pub mod fs;
pub mod parser;
pub mod preprocessor;
pub mod symbols;
pub mod text;
