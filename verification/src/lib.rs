//! A minimal expression language whose programs are JSON values: a parser
//! that classifies JSON documents into a tree of operator forms, and a
//! tree-walking evaluator that interprets the tree against one mutable
//! global binding environment.
//!
//! Parsing and evaluation recurse over the tree, so the stack they need is
//! proportional to how deeply the input nests.  For programs that come in
//! as text this is bounded: the JSON decoder enforces its own nesting
//! limit and rejects deeper documents as invalid.  A caller who builds
//! trees directly carries that bound itself.

pub mod ast;
pub mod environment;
pub mod interpreter;
pub mod jir;
pub mod json;
pub mod laws;
pub mod repl;
pub mod value;
