//! A code generator that lowers a small subset of JavaScript into C++ source
//! written against the V8 embedding API.

pub mod ast;
pub mod check;
pub mod cg;
pub mod entry;
pub mod printer;
pub mod scope;
pub mod targets;
pub mod text;
