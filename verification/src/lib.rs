//! A verified analysis core for an assembly-like class-description language:
//! a total tokenizer, a bridge between character offsets and editor
//! line/column coordinates, and a streaming validator that reports
//! structural diagnostics.
pub mod diagnostics;
pub mod directives;
pub mod header;
pub mod helper;
pub mod laws;
pub mod lexer;
pub mod method;
pub mod patterns;
pub mod position;
pub mod validation;

pub use position::{Position, TextRange};
