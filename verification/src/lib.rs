//! Named arguments with default values for Rust functions and methods.
//!
//! The library takes a function (or an `impl` block) described as plain values
//! and produces the Rust source text of its expansion: an argument struct, a
//! `Default` implementation built from the `#[default = "..."]` attributes, the
//! function rewritten to take that struct, and a `macro_rules!` macro that
//! calls it with named arguments. `syntax` reads an item's source text with
//! `syn` into that description and expands it.

pub mod text;
pub mod camel;
pub mod model;
pub mod tokens;
pub mod codegen;
pub mod syntax;
