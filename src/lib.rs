//! A typed model of a subset of Verilog, with a renderer that turns it into
//! source text.
mod ast;
mod codegen;
mod laws;

pub use ast::{
    Assignment, BinaryOp, BinaryOpTy, Dir, Edge, Expression, Ident, Literal, Trigger, UnaryOpTy,
};
pub use codegen::{binary_text, decimal, digit_char, expression_text, Codegen};
pub use laws::{
    binary_nodes, count_char, lemma_binary_parens, lemma_expression_parens,
    lemma_render_deterministic, names_avoid,
};
