//! Text primitives for a host runtime: a word count, an importance weight
//! computed in thousandths, and a `cl100k_base` token count.

pub mod pattern;
pub mod text;
pub mod tokenizer;
