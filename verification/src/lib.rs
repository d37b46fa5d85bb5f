//! A safe boundary layer around an external text-tokenization engine.
//!
//! The engine itself (vocabulary lookup, merge rules, normalization) is an
//! opaque capability of the `tokenizers` crate. This crate owns the boundary:
//! handle lifecycles for the engine and for tokenization results, the
//! distinction between borrowed views and transferred allocations, and the
//! collapse of every internal failure to an absent (`None`) result.

pub mod encoding;
pub mod tokenizer;
