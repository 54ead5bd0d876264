//! Documents: a preamble between two delimiter lines, a title, an
//! optional summary closed by a marker line, and a body.

pub mod document;
pub mod event;
pub mod processor;
pub mod strip;
pub mod tokenizer;
