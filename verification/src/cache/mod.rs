//! The cache: what one stage of the pipeline leaves for the next.

pub mod records;
