//! Dynamic semantics: a small-step stack machine over the expressions and
//! declarations of one file.

pub mod types;
pub mod pat_match;
pub mod step;
