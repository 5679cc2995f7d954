//! Static analysis for Standard ML: the data model of the high-level IR, the
//! type checker's unification, equality and generalisation rules, a small-step
//! evaluator, the group-file grammar and the analysis front door.

pub mod analysis;
pub mod cm;
pub mod config;
pub mod diagnostics;
pub mod dynamics;
pub mod hir;
pub mod input;
pub mod lex;
pub mod list;
pub mod lower;
pub mod parse;
pub mod paths;
pub mod statics;
pub mod syntax;
pub mod text;
