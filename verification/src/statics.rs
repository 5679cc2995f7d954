//! Static semantics: semantic types, the table of generated symbols,
//! unification, equality types and generalisation.

pub mod types;
pub mod disallow;
pub mod info;
pub mod sym;
pub mod equality;
pub mod error;
pub mod st;
pub mod unify;
pub mod laws;
pub mod env;
pub mod util;
pub mod dec;
pub mod exp;
pub mod pat;
pub mod top_dec;
pub mod display;
pub mod basis;
pub mod pat_match;
pub mod ty;
pub mod datatype;
