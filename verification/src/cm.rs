//! Group files in the style of the Compilation Manager: which names a group
//! exports and which files it consists of.

pub mod path_var;
pub mod types;
pub mod parse;
pub mod lex;
pub mod lower;
