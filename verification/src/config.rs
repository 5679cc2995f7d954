//! Configuration.

use vstd::prelude::*;

verus! {

/// The name of the config file.
pub const FILE_NAME: &'static str = "millet.toml";

/// How severe a diagnostic is to be taken.
#[derive(Debug, Clone, Copy, PartialEq, Eq, Structural)]
pub enum Severity {
    Ignore,
    Warning,
    Error,
}

/// The value of a path variable.
#[derive(Debug)]
pub enum PathVar {
    /// The value as it stands.
    Value(String),
    /// A path, taken from the directory of the config file.
    Path(String),
    /// A path, taken from the directory of the group file that uses the
    /// variable.
    WorkspacePath(String),
}

/// What the config says of one diagnostic code.
#[derive(Debug)]
pub struct ErrorConfig {
    pub severity: Option<Severity>,
}

/// The workspace config.
#[derive(Debug)]
pub struct Workspace {
    /// The root group filename, which may be a glob.
    pub root: Option<String>,
    /// The members of the workspace.
    pub members: Option<Vec<String>>,
    /// The path variables, by name.
    pub path_vars: Option<Vec<(String, PathVar)>>,
}

/// The root config.
#[derive(Debug)]
pub struct Root {
    /// The version. Should be 1.
    pub version: u16,
    /// The workspace config.
    pub workspace: Option<Workspace>,
    /// The diagnostics config, by code.
    pub diagnostics: Option<Vec<(String, ErrorConfig)>>,
}

} // verus!
