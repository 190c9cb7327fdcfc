//! The settings that artifact text depends on.

use vstd::prelude::*;

verus! {

/// The language that artifacts are written in.
#[derive(Clone, Copy, Debug, PartialEq, Eq, Structural)]
pub enum TypegenLanguage {
    JavaScript,
    TypeScript,
    Flow,
    ReScript,
}

/// The settings of the type generator.
#[derive(Debug)]
pub struct TypegenConfig {
    pub language: TypegenLanguage,
    /// Whether a module exports its node with `export default` in every language.
    pub eager_es_modules: bool,
}

/// The settings that all projects share.
#[derive(Debug)]
pub struct Config {
    /// The lines at the top of every docblock.
    pub header: Vec<String>,
    /// The command that a docblock names as the one to run again.
    pub codegen_command: Option<String>,
    /// The variable that guards what only development builds run.
    pub is_dev_variable_name: Option<String>,
}

/// The settings of one project.
#[derive(Debug)]
pub struct ProjectConfig {
    pub typegen_config: TypegenConfig,
    /// Whether a comment lists the names of an operation's variables.
    pub variable_names_comment: bool,
}

} // verus!
