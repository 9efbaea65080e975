use vstd::prelude::*;

verus! {

/// The parsed command line: one sub-command.
pub struct Cli {
    pub command: Commands,
}

/// The sub-commands of the tool.
pub enum Commands {
    /// Write a technical plan for `task` to `output`.
    Plan { task: String, interactive: bool, output: String },
    /// Report possible bugs and vulnerabilities in files or directories.
    Check { files: Vec<String> },
    /// Report possible performance improvements in files or directories.
    Perf { files: Vec<String> },
    /// Rewrite a source file with documentation added.
    Docs { file: String },
    /// Write unit tests for a source file to `output`.
    Test { file: String, output: String },
}

} // verus!
