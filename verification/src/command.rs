//! Configuration data consumed by the orchestrator: the command-line options,
//! one command descriptor per benchmarked command, and the fully paired
//! per-job description.
//!
//! Preparation steps and the benchmark invocation are explicit argument
//! lists (program followed by its arguments), not whitespace-split command
//! strings, so quoting needs no interpretation anywhere in the pipeline.

use vstd::prelude::*;

verus! {

/// Command-line options of the harness: where the run configuration is read
/// from and where the report is written to.
pub struct RunConfig {
    pub test_source: Option<String>,
    pub result_target: Option<String>,
}

/// One fully paired job description: the command's label, the optional
/// ordered preparation steps (each an argument list), the repository to
/// clone and the benchmark invocation to time inside it.
pub struct CommandDetail {
    pub label: String,
    pub prepare: Option<Vec<Vec<String>>>,
    pub repository: String,
    pub command: Vec<String>,
}

/// The full list of paired job descriptions, in spawn order.
pub type CommandList = Vec<CommandDetail>;

/// One command descriptor from the configuration: a label, optional ordered
/// preparation invocations, and the benchmark invocation itself.
pub struct CommandSpec {
    pub label: String,
    pub prepare: Option<Vec<Vec<String>>>,
    pub run: Vec<String>,
}

} // verus!
