//! The options every command receives, the subcommands the program knows,
//! and the interface through which a command runs.

use vstd::prelude::*;
use std::path::PathBuf;

verus! {

/// A file-system path, as std holds it.
#[verifier::external_type_specification]
#[verifier::external_body]
pub struct ExPathBuf(std::path::PathBuf);

/// Global options passed to all commands.
#[derive(Debug, Clone)]
pub struct GlobalOptions {
    /// Project path override
    pub project: Option<PathBuf>,
    /// Output in JSON format
    pub json: bool,
}

impl GlobalOptions {
    /// Create a new GlobalOptions instance.
    pub fn new(project: Option<PathBuf>, json: bool) -> (r: Self)
        ensures
            r.project == project,
            r.json == json,
    {
        GlobalOptions { project, json }
    }
}

/// How a command runs: each command implements it, so that commands are
/// defined apart from how they are run and fail in one way.
pub trait CommandStrategy {
    /// Execute the command with the given global options.
    fn execute(&self, global_opts: &GlobalOptions) -> Result<(), String>;
}

/// The subcommands of the program.
#[derive(Debug, Clone)]
pub enum Commands {
    /// Start daemon
    On { auto: bool },
    /// Stop daemon
    Off {},
    /// Show status
    Status {},
    /// Track project
    Track { list: bool, remove: bool, purge: bool, id: Option<String>, limit: usize, page: usize },
    /// View history
    H {
        file: Option<String>,
        limit: usize,
        page: usize,
        timeline: bool,
        since: Option<String>,
        branch: Option<String>,
        clear: bool,
    },
    /// Restore file
    R {
        file: Option<String>,
        version: Option<usize>,
        list: bool,
        undo: bool,
        to: Option<String>,
        symbol: Option<String>,
        checkpoint: Option<String>,
        branch: Option<String>,
        limit: usize,
        page: usize,
    },
    /// Search history
    S { query: Option<String>, file: Option<String>, limit: usize, page: usize, semantic: bool },
    /// Show project info
    Info { project: Option<String> },
    /// Garbage collection
    Gc { keep: Option<usize>, dry_run: bool, aggressive: bool },
    /// Manage config
    Config { get: Option<String>, set: Option<String>, reset: bool },
    /// Git operations
    Git { commits: bool, log: bool, hook: bool },
    /// Uninstall mnem
    Uninstall { purge: bool },
    /// Check for updates and update
    Update { check_only: bool },
    /// Start MCP server
    McpStart {},
    /// Stop MCP server
    McpStop {},
    /// Show MCP server status
    McpStatus {},
}

} // verus!
