//! The daemon and MCP commands: what each outcome of talking to the daemon
//! is answered with.

use vstd::prelude::*;
use crate::text::str_eq;
use crate::timeline::{opt_view, strings_view};
use crate::fmt::{decimal, push_decimal};

verus! {

/// A short answer: whether it worked, a message, and a code for scripts.
#[derive(Debug, Clone)]
pub struct SimpleResponse {
    pub success: bool,
    pub message: String,
    pub code: Option<String>,
}

/// The plain content of a short answer.
pub struct ResponseView {
    pub success: bool,
    pub message: Seq<char>,
    pub code: Option<Seq<char>>,
}

impl View for SimpleResponse {
    type V = ResponseView;

    open spec fn view(&self) -> ResponseView {
        ResponseView { success: self.success, message: self.message@, code: opt_view(self.code) }
    }
}

/// A short answer built from its parts.
fn respond(success: bool, message: String, code: &str) -> (r: SimpleResponse)
    ensures
        r@ == (ResponseView { success, message: message@, code: Some(code@) }),
{
    SimpleResponse { success, message, code: Some(String::from_str(code)) }
}

/// How a request to start the daemon went.
#[derive(Debug, Clone)]
pub enum EnsureOutcome {
    Started,
    AlreadyRunning,
    Failed(String),
}

/// The answer of `mnem on`.
pub open spec fn on_response_spec(o: EnsureOutcome) -> ResponseView {
    match o {
        EnsureOutcome::Started => ResponseView { success: true, message: "mnem daemon started"@, code: Some("DAEMON_STARTED"@) },
        EnsureOutcome::AlreadyRunning => ResponseView {
            success: true,
            message: "mnem daemon is already running"@,
            code: Some("DAEMON_ALREADY_RUNNING"@),
        },
        EnsureOutcome::Failed(e) => ResponseView {
            success: false,
            message: "Failed to start daemon: "@ + e@,
            code: Some("DAEMON_START_FAILED"@),
        },
    }
}

/// The answer of `mnem on`.
pub fn on_response(o: &EnsureOutcome) -> (r: SimpleResponse)
    ensures
        r@ == on_response_spec(*o),
{
    match o {
        EnsureOutcome::Started => respond(true, String::from_str("mnem daemon started"), "DAEMON_STARTED"),
        EnsureOutcome::AlreadyRunning => respond(true, String::from_str("mnem daemon is already running"), "DAEMON_ALREADY_RUNNING"),
        EnsureOutcome::Failed(e) => {
            let mut m = String::from_str("Failed to start daemon: ");
            m.append(e.as_str());
            respond(false, m, "DAEMON_START_FAILED")
        },
    }
}

/// The answer of `mnem off`: stopping a daemon that does not run counts as
/// done too.
pub fn off_response(connected: bool) -> (r: SimpleResponse)
    ensures
        r@ == (if connected {
            ResponseView { success: true, message: "mnem daemon stopped"@, code: Some("DAEMON_STOPPED"@) }
        } else {
            ResponseView { success: true, message: "mnem daemon is not running"@, code: Some("DAEMON_NOT_RUNNING"@) }
        }),
{
    if connected {
        respond(true, String::from_str("mnem daemon stopped"), "DAEMON_STOPPED")
    } else {
        respond(true, String::from_str("mnem daemon is not running"), "DAEMON_NOT_RUNNING")
    }
}

/// Whether `mnem start` was asked to restart the daemon.
pub fn wants_restart(args: &Vec<String>) -> (r: bool)
    ensures
        r == exists|i: int| 0 <= i < args@.len() && (args@[i]@ == "--restart"@ || args@[i]@ == "-r"@),
{
    let mut i: usize = 0;
    while i < args.len()
        invariant
            i <= args@.len(),
            forall|j: int| 0 <= j < i ==> !(args@[j]@ == "--restart"@ || args@[j]@ == "-r"@),
        decreases args@.len() - i,
    {
        if str_eq(args[i].as_str(), "--restart") || str_eq(args[i].as_str(), "-r") {
            return true;
        }
        i = i + 1;
    }
    false
}

/// The report of `mnem start`, and whether it is a success.
pub open spec fn start_report_spec(o: EnsureOutcome, restart: bool) -> (bool, Seq<char>) {
    match o {
        EnsureOutcome::Started => (true, "mnemd daemon started."@),
        EnsureOutcome::AlreadyRunning => if restart {
            (true, "mnemd daemon restarted."@)
        } else {
            (true, "mnemd daemon is already running."@)
        },
        EnsureOutcome::Failed(e) => (false, "Failed to start daemon: "@ + e@),
    }
}

/// The report of `mnem start`, and whether it is a success.
pub fn start_report(o: &EnsureOutcome, restart: bool) -> (r: (bool, String))
    ensures
        (r.0, r.1@) == start_report_spec(*o, restart),
{
    match o {
        EnsureOutcome::Started => (true, String::from_str("mnemd daemon started.")),
        EnsureOutcome::AlreadyRunning => if restart {
            (true, String::from_str("mnemd daemon restarted."))
        } else {
            (true, String::from_str("mnemd daemon is already running."))
        },
        EnsureOutcome::Failed(e) => {
            let mut m = String::from_str("Failed to start daemon: ");
            m.append(e.as_str());
            (false, m)
        },
    }
}

/// The report of `mnem stop`.
pub fn stop_report(connected: bool) -> (r: String)
    ensures
        r@ == (if connected { "Daemon shutdown requested."@ } else { "Daemon is not running."@ }),
{
    if connected {
        String::from_str("Daemon shutdown requested.")
    } else {
        String::from_str("Daemon is not running.")
    }
}

/// What the daemon answered to a request to start or stop the MCP server.
#[derive(Debug, Clone)]
pub enum McpReply {
    /// No connection to the daemon.
    NoDaemon,
    /// The call itself failed.
    CallFailed(String),
    /// The answer holds an `error` field (its JSON text).
    Refused(String),
    /// The answer holds no error; `pid` when it names a process.
    Done { pid: Option<u64> },
}

/// The answer of `mnem mcp start`.
pub open spec fn mcp_start_spec(r: McpReply) -> ResponseView {
    match r {
        McpReply::NoDaemon => ResponseView {
            success: false,
            message: "Daemon is not running. Start it with 'mnem on'"@,
            code: Some("DAEMON_NOT_RUNNING"@),
        },
        McpReply::CallFailed(e) => ResponseView { success: false, message: "Failed to start MCP: "@ + e@, code: Some("MCP_RPC_ERROR"@) },
        McpReply::Refused(e) => ResponseView { success: false, message: "Failed: "@ + e@, code: Some("MCP_START_FAILED"@) },
        McpReply::Done { pid } => ResponseView {
            success: true,
            message: "MCP server started (PID: "@ + decimal(match pid { Some(p) => p as nat, None => 0 }) + ")"@,
            code: Some("MCP_STARTED"@),
        },
    }
}

/// The answer of `mnem mcp start`.
pub fn mcp_start_response(reply: &McpReply) -> (r: SimpleResponse)
    ensures
        r@ == mcp_start_spec(*reply),
{
    match reply {
        McpReply::NoDaemon => respond(false, String::from_str("Daemon is not running. Start it with 'mnem on'"), "DAEMON_NOT_RUNNING"),
        McpReply::CallFailed(e) => {
            let mut m = String::from_str("Failed to start MCP: ");
            m.append(e.as_str());
            respond(false, m, "MCP_RPC_ERROR")
        },
        McpReply::Refused(e) => {
            let mut m = String::from_str("Failed: ");
            m.append(e.as_str());
            respond(false, m, "MCP_START_FAILED")
        },
        McpReply::Done { pid } => {
            let mut m = String::from_str("MCP server started (PID: ");
            push_decimal(&mut m, match pid { Some(p) => *p, None => 0 });
            m.append(")");
            respond(true, m, "MCP_STARTED")
        },
    }
}

/// The answer of `mnem mcp stop` (the `handle_mcp` form when `short_no_daemon`,
/// whose message for a missing daemon is shorter).
pub open spec fn mcp_stop_spec(r: McpReply, short_no_daemon: bool) -> ResponseView {
    match r {
        McpReply::NoDaemon => ResponseView {
            success: false,
            message: if short_no_daemon { "Daemon is not running"@ } else { "Daemon is not running. Start it with 'mnem on'"@ },
            code: Some("DAEMON_NOT_RUNNING"@),
        },
        McpReply::CallFailed(e) => ResponseView { success: false, message: "Failed to stop MCP: "@ + e@, code: Some("MCP_RPC_ERROR"@) },
        McpReply::Refused(e) => ResponseView { success: false, message: "Failed: "@ + e@, code: Some("MCP_STOP_FAILED"@) },
        McpReply::Done { .. } => ResponseView { success: true, message: "MCP server stopped"@, code: Some("MCP_STOPPED"@) },
    }
}

/// The answer of `mnem mcp stop`.
pub fn mcp_stop_response(reply: &McpReply, short_no_daemon: bool) -> (r: SimpleResponse)
    ensures
        r@ == mcp_stop_spec(*reply, short_no_daemon),
{
    match reply {
        McpReply::NoDaemon => respond(
            false,
            String::from_str(if short_no_daemon { "Daemon is not running" } else { "Daemon is not running. Start it with 'mnem on'" }),
            "DAEMON_NOT_RUNNING",
        ),
        McpReply::CallFailed(e) => {
            let mut m = String::from_str("Failed to stop MCP: ");
            m.append(e.as_str());
            respond(false, m, "MCP_RPC_ERROR")
        },
        McpReply::Refused(e) => {
            let mut m = String::from_str("Failed: ");
            m.append(e.as_str());
            respond(false, m, "MCP_STOP_FAILED")
        },
        McpReply::Done { .. } => respond(true, String::from_str("MCP server stopped"), "MCP_STOPPED"),
    }
}

/// The MCP server's state as the daemon reports it.
#[derive(Debug, Clone)]
pub struct McpStatus {
    pub running: bool,
    pub pid: Option<u64>,
    pub transport: String,
}

/// The MCP server's state from the fields of the daemon's answer: not
/// running and transport `stdio` unless the answer says otherwise.
pub fn mcp_status(running: Option<bool>, pid: Option<u64>, transport: Option<String>) -> (r: McpStatus)
    ensures
        r.running == (match running { Some(b) => b, None => false }),
        r.pid == pid,
        r.transport@ == (match transport { Some(t) => t@, None => "stdio"@ }),
{
    McpStatus {
        running: match running { Some(b) => b, None => false },
        pid,
        transport: match transport { Some(t) => t, None => String::from_str("stdio") },
    }
}

/// What `mnem mcp <subcommand>` asks for.
#[derive(Debug, Clone, Copy, PartialEq, Eq, Structural)]
pub enum McpRequest {
    Start,
    Stop,
    Status,
    Unknown,
}

/// What `mnem mcp <subcommand>` asks for.
pub fn mcp_request(subcommand: &str) -> (r: McpRequest)
    ensures
        r == (if subcommand@ == "start"@ {
            McpRequest::Start
        } else if subcommand@ == "stop"@ {
            McpRequest::Stop
        } else if subcommand@ == "status"@ {
            McpRequest::Status
        } else {
            McpRequest::Unknown
        }),
{
    if str_eq(subcommand, "start") {
        McpRequest::Start
    } else if str_eq(subcommand, "stop") {
        McpRequest::Stop
    } else if str_eq(subcommand, "status") {
        McpRequest::Status
    } else {
        McpRequest::Unknown
    }
}

/// The error shown when asking for the MCP server's state failed.
pub fn mcp_status_error(e: &str) -> (r: String)
    ensures
        r@ == "Failed to get MCP status: "@ + e@,
{
    let mut m = String::from_str("Failed to get MCP status: ");
    m.append(e);
    m
}

/// The error shown for an MCP subcommand that does not exist.
pub fn unknown_mcp_subcommand(s: &str) -> (r: String)
    ensures
        r@ == "Unknown MCP subcommand: "@ + s@,
{
    let mut m = String::from_str("Unknown MCP subcommand: ");
    m.append(s);
    m
}

/// The refusal of `mnem mcp <subcommand>` for a subcommand that does not
/// exist; it is given before the daemon is asked anything.
pub fn unknown_mcp_response(subcommand: &str) -> (r: SimpleResponse)
    ensures
        r@ == (ResponseView {
            success: false,
            message: "Unknown MCP subcommand: "@ + subcommand@,
            code: Some("UNKNOWN_SUBCOMMAND"@),
        }),
{
    respond(false, unknown_mcp_subcommand(subcommand), "UNKNOWN_SUBCOMMAND")
}

/// The refusal of `mnem mcp status` when the daemon could not be asked:
/// none when it answered.
pub open spec fn mcp_status_failure_spec(r: McpReply) -> Option<ResponseView> {
    match r {
        McpReply::NoDaemon => Some(ResponseView {
            success: false,
            message: "Daemon is not running"@,
            code: Some("DAEMON_NOT_RUNNING"@),
        }),
        McpReply::CallFailed(e) => Some(ResponseView {
            success: false,
            message: "Failed to get MCP status: "@ + e@,
            code: Some("MCP_STATUS_ERROR"@),
        }),
        _ => None,
    }
}

/// The refusal of `mnem mcp status` when the daemon could not be asked.
pub fn mcp_status_failure(reply: &McpReply) -> (r: Option<SimpleResponse>)
    ensures
        match r {
            Some(x) => mcp_status_failure_spec(*reply) == Some(x@),
            None => mcp_status_failure_spec(*reply) is None,
        },
{
    match reply {
        McpReply::NoDaemon => Some(respond(false, String::from_str("Daemon is not running"), "DAEMON_NOT_RUNNING")),
        McpReply::CallFailed(e) => Some(respond(false, mcp_status_error(e.as_str()), "MCP_STATUS_ERROR")),
        _ => None,
    }
}

/// The usage line shown after an unknown MCP subcommand.
pub fn mcp_usage() -> (r: &'static str)
    ensures
        r@ == "Usage: mnem mcp <start|stop|status>"@,
{
    "Usage: mnem mcp <start|stop|status>"
}

/// Start the Mnemosyne daemon.
#[derive(Debug, Clone)]
pub struct OnCommand {
    /// Start daemon automatically (if supported)
    pub auto: bool,
}

/// Stop the Mnemosyne daemon.
#[derive(Debug, Clone)]
pub struct OffCommand;

/// Show daemon status and performance metrics.
#[derive(Debug, Clone)]
pub struct StatusCommand;

/// Start the MCP server.
#[derive(Debug, Clone)]
pub struct McpStartCommand;

/// Stop the MCP server.
#[derive(Debug, Clone)]
pub struct McpStopCommand;

/// Show MCP server status.
#[derive(Debug, Clone)]
pub struct McpStatusCommand;

/// Prune unreferenced content.
#[derive(Debug, Clone)]
pub struct GcCommand {
    /// Number of days to keep chunks (default: 30)
    pub keep: Option<usize>,
    /// Perform a dry run without making changes
    pub dry_run: bool,
    /// Perform aggressive garbage collection (removes more)
    pub aggressive: bool,
}

/// What the daemon answered to a pruning request.
#[derive(Debug, Clone)]
pub enum GcReply {
    NoDaemon,
    Failed(String),
    /// This many unreferenced chunks were pruned.
    Pruned(u64),
}

/// The note of `mnem gc --dry-run`, which changes nothing and asks the
/// daemon nothing (as JSON, or as the text line).
pub fn gc_dry_run_note(json: bool) -> (r: &'static str)
    ensures
        r@ == (if json { "Dry run - no changes made"@ } else { "Dry run - no changes will be made"@ }),
{
    if json { "Dry run - no changes made" } else { "Dry run - no changes will be made" }
}

/// The answer of `mnem gc`.
pub open spec fn gc_spec(r: GcReply) -> ResponseView {
    match r {
        GcReply::NoDaemon => ResponseView {
            success: false,
            message: "Daemon is not running. Start it with 'mnem on'"@,
            code: Some("DAEMON_NOT_RUNNING"@),
        },
        GcReply::Failed(e) => ResponseView { success: false, message: "GC failed: "@ + e@, code: Some("GC_FAILED"@) },
        GcReply::Pruned(n) => ResponseView {
            success: true,
            message: "Successfully pruned "@ + decimal(n as nat) + " orphan chunks."@,
            code: Some("GC_SUCCESS"@),
        },
    }
}

/// The answer of `mnem gc`.
pub fn gc_response(reply: &GcReply) -> (r: SimpleResponse)
    ensures
        r@ == gc_spec(*reply),
{
    match reply {
        GcReply::NoDaemon => respond(false, String::from_str("Daemon is not running. Start it with 'mnem on'"), "DAEMON_NOT_RUNNING"),
        GcReply::Failed(e) => {
            let mut m = String::from_str("GC failed: ");
            m.append(e.as_str());
            respond(false, m, "GC_FAILED")
        },
        GcReply::Pruned(n) => {
            let mut m = String::from_str("Successfully pruned ");
            push_decimal(&mut m, *n);
            m.append(" orphan chunks.");
            respond(true, m, "GC_SUCCESS")
        },
    }
}

} // verus!
