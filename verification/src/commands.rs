//! The registry of `mnem` commands: their names, usage lines, descriptions,
//! groups and aliases, and the lookup that the dispatcher performs on it.

use vstd::prelude::*;
use crate::text::str_eq;

verus! {

/// Every command that the dispatcher knows, in registry order.
#[derive(Debug, Clone, Copy, PartialEq, Eq, Structural)]
pub enum CommandKind {
    Help,
    Version,
    Start,
    Stop,
    List,
    Project,
    History,
    Statistics,
    Watch,
    Forget,
    Checkpoints,
    CheckpointInfo,
    CommitInfo,
    GitEvent,
    GitHook,
    LogCommits,
    Log,
    Diff,
    Cat,
    Open,
    Timeline,
    SetupProtocol,
    Components,
    Tui,
}

/// Name of a command.
pub open spec fn kind_name(k: CommandKind) -> Seq<char> {
    match k {
        CommandKind::Help => "help"@,
        CommandKind::Version => "version"@,
        CommandKind::Start => "start"@,
        CommandKind::Stop => "stop"@,
        CommandKind::List => "list"@,
        CommandKind::Project => "project"@,
        CommandKind::History => "history"@,
        CommandKind::Statistics => "statistics"@,
        CommandKind::Watch => "watch"@,
        CommandKind::Forget => "forget"@,
        CommandKind::Checkpoints => "checkpoints"@,
        CommandKind::CheckpointInfo => "checkpoint-info"@,
        CommandKind::CommitInfo => "commit-info"@,
        CommandKind::GitEvent => "git-event"@,
        CommandKind::GitHook => "git-hook"@,
        CommandKind::LogCommits => "log-commits"@,
        CommandKind::Log => "log"@,
        CommandKind::Diff => "diff"@,
        CommandKind::Cat => "cat"@,
        CommandKind::Open => "open"@,
        CommandKind::Timeline => "timeline"@,
        CommandKind::SetupProtocol => "setup-protocol"@,
        CommandKind::Components => "components"@,
        CommandKind::Tui => "tui"@,
    }
}

/// Usage line of a command (arguments after its name).
pub open spec fn kind_usage(k: CommandKind) -> Seq<char> {
    match k {
        CommandKind::Help => ""@,
        CommandKind::Version => ""@,
        CommandKind::Start => "[--restart | -r]"@,
        CommandKind::Stop => ""@,
        CommandKind::List => "[--limit <n>]"@,
        CommandKind::Project => "<id>"@,
        CommandKind::History => "[--limit <n>]"@,
        CommandKind::Statistics => ""@,
        CommandKind::Watch => "[-p <path>]"@,
        CommandKind::Forget => "<id> [--prune]"@,
        CommandKind::Checkpoints => ""@,
        CommandKind::CheckpointInfo => "<id>"@,
        CommandKind::CommitInfo => "<hash>"@,
        CommandKind::GitEvent => "<hash> <message> <author> <timestamp>"@,
        CommandKind::GitHook => ""@,
        CommandKind::LogCommits => "[--limit <n>]"@,
        CommandKind::Log => "<file_path> [--symbol <name>]"@,
        CommandKind::Diff => "<file_path> <hash1> [hash2]"@,
        CommandKind::Cat => "<hash>"@,
        CommandKind::Open => "<hash>"@,
        CommandKind::Timeline => "<symbol_name>"@,
        CommandKind::SetupProtocol => ""@,
        CommandKind::Components => "[<component_name>]"@,
        CommandKind::Tui => ""@,
    }
}

/// One-line description of a command.
pub open spec fn kind_description(k: CommandKind) -> Seq<char> {
    match k {
        CommandKind::Help => "Show help information for all commands"@,
        CommandKind::Version => "Show version information and ASCII banner"@,
        CommandKind::Start => "Start the mnemd daemon"@,
        CommandKind::Stop => "Stop the mnemd daemon gracefully"@,
        CommandKind::List => "List all tracked projects"@,
        CommandKind::Project => "Show detailed information about a specific project"@,
        CommandKind::History => "Show project history (snapshots over time)"@,
        CommandKind::Statistics => "Show cool and interesting project metrics"@,
        CommandKind::Watch => "Start watching directory and auto-save changes"@,
        CommandKind::Forget => "Remove a project from the registry"@,
        CommandKind::Checkpoints => "List all manual checkpoints for the current project"@,
        CommandKind::CheckpointInfo => "Show detailed information about a specific checkpoint"@,
        CommandKind::CommitInfo => "Show detailed information about a specific Git commit"@,
        CommandKind::GitEvent => "Internal command: link a Git commit to Mnemosyne snapshots"@,
        CommandKind::GitHook => "Install a Git post-commit hook for automatic checkpoints"@,
        CommandKind::LogCommits => "Show commits with their modified files"@,
        CommandKind::Log => "Show semantic history log for a file or specific symbol"@,
        CommandKind::Diff => "Show differences between file versions"@,
        CommandKind::Cat => "Print the content of a specific snapshot to stdout"@,
        CommandKind::Open => "Open a snapshot in your configured IDE"@,
        CommandKind::Timeline => "Show semantic evolution timeline of a symbol"@,
        CommandKind::SetupProtocol => "Register Mnemosyne protocol handler (macOS only)"@,
        CommandKind::Components => "UI component library preview and testing tool"@,
        CommandKind::Tui => "Start the interactive Text User Interface"@,
    }
}

/// Help group of a command.
pub open spec fn kind_group(k: CommandKind) -> Seq<char> {
    match k {
        CommandKind::Help => "General"@,
        CommandKind::Version => "General"@,
        CommandKind::Start => "Daemon"@,
        CommandKind::Stop => "Daemon"@,
        CommandKind::List => "Workspace"@,
        CommandKind::Project => "Workspace"@,
        CommandKind::History => "Workspace"@,
        CommandKind::Statistics => "Workspace"@,
        CommandKind::Watch => "Workspace"@,
        CommandKind::Forget => "Workspace"@,
        CommandKind::Checkpoints => "Workspace"@,
        CommandKind::CheckpointInfo => "Workspace"@,
        CommandKind::CommitInfo => "Git Integration"@,
        CommandKind::GitEvent => "Git Integration"@,
        CommandKind::GitHook => "Git Integration"@,
        CommandKind::LogCommits => "Git Integration"@,
        CommandKind::Log => "Files"@,
        CommandKind::Diff => "Files"@,
        CommandKind::Cat => "Files"@,
        CommandKind::Open => "Files"@,
        CommandKind::Timeline => "Files"@,
        CommandKind::SetupProtocol => "Maintenance"@,
        CommandKind::Components => "Apps"@,
        CommandKind::Tui => "Apps"@,
    }
}

/// Alternative names under which a command is found.
pub open spec fn kind_aliases(k: CommandKind) -> Seq<Seq<char>> {
    match k {
        CommandKind::Help => seq!["--help"@, "-h"@],
        CommandKind::Version => seq!["--version"@, "-v"@],
        CommandKind::Start => seq![],
        CommandKind::Stop => seq![],
        CommandKind::List => seq![],
        CommandKind::Project => seq![],
        CommandKind::History => seq![],
        CommandKind::Statistics => seq!["stats"@],
        CommandKind::Watch => seq![],
        CommandKind::Forget => seq![],
        CommandKind::Checkpoints => seq![],
        CommandKind::CheckpointInfo => seq![],
        CommandKind::CommitInfo => seq![],
        CommandKind::GitEvent => seq![],
        CommandKind::GitHook => seq![],
        CommandKind::LogCommits => seq![],
        CommandKind::Log => seq![],
        CommandKind::Diff => seq![],
        CommandKind::Cat => seq![],
        CommandKind::Open => seq!["o"@],
        CommandKind::Timeline => seq![],
        CommandKind::SetupProtocol => seq![],
        CommandKind::Components => seq![],
        CommandKind::Tui => seq![],
    }
}

/// The registry, in the order in which the dispatcher searches it.
pub open spec fn registry() -> Seq<CommandKind> {
    seq![
        CommandKind::Help,
        CommandKind::Version,
        CommandKind::Start,
        CommandKind::Stop,
        CommandKind::List,
        CommandKind::Project,
        CommandKind::History,
        CommandKind::Statistics,
        CommandKind::Watch,
        CommandKind::Forget,
        CommandKind::Checkpoints,
        CommandKind::CheckpointInfo,
        CommandKind::CommitInfo,
        CommandKind::GitEvent,
        CommandKind::GitHook,
        CommandKind::LogCommits,
        CommandKind::Log,
        CommandKind::Diff,
        CommandKind::Cat,
        CommandKind::Open,
        CommandKind::Timeline,
        CommandKind::SetupProtocol,
        CommandKind::Components,
        CommandKind::Tui,
    ]
}

impl CommandKind {
    /// The command's name.
    pub fn name(&self) -> (r: &'static str)
        ensures
            r@ == kind_name(*self),
    {
        match self {
            CommandKind::Help => "help",
            CommandKind::Version => "version",
            CommandKind::Start => "start",
            CommandKind::Stop => "stop",
            CommandKind::List => "list",
            CommandKind::Project => "project",
            CommandKind::History => "history",
            CommandKind::Statistics => "statistics",
            CommandKind::Watch => "watch",
            CommandKind::Forget => "forget",
            CommandKind::Checkpoints => "checkpoints",
            CommandKind::CheckpointInfo => "checkpoint-info",
            CommandKind::CommitInfo => "commit-info",
            CommandKind::GitEvent => "git-event",
            CommandKind::GitHook => "git-hook",
            CommandKind::LogCommits => "log-commits",
            CommandKind::Log => "log",
            CommandKind::Diff => "diff",
            CommandKind::Cat => "cat",
            CommandKind::Open => "open",
            CommandKind::Timeline => "timeline",
            CommandKind::SetupProtocol => "setup-protocol",
            CommandKind::Components => "components",
            CommandKind::Tui => "tui",
        }
    }

    /// The command's usage line.
    pub fn usage(&self) -> (r: &'static str)
        ensures
            r@ == kind_usage(*self),
    {
        match self {
            CommandKind::Help => "",
            CommandKind::Version => "",
            CommandKind::Start => "[--restart | -r]",
            CommandKind::Stop => "",
            CommandKind::List => "[--limit <n>]",
            CommandKind::Project => "<id>",
            CommandKind::History => "[--limit <n>]",
            CommandKind::Statistics => "",
            CommandKind::Watch => "[-p <path>]",
            CommandKind::Forget => "<id> [--prune]",
            CommandKind::Checkpoints => "",
            CommandKind::CheckpointInfo => "<id>",
            CommandKind::CommitInfo => "<hash>",
            CommandKind::GitEvent => "<hash> <message> <author> <timestamp>",
            CommandKind::GitHook => "",
            CommandKind::LogCommits => "[--limit <n>]",
            CommandKind::Log => "<file_path> [--symbol <name>]",
            CommandKind::Diff => "<file_path> <hash1> [hash2]",
            CommandKind::Cat => "<hash>",
            CommandKind::Open => "<hash>",
            CommandKind::Timeline => "<symbol_name>",
            CommandKind::SetupProtocol => "",
            CommandKind::Components => "[<component_name>]",
            CommandKind::Tui => "",
        }
    }

    /// The command's description.
    pub fn description(&self) -> (r: &'static str)
        ensures
            r@ == kind_description(*self),
    {
        match self {
            CommandKind::Help => "Show help information for all commands",
            CommandKind::Version => "Show version information and ASCII banner",
            CommandKind::Start => "Start the mnemd daemon",
            CommandKind::Stop => "Stop the mnemd daemon gracefully",
            CommandKind::List => "List all tracked projects",
            CommandKind::Project => "Show detailed information about a specific project",
            CommandKind::History => "Show project history (snapshots over time)",
            CommandKind::Statistics => "Show cool and interesting project metrics",
            CommandKind::Watch => "Start watching directory and auto-save changes",
            CommandKind::Forget => "Remove a project from the registry",
            CommandKind::Checkpoints => "List all manual checkpoints for the current project",
            CommandKind::CheckpointInfo => "Show detailed information about a specific checkpoint",
            CommandKind::CommitInfo => "Show detailed information about a specific Git commit",
            CommandKind::GitEvent => "Internal command: link a Git commit to Mnemosyne snapshots",
            CommandKind::GitHook => "Install a Git post-commit hook for automatic checkpoints",
            CommandKind::LogCommits => "Show commits with their modified files",
            CommandKind::Log => "Show semantic history log for a file or specific symbol",
            CommandKind::Diff => "Show differences between file versions",
            CommandKind::Cat => "Print the content of a specific snapshot to stdout",
            CommandKind::Open => "Open a snapshot in your configured IDE",
            CommandKind::Timeline => "Show semantic evolution timeline of a symbol",
            CommandKind::SetupProtocol => "Register Mnemosyne protocol handler (macOS only)",
            CommandKind::Components => "UI component library preview and testing tool",
            CommandKind::Tui => "Start the interactive Text User Interface",
        }
    }

    /// The command's help group.
    pub fn group(&self) -> (r: &'static str)
        ensures
            r@ == kind_group(*self),
    {
        match self {
            CommandKind::Help => "General",
            CommandKind::Version => "General",
            CommandKind::Start => "Daemon",
            CommandKind::Stop => "Daemon",
            CommandKind::List => "Workspace",
            CommandKind::Project => "Workspace",
            CommandKind::History => "Workspace",
            CommandKind::Statistics => "Workspace",
            CommandKind::Watch => "Workspace",
            CommandKind::Forget => "Workspace",
            CommandKind::Checkpoints => "Workspace",
            CommandKind::CheckpointInfo => "Workspace",
            CommandKind::CommitInfo => "Git Integration",
            CommandKind::GitEvent => "Git Integration",
            CommandKind::GitHook => "Git Integration",
            CommandKind::LogCommits => "Git Integration",
            CommandKind::Log => "Files",
            CommandKind::Diff => "Files",
            CommandKind::Cat => "Files",
            CommandKind::Open => "Files",
            CommandKind::Timeline => "Files",
            CommandKind::SetupProtocol => "Maintenance",
            CommandKind::Components => "Apps",
            CommandKind::Tui => "Apps",
        }
    }

    /// The command's aliases.
    pub fn aliases(&self) -> (r: Vec<&'static str>)
        ensures
            r@.len() == kind_aliases(*self).len(),
            forall|i: int| 0 <= i < r@.len() ==> (#[trigger] r@[i])@ == kind_aliases(*self)[i],
    {
        match self {
            CommandKind::Help => vec!["--help", "-h"],
            CommandKind::Version => vec!["--version", "-v"],
            CommandKind::Start => vec![],
            CommandKind::Stop => vec![],
            CommandKind::List => vec![],
            CommandKind::Project => vec![],
            CommandKind::History => vec![],
            CommandKind::Statistics => vec!["stats"],
            CommandKind::Watch => vec![],
            CommandKind::Forget => vec![],
            CommandKind::Checkpoints => vec![],
            CommandKind::CheckpointInfo => vec![],
            CommandKind::CommitInfo => vec![],
            CommandKind::GitEvent => vec![],
            CommandKind::GitHook => vec![],
            CommandKind::LogCommits => vec![],
            CommandKind::Log => vec![],
            CommandKind::Diff => vec![],
            CommandKind::Cat => vec![],
            CommandKind::Open => vec!["o"],
            CommandKind::Timeline => vec![],
            CommandKind::SetupProtocol => vec![],
            CommandKind::Components => vec![],
            CommandKind::Tui => vec![],
        }
    }
}

/// The registry as a vector, in search order.
pub fn all_commands() -> (r: Vec<CommandKind>)
    ensures
        r@ == registry(),
{
    let r = vec![
        CommandKind::Help,
        CommandKind::Version,
        CommandKind::Start,
        CommandKind::Stop,
        CommandKind::List,
        CommandKind::Project,
        CommandKind::History,
        CommandKind::Statistics,
        CommandKind::Watch,
        CommandKind::Forget,
        CommandKind::Checkpoints,
        CommandKind::CheckpointInfo,
        CommandKind::CommitInfo,
        CommandKind::GitEvent,
        CommandKind::GitHook,
        CommandKind::LogCommits,
        CommandKind::Log,
        CommandKind::Diff,
        CommandKind::Cat,
        CommandKind::Open,
        CommandKind::Timeline,
        CommandKind::SetupProtocol,
        CommandKind::Components,
        CommandKind::Tui,
    ];
    assert(r@ =~= registry());
    r
}

/// `cmd` is the command's name or one of its aliases.
pub open spec fn answers_to(k: CommandKind, cmd: Seq<char>) -> bool {
    kind_name(k) == cmd || kind_aliases(k).contains(cmd)
}

/// The first command of `reg` that answers to `cmd`.
pub open spec fn first_match(reg: Seq<CommandKind>, cmd: Seq<char>) -> Option<CommandKind>
    decreases reg.len(),
{
    if reg.len() == 0 {
        None
    } else if answers_to(reg[0], cmd) {
        Some(reg[0])
    } else {
        first_match(reg.drop_first(), cmd)
    }
}

/// The command that the dispatcher finds for `cmd`.
pub open spec fn lookup_spec(cmd: Seq<char>) -> Option<CommandKind> {
    first_match(registry(), cmd)
}

/// Whether the command answers to `cmd`.
pub fn answers(k: CommandKind, cmd: &str) -> (r: bool)
    ensures
        r == answers_to(k, cmd@),
{
    if str_eq(k.name(), cmd) {
        return true;
    }
    let al = k.aliases();
    let mut i: usize = 0;
    while i < al.len()
        invariant
            i <= al@.len(),
            al@.len() == kind_aliases(k).len(),
            forall|j: int| 0 <= j < al@.len() ==> (#[trigger] al@[j])@ == kind_aliases(k)[j],
            forall|j: int| 0 <= j < i ==> kind_aliases(k)[j] != cmd@,
            kind_name(k) != cmd@,
        decreases al.len() - i,
    {
        if str_eq(al[i], cmd) {
            assert(kind_aliases(k)[i as int] == cmd@);
            return true;
        }
        i = i + 1;
    }
    assert(!kind_aliases(k).contains(cmd@)) by {
        if kind_aliases(k).contains(cmd@) {
            let j = choose|j: int| 0 <= j < kind_aliases(k).len() && kind_aliases(k)[j] == cmd@;
            assert(kind_aliases(k)[j] != cmd@);
        }
    }
    false
}

/// Find the command registered under `cmd` (a name or an alias).
pub fn find_command(cmd: &str) -> (r: Option<CommandKind>)
    ensures
        r == lookup_spec(cmd@),
{
    let all = all_commands();
    let mut i: usize = 0;
    assert(registry().skip(0) =~= registry());
    while i < all.len()
        invariant
            all@ == registry(),
            i <= all@.len(),
            first_match(registry(), cmd@) == first_match(registry().skip(i as int), cmd@),
        decreases all.len() - i,
    {
        let k = all[i];
        assert(registry().skip(i as int)[0] == k);
        assert(registry().skip(i as int).drop_first() =~= registry().skip(i + 1));
        if answers(k, cmd) {
            return Some(k);
        }
        i = i + 1;
    }
    assert(registry().skip(i as int).len() == 0);
    None
}

/// The groups of the help listing, in the order it shows them.
pub open spec fn help_groups() -> Seq<Seq<char>> {
    seq!["General"@, "Daemon"@, "Workspace"@, "Git Integration"@, "Files"@, "Maintenance"@, "Apps"@]
}

/// The commands of the first `n` registry entries that belong to `group`.
pub open spec fn in_group(group: Seq<char>, n: int) -> Seq<CommandKind>
    decreases n,
{
    if n <= 0 {
        Seq::empty()
    } else {
        let k = registry()[n - 1];
        if kind_group(k) == group { in_group(group, n - 1).push(k) } else { in_group(group, n - 1) }
    }
}

/// The help listing's groups, in their order.
pub fn help_group_ids() -> (r: Vec<&'static str>)
    ensures
        r@.len() == help_groups().len(),
        forall|i: int| 0 <= i < r@.len() ==> (#[trigger] r@[i])@ == help_groups()[i],
{
    vec!["General", "Daemon", "Workspace", "Git Integration", "Files", "Maintenance", "Apps"]
}

/// The commands of the registry that belong to `group`, in registry order.
pub fn group_commands(group: &str) -> (r: Vec<CommandKind>)
    ensures
        r@ == in_group(group@, registry().len() as int),
{
    let all = all_commands();
    let mut out: Vec<CommandKind> = Vec::new();
    let mut i: usize = 0;
    while i < all.len()
        invariant
            all@ == registry(),
            i <= all@.len(),
            out@ == in_group(group@, i as int),
        decreases all.len() - i,
    {
        let k = all[i];
        if str_eq(k.group(), group) {
            out.push(k);
        }
        i = i + 1;
    }
    out
}

/// How the help listing names a command: its name, followed by its usage
/// when it has one.
pub fn command_label(k: CommandKind) -> (r: String)
    ensures
        r@ == (if kind_usage(k).len() == 0 { kind_name(k) } else { kind_name(k) + " "@ + kind_usage(k) }),
{
    let mut s = String::from_str(k.name());
    let u = k.usage();
    if u.unicode_len() > 0 {
        s.append(" ");
        s.append(u);
    }
    s
}

/// The metadata that every command of the registry exposes.
pub trait Command {
    /// Which registry entry this command is.
    spec fn spec_kind(&self) -> CommandKind;

    /// Which registry entry this command is.
    fn kind(&self) -> (r: CommandKind)
        ensures
            r == self.spec_kind(),
    ;

    /// The command's name.
    fn name(&self) -> (r: &'static str)
        ensures
            r@ == kind_name(self.spec_kind()),
    {
        self.kind().name()
    }

    /// The command's usage line.
    fn usage(&self) -> (r: &'static str)
        ensures
            r@ == kind_usage(self.spec_kind()),
    {
        self.kind().usage()
    }

    /// The command's description.
    fn description(&self) -> (r: &'static str)
        ensures
            r@ == kind_description(self.spec_kind()),
    {
        self.kind().description()
    }

    /// The command's help group.
    fn group(&self) -> (r: &'static str)
        ensures
            r@ == kind_group(self.spec_kind()),
    {
        self.kind().group()
    }

    /// The command's aliases.
    fn aliases(&self) -> (r: Vec<&'static str>)
        ensures
            r@.len() == kind_aliases(self.spec_kind()).len(),
            forall|i: int| 0 <= i < r@.len() ==> (#[trigger] r@[i])@ == kind_aliases(self.spec_kind())[i],
    {
        self.kind().aliases()
    }
}

/// The `Help` entry of the registry.
#[derive(Debug)]
pub struct HelpCommand;

impl Command for HelpCommand {
    open spec fn spec_kind(&self) -> CommandKind {
        CommandKind::Help
    }

    fn kind(&self) -> (r: CommandKind) {
        CommandKind::Help
    }
}

/// The `Version` entry of the registry.
#[derive(Debug)]
pub struct VersionCommand;

impl Command for VersionCommand {
    open spec fn spec_kind(&self) -> CommandKind {
        CommandKind::Version
    }

    fn kind(&self) -> (r: CommandKind) {
        CommandKind::Version
    }
}

/// The `Start` entry of the registry.
#[derive(Debug)]
pub struct StartCommand;

impl Command for StartCommand {
    open spec fn spec_kind(&self) -> CommandKind {
        CommandKind::Start
    }

    fn kind(&self) -> (r: CommandKind) {
        CommandKind::Start
    }
}

/// The `Stop` entry of the registry.
#[derive(Debug)]
pub struct StopCommand;

impl Command for StopCommand {
    open spec fn spec_kind(&self) -> CommandKind {
        CommandKind::Stop
    }

    fn kind(&self) -> (r: CommandKind) {
        CommandKind::Stop
    }
}

/// The `List` entry of the registry.
#[derive(Debug)]
pub struct ListCommand;

impl Command for ListCommand {
    open spec fn spec_kind(&self) -> CommandKind {
        CommandKind::List
    }

    fn kind(&self) -> (r: CommandKind) {
        CommandKind::List
    }
}

/// The `Project` entry of the registry.
#[derive(Debug)]
pub struct ProjectCommand;

impl Command for ProjectCommand {
    open spec fn spec_kind(&self) -> CommandKind {
        CommandKind::Project
    }

    fn kind(&self) -> (r: CommandKind) {
        CommandKind::Project
    }
}

/// The `History` entry of the registry.
#[derive(Debug)]
pub struct HistoryCommand;

impl Command for HistoryCommand {
    open spec fn spec_kind(&self) -> CommandKind {
        CommandKind::History
    }

    fn kind(&self) -> (r: CommandKind) {
        CommandKind::History
    }
}

/// The `Statistics` entry of the registry.
#[derive(Debug)]
pub struct StatisticsCommand;

impl Command for StatisticsCommand {
    open spec fn spec_kind(&self) -> CommandKind {
        CommandKind::Statistics
    }

    fn kind(&self) -> (r: CommandKind) {
        CommandKind::Statistics
    }
}

/// The `Watch` entry of the registry.
#[derive(Debug)]
pub struct WatchCommand;

impl Command for WatchCommand {
    open spec fn spec_kind(&self) -> CommandKind {
        CommandKind::Watch
    }

    fn kind(&self) -> (r: CommandKind) {
        CommandKind::Watch
    }
}

/// The `Forget` entry of the registry.
#[derive(Debug)]
pub struct ForgetCommand;

impl Command for ForgetCommand {
    open spec fn spec_kind(&self) -> CommandKind {
        CommandKind::Forget
    }

    fn kind(&self) -> (r: CommandKind) {
        CommandKind::Forget
    }
}

/// The `Checkpoints` entry of the registry.
#[derive(Debug)]
pub struct CheckpointsCommand;

impl Command for CheckpointsCommand {
    open spec fn spec_kind(&self) -> CommandKind {
        CommandKind::Checkpoints
    }

    fn kind(&self) -> (r: CommandKind) {
        CommandKind::Checkpoints
    }
}

/// The `CheckpointInfo` entry of the registry.
#[derive(Debug)]
pub struct CheckpointInfoCommand;

impl Command for CheckpointInfoCommand {
    open spec fn spec_kind(&self) -> CommandKind {
        CommandKind::CheckpointInfo
    }

    fn kind(&self) -> (r: CommandKind) {
        CommandKind::CheckpointInfo
    }
}

/// The `CommitInfo` entry of the registry.
#[derive(Debug)]
pub struct CommitInfoCommand;

impl Command for CommitInfoCommand {
    open spec fn spec_kind(&self) -> CommandKind {
        CommandKind::CommitInfo
    }

    fn kind(&self) -> (r: CommandKind) {
        CommandKind::CommitInfo
    }
}

/// The `GitEvent` entry of the registry.
#[derive(Debug)]
pub struct GitEventCommand;

impl Command for GitEventCommand {
    open spec fn spec_kind(&self) -> CommandKind {
        CommandKind::GitEvent
    }

    fn kind(&self) -> (r: CommandKind) {
        CommandKind::GitEvent
    }
}

/// The `GitHook` entry of the registry.
#[derive(Debug)]
pub struct GitHookCommand;

impl Command for GitHookCommand {
    open spec fn spec_kind(&self) -> CommandKind {
        CommandKind::GitHook
    }

    fn kind(&self) -> (r: CommandKind) {
        CommandKind::GitHook
    }
}

/// The `LogCommits` entry of the registry.
#[derive(Debug)]
pub struct LogCommitsCommand;

impl Command for LogCommitsCommand {
    open spec fn spec_kind(&self) -> CommandKind {
        CommandKind::LogCommits
    }

    fn kind(&self) -> (r: CommandKind) {
        CommandKind::LogCommits
    }
}

/// The `Log` entry of the registry.
#[derive(Debug)]
pub struct LogCommand;

impl Command for LogCommand {
    open spec fn spec_kind(&self) -> CommandKind {
        CommandKind::Log
    }

    fn kind(&self) -> (r: CommandKind) {
        CommandKind::Log
    }
}

/// The `Diff` entry of the registry.
#[derive(Debug)]
pub struct DiffCommand;

impl Command for DiffCommand {
    open spec fn spec_kind(&self) -> CommandKind {
        CommandKind::Diff
    }

    fn kind(&self) -> (r: CommandKind) {
        CommandKind::Diff
    }
}

/// The `Cat` entry of the registry.
#[derive(Debug)]
pub struct CatCommand;

impl Command for CatCommand {
    open spec fn spec_kind(&self) -> CommandKind {
        CommandKind::Cat
    }

    fn kind(&self) -> (r: CommandKind) {
        CommandKind::Cat
    }
}

/// The `Open` entry of the registry.
#[derive(Debug)]
pub struct OpenCommand;

impl Command for OpenCommand {
    open spec fn spec_kind(&self) -> CommandKind {
        CommandKind::Open
    }

    fn kind(&self) -> (r: CommandKind) {
        CommandKind::Open
    }
}

/// The `Timeline` entry of the registry.
#[derive(Debug)]
pub struct TimelineCommand;

impl Command for TimelineCommand {
    open spec fn spec_kind(&self) -> CommandKind {
        CommandKind::Timeline
    }

    fn kind(&self) -> (r: CommandKind) {
        CommandKind::Timeline
    }
}

/// The `SetupProtocol` entry of the registry.
#[derive(Debug)]
pub struct SetupProtocolCommand;

impl Command for SetupProtocolCommand {
    open spec fn spec_kind(&self) -> CommandKind {
        CommandKind::SetupProtocol
    }

    fn kind(&self) -> (r: CommandKind) {
        CommandKind::SetupProtocol
    }
}

/// The `Components` entry of the registry.
#[derive(Debug)]
pub struct ComponentsCommand;

impl Command for ComponentsCommand {
    open spec fn spec_kind(&self) -> CommandKind {
        CommandKind::Components
    }

    fn kind(&self) -> (r: CommandKind) {
        CommandKind::Components
    }
}

/// The `Tui` entry of the registry.
#[derive(Debug)]
pub struct TuiCommand;

impl Command for TuiCommand {
    open spec fn spec_kind(&self) -> CommandKind {
        CommandKind::Tui
    }

    fn kind(&self) -> (r: CommandKind) {
        CommandKind::Tui
    }
}

/// What tells the names of the registry apart: the length and a few
/// characters.
spec fn name_sig(s: Seq<char>) -> (nat, char, char, char) {
    (s.len(), s[0], if s.len() > 1 { s[1] } else { ' ' }, if s.len() > 3 { s[3] } else { ' ' })
}

/// The signature of each command's name.
spec fn kind_sig(k: CommandKind) -> (nat, char, char, char) {
    match k {
        CommandKind::Help => (4nat, 'h', 'e', 'p'),
        CommandKind::Version => (7nat, 'v', 'e', 's'),
        CommandKind::Start => (5nat, 's', 't', 'r'),
        CommandKind::Stop => (4nat, 's', 't', 'p'),
        CommandKind::List => (4nat, 'l', 'i', 't'),
        CommandKind::Project => (7nat, 'p', 'r', 'j'),
        CommandKind::History => (7nat, 'h', 'i', 't'),
        CommandKind::Statistics => (10nat, 's', 't', 't'),
        CommandKind::Watch => (5nat, 'w', 'a', 'c'),
        CommandKind::Forget => (6nat, 'f', 'o', 'g'),
        CommandKind::Checkpoints => (11nat, 'c', 'h', 'c'),
        CommandKind::CheckpointInfo => (15nat, 'c', 'h', 'c'),
        CommandKind::CommitInfo => (11nat, 'c', 'o', 'm'),
        CommandKind::GitEvent => (9nat, 'g', 'i', '-'),
        CommandKind::GitHook => (8nat, 'g', 'i', '-'),
        CommandKind::LogCommits => (11nat, 'l', 'o', '-'),
        CommandKind::Log => (3nat, 'l', 'o', ' '),
        CommandKind::Diff => (4nat, 'd', 'i', 'f'),
        CommandKind::Cat => (3nat, 'c', 'a', ' '),
        CommandKind::Open => (4nat, 'o', 'p', 'n'),
        CommandKind::Timeline => (8nat, 't', 'i', 'e'),
        CommandKind::SetupProtocol => (14nat, 's', 'e', 'u'),
        CommandKind::Components => (10nat, 'c', 'o', 'p'),
        CommandKind::Tui => (3nat, 't', 'u', ' '),
    }
}

proof fn lemma_name_sig(k: CommandKind)
    ensures
        name_sig(kind_name(k)) == kind_sig(k),
{
    match k {
        CommandKind::Help => {
            reveal_strlit("help");
            assert(name_sig("help"@) == (4nat, 'h', 'e', 'p'));
        },
        CommandKind::Version => {
            reveal_strlit("version");
            assert(name_sig("version"@) == (7nat, 'v', 'e', 's'));
        },
        CommandKind::Start => {
            reveal_strlit("start");
            assert(name_sig("start"@) == (5nat, 's', 't', 'r'));
        },
        CommandKind::Stop => {
            reveal_strlit("stop");
            assert(name_sig("stop"@) == (4nat, 's', 't', 'p'));
        },
        CommandKind::List => {
            reveal_strlit("list");
            assert(name_sig("list"@) == (4nat, 'l', 'i', 't'));
        },
        CommandKind::Project => {
            reveal_strlit("project");
            assert(name_sig("project"@) == (7nat, 'p', 'r', 'j'));
        },
        CommandKind::History => {
            reveal_strlit("history");
            assert(name_sig("history"@) == (7nat, 'h', 'i', 't'));
        },
        CommandKind::Statistics => {
            reveal_strlit("statistics");
            assert(name_sig("statistics"@) == (10nat, 's', 't', 't'));
        },
        CommandKind::Watch => {
            reveal_strlit("watch");
            assert(name_sig("watch"@) == (5nat, 'w', 'a', 'c'));
        },
        CommandKind::Forget => {
            reveal_strlit("forget");
            assert(name_sig("forget"@) == (6nat, 'f', 'o', 'g'));
        },
        CommandKind::Checkpoints => {
            reveal_strlit("checkpoints");
            assert(name_sig("checkpoints"@) == (11nat, 'c', 'h', 'c'));
        },
        CommandKind::CheckpointInfo => {
            reveal_strlit("checkpoint-info");
            assert(name_sig("checkpoint-info"@) == (15nat, 'c', 'h', 'c'));
        },
        CommandKind::CommitInfo => {
            reveal_strlit("commit-info");
            assert(name_sig("commit-info"@) == (11nat, 'c', 'o', 'm'));
        },
        CommandKind::GitEvent => {
            reveal_strlit("git-event");
            assert(name_sig("git-event"@) == (9nat, 'g', 'i', '-'));
        },
        CommandKind::GitHook => {
            reveal_strlit("git-hook");
            assert(name_sig("git-hook"@) == (8nat, 'g', 'i', '-'));
        },
        CommandKind::LogCommits => {
            reveal_strlit("log-commits");
            assert(name_sig("log-commits"@) == (11nat, 'l', 'o', '-'));
        },
        CommandKind::Log => {
            reveal_strlit("log");
            assert(name_sig("log"@) == (3nat, 'l', 'o', ' '));
        },
        CommandKind::Diff => {
            reveal_strlit("diff");
            assert(name_sig("diff"@) == (4nat, 'd', 'i', 'f'));
        },
        CommandKind::Cat => {
            reveal_strlit("cat");
            assert(name_sig("cat"@) == (3nat, 'c', 'a', ' '));
        },
        CommandKind::Open => {
            reveal_strlit("open");
            assert(name_sig("open"@) == (4nat, 'o', 'p', 'n'));
        },
        CommandKind::Timeline => {
            reveal_strlit("timeline");
            assert(name_sig("timeline"@) == (8nat, 't', 'i', 'e'));
        },
        CommandKind::SetupProtocol => {
            reveal_strlit("setup-protocol");
            assert(name_sig("setup-protocol"@) == (14nat, 's', 'e', 'u'));
        },
        CommandKind::Components => {
            reveal_strlit("components");
            assert(name_sig("components"@) == (10nat, 'c', 'o', 'p'));
        },
        CommandKind::Tui => {
            reveal_strlit("tui");
            assert(name_sig("tui"@) == (3nat, 't', 'u', ' '));
        },
    }
}

proof fn lemma_alias_sigs()
    ensures
        name_sig("--help"@) == (6nat, '-', '-', 'e'),
        name_sig("-h"@) == (2nat, '-', 'h', ' '),
        name_sig("--version"@) == (9nat, '-', '-', 'e'),
        name_sig("-v"@) == (2nat, '-', 'v', ' '),
        name_sig("stats"@) == (5nat, 's', 't', 't'),
        name_sig("o"@) == (1nat, 'o', ' ', ' '),
{
    reveal_strlit("--help");
    assert(name_sig("--help"@) == (6nat, '-', '-', 'e'));
    reveal_strlit("-h");
    assert(name_sig("-h"@) == (2nat, '-', 'h', ' '));
    reveal_strlit("--version");
    assert(name_sig("--version"@) == (9nat, '-', '-', 'e'));
    reveal_strlit("-v");
    assert(name_sig("-v"@) == (2nat, '-', 'v', ' '));
    reveal_strlit("stats");
    assert(name_sig("stats"@) == (5nat, 's', 't', 't'));
    reveal_strlit("o");
    assert(name_sig("o"@) == (1nat, 'o', ' ', ' '));
}

proof fn lemma_alias_of(a: CommandKind, c: Seq<char>)
    requires
        kind_aliases(a).contains(c),
    ensures
        (a == CommandKind::Help && (c == "--help"@ || c == "-h"@))
        || (a == CommandKind::Version && (c == "--version"@ || c == "-v"@))
        || (a == CommandKind::Statistics && c == "stats"@)
        || (a == CommandKind::Open && c == "o"@),
{
    let i = choose|i: int| 0 <= i < kind_aliases(a).len() && kind_aliases(a)[i] == c;
}

proof fn lemma_in_registry(k: CommandKind)
    ensures
        registry().contains(k),
{
    match k {
        CommandKind::Help => { assert(registry()[0] == k); },
        CommandKind::Version => { assert(registry()[1] == k); },
        CommandKind::Start => { assert(registry()[2] == k); },
        CommandKind::Stop => { assert(registry()[3] == k); },
        CommandKind::List => { assert(registry()[4] == k); },
        CommandKind::Project => { assert(registry()[5] == k); },
        CommandKind::History => { assert(registry()[6] == k); },
        CommandKind::Statistics => { assert(registry()[7] == k); },
        CommandKind::Watch => { assert(registry()[8] == k); },
        CommandKind::Forget => { assert(registry()[9] == k); },
        CommandKind::Checkpoints => { assert(registry()[10] == k); },
        CommandKind::CheckpointInfo => { assert(registry()[11] == k); },
        CommandKind::CommitInfo => { assert(registry()[12] == k); },
        CommandKind::GitEvent => { assert(registry()[13] == k); },
        CommandKind::GitHook => { assert(registry()[14] == k); },
        CommandKind::LogCommits => { assert(registry()[15] == k); },
        CommandKind::Log => { assert(registry()[16] == k); },
        CommandKind::Diff => { assert(registry()[17] == k); },
        CommandKind::Cat => { assert(registry()[18] == k); },
        CommandKind::Open => { assert(registry()[19] == k); },
        CommandKind::Timeline => { assert(registry()[20] == k); },
        CommandKind::SetupProtocol => { assert(registry()[21] == k); },
        CommandKind::Components => { assert(registry()[22] == k); },
        CommandKind::Tui => { assert(registry()[23] == k); },
    }
}

/// The first command of `reg` that answers to `cmd` is `k` when `k` is in
/// `reg` and no other command answers to `cmd`.
proof fn lemma_first_match_only(reg: Seq<CommandKind>, cmd: Seq<char>, k: CommandKind)
    requires
        reg.contains(k),
        forall|a: CommandKind| #[trigger] answers_to(a, cmd) <==> a == k,
    ensures
        first_match(reg, cmd) == Some(k),
    decreases reg.len(),
{
    if reg[0] != k {
        let j = choose|j: int| 0 <= j < reg.len() && reg[j] == k;
        assert(reg.drop_first()[j - 1] == k);
        lemma_first_match_only(reg.drop_first(), cmd, k);
    }
}

/// Every command is found under its name and under each of its aliases:
/// no entry of the registry hides another.
pub proof fn law_commands_found_by_name(k: CommandKind)
    ensures
        lookup_spec(kind_name(k)) == Some(k),
        forall|i: int| 0 <= i < kind_aliases(k).len() ==> lookup_spec(#[trigger] kind_aliases(k)[i]) == Some(k),
{
    lemma_in_registry(k);
    lemma_alias_sigs();
    lemma_name_sig(k);
    assert forall|a: CommandKind| #[trigger] answers_to(a, kind_name(k)) <==> a == k by {
        lemma_name_sig(a);
        if kind_aliases(a).contains(kind_name(k)) {
            lemma_alias_of(a, kind_name(k));
        }
        if a == k {
            assert(kind_name(a) == kind_name(k));
        }
    }
    lemma_first_match_only(registry(), kind_name(k), k);
    assert forall|i: int| 0 <= i < kind_aliases(k).len() implies lookup_spec(#[trigger] kind_aliases(k)[i]) == Some(k) by {
        let c = kind_aliases(k)[i];
        assert(kind_aliases(k).contains(c));
        lemma_alias_of(k, c);
        assert forall|a: CommandKind| #[trigger] answers_to(a, c) <==> a == k by {
            lemma_name_sig(a);
            if kind_aliases(a).contains(c) {
                lemma_alias_of(a, c);
            }
        }
        lemma_first_match_only(registry(), c, k);
    }
}

} // verus!
