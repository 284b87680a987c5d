//! The help page: its title, sections and rows, in the words of the chosen
//! language where it has them.

use vstd::prelude::*;
use crate::text::str_eq;

verus! {

/// The translated texts the help page uses.
#[derive(Debug, Clone)]
pub struct HelpTexts {
    pub app_name: String,
    pub tagline: String,
    pub core_ops_header: String,
    pub cmd_default_desc: String,
    pub cmd_start_desc: String,
    pub cmd_stop_desc: String,
    pub project_history_header: String,
    pub cmd_list_desc: String,
    pub cmd_log_desc: String,
    pub cmd_search_desc: String,
    pub maintenance_header: String,
    pub cmd_status_desc: String,
    pub cmd_config_desc: String,
    pub learn_more: String,
}

/// A command and what it does.
#[derive(Debug, Clone)]
pub struct HelpRow {
    pub command: String,
    pub description: String,
}

/// A titled group of commands.
#[derive(Debug, Clone)]
pub struct HelpSection {
    pub header: String,
    pub rows: Vec<HelpRow>,
}

/// The whole help page.
#[derive(Debug, Clone)]
pub struct HelpPage {
    pub title: String,
    pub tagline: String,
    pub sections: Vec<HelpSection>,
    pub footer: String,
}

/// The rows of a section as plain pairs.
pub open spec fn rows_view(rows: Seq<HelpRow>) -> Seq<(Seq<char>, Seq<char>)> {
    rows.map_values(|r: HelpRow| (r.command@, r.description@))
}

/// The rows of the core operations.
pub open spec fn core_rows(t: HelpTexts) -> Seq<(Seq<char>, Seq<char>)> {
    seq![
        ("(default)"@, "Show project activity (if in repo) or list"@),
        ("tui"@, t.cmd_default_desc@),
        ("start"@, t.cmd_start_desc@),
        ("stop"@, t.cmd_stop_desc@),
        ("version"@, "Show version info and ASCII banner"@),
    ]
}

/// The rows of the project history commands.
pub open spec fn history_rows(t: HelpTexts) -> Seq<(Seq<char>, Seq<char>)> {
    seq![
        ("list"@, t.cmd_list_desc@),
        ("watch [-p]"@, "Track current or specific project in background"@),
        ("forget <id>"@, "Remove a project from registry (use --prune to nuke data)"@),
        ("project <id>"@, "Show detailed info and stats for a specific project"@),
        ("log <file>"@, t.cmd_log_desc@),
        ("timeline <s>"@, "Show semantic evolution of a symbol"@),
        ("search <q>"@, t.cmd_search_desc@),
        ("diff <f> <h>"@, "Show differences between file versions"@),
        ("history"@, "Show project or global history feed"@),
        ("statistics"@, "Show cool and interesting project metrics"@),
        ("open <hash>"@, "Open a snapshot in your IDE (Zed, VSCode...)"@),
        ("restore <f>"@, "Restore a file to a specific hash"@),
        ("checkpoint"@, "Create a manual project-wide semantic snapshot"@),
        ("commits"@, "List all Git commits"@),
        ("commit-info <hash>"@, "Show details of a specific commit"@),
        ("log-commits"@, "Show commits with modified files"@),
    ]
}

/// The rows of the maintenance commands.
pub open spec fn maintenance_rows(t: HelpTexts) -> Seq<(Seq<char>, Seq<char>)> {
    seq![
        ("status"@, t.cmd_status_desc@),
        ("config set"@, t.cmd_config_desc@),
        ("gc"@, "Prune old snapshots and optimize storage"@),
    ]
}

/// The rows of the integrations.
pub open spec fn integration_rows() -> Seq<(Seq<char>, Seq<char>)> {
    seq![
        ("git-hook"@, "Install a post-commit hook for automatic checkpoints"@),
        ("git-event"@, "Internal command to link Git commits (called by hook)"@),
    ]
}

/// A row made of two texts.
fn row(command: &str, description: &str) -> (r: HelpRow)
    ensures
        r.command@ == command@,
        r.description@ == description@,
{
    HelpRow { command: String::from_str(command), description: String::from_str(description) }
}

/// The help page for program version `version`.
pub fn help(t: &HelpTexts, version: &str) -> (r: HelpPage)
    ensures
        r.title@ == t.app_name@ + " [v"@ + version@ + "]"@,
        r.tagline@ == t.tagline@,
        r.footer@ == t.learn_more@ + ": https://github.com/alessandrobrunoh/mnemosyne"@,
        r.sections@.len() == 4,
        r.sections@[0].header@ == t.core_ops_header@,
        rows_view(r.sections@[0].rows@) == core_rows(*t),
        r.sections@[1].header@ == t.project_history_header@,
        rows_view(r.sections@[1].rows@) == history_rows(*t),
        r.sections@[2].header@ == t.maintenance_header@,
        rows_view(r.sections@[2].rows@) == maintenance_rows(*t),
        r.sections@[3].header@ == "INTEGRATIONS"@,
        rows_view(r.sections@[3].rows@) == integration_rows(),
{
    let mut title = t.app_name.clone();
    title.append(" [v");
    title.append(version);
    title.append("]");

    let mut core: Vec<HelpRow> = Vec::new();
    core.push(row("(default)", "Show project activity (if in repo) or list"));
    core.push(row("tui", t.cmd_default_desc.as_str()));
    core.push(row("start", t.cmd_start_desc.as_str()));
    core.push(row("stop", t.cmd_stop_desc.as_str()));
    core.push(row("version", "Show version info and ASCII banner"));
    assert(rows_view(core@) =~= core_rows(*t));

    let mut hist: Vec<HelpRow> = Vec::new();
    hist.push(row("list", t.cmd_list_desc.as_str()));
    hist.push(row("watch [-p]", "Track current or specific project in background"));
    hist.push(row("forget <id>", "Remove a project from registry (use --prune to nuke data)"));
    hist.push(row("project <id>", "Show detailed info and stats for a specific project"));
    hist.push(row("log <file>", t.cmd_log_desc.as_str()));
    hist.push(row("timeline <s>", "Show semantic evolution of a symbol"));
    hist.push(row("search <q>", t.cmd_search_desc.as_str()));
    hist.push(row("diff <f> <h>", "Show differences between file versions"));
    hist.push(row("history", "Show project or global history feed"));
    hist.push(row("statistics", "Show cool and interesting project metrics"));
    hist.push(row("open <hash>", "Open a snapshot in your IDE (Zed, VSCode...)"));
    hist.push(row("restore <f>", "Restore a file to a specific hash"));
    hist.push(row("checkpoint", "Create a manual project-wide semantic snapshot"));
    hist.push(row("commits", "List all Git commits"));
    hist.push(row("commit-info <hash>", "Show details of a specific commit"));
    hist.push(row("log-commits", "Show commits with modified files"));
    assert(rows_view(hist@) =~= history_rows(*t));

    let mut maint: Vec<HelpRow> = Vec::new();
    maint.push(row("status", t.cmd_status_desc.as_str()));
    maint.push(row("config set", t.cmd_config_desc.as_str()));
    maint.push(row("gc", "Prune old snapshots and optimize storage"));
    assert(rows_view(maint@) =~= maintenance_rows(*t));

    let mut integ: Vec<HelpRow> = Vec::new();
    integ.push(row("git-hook", "Install a post-commit hook for automatic checkpoints"));
    integ.push(row("git-event", "Internal command to link Git commits (called by hook)"));
    assert(rows_view(integ@) =~= integration_rows());

    let mut sections: Vec<HelpSection> = Vec::new();
    sections.push(HelpSection { header: t.core_ops_header.clone(), rows: core });
    sections.push(HelpSection { header: t.project_history_header.clone(), rows: hist });
    sections.push(HelpSection { header: t.maintenance_header.clone(), rows: maint });
    sections.push(HelpSection { header: String::from_str("INTEGRATIONS"), rows: integ });

    let mut footer = t.learn_more.clone();
    footer.append(": https://github.com/alessandrobrunoh/mnemosyne");
    HelpPage { title, tagline: t.tagline.clone(), sections, footer }
}

/// The header of a group of the command listing: the translated ones for
/// the core, project history and maintenance groups, fixed words for the
/// others (`APPLICATIONS` for any group not named here).
pub open spec fn group_header_spec(group: Seq<char>, t: HelpTexts) -> Seq<char> {
    if group == "General"@ {
        t.core_ops_header@
    } else if group == "Daemon"@ {
        "DAEMON"@
    } else if group == "Workspace"@ {
        t.project_history_header@
    } else if group == "Git Integration"@ {
        "INTEGRATIONS"@
    } else if group == "Files"@ {
        "FILES"@
    } else if group == "Maintenance"@ {
        t.maintenance_header@
    } else {
        "APPLICATIONS"@
    }
}

/// The header of a group of the command listing.
pub fn group_header(group: &str, t: &HelpTexts) -> (r: String)
    ensures
        r@ == group_header_spec(group@, *t),
{
    if str_eq(group, "General") {
        t.core_ops_header.clone()
    } else if str_eq(group, "Daemon") {
        String::from_str("DAEMON")
    } else if str_eq(group, "Workspace") {
        t.project_history_header.clone()
    } else if str_eq(group, "Git Integration") {
        String::from_str("INTEGRATIONS")
    } else if str_eq(group, "Files") {
        String::from_str("FILES")
    } else if str_eq(group, "Maintenance") {
        t.maintenance_header.clone()
    } else {
        String::from_str("APPLICATIONS")
    }
}

} // verus!
