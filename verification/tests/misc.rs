use mnem_cli::blame::{blame_versions, SymbolChange};
use mnem_cli::checkpoint::{checkpoint_message, checkpoint_row, cp_plan, cp_time, short_id, CheckpointCommand, CheckpointInfo, CheckpointPlan, CpPlan};
use mnem_cli::daemon::{
    gc_response, mcp_request, mcp_start_response, mcp_status, mcp_status_error, mcp_stop_response, off_response,
    on_response, start_report, stop_report, unknown_mcp_subcommand, wants_restart, EnsureOutcome, GcReply, McpReply,
    McpRequest,
};
use mnem_cli::diffcmd::{diff_line_kind, diff_versions, DiffLineKind, DiffRangeError};
use mnem_cli::filehistory::{clear_report, filter_by_branch, handle_timeline_view, ClearOutcome};
use mnem_cli::files::{change_name, diff_target, ide_app_name, log_time, record_label, snapshot_temp_name, symbol_arg, DiffTarget, RecordKind};
use mnem_cli::help::{help, HelpTexts};
use mnem_cli::info::{failure_code, kind_icon, open_failure, tally, OpenFailure, Touch};
use mnem_cli::options::GlobalOptions;
use mnem_cli::paths::{extension, get_filename, should_ignore, strip_dot_prefix, uses_tree_sitter};
use mnem_cli::projects::{arg_after, containing_project, find_named, list_order, list_tag, listable_projects, project_not_found, project_query, wants_prune};
use mnem_cli::activity::ProjectEntry;
use mnem_cli::tui::Ide;
use mnem_cli::update::{find_unix_zip_asset, find_windows_zip_asset, missing_binaries, missing_error, release_version, UpdateResponse};

fn strings(v: &[&str]) -> Vec<String> {
    v.iter().map(|s| s.to_string()).collect()
}

#[test]
fn daemon_answers() {
    let r = on_response(&EnsureOutcome::Started);
    assert!(r.success);
    assert_eq!(r.message, "mnem daemon started");
    assert_eq!(r.code, Some("DAEMON_STARTED".to_string()));
    let r = on_response(&EnsureOutcome::Failed("boom".to_string()));
    assert!(!r.success);
    assert_eq!(r.message, "Failed to start daemon: boom");
    assert_eq!(off_response(false).code, Some("DAEMON_NOT_RUNNING".to_string()));
    assert!(wants_restart(&strings(&["mnem", "start", "-r"])));
    assert!(!wants_restart(&strings(&["mnem", "start"])));
    assert_eq!(start_report(&EnsureOutcome::AlreadyRunning, true), (true, "mnemd daemon restarted.".to_string()));
    assert_eq!(stop_report(true), "Daemon shutdown requested.");
    let s = mcp_start_response(&McpReply::Done { pid: Some(42) });
    assert_eq!(s.message, "MCP server started (PID: 42)");
    let s = mcp_start_response(&McpReply::Done { pid: None });
    assert_eq!(s.message, "MCP server started (PID: 0)");
    let s = mcp_start_response(&McpReply::Refused("\"busy\"".to_string()));
    assert_eq!(s.message, "Failed: \"busy\"");
    assert_eq!(s.code, Some("MCP_START_FAILED".to_string()));
    let s = mcp_stop_response(&McpReply::NoDaemon, true);
    assert_eq!(s.message, "Daemon is not running");
    let s = mcp_stop_response(&McpReply::CallFailed("x".to_string()), false);
    assert_eq!(s.message, "Failed to stop MCP: x");
    let st = mcp_status(None, Some(3), None);
    assert!(!st.running);
    assert_eq!(st.transport, "stdio");
    assert_eq!(mcp_request("status"), McpRequest::Status);
    assert_eq!(mcp_request("reboot"), McpRequest::Unknown);
    assert_eq!(mcp_status_error("e"), "Failed to get MCP status: e");
    assert_eq!(unknown_mcp_subcommand("x"), "Unknown MCP subcommand: x");
    let g = gc_response(&GcReply::Pruned(12));
    assert_eq!(g.message, "Successfully pruned 12 orphan chunks.");
    assert_eq!(g.code, Some("GC_SUCCESS".to_string()));
}

#[test]
fn updates() {
    assert_eq!(release_version("vv1.2.3"), "1.2.3");
    let r = UpdateResponse::checked("1.2.3", "v1.2.3", false);
    assert!(!r.update_available);
    assert_eq!(r.message, "Already on latest version");
    let mut r = UpdateResponse::checked("1.2.3", "v1.3.0", true);
    assert!(r.update_available);
    assert_eq!(r.latest_version, "1.3.0");
    r.installed(Err("no disk".to_string()));
    assert!(!r.success);
    assert_eq!(r.message, "Installation failed: no disk");
    let names = strings(&["notes.txt", "MNEM-Linux-x86_64.zip", "mnem-macos-arm64.zip", "mnem-windows.zip"]);
    assert_eq!(find_unix_zip_asset(&names, "linux", "x86_64"), Ok(1));
    assert_eq!(find_unix_zip_asset(&names, "macos", "arm64"), Ok(2));
    assert_eq!(
        find_unix_zip_asset(&names, "linux", "arm64"),
        Err("ZIP asset not found in release for linux-arm64. Expected mnem-linux-arm64.zip".to_string())
    );
    assert_eq!(find_windows_zip_asset(&names, "v1"), Ok(3));
    let missing = missing_binaries(&strings(&["mnem", "mnem-daemon"]), &strings(&["mnem"]));
    assert_eq!(missing, strings(&["mnem-daemon"]));
    assert_eq!(missing_error(&strings(&["a", "b"])), "The following binaries were not found in the archive: a, b");
}

#[test]
fn blame_versions_are_filtered_and_numbered() {
    let c = |email: &str, name: &str| SymbolChange {
        timestamp: "t".to_string(),
        git_user_name: "Ann".to_string(),
        git_user_email: email.to_string(),
        symbol_kind: "fn".to_string(),
        symbol_name: name.to_string(),
        complexity: 3,
        start_line: 1,
        end_line: 9,
    };
    let h = vec![c("a@x", "f"), c("b@x", "g"), c("a@x", "h")];
    let v = blame_versions(&h, &Some("a@x".to_string()), 50);
    assert_eq!(v.len(), 2);
    assert_eq!(v[1].version, 2);
    assert_eq!(v[1].changes, strings(&["fn h"]));
    assert_eq!(v[0].git_user, "Ann <a@x>");
    assert_eq!(blame_versions(&h, &None, 1).len(), 1);
}

#[test]
fn checkpoints() {
    let cmd = CheckpointCommand { name: None, list: false, remove: false, history: false, show: false, update: None, message: None };
    let p = cmd.plan();
    assert!(matches!(p, CheckpointPlan::MissingName));
    assert_eq!(checkpoint_message(&p), "Specify a checkpoint name (or use --list)");
    let cmd = CheckpointCommand { name: Some("v1".to_string()), update: Some("a.rs".to_string()), ..cmd };
    let p = cmd.plan();
    assert_eq!(checkpoint_message(&p), "Updated file 'a.rs' in checkpoint 'v1'");
    let row = checkpoint_row(&CheckpointInfo {
        name: "v1".to_string(),
        git_branch: None,
        file_count: 4,
        timestamp: "2024-01-02T03:04:05Z".to_string(),
        description: None,
    })
    .unwrap();
    assert_eq!(row, strings(&["v1", "main", "4", "2024-01-02 03:04", "-"]));
    assert!(matches!(cp_plan(&Some("abc".to_string()), false, &None, true, false, false), CpPlan::Info(ref id) if id == "abc"));
    assert!(matches!(cp_plan(&None, false, &None, false, true, false), CpPlan::MissingId));
    assert!(matches!(cp_plan(&Some("msg".to_string()), false, &None, false, false, false), CpPlan::Create(Some(ref m)) if m == "msg"));
    assert_eq!(cp_time("2024-01-02T03:04:05.123Z"), "2024-01-02 03:04:05");
    assert_eq!(cp_time("plain"), "plain");
    assert_eq!(short_id("0123456789"), "01234567");
}

#[test]
fn diffs_and_files() {
    assert_eq!(diff_versions(None, None, 5), Ok((2, 1)));
    assert_eq!(diff_versions(Some(9), Some(3), 5), Ok((5, 3)));
    assert_eq!(diff_versions(Some(1), Some(2), 5), Err(DiffRangeError::Reversed));
    assert_eq!(diff_versions(None, None, 1), Ok((1, 1)));
    assert_eq!(diff_line_kind("+x"), DiffLineKind::Added);
    assert_eq!(diff_line_kind("+++ b"), DiffLineKind::FileHeader);
    assert_eq!(diff_line_kind("-x"), DiffLineKind::Removed);
    assert_eq!(diff_line_kind("@@ -1 +1 @@"), DiffLineKind::Header);
    assert_eq!(diff_line_kind(" x"), DiffLineKind::Context);
    assert_eq!(symbol_arg(&strings(&["mnem", "log", "-s", "foo"])), Some("foo".to_string()));
    assert_eq!(symbol_arg(&strings(&["mnem", "log", "--symbol"])), None);
    assert!(matches!(diff_target(&strings(&["mnem", "diff", "f", "h1"])), DiffTarget::Disk));
    assert_eq!(snapshot_temp_name("0123456789", Some("rs")), Some("mnem_snap_01234567.rs".to_string()));
    assert_eq!(snapshot_temp_name("abc", None), Some("mnem_snap_abc.txt".to_string()));
    assert_eq!(ide_app_name(Ide::VsCode), "Visual Studio Code");
    assert_eq!(record_label(RecordKind::Renamed), "RENAMED");
    assert_eq!(change_name("a", Some("b")), "a → b");
    assert_eq!(log_time("2024-01-02T03:04:05Z"), "2024-01-02 03:04");
    assert_eq!(log_time("later"), "later");
}

#[test]
fn history_helpers() {
    assert_eq!(clear_report(&ClearOutcome::Cleared(3)), (true, "Successfully cleared history (3 snapshots deleted)".to_string()));
    assert_eq!(clear_report(&ClearOutcome::NoDaemon).1, "Daemon must be running to clear history");
    let b = vec![Some("dev".to_string()), None, Some("main".to_string())];
    assert_eq!(filter_by_branch(&b, "main"), vec![1, 2]);
    assert_eq!(handle_timeline_view(&None), Err("Use --file to specify a file for timeline".to_string()));
    assert_eq!(handle_timeline_view(&Some("a.rs".to_string())), Ok("a.rs".to_string()));
}

#[test]
fn paths() {
    assert_eq!(get_filename("src/main.rs"), "main.rs");
    assert_eq!(get_filename("/"), "/");
    assert_eq!(get_filename("a/.."), "a/..");
    assert!(should_ignore("repo/.git/HEAD"));
    assert!(should_ignore("app.log"));
    assert!(!should_ignore("src/lib.rs"));
    assert_eq!(extension("a.tar.gz"), "gz");
    assert_eq!(extension("Makefile"), "Makefile");
    assert!(uses_tree_sitter("x/y.rs"));
    assert!(!uses_tree_sitter("x/y.py"));
    assert_eq!(strip_dot_prefix("./a"), "a");
    assert_eq!(strip_dot_prefix(".\\a"), "a");
    assert_eq!(strip_dot_prefix("././a"), "./a");
}

#[test]
fn projects() {
    let p = |id: &str, name: &str, path: &str| ProjectEntry { id: id.to_string(), name: name.to_string(), path: path.to_string(), last_open: String::new() };
    let ps = vec![p("aa11", "", "/x"), p("bb22", "two", "/two"), p("cc33", "root", "/")];
    assert_eq!(listable_projects(&ps), vec![1]);
    assert_eq!(list_tag(3), "03");
    assert_eq!(list_tag(12), "12");
    assert_eq!(find_named(&ps, "/two", true), Some(1));
    assert_eq!(find_named(&ps, "/two", false), None);
    assert_eq!(find_named(&ps, "cc", false), Some(2));
    assert_eq!(project_query(&strings(&["mnem", "project"])), Err("Project ID is required".to_string()));
    assert_eq!(project_query(&strings(&["mnem", "abcd"])), Ok("abcd".to_string()));
    assert_eq!(project_not_found("q", true), "Project not found with ID: q");
    assert!(wants_prune(&strings(&["mnem", "forget", "x", "--nuke"])));
    assert_eq!(arg_after(&strings(&["mnem", "watch", "-p", "dir"]), "-p"), Some("dir".to_string()));
}

#[test]
fn list_shows_latest_opened_first() {
    let p = |name: &str, path: &str, at: &str| ProjectEntry {
        id: name.to_string(),
        name: name.to_string(),
        path: path.to_string(),
        last_open: at.to_string(),
    };
    let ps = vec![
        p("a", "/a", "2024-01-01T10:00:00Z"),
        p("unknown", "/u", "2025-01-01T10:00:00Z"),
        p("b", "/b", "2024-03-01T10:00:00Z"),
        p("c", "/c", "2024-01-01T10:00:00Z"),
        p("d", "/", "2026-01-01T10:00:00Z"),
        p("e", "/e", "2024-02-01T10:00:00Z"),
    ];
    assert_eq!(list_order(&ps, 10), (vec![2, 5, 0, 3], 4));
    assert_eq!(list_order(&ps, 2), (vec![2, 5], 4));
    assert_eq!(list_order(&ps, 0), (vec![], 4));
    assert_eq!(list_order(&vec![], 5), (vec![], 0));
}

#[test]
fn deepest_project_holds_the_directory() {
    let p = |id: &str, name: &str, path: &str| ProjectEntry { id: id.to_string(), name: name.to_string(), path: path.to_string(), last_open: String::new() };
    let ps = vec![
        p("01", "home", "/Users/bob"),
        p("02", "proj", "/work/proj"),
        p("03", "sub", "/work/proj/sub"),
        p("04", "unknown", "/work/proj/sub/deeper"),
        p("05", "root", "/"),
        p("06", "twin", "/work/proj/bus"),
    ];
    assert_eq!(containing_project(&ps, "/work/proj/sub/deeper/x"), Some(2));
    assert_eq!(containing_project(&ps, "/work/proj"), Some(1));
    assert_eq!(containing_project(&ps, "/work/proj/bus/a"), Some(5));
    assert_eq!(containing_project(&ps, "/work/projx"), None);
    assert_eq!(containing_project(&ps, "/Users/bob/code"), None);
    let same = vec![p("a", "one", "/w/ab"), p("b", "two", "/w/ab")];
    assert_eq!(containing_project(&same, "/w/ab/c"), Some(0));
    let users = vec![p("c", "deep", "/Users/bob/code")];
    assert_eq!(containing_project(&users, "/Users/bob/code/x"), Some(0));
}

#[test]
fn info_figures() {
    let t = |f: &str, b: Option<&str>| Touch { file_path: f.to_string(), git_branch: b.map(|s| s.to_string()) };
    let r = tally(&vec![t("a.rs", None), t("b.rs", Some("dev")), t("a.rs", Some("main")), t("README", None)]);
    assert_eq!(r.files, strings(&["a.rs", "b.rs", "README"]));
    assert_eq!(r.branches, strings(&["main", "dev"]));
    assert_eq!(r.kinds.len(), 2);
    assert_eq!(r.kinds[0].key, "rs");
    assert_eq!(r.kinds[0].positions, vec![0, 1]);
    assert_eq!(r.kinds[1].key, "no ext");
    assert_eq!(kind_icon("tsx"), "📜");
    assert_eq!(kind_icon("zig"), "📄");
    assert_eq!(open_failure("Database already open", true, false), OpenFailure::Locked);
    assert_eq!(open_failure("Database already open", true, true), OpenFailure::Other);
    assert_eq!(open_failure("oops", false, true), OpenFailure::NotTracked);
    assert_eq!(failure_code(OpenFailure::Locked), "DB_LOCKED");
    let g = GlobalOptions::new(None, true);
    assert!(g.json);
}

#[test]
fn help_page() {
    let s = |x: &str| x.to_string();
    let t = HelpTexts {
        app_name: s("Mnemosyne"),
        tagline: s("tag"),
        core_ops_header: s("CORE"),
        cmd_default_desc: s("d"),
        cmd_start_desc: s("st"),
        cmd_stop_desc: s("sp"),
        project_history_header: s("HIST"),
        cmd_list_desc: s("l"),
        cmd_log_desc: s("lg"),
        cmd_search_desc: s("se"),
        maintenance_header: s("MAINT"),
        cmd_status_desc: s("ss"),
        cmd_config_desc: s("cf"),
        learn_more: s("More"),
    };
    let page = help(&t, "0.1.0");
    assert_eq!(page.title, "Mnemosyne [v0.1.0]");
    assert_eq!(page.footer, "More: https://github.com/alessandrobrunoh/mnemosyne");
    assert_eq!(page.sections.len(), 4);
    assert_eq!(page.sections[0].rows.len(), 5);
    assert_eq!(page.sections[1].rows.len(), 16);
    assert_eq!(page.sections[1].rows[4].command, "log <file>");
    assert_eq!(page.sections[1].rows[4].description, "lg");
    assert_eq!(page.sections[3].header, "INTEGRATIONS");
}
