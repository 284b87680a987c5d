use mnem_cli::activity::ProjectEntry;
use mnem_cli::checkpoint::{checkpoint_files_shown, cp_missing_id, cp_plan, CpPlan, CP_FILES_SHOWN};
use mnem_cli::commits::git_event_args;
use mnem_cli::config::{is_whitespace, trim};
use mnem_cli::daemon::{
    gc_dry_run_note, mcp_request, mcp_status_failure, mcp_usage, unknown_mcp_response, McpReply, McpRequest,
};
use mnem_cli::diffcmd::{diff_versions, DiffRangeError};
use mnem_cli::files::{log_request, log_usage, LogRequest};
use mnem_cli::preview::{diff_key, needs_refresh, Base, PreviewPair};
use mnem_cli::tui::Screen;
use mnem_cli::help::{group_header, HelpTexts};
use mnem_cli::paths::{checkpoint_file_path, relative_to};
use mnem_cli::search::{highlight_match, Highlight};
use mnem_cli::text::remove_all;
use mnem_cli::track::track_list_response;

fn strings(v: &[&str]) -> Vec<String> {
    v.iter().map(|s| s.to_string()).collect()
}

fn texts() -> HelpTexts {
    HelpTexts {
        app_name: "App".to_string(),
        tagline: "tag".to_string(),
        core_ops_header: "CORE".to_string(),
        cmd_default_desc: "a".to_string(),
        cmd_start_desc: "b".to_string(),
        cmd_stop_desc: "c".to_string(),
        project_history_header: "HISTORY".to_string(),
        cmd_list_desc: "d".to_string(),
        cmd_log_desc: "e".to_string(),
        cmd_search_desc: "f".to_string(),
        maintenance_header: "UPKEEP".to_string(),
        cmd_status_desc: "g".to_string(),
        cmd_config_desc: "h".to_string(),
        learn_more: "More".to_string(),
    }
}

fn project(id: &str, name: &str, path: &str) -> ProjectEntry {
    ProjectEntry { id: id.to_string(), name: name.to_string(), path: path.to_string(), last_open: String::new() }
}

#[test]
fn unknown_mcp_subcommand_is_refused_without_the_daemon() {
    assert_eq!(mcp_request("restart"), McpRequest::Unknown);
    let r = unknown_mcp_response("restart");
    assert!(!r.success);
    assert_eq!(r.message, "Unknown MCP subcommand: restart");
    assert_eq!(r.code, Some("UNKNOWN_SUBCOMMAND".to_string()));
    assert_eq!(mcp_usage(), "Usage: mnem mcp <start|stop|status>");
}

#[test]
fn mcp_status_failures() {
    let r = mcp_status_failure(&McpReply::NoDaemon).unwrap();
    assert!(!r.success);
    assert_eq!(r.message, "Daemon is not running");
    assert_eq!(r.code, Some("DAEMON_NOT_RUNNING".to_string()));
    let r = mcp_status_failure(&McpReply::CallFailed("timeout".to_string())).unwrap();
    assert_eq!(r.message, "Failed to get MCP status: timeout");
    assert_eq!(r.code, Some("MCP_STATUS_ERROR".to_string()));
    assert!(mcp_status_failure(&McpReply::Done { pid: Some(3) }).is_none());
}

#[test]
fn gc_dry_run_notes() {
    assert_eq!(gc_dry_run_note(true), "Dry run - no changes made");
    assert_eq!(gc_dry_run_note(false), "Dry run - no changes will be made");
}

#[test]
fn reversed_diff_range_message() {
    let e = diff_versions(Some(1), Some(3), 5).unwrap_err();
    assert_eq!(e, DiffRangeError::Reversed);
    assert_eq!(e.message(), "'from' version must be newer than 'to' version");
    assert_eq!(diff_versions(None, None, 5), Ok((2, 1)));
}

#[test]
fn cp_without_an_id() {
    let p = cp_plan(&None, false, &None, true, false, false);
    assert!(matches!(p, CpPlan::MissingId));
    let (error, usage) = cp_missing_id();
    assert_eq!(error, "Specify a checkpoint ID for this operation.");
    assert_eq!(usage, "<id> --info|--remove|--restore");
}

#[test]
fn white_space_characters() {
    for c in [' ', '\t', '\n', '\u{b}', '\u{c}', '\r', '\u{85}', '\u{a0}', '\u{1680}', '\u{2000}', '\u{200a}', '\u{2028}', '\u{2029}', '\u{202f}', '\u{205f}', '\u{3000}'] {
        assert!(is_whitespace(c), "{:?}", c);
        assert_eq!(is_whitespace(c), c.is_whitespace());
    }
    for c in ['a', '0', '_', '\u{200b}', '\u{feff}', '\u{180e}', '\u{2060}', '\u{1f}'] {
        assert!(!is_whitespace(c), "{:?}", c);
        assert_eq!(is_whitespace(c), c.is_whitespace());
    }
    assert_eq!(trim("\u{3000} key\u{a0}\n"), "key");
}

#[test]
fn ascii_match_is_found() {
    match highlight_match("Hello World", "WORLD") {
        Some(Highlight::Parts { before, matched, after }) => {
            assert_eq!(before, "Hello ");
            assert_eq!(matched, "World");
            assert_eq!(after, "");
        }
        _ => panic!("expected a match"),
    }
}

#[test]
fn log_requests() {
    assert!(matches!(log_request(&strings(&["mnem", "log"])), LogRequest::Usage));
    match log_request(&strings(&["mnem", "log", "--symbol", "parse"])) {
        LogRequest::Symbol(s) => assert_eq!(s, "parse"),
        _ => panic!("expected a symbol"),
    }
    match log_request(&strings(&["mnem", "log", "src/main.rs", "-s"])) {
        LogRequest::File(f) => assert_eq!(f, "src/main.rs"),
        _ => panic!("expected a file"),
    }
    match log_request(&strings(&["mnem", "log", "src/lib.rs"])) {
        LogRequest::File(f) => assert_eq!(f, "src/lib.rs"),
        _ => panic!("expected a file"),
    }
}

#[test]
fn git_event_arguments() {
    assert!(git_event_args(&strings(&["mnem", "git-event", "abc", "msg", "me"])).is_none());
    let e = git_event_args(&strings(&["mnem", "git-event", "abc", "msg", "me", "2024-01-01T00:00:00Z"])).unwrap();
    assert_eq!(e.hash, "abc");
    assert_eq!(e.message, "msg");
    assert_eq!(e.author, "me");
    assert_eq!(e.timestamp, "2024-01-01T00:00:00Z");
}

#[test]
fn track_list_pages() {
    let all = vec![project("1", "a", "/a"), project("2", "b", "/b"), project("3", "c", "/c")];
    let r = track_list_response(&all, 2, 2);
    assert!(r.success);
    assert!(r.current.is_none());
    assert_eq!(r.message, "Listing tracked projects");
    assert_eq!(r.total_projects, 3);
    assert_eq!(r.limit, 2);
    assert_eq!(r.page, 2);
    assert_eq!(r.action, "list");
    assert_eq!(r.projects.len(), 1);
    assert_eq!(r.projects[0].name, "c");
    assert_eq!(r.projects[0].path, "/c");
    assert_eq!(r.projects[0].id, "3");
    let r = track_list_response(&all, 0, 2);
    assert_eq!(r.projects.len(), 2);
    assert_eq!(r.projects[1].id, "2");
    assert_eq!(track_list_response(&all, 5, 2).projects.len(), 0);
}

#[test]
fn group_headers() {
    let t = texts();
    assert_eq!(group_header("General", &t), "CORE");
    assert_eq!(group_header("Daemon", &t), "DAEMON");
    assert_eq!(group_header("Workspace", &t), "HISTORY");
    assert_eq!(group_header("Git Integration", &t), "INTEGRATIONS");
    assert_eq!(group_header("Files", &t), "FILES");
    assert_eq!(group_header("Maintenance", &t), "UPKEEP");
    assert_eq!(group_header("Apps", &t), "APPLICATIONS");
}

#[test]
fn removing_every_occurrence() {
    assert_eq!(remove_all("aXbXXc", "X"), "abc");
    assert_eq!(remove_all("aaa", "aa"), "a");
    assert_eq!(remove_all("abc", ""), "abc");
    assert_eq!(remove_all("\\\\?\\C:\\x", "\\\\?\\"), "C:\\x");
    assert_eq!(remove_all("abab", "ab"), "");
}

#[test]
fn paths_relative_to_a_directory() {
    assert_eq!(relative_to("/home/u/proj/src/main.rs", "/home/u/proj"), "src/main.rs");
    assert_eq!(relative_to("/home/u/proj", "/home/u/proj"), "");
    assert_eq!(relative_to("/home/u/project2/a.rs", "/home/u/proj"), "/home/u/project2/a.rs");
    assert_eq!(checkpoint_file_path("/base/dir/f.rs", "/base"), "dir/f.rs");
}

#[test]
fn checkpoint_files_listed() {
    let paths: Vec<String> = (0..12).map(|i| format!("/base/f{}.rs", i)).collect();
    let (shown, more) = checkpoint_files_shown(&paths, "/base");
    assert_eq!(shown.len(), CP_FILES_SHOWN);
    assert_eq!(shown[0], "f0.rs");
    assert_eq!(shown[9], "f9.rs");
    assert_eq!(more, 2);
    let (shown, more) = checkpoint_files_shown(&paths[..3].to_vec(), "/elsewhere");
    assert_eq!(shown, vec!["/base/f0.rs", "/base/f1.rs", "/base/f2.rs"]);
    assert_eq!(more, 0);
}

#[test]
fn log_usage_line() {
    assert!(matches!(log_request(&strings(&["mnem", "log"])), LogRequest::Usage));
    assert_eq!(log_usage(), "Usage: mnem log <file_path> or mnem log --symbol <name>");
}

#[test]
fn preview_is_computed_again_only_when_its_key_changes() {
    let pair = PreviewPair { current: Some("c1".to_string()), previous: Some(Base::Snapshot("p1".to_string())) };
    let key = diff_key(Screen::History, &pair, Some(1), &vec![2, 3]);
    assert_eq!(key.screen, Screen::History);
    assert_eq!(key.current, Some("c1".to_string()));
    assert!(matches!(key.previous, Some(Base::Snapshot(ref h)) if h == "p1"));
    assert_eq!(key.active_hunk, Some(1));
    assert_eq!(key.selected_hunks, vec![2, 3]);
    assert!(needs_refresh(&None, &key));
    let last = Some(key.clone());
    assert!(!needs_refresh(&last, &diff_key(Screen::History, &pair, Some(1), &vec![2, 3])));
    assert!(needs_refresh(&last, &diff_key(Screen::Home, &pair, Some(1), &vec![2, 3])));
    assert!(needs_refresh(&last, &diff_key(Screen::History, &pair, Some(2), &vec![2, 3])));
    assert!(needs_refresh(&last, &diff_key(Screen::History, &pair, Some(1), &vec![2])));
    let disk = PreviewPair { current: Some("c1".to_string()), previous: Some(Base::Disk) };
    assert!(needs_refresh(&last, &diff_key(Screen::History, &disk, Some(1), &vec![2, 3])));
    let other = PreviewPair { current: Some("c2".to_string()), previous: Some(Base::Snapshot("p1".to_string())) };
    assert!(needs_refresh(&last, &diff_key(Screen::History, &other, Some(1), &vec![2, 3])));
    let none = PreviewPair { current: None, previous: None };
    let empty = diff_key(Screen::Projects, &none, None, &vec![]);
    assert!(!needs_refresh(&Some(empty.clone()), &diff_key(Screen::Projects, &none, None, &vec![])));
    assert!(needs_refresh(&Some(empty), &diff_key(Screen::Statistics, &none, None, &vec![])));
}
