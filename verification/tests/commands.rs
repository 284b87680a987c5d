use mnem_cli::activity::{
    bar_len, change_label, collect_commits, find_project, history_feed, history_title, hour_shades,
    max_count, minute_time, name_for_path, newest_first_order, paginate_per_branch, sort_commits, statistics_title,
    ActivityRow, FeedLine, ProjectEntry,
};
use mnem_cli::config::{normalize_key, set_message, split_once_eq, trim, ConfigCommand, ConfigPlan, ConfigResponse};
use mnem_cli::track::{
    find_by_path, page_range, remove_message, track_message, tracked_project_id, tracked_project_name,
    PurgeOutcome, ReloadOutcome, TrackAction, TrackCommand,
};

fn strings(v: &[&str]) -> Vec<String> {
    v.iter().map(|s| s.to_string()).collect()
}

fn config(get: Option<&str>, set: Option<&str>, reset: bool) -> ConfigCommand {
    ConfigCommand { get: get.map(|s| s.to_string()), set: set.map(|s| s.to_string()), reset }
}

#[test]
fn config_plans() {
    assert!(matches!(config(Some("x"), None, true).plan(), ConfigPlan::Reset));
    match config(Some("theme"), None, false).plan() {
        ConfigPlan::Get { key, normalized } => {
            assert_eq!(key, "theme");
            assert_eq!(normalized, "ui.theme_index");
        }
        _ => panic!("expected get"),
    }
    match config(None, Some(" retention-days = 60 "), false).plan() {
        ConfigPlan::Assign { key, value, normalized } => {
            assert_eq!(key, "retention-days");
            assert_eq!(value, "60");
            assert_eq!(normalized, "storage.retention_days");
        }
        _ => panic!("expected set"),
    }
    assert!(matches!(config(None, Some("novalue"), false).plan(), ConfigPlan::SetUsage));
    assert!(matches!(config(None, None, false).plan(), ConfigPlan::Show));
    assert_eq!(normalize_key("editor.ide"), "editor.ide");
    assert_eq!(normalize_key("ide"), "editor.ide");
    assert_eq!(normalize_key(&normalize_key("compression")), normalize_key("compression"));
    assert_eq!(split_once_eq("a=b=c"), Some(("a", "b=c")));
    assert_eq!(trim("\u{3000} x \t\n"), "x");
    assert_eq!(set_message("k", "v"), "Set k = v");
    let r = ConfigResponse::reset_done();
    assert!(r.success);
    assert_eq!(r.message, "Config reset to defaults");
}

#[test]
fn track_pages_and_tracked_files() {
    let t = TrackCommand { list: false, remove: false, purge: true, id: None, limit: 20, page: 1 };
    assert_eq!(t.action(), TrackAction::Remove);
    assert_eq!(page_range(45, 1, 20), (0, 20));
    assert_eq!(page_range(45, 3, 20), (40, 45));
    assert_eq!(page_range(45, 4, 20), (45, 45));
    assert_eq!(page_range(45, 0, 20), (0, 20));
    let content = "name: x\r\nproject_id: abc123 \r\nproject_name: Demo:extra\n";
    assert_eq!(tracked_project_id(content), Some("abc123".to_string()));
    assert_eq!(tracked_project_name(content), "Demo");
    assert_eq!(tracked_project_id("nothing here"), None);
    assert_eq!(tracked_project_name(""), "Unknown");
    assert_eq!(find_by_path(&strings(&["/a", "/b"]), "/b"), Some(1));
    assert_eq!(remove_message(false, &PurgeOutcome::NotAsked), "Project not found or not tracked");
    assert_eq!(remove_message(true, &PurgeOutcome::Deleted), "Project untracked and local history purged successfully");
    assert_eq!(
        remove_message(true, &PurgeOutcome::Failed("denied".to_string())),
        "Removed from tracking, but failed to delete .mnemosyne: denied"
    );
    assert_eq!(track_message(&ReloadOutcome::Reloaded), "Tracking started and daemon reloaded");
    assert_eq!(
        track_message(&ReloadOutcome::Unreachable("refused".to_string())),
        "Tracking started but could not connect to daemon: refused"
    );
}

fn project(id: &str, name: &str, path: &str) -> ProjectEntry {
    ProjectEntry { id: id.to_string(), name: name.to_string(), path: path.to_string(), last_open: String::new() }
}

#[test]
fn projects_and_titles() {
    let ps = vec![project("abc1", "one", "/one"), project("abd2", "two", "/two")];
    assert_eq!(find_project(&ps, &strings(&["mnem", "history", "abd"])), Some(1));
    assert_eq!(find_project(&ps, &strings(&["mnem", "history", "ab"])), Some(0));
    assert_eq!(find_project(&ps, &strings(&["mnem", "history", "--limit"])), None);
    assert_eq!(find_project(&ps, &strings(&["mnem", "history"])), None);
    assert_eq!(name_for_path(&ps, "/two"), Some("two".to_string()));
    assert_eq!(history_title(&Some("straße".to_string()), true), "HISTORY: STRASSE");
    assert_eq!(history_title(&Some("unknown".to_string()), true), "PROJECT HISTORY");
    assert_eq!(history_title(&None, true), "PROJECT HISTORY");
    assert_eq!(history_title(&None, false), "GLOBAL HISTORY");
    assert_eq!(statistics_title(&None), "GLOBAL STATISTICS");
    assert_eq!(statistics_title(&Some("".to_string())), "PROJECT STATISTICS");
}

fn row(id: i64, hash: &str, ts: &str, branch: Option<&str>, commit: Option<&str>) -> ActivityRow {
    ActivityRow {
        id,
        content_hash: hash.to_string(),
        timestamp: ts.to_string(),
        file_path: "f".to_string(),
        git_branch: branch.map(|b| b.to_string()),
        commit_hash: commit.map(|c| c.to_string()),
        commit_message: None,
    }
}

#[test]
fn commits_are_collected_and_ordered() {
    let rows = vec![
        row(1, "h1", "2024-01-01T10:00:00Z", None, Some("c1")),
        row(2, "h2", "2024-01-03T10:00:00Z", None, Some("c2")),
        row(3, "h3", "2024-01-01T11:00:00Z", None, Some("c1")),
        row(4, "h4", "2024-01-02T10:00:00Z", None, None),
    ];
    let commits = collect_commits(&rows).unwrap();
    assert_eq!(commits.len(), 2);
    assert_eq!(commits[0].hash, "c1");
    assert_eq!(commits[0].files, 2);
    assert_eq!(commits[0].message, "No message");
    assert_eq!(commits[0].time, "2024-01-01 10:00");
    let sorted = sort_commits(commits);
    assert_eq!(sorted[0].hash, "c2");
    assert_eq!(sorted[1].hash, "c1");
    assert!(collect_commits(&vec![row(1, "h", "bad", None, Some("c"))]).is_none());
    assert_eq!(minute_time("2024-01-01T10:00:00 trailing"), Some("2024-01-01T10:00".to_string()));
}

#[test]
fn equal_times_keep_their_order() {
    let keys = strings(&["2024-01-02", "2024-01-03", "2024-01-02", "2024-01-01", "2024-01-03"]);
    assert_eq!(newest_first_order(&keys), vec![1, 4, 0, 2, 3]);
    assert_eq!(newest_first_order(&vec![]), Vec::<usize>::new());
}

#[test]
fn feed_is_paged_per_branch_and_laid_out() {
    let rows = vec![
        row(3, "aaaaaaa1", "2024-01-01T10:00:00Z", Some("main"), Some("c1234567")),
        row(4, "bbbbbbb2", "2024-01-01T10:05:00Z", Some("main"), Some("c1234567")),
        row(5, "ccccccc3", "2024-01-01T10:10:00Z", Some("main"), None),
        row(7, "ddddddd4", "2024-01-01T10:15:00Z", Some("dev"), None),
    ];
    let shown = paginate_per_branch(&rows, 2);
    assert_eq!(shown, vec![0, 1, 3]);
    let feed = history_feed(&rows, &shown).unwrap();
    let text: Vec<String> = feed
        .iter()
        .map(|l| match l {
            FeedLine::BranchStart { tag, branch } => format!("start {} {}", tag, branch),
            FeedLine::BranchEnd => "end".to_string(),
            FeedLine::Commit { message, short_hash } => format!("commit {} {}", short_hash, message),
            FeedLine::Entry { row, short_hash, letter, time } => format!("{} {} {} {}", row, short_hash, letter, time),
        })
        .collect();
    assert_eq!(
        text,
        vec![
            "start ma main",
            "commit c123456 No message",
            "0 aaaaaaa M 10:00",
            "1 bbbbbbb C 10:05",
            "end",
            "start de dev",
            "3 ddddddd C 10:15",
            "end",
        ]
    );
    assert!(history_feed(&vec![row(1, "short", "t", None, None)], &vec![0]).is_none());
    assert_eq!(change_label(5), 'D');
    assert_eq!(change_label(4), 'C');
    assert_eq!(change_label(-3), 'M');
    assert_eq!(change_label(-4), 'D');
}

#[test]
fn charts() {
    assert_eq!(max_count(&vec![]), 1);
    assert_eq!(max_count(&vec![3, 9, 4]), 9);
    assert_eq!(bar_len(1, 100, 20), 1);
    assert_eq!(bar_len(50, 100, 20), 10);
    assert_eq!(bar_len(5, 0, 20), 0);
    let shades = hour_shades(&vec![(3, 10), (5, 5), (3, 2)], 10);
    assert_eq!(shades.len(), 24);
    assert_eq!(shades[3], 1);
    assert_eq!(shades[5], 3);
    assert_eq!(shades[0], 0);
}
