use mnem_cli::activity::ProjectEntry;
use mnem_cli::cli::{Args, CommonOptions, DEFAULT_LIMIT};
use mnem_cli::checkpoint::manifest_temp_name;
use mnem_cli::commits::find_commit_by_prefix;
use mnem_cli::diffcmd::{plain_line_kind, DiffLineKind};
use mnem_cli::filehistory::history_heading;
use mnem_cli::files::snapshot_temp_name_for;
use mnem_cli::info::{directory_name, kind_totals, top_kinds};
use mnem_cli::projects::{confirms, first_holding, is_current, list_name, watch_path};
use mnem_cli::search::{highlight_match_clamped, Highlight, KeyGroup, SearchCommand};
use mnem_cli::text::head_bytes;
use mnem_cli::track::{page_offset, page_range};
use mnem_cli::tui::theme_key;
use mnem_cli::update::{required_binaries, unix_platform, wanted_member};

fn strings(v: &[&str]) -> Vec<String> {
    v.iter().map(|s| s.to_string()).collect()
}

#[test]
fn kinds_are_ranked_by_count() {
    let ext = vec![("rs".to_string(), 2), ("md".to_string(), 5), ("toml".to_string(), 2), ("py".to_string(), 7)];
    assert_eq!(top_kinds(&ext, 6), vec![3, 1, 0, 2]);
    assert_eq!(top_kinds(&ext, 2), vec![3, 1]);
    assert_eq!(top_kinds(&vec![], 6), Vec::<usize>::new());
    let groups = vec![
        KeyGroup { key: "rs".to_string(), positions: vec![0, 2] },
        KeyGroup { key: "no ext".to_string(), positions: vec![1] },
    ];
    assert_eq!(kind_totals(&groups), vec![("rs".to_string(), 2), ("no ext".to_string(), 1)]);
}

#[test]
fn names_of_directories() {
    assert_eq!(directory_name("/work/proj"), "proj");
    assert_eq!(directory_name("/"), "Unknown");
    assert_eq!(list_name("/work/proj"), "proj");
    assert_eq!(list_name("/"), "unknown");
    assert!(is_current("/work/proj", "/work/proj/src"));
    assert!(is_current("/work/proj/src", "/work/proj"));
    assert!(!is_current("/work/proj", "/work/other"));
}

#[test]
fn history_headings() {
    assert_eq!(history_heading(&Some("a.rs".to_string()), "p"), "FILE HISTORY: a.rs");
    assert_eq!(history_heading(&None, "p"), "PROJECT HISTORY: p");
}

#[test]
fn clamped_highlight_stops_at_the_end() {
    match highlight_match_clamped("Hello World", "world") {
        Some(Highlight::Parts { before, matched, after }) => {
            assert_eq!(before, "Hello ");
            assert_eq!(matched, "World");
            assert_eq!(after, "");
        }
        _ => panic!("expected a match"),
    }
    assert!(matches!(highlight_match_clamped("abc", "x"), Some(Highlight::Plain)));
    // "İ" lowercases to two characters, so the lowercase line is longer than the line.
    match highlight_match_clamped("aİ", "i̇") {
        Some(Highlight::Parts { before, matched, after }) => {
            assert_eq!(before, "a");
            assert_eq!(matched, "İ");
            assert_eq!(after, "");
        }
        other => panic!("unexpected {:?}", other.is_some()),
    }
}

#[test]
fn search_query_must_not_be_empty() {
    let c = |q: Option<&str>| SearchCommand { query: q.map(|s| s.to_string()), file: None, limit: 20, page: 1, semantic: false };
    assert_eq!(c(Some("x")).asked_query(), Some("x".to_string()));
    assert_eq!(c(Some("")).asked_query(), None);
    assert_eq!(c(None).asked_query(), None);
}

#[test]
fn page_offsets() {
    assert_eq!(page_offset(3, 20), Some(40));
    assert_eq!(page_offset(0, 20), Some(0));
    assert_eq!(page_offset(1, 20), Some(0));
    assert_eq!(page_offset(usize::MAX, 2), None);
}

#[test]
fn pages_follow_one_another() {
    let total = 45;
    let limit = 20;
    let mut covered = vec![];
    for page in 1..=4 {
        let (start, end) = page_range(total, page, limit);
        let (next_start, _) = page_range(total, page + 1, limit);
        assert_eq!(end, next_start);
        covered.extend(start..end);
    }
    assert_eq!(covered, (0..45).collect::<Vec<usize>>());
    let (start, end) = page_range(total, 44 / limit + 1, limit);
    assert!(start <= 44 && 44 < end);
}

#[test]
fn release_archives() {
    assert_eq!(required_binaries(true), strings(&["mnem.exe", "mnem-daemon.exe"]));
    assert_eq!(required_binaries(false), strings(&["mnem", "mnem-daemon"]));
    assert_eq!(unix_platform(true, true), ("macos", "arm64"));
    assert_eq!(unix_platform(false, false), ("linux", "x86_64"));
    let req = required_binaries(false);
    assert_eq!(wanted_member("dist/mnem", &req), Some("mnem".to_string()));
    assert_eq!(wanted_member("dist/mnem-daemon", &req), Some("mnem-daemon".to_string()));
    assert_eq!(wanted_member("dist/README.md", &req), None);
    assert_eq!(wanted_member("", &req), None);
}

#[test]
fn command_line_helpers() {
    assert_eq!(watch_path(&strings(&["mnem", "watch", "-p", "dir"])), Some("dir".to_string()));
    assert_eq!(watch_path(&strings(&["mnem", "watch", "--path", "d2"])), Some("d2".to_string()));
    assert_eq!(watch_path(&strings(&["mnem", "-p", "first", "--path", "x"])), Some("first".to_string()));
    assert_eq!(watch_path(&strings(&["mnem", "watch", "-p"])), None);
    assert_eq!(watch_path(&strings(&["mnem", "watch"])), None);
    assert!(confirms("  YES \n"));
    assert!(!confirms("y"));
    let opts = CommonOptions::from_args(&Args::parse(strings(&["mnem", "list"])));
    assert_eq!(opts.limit_or_default(), DEFAULT_LIMIT);
    assert_eq!(DEFAULT_LIMIT, 20);
    let opts = CommonOptions::from_args(&Args::parse(strings(&["mnem", "list", "--limit", "5"])));
    assert_eq!(opts.limit_or_default(), 5);
}

#[test]
fn lookups_by_prefix_and_path() {
    let hashes = strings(&["abc123", "abd999", "abc777"]);
    assert_eq!(find_commit_by_prefix(&hashes, "abc"), Some(0));
    assert_eq!(find_commit_by_prefix(&hashes, "abd"), Some(1));
    assert_eq!(find_commit_by_prefix(&hashes, "zz"), None);
    let mut many: Vec<String> = (0..150).map(|i| format!("h{}", i)).collect();
    many.push("target".to_string());
    assert_eq!(find_commit_by_prefix(&many, "target"), None);
    let p = |path: &str| ProjectEntry { id: path.to_string(), name: "n".to_string(), path: path.to_string(), last_open: String::new() };
    let ps = vec![p("/w"), p("/w/deep")];
    assert_eq!(first_holding(&ps, "/w/deep/x"), Some(0));
    assert_eq!(first_holding(&ps, "/v"), None);
}

#[test]
fn small_text_helpers() {
    assert_eq!(head_bytes("abcdefghij", 8), Some("abcdefgh"));
    assert_eq!(head_bytes("abc", 8), Some("abc"));
    assert_eq!(head_bytes("aaaaaaaé", 8), None);
    assert_eq!(theme_key("Tokyo Night"), "tokyo-night");
    assert_eq!(plain_line_kind("+++ a"), DiffLineKind::Added);
    assert_eq!(plain_line_kind("-x"), DiffLineKind::Removed);
    assert_eq!(plain_line_kind("@@ -1 +1 @@"), DiffLineKind::Header);
    assert_eq!(plain_line_kind(" same"), DiffLineKind::Context);
    assert_eq!(snapshot_temp_name_for("0123456789", "src/main.rs"), Some("mnem_snap_01234567.rs".to_string()));
    assert_eq!(snapshot_temp_name_for("abc", "Makefile"), Some("mnem_snap_abc.txt".to_string()));
}

#[test]
fn manifest_scratch_names() {
    assert_eq!(manifest_temp_name("0123456789ab", "src/lib.rs"), Some("01234567_lib.rs".to_string()));
    assert_eq!(manifest_temp_name("abc", "/"), Some("abc_file".to_string()));
    assert_eq!(manifest_temp_name("aaaaaaaé", "x"), None);
}
