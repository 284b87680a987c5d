use mnem_cli::dates::{minute_stamp, second_stamp};
use mnem_cli::preview::{
    compute_diff_stats, newest_pair, preview_diff, preview_plan, summarize_diff, timeline_pair, Base,
    ChangeKind, LineChange, Mark, PreviewPlan,
};
use mnem_cli::timeline::{group_snapshots, header_flags, push_session_group, HistoryItem, SessionInfo, SnapshotMeta};
use mnem_cli::tui::{Focus, Screen};

fn meta(hash: &str, ts: &str, branch: Option<&str>) -> SnapshotMeta {
    SnapshotMeta { content_hash: hash.to_string(), timestamp: ts.to_string(), git_branch: branch.map(|b| b.to_string()) }
}

#[test]
fn chrono_readings() {
    assert_eq!(minute_stamp("2024-03-04T10:05:09+02:00"), "2024-03-04 10:05");
    assert_eq!(minute_stamp("not a time"), "not a time");
    assert_eq!(second_stamp("2024-03-04T10:05:09+02:00"), "2024-03-04 10:05:09");
    assert_eq!(second_stamp("2024-03-04"), "2024-03-04");
}

#[test]
fn snapshots_group_into_days_and_sessions() {
    let snaps = vec![
        meta("c", "2024-03-05T09:00:00Z", Some("main")),
        meta("b", "2024-03-04T20:00:00Z", Some("main")),
        meta("a", "2024-03-04T19:00:00Z", Some("main")),
        meta("z", "2024-03-04T18:50:00Z", Some("dev")),
    ];
    let items = group_snapshots(snaps);
    let kinds: Vec<String> = items
        .iter()
        .map(|i| match i {
            HistoryItem::DateHeader(d) => format!("D:{}", d),
            HistoryItem::Session(s) => format!("S:{}:{}", s.label, s.count),
            HistoryItem::Snapshot(s) => format!("N:{}", s.content_hash),
        })
        .collect();
    assert_eq!(
        kinds,
        vec![
            "D:Tuesday 05/03", "S:Morning Session:1", "N:c",
            "D:Monday 04/03", "S:Evening Session:1", "N:b",
            "S:Evening Session:1", "N:a",
            "S:Evening Session:1", "N:z",
        ]
    );
    assert!(group_snapshots(vec![]).is_empty());
}

#[test]
fn unreadable_times_make_unknown_sessions() {
    let items = group_snapshots(vec![meta("a", "bad", None), meta("b", "worse", None)]);
    assert_eq!(items.len(), 3);
    match &items[0] {
        HistoryItem::Session(SessionInfo { label, count, .. }) => {
            assert_eq!(label, "Unknown Session");
            assert_eq!(*count, 2);
        }
        _ => panic!("expected a session"),
    }
    let mut v = vec![];
    push_session_group(&mut v, &vec![]);
    assert!(v.is_empty());
    assert_eq!(header_flags(&items), vec![false, false, false]);
}

#[test]
fn similar_line_diff_is_numbered() {
    let (changes, whole) = preview_diff("a\nb\nc\nd\n", "a\nB\nc\nd\nE\n", None, &vec![]);
    assert_eq!(whole.hunk_count, 2);
    assert_eq!(whole.lines[1].mark, mnem_cli::preview::Mark::Plain);
    let kinds: Vec<ChangeKind> = changes.iter().map(|c| c.kind).collect();
    assert_eq!(
        kinds,
        vec![ChangeKind::Equal, ChangeKind::Delete, ChangeKind::Insert, ChangeKind::Equal, ChangeKind::Equal, ChangeKind::Insert]
    );
    let s = summarize_diff(&changes, Some(2), &vec![1]);
    assert_eq!(s.hunk_count, 2);
    assert_eq!(s.added, 2);
    assert_eq!(s.removed, 1);
    let hunks: Vec<usize> = s.lines.iter().map(|l| l.hunk).collect();
    assert_eq!(hunks, vec![0, 1, 1, 1, 1, 2]);
    assert_eq!(s.lines[1].mark, Mark::Selected);
    assert_eq!(s.lines[5].mark, Mark::Active);
    assert_eq!(s.lines[0].mark, Mark::Plain);
    assert_eq!(compute_diff_stats(Some("x\ny\n"), "x\n"), Some((1, 0)));
    assert_eq!(compute_diff_stats(None, "x\n"), None);
}

#[test]
fn summarize_by_hand() {
    let c = |k| LineChange { kind: k, old_index: Some(4), new_index: None };
    let s = summarize_diff(&vec![c(ChangeKind::Delete), c(ChangeKind::Delete)], None, &vec![]);
    assert_eq!(s.hunk_count, 1);
    assert_eq!(s.removed, 2);
    assert_eq!(s.lines[0].source_line, 4);
}

#[test]
fn preview_pairs() {
    assert_eq!(preview_plan(Screen::Search), PreviewPlan::Clear);
    assert_eq!(preview_plan(Screen::Home), PreviewPlan::NewestTwo);
    assert_eq!(preview_plan(Screen::History), PreviewPlan::Timeline);
    assert_eq!(preview_plan(Screen::Settings), PreviewPlan::Clear);
    assert_eq!(preview_plan(Screen::Projects), PreviewPlan::NoVersions);
    assert_eq!(preview_plan(Screen::Statistics), PreviewPlan::NoVersions);
    let p = newest_pair(&vec!["h2".to_string(), "h1".to_string()]);
    assert_eq!(p.current, Some("h2".to_string()));
    assert!(matches!(p.previous, Some(Base::Snapshot(ref h)) if h == "h1"));
    let history = vec![
        HistoryItem::DateHeader("d".to_string()),
        HistoryItem::Session(SessionInfo { label: "s".to_string(), branch: None, count: 2 }),
        HistoryItem::Snapshot(meta("n", "t", None)),
        HistoryItem::Snapshot(meta("o", "t", None)),
        HistoryItem::Session(SessionInfo { label: "s".to_string(), branch: None, count: 1 }),
        HistoryItem::Snapshot(meta("p", "t", None)),
    ];
    let session = timeline_pair(&history, Some(1), &None, Focus::Timeline);
    assert_eq!(session.current, Some("n".to_string()));
    assert!(matches!(session.previous, Some(Base::Snapshot(ref h)) if h == "o"));
    let snap = timeline_pair(&history, Some(3), &None, Focus::Timeline);
    assert!(matches!(snap.previous, Some(Base::Snapshot(ref h)) if h == "p"));
    let disk = timeline_pair(&history, Some(3), &None, Focus::Preview);
    assert!(matches!(disk.previous, Some(Base::Disk)));
    let based = timeline_pair(&history, Some(5), &Some("b".to_string()), Focus::Preview);
    assert!(matches!(based.previous, Some(Base::Snapshot(ref h)) if h == "b"));
    let header = timeline_pair(&history, Some(0), &None, Focus::Timeline);
    assert!(header.current.is_none() && header.previous.is_none());
    let last = timeline_pair(&history, Some(5), &None, Focus::Timeline);
    assert!(last.previous.is_none());
}
