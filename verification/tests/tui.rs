use mnem_cli::timeline::{HistoryItem, SessionInfo, SnapshotMeta};
use mnem_cli::tui::{
    setting_effect, setting_note, theme_slot, Action, Dialog, Focus, Ide, Key, Outcome, Screen,
    SettingEffect, Timer, TuiSettings, TuiState, Wheel,
};

fn state() -> TuiState {
    TuiState {
        screen: Screen::Home,
        focus: Focus::Files,
        input_mode: false,
        dialog: None,
        dialog_selected: None,
        branches: vec![],
        branch_filter: None,
        files: vec!["a.rs".to_string(), "b.rs".to_string()],
        files_selected: Some(0),
        history: vec![],
        versions_selected: None,
        projects: vec![],
        projects_selected: None,
        results: vec![],
        results_selected: None,
        filter_input: vec![],
        search_query: vec![],
        selected_file: None,
        sidebar_width_pct: 30,
        timeline_width_pct: 40,
        settings_index: 0,
        scroll_offset: 0,
        hunk_count: 0,
        active_hunk: None,
        selected_hunks: vec![],
        diff_base_hash: None,
        dirty: false,
        preview_dirty: false,
        stats_stale: false,
        notification: None,
        last_snapshot_id: 0,
    }
}

fn snap(hash: &str) -> HistoryItem {
    HistoryItem::Snapshot(SnapshotMeta {
        content_hash: hash.to_string(),
        timestamp: "2024-01-01T10:00:00Z".to_string(),
        git_branch: None,
    })
}

fn quiet() -> Outcome {
    Outcome { action: Action::Nothing, timer: Timer::Keep }
}

#[test]
fn q_quits_from_home() {
    let mut s = state();
    let o = s.handle_key(Key::Char('q'));
    assert_eq!(o.action, Action::Quit);
}

#[test]
fn moving_down_loads_the_next_file() {
    let mut s = state();
    let o = s.handle_key(Key::Down);
    assert_eq!(s.files_selected, Some(1));
    assert_eq!(o, Outcome { action: Action::LoadFileHistory(1), timer: Timer::Now });
    assert!(s.preview_dirty);
    let o = s.handle_key(Key::Char('j'));
    assert_eq!(s.files_selected, Some(0));
    assert_eq!(o.action, Action::LoadFileHistory(0));
}

#[test]
fn enter_opens_the_history_of_the_selected_file() {
    let mut s = state();
    s.files_selected = Some(1);
    let o = s.handle_key(Key::Enter);
    assert_eq!(s.screen, Screen::History);
    assert_eq!(s.focus, Focus::Timeline);
    assert_eq!(s.selected_file, Some("b.rs".to_string()));
    assert_eq!(s.versions_selected, Some(0));
    assert_eq!(o.timer, Timer::Now);
}

#[test]
fn widths_are_clamped() {
    let mut s = state();
    s.sidebar_width_pct = 11;
    s.handle_key(Key::Char('['));
    assert_eq!(s.sidebar_width_pct, 10);
    s.handle_key(Key::Char('['));
    assert_eq!(s.sidebar_width_pct, 10);
    s.sidebar_width_pct = 69;
    s.handle_key(Key::Char(']'));
    assert_eq!(s.sidebar_width_pct, 70);
    s.timeline_width_pct = 89;
    s.handle_key(Key::Char('}'));
    assert_eq!(s.timeline_width_pct, 90);
    s.timeline_width_pct = 12;
    s.handle_key(Key::Char('{'));
    assert_eq!(s.timeline_width_pct, 10);
}

#[test]
fn typing_a_search_query() {
    let mut s = state();
    s.handle_key(Key::Char('/'));
    assert_eq!(s.screen, Screen::Search);
    assert!(s.input_mode);
    s.handle_key(Key::Char('f'));
    s.handle_key(Key::Char('n'));
    assert_eq!(s.search_query, vec!['f', 'n']);
    s.handle_key(Key::Backspace);
    assert_eq!(s.search_query, vec!['f']);
    let o = s.handle_key(Key::Enter);
    assert_eq!(o.action, Action::Search);
    assert!(!s.input_mode);
    s.set_results(vec!["x.rs".to_string(), "y.rs".to_string()]);
    assert_eq!(s.results_selected, Some(0));
    s.handle_key(Key::Down);
    s.handle_key(Key::Enter);
    assert_eq!(s.screen, Screen::History);
    assert_eq!(s.selected_file, Some("y.rs".to_string()));
}

#[test]
fn filter_typing_marks_the_list_for_reload() {
    let mut s = state();
    s.handle_key(Key::Char('f'));
    assert!(s.input_mode);
    s.handle_key(Key::Char('r'));
    assert_eq!(s.filter_input, vec!['r']);
    assert!(s.dirty);
    s.handle_key(Key::Esc);
    assert!(!s.input_mode);
    assert_eq!(s.screen, Screen::Home);
}

#[test]
fn branch_dialog_switches_branch() {
    let mut s = state();
    s.handle_key(Key::Char('b'));
    assert_eq!(s.notification, Some("No branches found".to_string()));
    s.branches = vec!["main".to_string(), "dev".to_string()];
    s.handle_key(Key::Char('b'));
    assert_eq!(s.dialog, Some(Dialog::BranchSelector));
    s.handle_key(Key::Down);
    assert_eq!(s.dialog_selected, Some(1));
    let o = s.handle_key(Key::Enter);
    assert_eq!(o, quiet());
    assert_eq!(s.branch_filter, Some("dev".to_string()));
    assert_eq!(s.notification, Some("Switched to branch: dev".to_string()));
    assert_eq!(s.dialog, None);
    assert!(s.dirty);
}

fn history_state() -> TuiState {
    let mut s = state();
    s.screen = Screen::History;
    s.focus = Focus::Timeline;
    s.selected_file = Some("a.rs".to_string());
    s.history = vec![
        HistoryItem::DateHeader("Monday 01/01".to_string()),
        HistoryItem::Session(SessionInfo { label: "Morning Session".to_string(), branch: None, count: 2 }),
        snap("h1"),
        snap("h2"),
    ];
    s.versions_selected = Some(2);
    s
}

#[test]
fn timeline_moves_skip_date_headers() {
    let mut s = history_state();
    s.handle_key(Key::Down);
    assert_eq!(s.versions_selected, Some(3));
    s.handle_key(Key::Down);
    assert_eq!(s.versions_selected, Some(1));
    s.handle_key(Key::Up);
    assert_eq!(s.versions_selected, Some(3));
}

#[test]
fn diff_base_toggles() {
    let mut s = history_state();
    s.handle_key(Key::Char('v'));
    assert_eq!(s.diff_base_hash, Some("h1".to_string()));
    assert_eq!(s.notification, Some("Diff base set".to_string()));
    s.handle_key(Key::Char('v'));
    assert_eq!(s.diff_base_hash, None);
    assert_eq!(s.notification, Some("Diff base cleared".to_string()));
}

#[test]
fn hunks_are_navigated_and_selected() {
    let mut s = history_state();
    s.hunk_count = 3;
    s.handle_key(Key::Char('p'));
    assert_eq!(s.focus, Focus::Preview);
    assert_eq!(s.active_hunk, Some(1));
    s.handle_key(Key::Down);
    assert_eq!(s.active_hunk, Some(2));
    s.handle_key(Key::Up);
    s.handle_key(Key::Up);
    assert_eq!(s.active_hunk, Some(3));
    let o = s.handle_key(Key::Char(' '));
    assert_eq!(o.timer, Timer::Backdated);
    assert_eq!(s.selected_hunks, vec![3]);
    assert_eq!(s.active_hunk, Some(1));
    s.handle_key(Key::Char(' '));
    assert_eq!(s.selected_hunks, vec![1, 3]);
    let o = s.handle_key(Key::Char('r'));
    assert_eq!(o.action, Action::RestoreHunks(2));
    s.hunks_restored(Ok(()));
    assert_eq!(s.notification, Some("Restored 2 blocks successfully".to_string()));
    assert!(s.selected_hunks.is_empty());
    let o = s.handle_key(Key::Char('r'));
    assert_eq!(o.action, Action::RestoreFile(2));
    assert_eq!(s.notification, Some("Restored Full File".to_string()));
    s.hunks_restored(Err("disk full".to_string()));
    assert_eq!(s.notification, Some("Restore failed: disk full".to_string()));
}

#[test]
fn space_twice_unselects() {
    let mut s = history_state();
    s.hunk_count = 4;
    s.active_hunk = Some(2);
    s.handle_key(Key::Char(' '));
    s.active_hunk = Some(2);
    s.handle_key(Key::Char(' '));
    assert!(s.selected_hunks.is_empty());
}

#[test]
fn settings_cycle_and_effects() {
    let mut s = state();
    s.handle_key(Key::Char('s'));
    assert_eq!(s.screen, Screen::Settings);
    s.handle_key(Key::Up);
    assert_eq!(s.settings_index, 7);
    s.handle_key(Key::Down);
    assert_eq!(s.settings_index, 0);
    let o = s.handle_key(Key::Enter);
    assert_eq!(o.action, Action::ApplySetting(0));
    let c = TuiSettings {
        retention_days: 30,
        compression_enabled: false,
        use_gitignore: true,
        use_mnemosyneignore: true,
        theme_index: 2,
        ide: Ide::VsCode,
    };
    match setting_effect(0, c, 3) {
        SettingEffect::Save(n) => {
            assert_eq!(n.retention_days, 7);
            assert_eq!(setting_note(0, n, "x"), Some("Retention set to 7 days".to_string()));
        }
        _ => panic!("expected save"),
    }
    match setting_effect(4, c, 3) {
        SettingEffect::Save(n) => assert_eq!(n.theme_index, 0),
        _ => panic!("expected save"),
    }
    match setting_effect(5, c, 3) {
        SettingEffect::Save(n) => assert_eq!(n.ide, Ide::Zed),
        _ => panic!("expected save"),
    }
    match setting_effect(1, c, 3) {
        SettingEffect::Save(n) => assert_eq!(setting_note(1, n, "x"), Some("Compression Enabled".to_string())),
        _ => panic!("expected save"),
    }
    assert_eq!(setting_effect(6, c, 3), SettingEffect::RunGc);
    assert_eq!(setting_effect(7, c, 3), SettingEffect::WipeHistory);
    assert_eq!(setting_effect(8, c, 3), SettingEffect::Nothing);
    assert_eq!(theme_slot(9, 4), 3);
    assert_eq!(theme_slot(1, 4), 1);
}

#[test]
fn gc_and_wipe_notifications() {
    let mut s = state();
    s.gc_done(Ok(5));
    assert_eq!(s.notification, Some("GC Pruned 5 snapshots".to_string()));
    s.gc_done(Err("busy".to_string()));
    assert_eq!(s.notification, Some("GC Error: busy".to_string()));
    s.wipe_done(Ok(9));
    assert_eq!(s.notification, Some("Wiped 9 snapshots".to_string()));
    assert!(s.files.is_empty());
    s.wipe_done(Err("no".to_string()));
    assert_eq!(s.notification, Some("Wipe Error: no".to_string()));
}

#[test]
fn wheel_and_tick() {
    let mut s = state();
    let o = s.handle_wheel(Wheel::Down);
    assert_eq!(s.files_selected, Some(1));
    assert_eq!(o.timer, Timer::Now);
    s.focus = Focus::Preview;
    s.handle_wheel(Wheel::Down);
    assert_eq!(s.scroll_offset, 1);
    s.handle_wheel(Wheel::Up);
    s.handle_wheel(Wheel::Up);
    assert_eq!(s.scroll_offset, 0);
    let mut h = history_state();
    let o = h.handle_tick(5);
    assert_eq!(o.action, Action::LoadSelectedHistory);
    assert_eq!(h.last_snapshot_id, 5);
    assert_eq!(h.handle_tick(5), quiet());
}

#[test]
fn projects_screen_unwatches() {
    let mut s = state();
    s.handle_key(Key::Char('2'));
    assert_eq!(s.screen, Screen::Projects);
    s.set_projects(vec!["/p/one".to_string(), "/p/two".to_string()]);
    s.handle_key(Key::Char('j'));
    let o = s.handle_key(Key::Char('d'));
    assert_eq!(o.action, Action::Unwatch(1));
    s.project_unwatched(1);
    assert_eq!(s.notification, Some("Unwatched /p/two".to_string()));
    s.handle_key(Key::Char('3'));
    assert_eq!(s.screen, Screen::Statistics);
    s.handle_key(Key::Char('r'));
    assert!(s.stats_stale);
}
