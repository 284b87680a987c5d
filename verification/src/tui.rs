//! The interactive terminal interface as a state machine: the state it keeps,
//! how each key or mouse event changes it, and which outside work (loading,
//! restoring, searching) an event asks the caller to perform.

use vstd::prelude::*;
use crate::timeline::{HistoryItem, ItemView, items_view, strings_view, opt_view, header_flags_spec, header_flags};
use crate::nav::{next, prev, next_spec, prev_spec, lemma_move_range};

verus! {

/// The screen that is shown.
#[derive(Debug, Clone, Copy, PartialEq, Eq, Structural)]
pub enum Screen {
    Home,
    History,
    Search,
    Projects,
    Statistics,
    Settings,
}

/// The pane that receives navigation keys.
#[derive(Debug, Clone, Copy, PartialEq, Eq, Structural)]
pub enum Focus {
    Files,
    Timeline,
    Preview,
}

/// A dialog drawn over the screen.
#[derive(Debug, Clone, Copy, PartialEq, Eq, Structural)]
pub enum Dialog {
    BranchSelector,
    Confirmation,
}

/// A key press.
#[derive(Debug, Clone, Copy, PartialEq, Eq, Structural)]
pub enum Key {
    Char(char),
    Enter,
    Esc,
    Backspace,
    Up,
    Down,
    Left,
    Right,
    Tab,
    BackTab,
    Other,
}

/// A mouse wheel event.
#[derive(Debug, Clone, Copy, PartialEq, Eq, Structural)]
pub enum Wheel {
    Up,
    Down,
    Other,
}

/// What an event does to the time of the last selection change, which
/// delays the preview refresh.
#[derive(Debug, Clone, Copy, PartialEq, Eq, Structural)]
pub enum Timer {
    /// Leave it.
    Keep,
    /// Set it to now.
    Now,
    /// Set it to 200 ms ago.
    Backdated,
}

/// Outside work that an event asks for.
#[derive(Debug, Clone, Copy, PartialEq, Eq, Structural)]
pub enum Action {
    Nothing,
    /// Leave the interface.
    Quit,
    /// Search the stored contents for the search query.
    Search,
    /// Load the history of the file at this position of the file list.
    LoadFileHistory(usize),
    /// Load the history of the selected file.
    LoadSelectedHistory,
    /// Restore the selected hunks of the selected file from the snapshot at
    /// this position of the timeline.
    RestoreHunks(usize),
    /// Restore the whole selected file from the snapshot at this position.
    RestoreFile(usize),
    /// Apply the setting at this position of the settings list.
    ApplySetting(usize),
    /// Stop watching the project at this position of the project list.
    Unwatch(usize),
}

/// The outcome of one event.
#[derive(Debug, Clone, Copy, PartialEq, Eq, Structural)]
pub struct Outcome {
    pub action: Action,
    pub timer: Timer,
}

/// Number of entries on the settings screen.
pub const SETTINGS_COUNT: usize = 8;

/// The state of the interface.
#[derive(Debug, Clone)]
pub struct TuiState {
    pub screen: Screen,
    pub focus: Focus,
    pub input_mode: bool,
    pub dialog: Option<Dialog>,
    pub dialog_selected: Option<usize>,
    pub branches: Vec<String>,
    pub branch_filter: Option<String>,
    pub files: Vec<String>,
    pub files_selected: Option<usize>,
    pub history: Vec<HistoryItem>,
    pub versions_selected: Option<usize>,
    pub projects: Vec<String>,
    pub projects_selected: Option<usize>,
    pub results: Vec<String>,
    pub results_selected: Option<usize>,
    pub filter_input: Vec<char>,
    pub search_query: Vec<char>,
    pub selected_file: Option<String>,
    pub sidebar_width_pct: u16,
    pub timeline_width_pct: u16,
    pub settings_index: usize,
    pub scroll_offset: u16,
    pub hunk_count: usize,
    pub active_hunk: Option<usize>,
    pub selected_hunks: Vec<usize>,
    pub diff_base_hash: Option<String>,
    pub dirty: bool,
    pub preview_dirty: bool,
    pub stats_stale: bool,
    pub notification: Option<String>,
    pub last_snapshot_id: i64,
}

/// The state of the interface as plain values.
#[verifier::ext_equal]
pub struct TuiModel {
    pub screen: Screen,
    pub focus: Focus,
    pub input_mode: bool,
    pub dialog: Option<Dialog>,
    pub dialog_selected: Option<usize>,
    pub branches: Seq<Seq<char>>,
    pub branch_filter: Option<Seq<char>>,
    pub files: Seq<Seq<char>>,
    pub files_selected: Option<usize>,
    pub history: Seq<ItemView>,
    pub versions_selected: Option<usize>,
    pub projects: Seq<Seq<char>>,
    pub projects_selected: Option<usize>,
    pub results: Seq<Seq<char>>,
    pub results_selected: Option<usize>,
    pub filter_input: Seq<char>,
    pub search_query: Seq<char>,
    pub selected_file: Option<Seq<char>>,
    pub sidebar_width_pct: u16,
    pub timeline_width_pct: u16,
    pub settings_index: usize,
    pub scroll_offset: u16,
    pub hunk_count: usize,
    pub active_hunk: Option<usize>,
    pub selected_hunks: Seq<usize>,
    pub diff_base_hash: Option<Seq<char>>,
    pub dirty: bool,
    pub preview_dirty: bool,
    pub stats_stale: bool,
    pub notification: Option<Seq<char>>,
    pub last_snapshot_id: i64,
}

impl View for TuiState {
    type V = TuiModel;

    open spec fn view(&self) -> TuiModel {
        TuiModel {
            screen: self.screen,
            focus: self.focus,
            input_mode: self.input_mode,
            dialog: self.dialog,
            dialog_selected: self.dialog_selected,
            branches: strings_view(self.branches@),
            branch_filter: opt_view(self.branch_filter),
            files: strings_view(self.files@),
            files_selected: self.files_selected,
            history: items_view(self.history@),
            versions_selected: self.versions_selected,
            projects: strings_view(self.projects@),
            projects_selected: self.projects_selected,
            results: strings_view(self.results@),
            results_selected: self.results_selected,
            filter_input: self.filter_input@,
            search_query: self.search_query@,
            selected_file: opt_view(self.selected_file),
            sidebar_width_pct: self.sidebar_width_pct,
            timeline_width_pct: self.timeline_width_pct,
            settings_index: self.settings_index,
            scroll_offset: self.scroll_offset,
            hunk_count: self.hunk_count,
            active_hunk: self.active_hunk,
            selected_hunks: self.selected_hunks@,
            diff_base_hash: opt_view(self.diff_base_hash),
            dirty: self.dirty,
            preview_dirty: self.preview_dirty,
            stats_stale: self.stats_stale,
            notification: opt_view(self.notification),
            last_snapshot_id: self.last_snapshot_id,
        }
    }
}

/// Nothing to do, timer untouched.
pub open spec fn quiet() -> Outcome {
    Outcome { action: Action::Nothing, timer: Timer::Keep }
}

/// `x` with `c` removed from its end, as `pop` leaves it.
pub open spec fn pop_last(x: Seq<char>) -> Seq<char> {
    if x.len() == 0 { x } else { x.drop_last() }
}

/// A key typed while the filter or the search query is being edited.
pub open spec fn input_step(m: TuiModel, k: Key) -> (TuiModel, Outcome) {
    let searching = m.screen == Screen::Search;
    match k {
        Key::Enter => if searching {
            (TuiModel { input_mode: false, ..m }, Outcome { action: Action::Search, timer: Timer::Keep })
        } else {
            (TuiModel { input_mode: false, dirty: true, ..m }, quiet())
        },
        Key::Esc => if searching {
            (TuiModel { input_mode: false, screen: Screen::Home, dirty: true, ..m }, quiet())
        } else {
            (TuiModel { input_mode: false, ..m }, quiet())
        },
        Key::Backspace => if searching {
            (TuiModel { search_query: pop_last(m.search_query), ..m }, quiet())
        } else {
            (TuiModel { filter_input: pop_last(m.filter_input), dirty: true, ..m }, quiet())
        },
        Key::Char(c) => if searching {
            (TuiModel { search_query: m.search_query.push(c), ..m }, quiet())
        } else {
            (TuiModel { filter_input: m.filter_input.push(c), dirty: true, ..m }, quiet())
        },
        _ => (m, quiet()),
    }
}

impl TuiState {
    /// A key typed while the filter or the search query is being edited.
    fn input_key(&mut self, k: Key) -> (o: Outcome)
        ensures
            (final(self)@, o) == input_step(old(self)@, k),
    {
        let searching = self.screen == Screen::Search;
        match k {
            Key::Enter => {
                self.input_mode = false;
                if searching {
                    return Outcome { action: Action::Search, timer: Timer::Keep };
                }
                self.dirty = true;
            },
            Key::Esc => {
                self.input_mode = false;
                if searching {
                    self.screen = Screen::Home;
                    self.dirty = true;
                }
            },
            Key::Backspace => {
                if searching {
                    self.search_query.pop();
                } else {
                    self.filter_input.pop();
                    self.dirty = true;
                }
            },
            Key::Char(c) => {
                if searching {
                    self.search_query.push(c);
                } else {
                    self.filter_input.push(c);
                    self.dirty = true;
                }
            },
            _ => {},
        }
        Outcome { action: Action::Nothing, timer: Timer::Keep }
    }
}


/// `o` is unset or below the largest `usize`.
pub open spec fn below_max(o: Option<usize>) -> bool {
    match o {
        Some(i) => i < usize::MAX,
        None => true,
    }
}

impl TuiModel {
    /// What the event handlers rely on: selections that can be moved without
    /// overflow, a timeline selection within the timeline (or just past it),
    /// a branch-dialog selection that names a branch, and a settings
    /// position on the settings list.
    pub open spec fn wf(self) -> bool {
        &&& below_max(self.files_selected)
        &&& below_max(self.projects_selected)
        &&& below_max(self.results_selected)
        &&& below_max(self.dialog_selected)
        &&& below_max(self.versions_selected)
        &&& (self.versions_selected matches Some(i) ==> i <= self.history.len())
        &&& (self.dialog == Some(Dialog::BranchSelector) ==> (self.dialog_selected matches Some(i)
            ==> i < self.branches.len()))
        &&& self.settings_index < SETTINGS_COUNT
    }
}

/// Width after narrowing by two points, never below `lo`.
pub open spec fn narrow(w: u16, lo: u16) -> u16 {
    let d: u16 = if w >= 2 { (w - 2) as u16 } else { 0 };
    if d < lo { lo } else { d }
}

/// Width after widening by two points, never above `hi`.
pub open spec fn widen(w: u16, hi: u16) -> u16 {
    let d: u16 = if w <= u16::MAX - 2 { (w + 2) as u16 } else { u16::MAX };
    if d > hi { hi } else { d }
}

/// One step down, stopping at the largest value.
pub open spec fn inc_sat(x: u16) -> u16 {
    if x < u16::MAX { (x + 1) as u16 } else { x }
}

/// One step up, stopping at zero.
pub open spec fn dec_sat(x: u16) -> u16 {
    if x > 0 { (x - 1) as u16 } else { x }
}

/// Number of entries that the open dialog lists.
pub open spec fn dialog_len(m: TuiModel, d: Dialog) -> nat {
    match d {
        Dialog::BranchSelector => m.branches.len(),
        Dialog::Confirmation => 0,
    }
}

/// A key pressed while a dialog is open.
pub open spec fn dialog_step(m: TuiModel, d: Dialog, k: Key) -> (TuiModel, Outcome) {
    match k {
        Key::Esc => (TuiModel { dialog: None, ..m }, quiet()),
        Key::Down | Key::Char('j') => (
            TuiModel { dialog_selected: next_spec(m.dialog_selected, dialog_len(m, d), None), ..m },
            quiet(),
        ),
        Key::Up | Key::Char('k') => (
            TuiModel { dialog_selected: prev_spec(m.dialog_selected, dialog_len(m, d), None), ..m },
            quiet(),
        ),
        Key::Enter => match d {
            Dialog::BranchSelector => match m.dialog_selected {
                Some(i) => (
                    TuiModel {
                        branch_filter: Some(m.branches[i as int]),
                        notification: Some("Switched to branch: "@ + m.branches[i as int]),
                        dialog: None,
                        files_selected: Some(0),
                        preview_dirty: true,
                        dirty: true,
                        ..m
                    },
                    quiet(),
                ),
                None => (m, quiet()),
            },
            Dialog::Confirmation => (TuiModel { dialog: None, ..m }, quiet()),
        },
        _ => (m, quiet()),
    }
}

/// Shortcuts that work on every screen.
pub open spec fn global_step(m: TuiModel, k: Key) -> TuiModel {
    match k {
        Key::Char('1') => TuiModel { screen: Screen::Home, focus: Focus::Files, dirty: true, ..m },
        Key::Char('2') => TuiModel { screen: Screen::Projects, projects_selected: Some(0), dirty: true, ..m },
        Key::Char('3') => TuiModel { screen: Screen::Statistics, dirty: true, ..m },
        Key::Char('/') => TuiModel { screen: Screen::Search, input_mode: true, search_query: Seq::empty(), ..m },
        Key::Char('[') => TuiModel { sidebar_width_pct: narrow(m.sidebar_width_pct, 10), ..m },
        Key::Char(']') => TuiModel { sidebar_width_pct: widen(m.sidebar_width_pct, 70), ..m },
        Key::Char('{') => TuiModel { timeline_width_pct: narrow(m.timeline_width_pct, 10), ..m },
        Key::Char('}') => TuiModel { timeline_width_pct: widen(m.timeline_width_pct, 90), ..m },
        _ => m,
    }
}

impl TuiState {
    /// A key pressed while a dialog is open.
    fn dialog_key(&mut self, d: Dialog, k: Key) -> (o: Outcome)
        requires
            key_ok(old(self)@, k),
            !old(self).input_mode,
            old(self).dialog == Some(d),
        ensures
            (final(self)@, o) == dialog_step(old(self)@, d, k),
    {
        let len = match d {
            Dialog::BranchSelector => self.branches.len(),
            Dialog::Confirmation => 0,
        };
        match k {
            Key::Esc => {
                self.dialog = None;
            },
            Key::Down | Key::Char('j') => {
                self.dialog_selected = next(self.dialog_selected, len, None);
            },
            Key::Up | Key::Char('k') => {
                self.dialog_selected = prev(self.dialog_selected, len, None);
            },
            Key::Enter => match d {
                Dialog::BranchSelector => {
                    if let Some(i) = self.dialog_selected {
                        let branch = self.branches[i].clone();
                        let mut note = String::from_str("Switched to branch: ");
                        note.append(branch.as_str());
                        self.branch_filter = Some(branch);
                        self.notification = Some(note);
                        self.dialog = None;
                        self.files_selected = Some(0);
                        self.preview_dirty = true;
                        self.dirty = true;
                    }
                },
                Dialog::Confirmation => {
                    self.dialog = None;
                },
            },
            _ => {},
        }
        Outcome { action: Action::Nothing, timer: Timer::Keep }
    }

    /// Shortcuts that work on every screen.
    fn global_key(&mut self, k: Key)
        ensures
            final(self)@ == global_step(old(self)@, k),
    {
        match k {
            Key::Char('1') => {
                self.screen = Screen::Home;
                self.focus = Focus::Files;
                self.dirty = true;
            },
            Key::Char('2') => {
                self.screen = Screen::Projects;
                self.projects_selected = Some(0);
                self.dirty = true;
            },
            Key::Char('3') => {
                self.screen = Screen::Statistics;
                self.dirty = true;
            },
            Key::Char('/') => {
                self.screen = Screen::Search;
                self.input_mode = true;
                self.search_query.clear();
            },
            Key::Char('[') => {
                self.sidebar_width_pct = narrow_exec(self.sidebar_width_pct, 10);
            },
            Key::Char(']') => {
                self.sidebar_width_pct = widen_exec(self.sidebar_width_pct, 70);
            },
            Key::Char('{') => {
                self.timeline_width_pct = narrow_exec(self.timeline_width_pct, 10);
            },
            Key::Char('}') => {
                self.timeline_width_pct = widen_exec(self.timeline_width_pct, 90);
            },
            _ => {},
        }
    }
}

/// `w.saturating_sub(2).max(lo)`.
fn narrow_exec(w: u16, lo: u16) -> (r: u16)
    ensures
        r == narrow(w, lo),
{
    let d: u16 = if w >= 2 { w - 2 } else { 0 };
    if d < lo { lo } else { d }
}

/// `w.saturating_add(2).min(hi)`.
fn widen_exec(w: u16, hi: u16) -> (r: u16)
    ensures
        r == widen(w, hi),
{
    let d: u16 = if w <= u16::MAX - 2 { w + 2 } else { u16::MAX };
    if d > hi { hi } else { d }
}


/// `s` with `x` removed if it holds it, else with `x` inserted between the
/// values below it and those above it.
pub open spec fn toggle_spec(s: Seq<usize>, x: usize) -> Seq<usize> {
    if s.contains(x) {
        sides(s, x, true, true)
    } else {
        sides(s, x, true, false).push(x) + sides(s, x, false, true)
    }
}

/// `s` lists its values in strictly increasing order.
pub open spec fn increasing(s: Seq<usize>) -> bool {
    forall|i: int, j: int| 0 <= i < j < s.len() ==> s[i] < s[j]
}

/// Whether `y` lies on a kept side of `x`.
pub open spec fn keep(x: usize, below: bool, above: bool, y: usize) -> bool {
    (below && y < x) || (above && y > x)
}

/// The values of `s` below `x` (if `below`) and above it (if `above`), in order.
pub open spec fn sides(s: Seq<usize>, x: usize, below: bool, above: bool) -> Seq<usize>
    decreases s.len(),
{
    if s.len() == 0 {
        s
    } else {
        let r = sides(s.drop_last(), x, below, above);
        if keep(x, below, above, s.last()) { r.push(s.last()) } else { r }
    }
}

/// The values of `v` below `x` (if `below`) and above it (if `above`), in order.
fn filtered(v: &Vec<usize>, x: usize, below: bool, above: bool) -> (r: Vec<usize>)
    ensures
        r@ == sides(v@, x, below, above),
{
    let mut r: Vec<usize> = Vec::new();
    let mut i: usize = 0;
    while i < v.len()
        invariant
            i <= v@.len(),
            r@ == sides(v@.subrange(0, i as int), x, below, above),
        decreases v@.len() - i,
    {
        let y = v[i];
        proof {
            let t = v@.subrange(0, i + 1);
            assert(t.drop_last() =~= v@.subrange(0, i as int));
            assert(t.last() == y);
        }
        if (below && y < x) || (above && y > x) {
            r.push(y);
        }
        i = i + 1;
    }
    assert(v@.subrange(0, v@.len() as int) =~= v@);
    r
}

/// Whether `v` holds `x`.
fn holds(v: &Vec<usize>, x: usize) -> (r: bool)
    ensures
        r == v@.contains(x),
{
    let mut i: usize = 0;
    while i < v.len()
        invariant
            i <= v@.len(),
            forall|j: int| 0 <= j < i ==> v@[j] != x,
        decreases v@.len() - i,
    {
        if v[i] == x {
            return true;
        }
        i = i + 1;
    }
    false
}

/// Selects hunk `x` when it is not selected, and unselects it when it is.
fn toggle(v: &Vec<usize>, x: usize) -> (r: Vec<usize>)
    ensures
        r@ == toggle_spec(v@, x),
{
    if holds(v, x) {
        let r = filtered(v, x, true, true);
        r
    } else {
        let mut lo = filtered(v, x, true, false);
        let hi = filtered(v, x, false, true);
        lo.push(x);
        let mut k: usize = 0;
        let ghost lo0 = lo@;
        while k < hi.len()
            invariant
                k <= hi@.len(),
                lo@ == lo0 + hi@.subrange(0, k as int),
            decreases hi@.len() - k,
        {
            lo.push(hi[k]);
            k = k + 1;
            assert(lo@ =~= lo0 + hi@.subrange(0, k as int));
        }
        assert(hi@.subrange(0, hi@.len() as int) =~= hi@);
        lo
    }
}


/// The request to load the history of the selected file, if one is selected.
pub open spec fn load_for(sel: Option<usize>, len: nat) -> Action {
    match sel {
        Some(i) => if i < len { Action::LoadFileHistory(i) } else { Action::Nothing },
        None => Action::Nothing,
    }
}

/// A key on the home screen.
pub open spec fn home_step(m: TuiModel, k: Key) -> (TuiModel, Outcome) {
    match k {
        Key::Char('q') => (m, Outcome { action: Action::Quit, timer: Timer::Keep }),
        Key::Char('f') => (TuiModel { input_mode: true, ..m }, quiet()),
        Key::Char('s') | Key::Char('S') => (
            TuiModel { screen: Screen::Settings, settings_index: 0, dirty: true, ..m },
            quiet(),
        ),
        Key::Char('b') | Key::Char('B') => if m.branches.len() == 0 {
            (TuiModel { notification: Some("No branches found"@), ..m }, quiet())
        } else {
            (TuiModel { dialog: Some(Dialog::BranchSelector), dialog_selected: Some(0), ..m }, quiet())
        },
        Key::Enter | Key::Right | Key::Char('l') => match m.files_selected {
            Some(i) => if i < m.files.len() {
                (
                    TuiModel {
                        selected_file: Some(m.files[i as int]),
                        screen: Screen::History,
                        focus: Focus::Timeline,
                        versions_selected: Some(0),
                        preview_dirty: true,
                        dirty: true,
                        scroll_offset: 0,
                        ..m
                    },
                    Outcome { action: Action::Nothing, timer: Timer::Now },
                )
            } else {
                (m, quiet())
            },
            None => (m, quiet()),
        },
        Key::Down | Key::Char('j') => {
            let sel = next_spec(m.files_selected, m.files.len(), None);
            (
                TuiModel { files_selected: sel, preview_dirty: true, scroll_offset: 0, ..m },
                Outcome { action: load_for(sel, m.files.len()), timer: Timer::Now },
            )
        },
        Key::Up | Key::Char('k') => {
            let sel = prev_spec(m.files_selected, m.files.len(), None);
            (
                TuiModel { files_selected: sel, preview_dirty: true, scroll_offset: 0, ..m },
                Outcome { action: load_for(sel, m.files.len()), timer: Timer::Now },
            )
        },
        _ => (m, quiet()),
    }
}

/// The position of the selected timeline line when it is a snapshot.
pub open spec fn snapshot_at(h: Seq<ItemView>, sel: Option<usize>) -> Option<usize> {
    match sel {
        Some(i) => if i < h.len() && h[i as int] is Snapshot { Some(i) } else { None },
        None => None,
    }
}

/// Focus after `Tab`.
pub open spec fn focus_after(f: Focus) -> Focus {
    match f {
        Focus::Files => Focus::Timeline,
        Focus::Timeline => Focus::Preview,
        Focus::Preview => Focus::Files,
    }
}

/// Focus after `Shift+Tab`.
pub open spec fn focus_before(f: Focus) -> Focus {
    match f {
        Focus::Files => Focus::Preview,
        Focus::Timeline => Focus::Files,
        Focus::Preview => Focus::Timeline,
    }
}

/// The hunk after `cur` (none counts as 0), cycling through `1..=count`.
pub open spec fn hunk_down(cur: Option<usize>, count: usize) -> usize {
    let c: usize = match cur { Some(c) => c, None => 0 };
    ((c % count) + 1) as usize
}

/// The hunk before `cur` (none counts as 1), cycling through `1..=count`.
pub open spec fn hunk_up(cur: Option<usize>, count: usize) -> usize {
    let c: usize = match cur { Some(c) => c, None => 1 };
    if c <= 1 { count } else { (c - 1) as usize }
}

/// `r` on the history screen: restore the selected hunks, or the whole file.
pub open spec fn restore_step(m: TuiModel) -> (TuiModel, Outcome) {
    if m.selected_file is None {
        (m, quiet())
    } else {
        match snapshot_at(m.history, m.versions_selected) {
            Some(i) => if m.selected_hunks.len() > 0 {
                (m, Outcome { action: Action::RestoreHunks(i), timer: Timer::Keep })
            } else {
                (
                    TuiModel { notification: Some("Restored Full File"@), ..m },
                    Outcome { action: Action::RestoreFile(i), timer: Timer::Keep },
                )
            },
            None => (m, quiet()),
        }
    }
}

/// `v` on the history screen: make the selected snapshot the diff base, or
/// clear the base when it already is.
pub open spec fn base_step(m: TuiModel) -> TuiModel {
    match snapshot_at(m.history, m.versions_selected) {
        Some(i) => match m.history[i as int] {
            ItemView::Snapshot(snap) => if m.diff_base_hash == Some(snap.hash) {
                TuiModel {
                    diff_base_hash: None,
                    notification: Some("Diff base cleared"@),
                    preview_dirty: true,
                    ..m
                }
            } else {
                TuiModel {
                    diff_base_hash: Some(snap.hash),
                    notification: Some("Diff base set"@),
                    preview_dirty: true,
                    ..m
                }
            },
            _ => m,
        },
        None => m,
    }
}

/// A key on the history screen.
pub open spec fn history_step(m: TuiModel, k: Key) -> (TuiModel, Outcome) {
    let on_preview = m.focus == Focus::Preview;
    let flags = Some(header_flags_spec(m.history));
    match k {
        Key::Esc | Key::Left | Key::Backspace => if on_preview {
            (TuiModel { focus: Focus::Timeline, preview_dirty: true, ..m }, quiet())
        } else {
            (TuiModel { screen: Screen::Home, focus: Focus::Files, preview_dirty: true, dirty: true, ..m }, quiet())
        },
        Key::Tab => (
            TuiModel { focus: focus_after(m.focus), preview_dirty: true, scroll_offset: 0, ..m },
            quiet(),
        ),
        Key::BackTab => (
            TuiModel { focus: focus_before(m.focus), preview_dirty: true, scroll_offset: 0, ..m },
            quiet(),
        ),
        Key::Char('p') | Key::Char('P') => if !on_preview {
            (
                TuiModel { focus: Focus::Preview, preview_dirty: true, scroll_offset: 0, active_hunk: Some(1), ..m },
                quiet(),
            )
        } else {
            (m, quiet())
        },
        Key::Char('r') => restore_step(m),
        Key::Char('v') => (base_step(m), quiet()),
        Key::Down | Key::Char('j') => if on_preview {
            if m.hunk_count > 0 {
                (TuiModel { active_hunk: Some(hunk_down(m.active_hunk, m.hunk_count)), preview_dirty: true, ..m }, quiet())
            } else {
                (TuiModel { scroll_offset: inc_sat(m.scroll_offset), ..m }, quiet())
            }
        } else {
            (
                TuiModel {
                    versions_selected: next_spec(m.versions_selected, m.history.len(), flags),
                    preview_dirty: true,
                    scroll_offset: 0,
                    active_hunk: None,
                    selected_hunks: Seq::empty(),
                    ..m
                },
                Outcome { action: Action::Nothing, timer: Timer::Now },
            )
        },
        Key::Up | Key::Char('k') => if on_preview {
            if m.hunk_count > 0 {
                (TuiModel { active_hunk: Some(hunk_up(m.active_hunk, m.hunk_count)), preview_dirty: true, ..m }, quiet())
            } else {
                (TuiModel { scroll_offset: dec_sat(m.scroll_offset), ..m }, quiet())
            }
        } else {
            (
                TuiModel {
                    versions_selected: prev_spec(m.versions_selected, m.history.len(), flags),
                    preview_dirty: true,
                    scroll_offset: 0,
                    active_hunk: None,
                    selected_hunks: Seq::empty(),
                    ..m
                },
                Outcome { action: Action::Nothing, timer: Timer::Now },
            )
        },
        Key::Char(' ') => if on_preview || m.focus == Focus::Timeline {
            let backdated = Outcome { action: Action::Nothing, timer: Timer::Backdated };
            if m.hunk_count > 0 {
                let idx: usize = match m.active_hunk { Some(c) => c, None => 1 };
                (
                    TuiModel {
                        active_hunk: Some(((idx % m.hunk_count) + 1) as usize),
                        selected_hunks: toggle_spec(m.selected_hunks, idx),
                        preview_dirty: true,
                        ..m
                    },
                    backdated,
                )
            } else {
                (m, backdated)
            }
        } else {
            (m, quiet())
        },
        _ => (m, quiet()),
    }
}

/// A key on the settings screen.
pub open spec fn settings_step(m: TuiModel, k: Key) -> (TuiModel, Outcome) {
    match k {
        Key::Esc | Key::Char('q') => (TuiModel { screen: Screen::Home, dirty: true, ..m }, quiet()),
        Key::Down | Key::Char('j') => (
            TuiModel { settings_index: ((m.settings_index + 1) % (SETTINGS_COUNT as int)) as usize, ..m },
            quiet(),
        ),
        Key::Up | Key::Char('k') => (
            TuiModel {
                settings_index: if m.settings_index == 0 { (SETTINGS_COUNT - 1) as usize } else { (m.settings_index - 1) as usize },
                ..m
            },
            quiet(),
        ),
        Key::Enter => (m, Outcome { action: Action::ApplySetting(m.settings_index), timer: Timer::Keep }),
        _ => (m, quiet()),
    }
}

/// A key on the projects screen.
pub open spec fn projects_step(m: TuiModel, k: Key) -> (TuiModel, Outcome) {
    match k {
        Key::Esc | Key::Char('q') => (TuiModel { screen: Screen::Home, dirty: true, ..m }, quiet()),
        Key::Down | Key::Char('j') => (
            TuiModel { projects_selected: next_spec(m.projects_selected, m.projects.len(), None), ..m },
            quiet(),
        ),
        Key::Up | Key::Char('k') => (
            TuiModel { projects_selected: prev_spec(m.projects_selected, m.projects.len(), None), ..m },
            quiet(),
        ),
        Key::Char('d') => match m.projects_selected {
            Some(i) => if i < m.projects.len() {
                (m, Outcome { action: Action::Unwatch(i), timer: Timer::Keep })
            } else {
                (m, quiet())
            },
            None => (m, quiet()),
        },
        _ => (m, quiet()),
    }
}

/// A key on the statistics screen.
pub open spec fn statistics_step(m: TuiModel, k: Key) -> (TuiModel, Outcome) {
    match k {
        Key::Esc | Key::Char('q') => (TuiModel { screen: Screen::Home, dirty: true, ..m }, quiet()),
        Key::Char('r') => (TuiModel { stats_stale: true, ..m }, quiet()),
        _ => (m, quiet()),
    }
}

/// A key on the search screen (outside of typing the query).
pub open spec fn search_step(m: TuiModel, k: Key) -> (TuiModel, Outcome) {
    match k {
        Key::Esc | Key::Char('q') => (TuiModel { screen: Screen::Home, dirty: true, ..m }, quiet()),
        Key::Down | Key::Char('j') => (
            TuiModel { results_selected: next_spec(m.results_selected, m.results.len(), None), ..m },
            quiet(),
        ),
        Key::Up | Key::Char('k') => (
            TuiModel { results_selected: prev_spec(m.results_selected, m.results.len(), None), ..m },
            quiet(),
        ),
        Key::Enter => match m.results_selected {
            Some(i) => if i < m.results.len() {
                (
                    TuiModel {
                        selected_file: Some(m.results[i as int]),
                        screen: Screen::History,
                        focus: Focus::Timeline,
                        versions_selected: Some(0),
                        preview_dirty: true,
                        ..m
                    },
                    quiet(),
                )
            } else {
                (m, quiet())
            },
            None => (m, quiet()),
        },
        _ => (m, quiet()),
    }
}

/// A key handled by the screen that is shown.
pub open spec fn screen_step(m: TuiModel, k: Key) -> (TuiModel, Outcome) {
    match m.screen {
        Screen::Home => home_step(m, k),
        Screen::History => history_step(m, k),
        Screen::Settings => settings_step(m, k),
        Screen::Projects => projects_step(m, k),
        Screen::Statistics => statistics_step(m, k),
        Screen::Search => search_step(m, k),
    }
}

/// A key moves a selection down.
pub open spec fn is_down(k: Key) -> bool {
    k == Key::Down || k == Key::Char('j')
}

/// A key moves a selection up.
pub open spec fn is_up(k: Key) -> bool {
    k == Key::Up || k == Key::Char('k')
}

/// Moving the timeline selection up stays within the timeline.
pub open spec fn timeline_up_ok(m: TuiModel) -> bool {
    m.history.len() > 0 ==> (m.versions_selected matches Some(i) ==> i <= m.history.len())
}

/// Whether a key on the shown screen can be handled.
pub open spec fn screen_key_ok(g: TuiModel, k: Key) -> bool {
    match g.screen {
        Screen::Home => is_down(k) ==> below_max(g.files_selected),
        Screen::History => g.focus != Focus::Preview ==> (
            (is_down(k) ==> below_max(g.versions_selected)) && (is_up(k) ==> timeline_up_ok(g))),
        Screen::Settings => is_down(k) ==> g.settings_index < usize::MAX,
        Screen::Projects => is_down(k) ==> below_max(g.projects_selected),
        Screen::Search => is_down(k) ==> below_max(g.results_selected),
        Screen::Statistics => true,
    }
}

/// Whether a key can be handled: the selection it moves down can move
/// without overflow, the timeline selection it moves up lies within the
/// timeline (or just past it), and the branch it picks exists.
pub open spec fn key_ok(m: TuiModel, k: Key) -> bool {
    if m.input_mode {
        true
    } else {
        match m.dialog {
            Some(d) => (is_down(k) ==> below_max(m.dialog_selected))
                && (k == Key::Enter && d == Dialog::BranchSelector ==> (m.dialog_selected matches Some(i) ==> i < m.branches.len())),
            None => screen_key_ok(global_step(m, k), k),
        }
    }
}

/// Whether a wheel event can be handled.
pub open spec fn wheel_ok(m: TuiModel, w: Wheel) -> bool {
    &&& (w == Wheel::Down && m.focus == Focus::Files ==> below_max(m.files_selected))
    &&& (w == Wheel::Down && m.focus == Focus::Timeline ==> below_max(m.versions_selected))
    &&& (w == Wheel::Up && m.focus == Focus::Timeline ==> timeline_up_ok(m))
}

/// A key press: it edits the query or filter while one is being typed,
/// goes to the dialog while one is open, and else passes the global
/// shortcuts and then the shown screen.
pub open spec fn key_step(m: TuiModel, k: Key) -> (TuiModel, Outcome) {
    if m.input_mode {
        input_step(m, k)
    } else {
        match m.dialog {
            Some(d) => dialog_step(m, d, k),
            None => screen_step(global_step(m, k), k),
        }
    }
}


impl TuiState {
    /// The position of the selected timeline line when it is a snapshot.
    fn snapshot_pos(&self) -> (r: Option<usize>)
        ensures
            r == snapshot_at(self@.history, self.versions_selected),
    {
        match self.versions_selected {
            Some(i) => if i < self.history.len() {
                match &self.history[i] {
                    HistoryItem::Snapshot(_) => Some(i),
                    _ => None,
                }
            } else {
                None
            },
            None => None,
        }
    }

    /// A key on the home screen.
    fn home_key(&mut self, k: Key) -> (o: Outcome)
        requires
            is_down(k) ==> below_max(old(self).files_selected),
        ensures
            (final(self)@, o) == home_step(old(self)@, k),
    {
        let mut o = Outcome { action: Action::Nothing, timer: Timer::Keep };
        match k {
            Key::Char('q') => {
                o = Outcome { action: Action::Quit, timer: Timer::Keep };
            },
            Key::Char('f') => {
                self.input_mode = true;
            },
            Key::Char('s') | Key::Char('S') => {
                self.screen = Screen::Settings;
                self.settings_index = 0;
                self.dirty = true;
            },
            Key::Char('b') | Key::Char('B') => {
                if self.branches.len() == 0 {
                    self.notification = Some(String::from_str("No branches found"));
                } else {
                    self.dialog = Some(Dialog::BranchSelector);
                    self.dialog_selected = Some(0);
                }
            },
            Key::Enter | Key::Right | Key::Char('l') => {
                if let Some(i) = self.files_selected {
                    if i < self.files.len() {
                        self.selected_file = Some(self.files[i].clone());
                        self.screen = Screen::History;
                        self.focus = Focus::Timeline;
                        self.versions_selected = Some(0);
                        self.preview_dirty = true;
                        self.dirty = true;
                        self.scroll_offset = 0;
                        o = Outcome { action: Action::Nothing, timer: Timer::Now };
                    }
                }
            },
            Key::Down | Key::Char('j') | Key::Up | Key::Char('k') => {
                let len = self.files.len();
                let sel = match k {
                    Key::Down | Key::Char('j') => next(self.files_selected, len, None),
                    _ => prev(self.files_selected, len, None),
                };
                self.files_selected = sel;
                self.preview_dirty = true;
                self.scroll_offset = 0;
                let action = match sel {
                    Some(i) => if i < len { Action::LoadFileHistory(i) } else { Action::Nothing },
                    None => Action::Nothing,
                };
                o = Outcome { action, timer: Timer::Now };
            },
            _ => {},
        }
        o
    }

    /// A key on the history screen.
    fn history_key(&mut self, k: Key) -> (o: Outcome)
        requires
            old(self).screen == Screen::History,
            screen_key_ok(old(self)@, k),
        ensures
            (final(self)@, o) == history_step(old(self)@, k),
    {
        let on_preview = self.focus == Focus::Preview;
        let mut o = Outcome { action: Action::Nothing, timer: Timer::Keep };
        match k {
            Key::Esc | Key::Left | Key::Backspace => {
                if on_preview {
                    self.focus = Focus::Timeline;
                    self.preview_dirty = true;
                } else {
                    self.screen = Screen::Home;
                    self.focus = Focus::Files;
                    self.preview_dirty = true;
                    self.dirty = true;
                }
            },
            Key::Tab | Key::BackTab => {
                self.focus = match (k, self.focus) {
                    (Key::Tab, Focus::Files) => Focus::Timeline,
                    (Key::Tab, Focus::Timeline) => Focus::Preview,
                    (Key::Tab, Focus::Preview) => Focus::Files,
                    (_, Focus::Files) => Focus::Preview,
                    (_, Focus::Timeline) => Focus::Files,
                    (_, Focus::Preview) => Focus::Timeline,
                };
                self.preview_dirty = true;
                self.scroll_offset = 0;
            },
            Key::Char('p') | Key::Char('P') => {
                if !on_preview {
                    self.focus = Focus::Preview;
                    self.preview_dirty = true;
                    self.scroll_offset = 0;
                    self.active_hunk = Some(1);
                }
            },
            Key::Char('r') => {
                if self.selected_file.is_some() {
                    if let Some(i) = self.snapshot_pos() {
                        if self.selected_hunks.len() > 0 {
                            o = Outcome { action: Action::RestoreHunks(i), timer: Timer::Keep };
                        } else {
                            self.notification = Some(String::from_str("Restored Full File"));
                            o = Outcome { action: Action::RestoreFile(i), timer: Timer::Keep };
                        }
                    }
                }
            },
            Key::Char('v') => {
                if let Some(i) = self.snapshot_pos() {
                    match &self.history[i] {
                        HistoryItem::Snapshot(snap) => {
                            let same = match &self.diff_base_hash {
                                Some(b) => crate::text::str_eq(b.as_str(), snap.content_hash.as_str()),
                                None => false,
                            };
                            if same {
                                self.diff_base_hash = None;
                                self.notification = Some(String::from_str("Diff base cleared"));
                            } else {
                                self.diff_base_hash = Some(snap.content_hash.clone());
                                self.notification = Some(String::from_str("Diff base set"));
                            }
                            self.preview_dirty = true;
                        },
                        _ => {},
                    }
                }
            },
            Key::Down | Key::Char('j') | Key::Up | Key::Char('k') => {
                let down = match k {
                    Key::Down | Key::Char('j') => true,
                    _ => false,
                };
                if on_preview {
                    if self.hunk_count > 0 {
                        let cur = if down {
                            let c = match self.active_hunk { Some(c) => c, None => 0 };
                            (c % self.hunk_count) + 1
                        } else {
                            let c = match self.active_hunk { Some(c) => c, None => 1 };
                            if c <= 1 { self.hunk_count } else { c - 1 }
                        };
                        self.active_hunk = Some(cur);
                        self.preview_dirty = true;
                    } else if down {
                        if self.scroll_offset < u16::MAX {
                            self.scroll_offset = self.scroll_offset + 1;
                        }
                    } else {
                        if self.scroll_offset > 0 {
                            self.scroll_offset = self.scroll_offset - 1;
                        }
                    }
                } else {
                    let flags = header_flags(&self.history);
                    let len = self.history.len();
                    self.versions_selected = if down {
                        next(self.versions_selected, len, Some(&flags))
                    } else {
                        prev(self.versions_selected, len, Some(&flags))
                    };
                    self.preview_dirty = true;
                    self.scroll_offset = 0;
                    self.active_hunk = None;
                    self.selected_hunks = Vec::new();
                    o = Outcome { action: Action::Nothing, timer: Timer::Now };
                }
            },
            Key::Char(' ') => {
                if on_preview || self.focus == Focus::Timeline {
                    if self.hunk_count > 0 {
                        let idx = match self.active_hunk { Some(c) => c, None => 1 };
                        self.selected_hunks = toggle(&self.selected_hunks, idx);
                        self.active_hunk = Some((idx % self.hunk_count) + 1);
                        self.preview_dirty = true;
                    }
                    o = Outcome { action: Action::Nothing, timer: Timer::Backdated };
                }
            },
            _ => {},
        }
        o
    }

    /// A key on the settings, projects, statistics or search screen.
    fn list_screen_key(&mut self, k: Key) -> (o: Outcome)
        requires
            screen_key_ok(old(self)@, k),
            old(self).screen != Screen::Home,
            old(self).screen != Screen::History,
        ensures
            (final(self)@, o) == screen_step(old(self)@, k),
    {
        let screen = self.screen;
        let mut o = Outcome { action: Action::Nothing, timer: Timer::Keep };
        match k {
            Key::Esc | Key::Char('q') => {
                self.screen = Screen::Home;
                self.dirty = true;
            },
            Key::Down | Key::Char('j') | Key::Up | Key::Char('k') => {
                let down = match k {
                    Key::Down | Key::Char('j') => true,
                    _ => false,
                };
                match screen {
                    Screen::Settings => {
                        self.settings_index = if down {
                            (self.settings_index + 1) % SETTINGS_COUNT
                        } else if self.settings_index == 0 {
                            SETTINGS_COUNT - 1
                        } else {
                            self.settings_index - 1
                        };
                    },
                    Screen::Projects => {
                        let len = self.projects.len();
                        self.projects_selected = if down {
                            next(self.projects_selected, len, None)
                        } else {
                            prev(self.projects_selected, len, None)
                        };
                    },
                    Screen::Search => {
                        let len = self.results.len();
                        self.results_selected = if down {
                            next(self.results_selected, len, None)
                        } else {
                            prev(self.results_selected, len, None)
                        };
                    },
                    _ => {},
                }
            },
            Key::Enter => {
                match screen {
                    Screen::Settings => {
                        o = Outcome { action: Action::ApplySetting(self.settings_index), timer: Timer::Keep };
                    },
                    Screen::Search => {
                        if let Some(i) = self.results_selected {
                            if i < self.results.len() {
                                self.selected_file = Some(self.results[i].clone());
                                self.screen = Screen::History;
                                self.focus = Focus::Timeline;
                                self.versions_selected = Some(0);
                                self.preview_dirty = true;
                            }
                        }
                    },
                    _ => {},
                }
            },
            Key::Char('d') => {
                if screen == Screen::Projects {
                    if let Some(i) = self.projects_selected {
                        if i < self.projects.len() {
                            o = Outcome { action: Action::Unwatch(i), timer: Timer::Keep };
                        }
                    }
                }
            },
            Key::Char('r') => {
                if screen == Screen::Statistics {
                    self.stats_stale = true;
                }
            },
            _ => {},
        }
        o
    }

    /// Handles a key press; the returned outcome names the outside work that
    /// the caller performs next.
    pub fn handle_key(&mut self, k: Key) -> (o: Outcome)
        requires
            key_ok(old(self)@, k),
        ensures
            (final(self)@, o) == key_step(old(self)@, k),
    {
        if self.input_mode {
            return self.input_key(k);
        }
        match self.dialog {
            Some(d) => self.dialog_key(d, k),
            None => {
                self.global_key(k);
                match self.screen {
                    Screen::Home => self.home_key(k),
                    Screen::History => self.history_key(k),
                    _ => self.list_screen_key(k),
                }
            },
        }
    }
}


/// A mouse wheel event; it ignores typing mode and dialogs.
pub open spec fn wheel_step(m: TuiModel, w: Wheel) -> (TuiModel, Outcome) {
    let moved = Outcome { action: Action::Nothing, timer: Timer::Now };
    let flags = Some(header_flags_spec(m.history));
    match w {
        Wheel::Down => match m.focus {
            Focus::Files => (
                TuiModel { files_selected: next_spec(m.files_selected, m.files.len(), None), preview_dirty: true, scroll_offset: 0, ..m },
                moved,
            ),
            Focus::Timeline => (
                TuiModel { versions_selected: next_spec(m.versions_selected, m.history.len(), flags), preview_dirty: true, scroll_offset: 0, ..m },
                moved,
            ),
            Focus::Preview => (TuiModel { scroll_offset: inc_sat(m.scroll_offset), ..m }, quiet()),
        },
        Wheel::Up => match m.focus {
            Focus::Files => (
                TuiModel { files_selected: prev_spec(m.files_selected, m.files.len(), None), preview_dirty: true, scroll_offset: 0, ..m },
                moved,
            ),
            Focus::Timeline => (
                TuiModel { versions_selected: prev_spec(m.versions_selected, m.history.len(), flags), preview_dirty: true, scroll_offset: 0, ..m },
                moved,
            ),
            Focus::Preview => (TuiModel { scroll_offset: dec_sat(m.scroll_offset), ..m }, quiet()),
        },
        Wheel::Other => (m, quiet()),
    }
}

/// A periodic check that found `max_id` as the newest stored snapshot.
pub open spec fn tick_step(m: TuiModel, max_id: i64) -> (TuiModel, Outcome) {
    if max_id > m.last_snapshot_id {
        let action = if m.screen == Screen::History && m.selected_file is Some {
            Action::LoadSelectedHistory
        } else {
            Action::Nothing
        };
        (TuiModel { last_snapshot_id: max_id, preview_dirty: true, ..m }, Outcome { action, timer: Timer::Keep })
    } else {
        (m, quiet())
    }
}

impl TuiState {
    /// Handles a mouse wheel event.
    pub fn handle_wheel(&mut self, w: Wheel) -> (o: Outcome)
        requires
            wheel_ok(old(self)@, w),
        ensures
            (final(self)@, o) == wheel_step(old(self)@, w),
    {
        let down = match w {
            Wheel::Down => true,
            Wheel::Up => false,
            Wheel::Other => {
                return Outcome { action: Action::Nothing, timer: Timer::Keep };
            },
        };
        match self.focus {
            Focus::Files => {
                let len = self.files.len();
                self.files_selected = if down {
                    next(self.files_selected, len, None)
                } else {
                    prev(self.files_selected, len, None)
                };
            },
            Focus::Timeline => {
                let flags = header_flags(&self.history);
                let len = self.history.len();
                self.versions_selected = if down {
                    next(self.versions_selected, len, Some(&flags))
                } else {
                    prev(self.versions_selected, len, Some(&flags))
                };
            },
            Focus::Preview => {
                if down {
                    if self.scroll_offset < u16::MAX {
                        self.scroll_offset = self.scroll_offset + 1;
                    }
                } else if self.scroll_offset > 0 {
                    self.scroll_offset = self.scroll_offset - 1;
                }
                return Outcome { action: Action::Nothing, timer: Timer::Keep };
            },
        }
        self.preview_dirty = true;
        self.scroll_offset = 0;
        Outcome { action: Action::Nothing, timer: Timer::Now }
    }

    /// Handles the periodic check for snapshots stored in the background.
    pub fn handle_tick(&mut self, max_id: i64) -> (o: Outcome)
        ensures
            (final(self)@, o) == tick_step(old(self)@, max_id),
    {
        if max_id > self.last_snapshot_id {
            self.last_snapshot_id = max_id;
            self.preview_dirty = true;
            let action = if self.screen == Screen::History && self.selected_file.is_some() {
                Action::LoadSelectedHistory
            } else {
                Action::Nothing
            };
            Outcome { action, timer: Timer::Keep }
        } else {
            Outcome { action: Action::Nothing, timer: Timer::Keep }
        }
    }

    /// The file list was loaded: the first file is selected when none was.
    pub fn set_files(&mut self, files: Vec<String>)
        ensures
            final(self)@ == (TuiModel {
                files: strings_view(files@),
                files_selected: if old(self).files_selected is None && files@.len() > 0 {
                    Some(0)
                } else {
                    old(self).files_selected
                },
                ..old(self)@
            }),
    {
        if self.files_selected.is_none() && files.len() > 0 {
            self.files_selected = Some(0);
        }
        self.files = files;
    }

    /// The watched projects were loaded: the first is selected when none was.
    pub fn set_projects(&mut self, projects: Vec<String>)
        ensures
            final(self)@ == (TuiModel {
                projects: strings_view(projects@),
                projects_selected: if old(self).projects_selected is None && projects@.len() > 0 {
                    Some(0)
                } else {
                    old(self).projects_selected
                },
                ..old(self)@
            }),
    {
        if self.projects_selected.is_none() && projects.len() > 0 {
            self.projects_selected = Some(0);
        }
        self.projects = projects;
    }

    /// A search finished: its results are listed with the first selected.
    pub fn set_results(&mut self, results: Vec<String>)
        ensures
            final(self)@ == (TuiModel { results: strings_view(results@), results_selected: Some(0), ..old(self)@ }),
    {
        self.results = results;
        self.results_selected = Some(0);
    }

    /// A history was loaded for the timeline.
    pub fn set_history(&mut self, items: Vec<HistoryItem>)
        ensures
            final(self)@ == (TuiModel { history: items_view(items@), ..old(self)@ }),
    {
        self.history = items;
    }

    /// Restoring the selected hunks finished with `result`.
    pub fn hunks_restored(&mut self, result: Result<(), String>)
        ensures
            final(self)@ == (match result {
                Ok(_) => TuiModel {
                    notification: Some("Restored "@ + crate::fmt::decimal(old(self).selected_hunks@.len())
                        + " blocks successfully"@),
                    selected_hunks: Seq::empty(),
                    preview_dirty: true,
                    ..old(self)@
                },
                Err(e) => TuiModel { notification: Some("Restore failed: "@ + e@), ..old(self)@ },
            }),
    {
        match result {
            Ok(_) => {
                let mut note = String::from_str("Restored ");
                crate::fmt::push_decimal(&mut note, self.selected_hunks.len() as u64);
                note.append(" blocks successfully");
                self.notification = Some(note);
                self.selected_hunks = Vec::new();
                self.preview_dirty = true;
            },
            Err(e) => {
                let mut note = String::from_str("Restore failed: ");
                note.append(e.as_str());
                self.notification = Some(note);
            },
        }
    }

    /// The project at position `i` is no longer watched.
    pub fn project_unwatched(&mut self, i: usize)
        requires
            i < old(self).projects@.len(),
        ensures
            final(self)@ == (TuiModel { notification: Some("Unwatched "@ + old(self)@.projects[i as int]), ..old(self)@ }),
    {
        let mut note = String::from_str("Unwatched ");
        note.append(self.projects[i].as_str());
        self.notification = Some(note);
    }

    /// Shows `text` as the notification.
    pub fn notify(&mut self, text: String)
        ensures
            final(self)@ == (TuiModel { notification: Some(text@), ..old(self)@ }),
    {
        self.notification = Some(text);
    }
}


/// The editor that opens files.
#[derive(Debug, Clone, Copy, PartialEq, Eq, Structural)]
pub enum Ide {
    Zed,
    ZedPreview,
    VsCode,
}

/// The settings that the settings screen changes.
#[derive(Debug, Clone, Copy, PartialEq, Eq, Structural)]
pub struct TuiSettings {
    pub retention_days: u64,
    pub compression_enabled: bool,
    pub use_gitignore: bool,
    pub use_mnemosyneignore: bool,
    pub theme_index: usize,
    pub ide: Ide,
}

/// What choosing an entry of the settings screen does.
#[derive(Debug, Clone, Copy, PartialEq, Eq, Structural)]
pub enum SettingEffect {
    /// Save these settings.
    Save(TuiSettings),
    /// Prune old snapshots.
    RunGc,
    /// Delete the whole history.
    WipeHistory,
    Nothing,
}

/// The editor that follows `ide` in the cycle Zed, Zed Preview, VS Code.
pub open spec fn next_ide(ide: Ide) -> Ide {
    match ide {
        Ide::Zed => Ide::ZedPreview,
        Ide::ZedPreview => Ide::VsCode,
        Ide::VsCode => Ide::Zed,
    }
}

/// What choosing settings entry `index` does, with `theme_count` themes.
pub open spec fn setting_effect_spec(index: usize, c: TuiSettings, theme_count: usize) -> SettingEffect {
    if index == 0 {
        SettingEffect::Save(TuiSettings { retention_days: if c.retention_days == 30 { 7 } else { 30 }, ..c })
    } else if index == 1 {
        SettingEffect::Save(TuiSettings { compression_enabled: !c.compression_enabled, ..c })
    } else if index == 2 {
        SettingEffect::Save(TuiSettings { use_gitignore: !c.use_gitignore, ..c })
    } else if index == 3 {
        SettingEffect::Save(TuiSettings { use_mnemosyneignore: !c.use_mnemosyneignore, ..c })
    } else if index == 4 {
        SettingEffect::Save(TuiSettings { theme_index: ((c.theme_index + 1) % (theme_count as int)) as usize, ..c })
    } else if index == 5 {
        SettingEffect::Save(TuiSettings { ide: next_ide(c.ide), ..c })
    } else if index == 6 {
        SettingEffect::RunGc
    } else if index == 7 {
        SettingEffect::WipeHistory
    } else {
        SettingEffect::Nothing
    }
}

/// What choosing settings entry `index` does, with `theme_count` themes.
pub fn setting_effect(index: usize, c: TuiSettings, theme_count: usize) -> (r: SettingEffect)
    requires
        theme_count > 0,
    ensures
        r == setting_effect_spec(index, c, theme_count),
{
    let mut n = c;
    if index == 0 {
        n.retention_days = if c.retention_days == 30 { 7 } else { 30 };
    } else if index == 1 {
        n.compression_enabled = !c.compression_enabled;
    } else if index == 2 {
        n.use_gitignore = !c.use_gitignore;
    } else if index == 3 {
        n.use_mnemosyneignore = !c.use_mnemosyneignore;
    } else if index == 4 {
        n.theme_index = (1 + c.theme_index % theme_count) % theme_count;
        proof {
            vstd::arithmetic::div_mod::lemma_add_mod_noop_right(1, c.theme_index as int, theme_count as int);
        }
    } else if index == 5 {
        n.ide = match c.ide {
            Ide::Zed => Ide::ZedPreview,
            Ide::ZedPreview => Ide::VsCode,
            Ide::VsCode => Ide::Zed,
        };
    } else if index == 6 {
        return SettingEffect::RunGc;
    } else if index == 7 {
        return SettingEffect::WipeHistory;
    } else {
        return SettingEffect::Nothing;
    }
    SettingEffect::Save(n)
}

/// The notification after settings entry `index` saved `n`, where
/// `ide_name` is the name of the chosen editor.
pub open spec fn setting_note_spec(index: usize, n: TuiSettings, ide_name: Seq<char>) -> Option<Seq<char>> {
    if index == 0 {
        Some("Retention set to "@ + crate::fmt::decimal(n.retention_days as nat) + " days"@)
    } else if index == 1 {
        Some("Compression "@ + if n.compression_enabled { "Enabled"@ } else { "Disabled"@ })
    } else if index == 5 {
        Some("Primary IDE: "@ + ide_name)
    } else {
        None
    }
}

/// The notification after settings entry `index` saved `n`.
pub fn setting_note(index: usize, n: TuiSettings, ide_name: &str) -> (r: Option<String>)
    ensures
        opt_view(r) == setting_note_spec(index, n, ide_name@),
{
    if index == 0 {
        let mut s = String::from_str("Retention set to ");
        crate::fmt::push_decimal(&mut s, n.retention_days);
        s.append(" days");
        Some(s)
    } else if index == 1 {
        let mut s = String::from_str("Compression ");
        s.append(if n.compression_enabled { "Enabled" } else { "Disabled" });
        Some(s)
    } else if index == 5 {
        let mut s = String::from_str("Primary IDE: ");
        s.append(ide_name);
        Some(s)
    } else {
        None
    }
}

/// The name under which the syntax highlighter keeps the theme that the
/// interface theme `name` stands for: lowercased, spaces as dashes.
pub fn theme_key(name: &str) -> (r: String)
    ensures
        r@ == crate::text::replace_char_spec(crate::text::lowercase(name@), ' ', '-'),
{
    let l = crate::text::to_lowercase(name);
    crate::text::replace_char(l.as_str(), ' ', '-')
}

/// The theme shown for a stored theme position: the last theme when the
/// position is past the end.
pub fn theme_slot(index: usize, theme_count: usize) -> (r: usize)
    requires
        theme_count > 0,
    ensures
        r == (if index < theme_count { index } else { (theme_count - 1) as usize }),
{
    if index < theme_count { index } else { theme_count - 1 }
}

impl TuiState {
    /// Pruning old snapshots finished with `result`.
    pub fn gc_done(&mut self, result: Result<u64, String>)
        ensures
            final(self)@ == (TuiModel {
                notification: Some(match result {
                    Ok(n) => "GC Pruned "@ + crate::fmt::decimal(n as nat) + " snapshots"@,
                    Err(e) => "GC Error: "@ + e@,
                }),
                ..old(self)@
            }),
    {
        let note = match result {
            Ok(n) => {
                let mut s = String::from_str("GC Pruned ");
                crate::fmt::push_decimal(&mut s, n);
                s.append(" snapshots");
                s
            },
            Err(e) => {
                let mut s = String::from_str("GC Error: ");
                s.append(e.as_str());
                s
            },
        };
        self.notification = Some(note);
    }

    /// Deleting the whole history finished with `result`; on success the
    /// file list, the timeline and the selected file are emptied.
    pub fn wipe_done(&mut self, result: Result<u64, String>)
        ensures
            final(self)@ == (match result {
                Ok(n) => TuiModel {
                    notification: Some("Wiped "@ + crate::fmt::decimal(n as nat) + " snapshots"@),
                    history: Seq::empty(),
                    files: Seq::empty(),
                    selected_file: None,
                    preview_dirty: true,
                    ..old(self)@
                },
                Err(e) => TuiModel { notification: Some("Wipe Error: "@ + e@), ..old(self)@ },
            }),
    {
        match result {
            Ok(n) => {
                let mut s = String::from_str("Wiped ");
                crate::fmt::push_decimal(&mut s, n);
                s.append(" snapshots");
                self.notification = Some(s);
                self.history = Vec::new();
                self.files = Vec::new();
                self.selected_file = None;
                self.preview_dirty = true;
                assert(items_view(self.history@) =~= Seq::<ItemView>::empty());
                assert(strings_view(self.files@) =~= Seq::<Seq<char>>::empty());
            },
            Err(e) => {
                let mut s = String::from_str("Wipe Error: ");
                s.append(e.as_str());
                self.notification = Some(s);
            },
        }
    }
}


proof fn lemma_home_wf(g: TuiModel, k: Key)
    requires
        g.wf(),
        g.files.len() <= usize::MAX,
    ensures
        home_step(g, k).0.wf(),
{
    lemma_move_range(g.files_selected, g.files.len(), None);
}

proof fn lemma_history_wf(g: TuiModel, k: Key)
    requires
        g.wf(),
        g.history.len() <= usize::MAX,
    ensures
        history_step(g, k).0.wf(),
{
    lemma_move_range(g.versions_selected, g.history.len(), Some(header_flags_spec(g.history)));
}

proof fn lemma_lists_wf(g: TuiModel, k: Key)
    requires
        g.wf(),
        g.projects.len() <= usize::MAX,
        g.results.len() <= usize::MAX,
    ensures
        projects_step(g, k).0.wf(),
        search_step(g, k).0.wf(),
        settings_step(g, k).0.wf(),
        statistics_step(g, k).0.wf(),
{
    lemma_move_range(g.projects_selected, g.projects.len(), None);
    lemma_move_range(g.results_selected, g.results.len(), None);
}

proof fn lemma_dialog_wf(m: TuiModel, d: Dialog, k: Key)
    requires
        m.wf(),
        m.dialog == Some(d),
        m.branches.len() <= usize::MAX,
    ensures
        dialog_step(m, d, k).0.wf(),
{
    lemma_move_range(m.dialog_selected, dialog_len(m, d), None);
}

/// Every key press keeps the state well formed.
pub proof fn law_key_keeps_wf(m: TuiModel, k: Key)
    requires
        m.wf(),
        m.files.len() <= usize::MAX,
        m.history.len() <= usize::MAX,
        m.projects.len() <= usize::MAX,
        m.results.len() <= usize::MAX,
        m.branches.len() <= usize::MAX,
    ensures
        key_step(m, k).0.wf(),
{
    if !m.input_mode {
        if let Some(d) = m.dialog {
            lemma_dialog_wf(m, d, k);
        } else {
            let g = global_step(m, k);
            lemma_home_wf(g, k);
            lemma_history_wf(g, k);
            lemma_lists_wf(g, k);
        }
    }
}

/// Every wheel event keeps the state well formed.
pub proof fn law_wheel_keeps_wf(m: TuiModel, w: Wheel)
    requires
        m.wf(),
        m.files.len() <= usize::MAX,
        m.history.len() <= usize::MAX,
    ensures
        wheel_step(m, w).0.wf(),
{
    lemma_move_range(m.files_selected, m.files.len(), None);
    lemma_move_range(m.versions_selected, m.history.len(), Some(header_flags_spec(m.history)));
}

/// The pane widths never leave their ranges: the file sidebar stays within
/// 10% to 70% and the timeline within 10% to 90%, whatever is pressed or
/// scrolled; and narrowing or widening a pane lands inside its range from
/// any width below its upper bound (narrowing) or above its lower bound
/// (widening).
pub proof fn law_widths_stay_in_range(m: TuiModel, k: Key, w: Wheel)
    requires
        10 <= m.sidebar_width_pct <= 70,
        10 <= m.timeline_width_pct <= 90,
    ensures
        10 <= key_step(m, k).0.sidebar_width_pct <= 70,
        10 <= key_step(m, k).0.timeline_width_pct <= 90,
        10 <= wheel_step(m, w).0.sidebar_width_pct <= 70,
        10 <= wheel_step(m, w).0.timeline_width_pct <= 90,
        forall|x: u16| x <= 70 ==> 10 <= #[trigger] narrow(x, 10) <= 70,
        forall|x: u16| x >= 10 ==> 10 <= #[trigger] widen(x, 70) <= 70,
        forall|x: u16| x <= 90 ==> 10 <= #[trigger] narrow(x, 10) <= 90,
        forall|x: u16| x >= 10 ==> 10 <= #[trigger] widen(x, 90) <= 90,
{
}

/// Moving to the next hunk and back returns to the hunk one started from,
/// and so does moving back and then on; both moves stay within the hunks.
pub proof fn law_hunk_moves_undo(c: usize, count: usize)
    requires
        1 <= c <= count,
    ensures
        hunk_up(Some(hunk_down(Some(c), count)), count) == c,
        hunk_down(Some(hunk_up(Some(c), count)), count) == c,
        1 <= hunk_down(Some(c), count) <= count,
        1 <= hunk_up(Some(c), count) <= count,
{
    if c < count {
        vstd::arithmetic::div_mod::lemma_small_mod(c as nat, count as nat);
    } else {
        vstd::arithmetic::div_mod::lemma_mod_self_0(count as int);
    }
    if c > 1 {
        vstd::arithmetic::div_mod::lemma_small_mod((c - 1) as nat, count as nat);
    } else {
        if count > 1 {
            vstd::arithmetic::div_mod::lemma_mod_self_0(count as int);
        } else {
            vstd::arithmetic::div_mod::lemma_mod_self_0(1);
        }
    }
}

proof fn lemma_push_contains(r: Seq<usize>, v: usize, y: usize)
    ensures
        r.push(v).contains(y) <==> (r.contains(y) || y == v),
{
    if r.push(v).contains(y) {
        let j = choose|j: int| 0 <= j < r.push(v).len() && r.push(v)[j] == y;
        if j < r.len() {
            assert(r[j] == y);
        }
    }
    if r.contains(y) {
        let j = choose|j: int| 0 <= j < r.len() && r[j] == y;
        assert(r.push(v)[j] == y);
    }
    if y == v {
        assert(r.push(v)[r.len() as int] == y);
    }
}

proof fn lemma_concat_contains(a: Seq<usize>, b: Seq<usize>, y: usize)
    ensures
        (a + b).contains(y) <==> (a.contains(y) || b.contains(y)),
{
    if (a + b).contains(y) {
        let j = choose|j: int| 0 <= j < (a + b).len() && (a + b)[j] == y;
        if j < a.len() {
            assert(a[j] == y);
        } else {
            assert(b[j - a.len()] == y);
        }
    }
    if a.contains(y) {
        let j = choose|j: int| 0 <= j < a.len() && a[j] == y;
        assert((a + b)[j] == y);
    }
    if b.contains(y) {
        let j = choose|j: int| 0 <= j < b.len() && b[j] == y;
        assert((a + b)[a.len() + j] == y);
    }
}

proof fn lemma_sides(s: Seq<usize>, x: usize, below: bool, above: bool)
    ensures
        forall|y: usize| #[trigger] sides(s, x, below, above).contains(y) <==> (s.contains(y) && keep(x, below, above, y)),
        increasing(s) ==> increasing(sides(s, x, below, above)),
    decreases s.len(),
{
    if s.len() > 0 {
        let t = s.drop_last();
        let last = s.last();
        lemma_sides(t, x, below, above);
        assert(s =~= t.push(last));
        let r = sides(t, x, below, above);
        assert forall|y: usize| #[trigger] sides(s, x, below, above).contains(y) <==> (s.contains(y) && keep(x, below, above, y)) by {
            lemma_push_contains(t, last, y);
            lemma_push_contains(r, last, y);
        }
        if increasing(s) && keep(x, below, above, last) {
            assert forall|i: int, j: int| 0 <= i < j < r.push(last).len() implies r.push(last)[i] < r.push(last)[j] by {
                if j == r.len() {
                    assert(r.contains(r[i]));
                    let k = choose|k: int| 0 <= k < t.len() && t[k] == r[i];
                    assert(s[k] == t[k]);
                }
            }
        }
    }
}

proof fn lemma_increasing_same_elements(a: Seq<usize>, b: Seq<usize>)
    requires
        increasing(a),
        increasing(b),
        forall|y: usize| a.contains(y) <==> b.contains(y),
    ensures
        a == b,
    decreases a.len(),
{
    if a.len() == 0 {
        if b.len() > 0 {
            assert(b.contains(b[0]));
        }
        assert(a =~= b);
    } else {
        if b.len() == 0 {
            assert(a.contains(a[0]));
        }
        let la = a.last();
        let lb = b.last();
        assert(a.contains(la));
        assert(b.contains(lb));
        let j = choose|j: int| 0 <= j < b.len() && b[j] == la;
        let k = choose|k: int| 0 <= k < a.len() && a[k] == lb;
        if j < b.len() - 1 {
            assert(b[j] < b[b.len() - 1]);
        }
        if k < a.len() - 1 {
            assert(a[k] < a[a.len() - 1]);
        }
        assert(la == lb);
        let da = a.drop_last();
        let db = b.drop_last();
        assert forall|y: usize| da.contains(y) <==> db.contains(y) by {
            if da.contains(y) {
                let i = choose|i: int| 0 <= i < da.len() && da[i] == y;
                assert(a[i] < a[a.len() - 1]);
                assert(a.contains(y));
                let i2 = choose|i2: int| 0 <= i2 < b.len() && b[i2] == y;
                assert(i2 != b.len() - 1);
                assert(db[i2] == y);
            }
            if db.contains(y) {
                let i = choose|i: int| 0 <= i < db.len() && db[i] == y;
                assert(b[i] < b[b.len() - 1]);
                assert(b.contains(y));
                let i2 = choose|i2: int| 0 <= i2 < a.len() && a[i2] == y;
                assert(i2 != a.len() - 1);
                assert(da[i2] == y);
            }
        }
        lemma_increasing_same_elements(da, db);
        assert(a =~= da.push(la));
        assert(b =~= db.push(lb));
    }
}

proof fn lemma_toggle(s: Seq<usize>, x: usize)
    requires
        increasing(s),
    ensures
        increasing(toggle_spec(s, x)),
        forall|y: usize| #[trigger] toggle_spec(s, x).contains(y) <==> (if y == x { !s.contains(x) } else { s.contains(y) }),
{
    lemma_sides(s, x, true, true);
    lemma_sides(s, x, true, false);
    lemma_sides(s, x, false, true);
    if !s.contains(x) {
        let lo = sides(s, x, true, false);
        let hi = sides(s, x, false, true);
        let ins = lo.push(x) + hi;
        assert forall|i: int, j: int| 0 <= i < j < ins.len() implies ins[i] < ins[j] by {
            if i < lo.len() {
                assert(lo.contains(lo[i]));
            }
            if j > lo.len() {
                assert(hi.contains(hi[j - lo.len() - 1]));
            }
            if i > lo.len() {
                assert(ins[i] == hi[i - lo.len() - 1]);
                assert(ins[j] == hi[j - lo.len() - 1]);
            }
        }
        assert forall|y: usize| #[trigger] toggle_spec(s, x).contains(y) <==> (if y == x { !s.contains(x) } else { s.contains(y) }) by {
            lemma_concat_contains(lo.push(x), hi, y);
            lemma_push_contains(lo, x, y);
        }
    }
}

/// The selected hunks stay listed in increasing order, selecting a hunk
/// adds exactly it and unselecting removes exactly it, and pressing space
/// twice on one hunk gives back the selection one started from.
pub proof fn law_hunk_selection(s: Seq<usize>, x: usize)
    requires
        increasing(s),
    ensures
        increasing(toggle_spec(s, x)),
        forall|y: usize| #[trigger] toggle_spec(s, x).contains(y) <==> (if y == x { !s.contains(x) } else { s.contains(y) }),
        toggle_spec(toggle_spec(s, x), x) == s,
{
    lemma_toggle(s, x);
    lemma_toggle(toggle_spec(s, x), x);
    let t2 = toggle_spec(toggle_spec(s, x), x);
    assert forall|y: usize| t2.contains(y) <==> s.contains(y) by {
        assert(t2.contains(y) == (if y == x { !toggle_spec(s, x).contains(x) } else { toggle_spec(s, x).contains(y) }));
        assert(toggle_spec(s, x).contains(y) == (if y == x { !s.contains(x) } else { s.contains(y) }));
    }
    lemma_increasing_same_elements(t2, s);
}

/// On the settings screen, moving down and then up (or up and then down)
/// returns to the entry one started from.
pub proof fn law_settings_moves_undo(m: TuiModel)
    requires
        m.screen == Screen::Settings,
        !m.input_mode,
        m.dialog is None,
        m.settings_index < SETTINGS_COUNT,
    ensures
        key_step(key_step(m, Key::Down).0, Key::Up).0.settings_index == m.settings_index,
        key_step(key_step(m, Key::Up).0, Key::Down).0.settings_index == m.settings_index,
{
}

/// While a query or filter is typed, a character followed by backspace
/// leaves the text as it was.
pub proof fn law_typing_undone(m: TuiModel, c: char)
    requires
        m.input_mode,
    ensures
        key_step(key_step(m, Key::Char(c)).0, Key::Backspace).0.search_query == m.search_query,
        key_step(key_step(m, Key::Char(c)).0, Key::Backspace).0.filter_input == m.filter_input,
{
    assert(m.search_query.push(c).drop_last() =~= m.search_query);
    assert(m.filter_input.push(c).drop_last() =~= m.filter_input);
}

fn below_max_exec(o: Option<usize>) -> (r: bool)
    ensures
        r == below_max(o),
{
    match o {
        Some(i) => i < usize::MAX,
        None => true,
    }
}

impl TuiState {
    /// Whether the timeline selection can move up.
    fn timeline_up_ok_exec(&self) -> (r: bool)
        ensures
            r == timeline_up_ok(self@),
    {
        let len = self.history.len();
        match self.versions_selected {
            Some(i) => len == 0 || i <= len,
            None => true,
        }
    }

    /// Whether `handle_key` can take `k` in this state.
    pub fn can_handle(&self, k: Key) -> (r: bool)
        ensures
            r == key_ok(self@, k),
    {
        if self.input_mode {
            return true;
        }
        let down = k == Key::Down || k == Key::Char('j');
        let up = k == Key::Up || k == Key::Char('k');
        match self.dialog {
            Some(d) => {
                let moves = !down || below_max_exec(self.dialog_selected);
                let picks = !(k == Key::Enter && d == Dialog::BranchSelector) || match self.dialog_selected {
                    Some(i) => i < self.branches.len(),
                    None => true,
                };
                moves && picks
            },
            None => {
                let screen = match k {
                    Key::Char('1') => Screen::Home,
                    Key::Char('2') => Screen::Projects,
                    Key::Char('3') => Screen::Statistics,
                    Key::Char('/') => Screen::Search,
                    _ => self.screen,
                };
                let focus = match k {
                    Key::Char('1') => Focus::Files,
                    _ => self.focus,
                };
                let projects_selected = match k {
                    Key::Char('2') => Some(0),
                    _ => self.projects_selected,
                };
                match screen {
                    Screen::Home => !down || below_max_exec(self.files_selected),
                    Screen::History => focus == Focus::Preview || ((!down || below_max_exec(self.versions_selected))
                        && (!up || self.timeline_up_ok_exec())),
                    Screen::Settings => !down || self.settings_index < usize::MAX,
                    Screen::Projects => !down || below_max_exec(projects_selected),
                    Screen::Search => !down || below_max_exec(self.results_selected),
                    Screen::Statistics => true,
                }
            },
        }
    }

    /// Whether `handle_wheel` can take `w` in this state.
    pub fn can_scroll(&self, w: Wheel) -> (r: bool)
        ensures
            r == wheel_ok(self@, w),
    {
        let files_ok = !(w == Wheel::Down && self.focus == Focus::Files) || below_max_exec(self.files_selected);
        let down_ok = !(w == Wheel::Down && self.focus == Focus::Timeline) || below_max_exec(self.versions_selected);
        let up_ok = !(w == Wheel::Up && self.focus == Focus::Timeline) || self.timeline_up_ok_exec();
        files_ok && down_ok && up_ok
    }
}

/// A well-formed state can take every key and every wheel event.
pub proof fn law_wf_takes_every_event(m: TuiModel, k: Key, w: Wheel)
    requires
        m.wf(),
    ensures
        key_ok(m, k),
        wheel_ok(m, w),
{
}

} // verus!
