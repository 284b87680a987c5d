//! The preview pane: which two versions it compares, and how a line diff of
//! them is numbered into hunks, counted and marked.

use vstd::prelude::*;
use similar::{ChangeTag, TextDiff};
use crate::timeline::{HistoryItem, ItemView, items_view, opt_view};
use crate::tui::{Focus, Screen};

verus! {

/// How a line of a line diff changed.
#[derive(Debug, Clone, Copy, PartialEq, Eq, Structural)]
pub enum ChangeKind {
    Equal,
    Insert,
    Delete,
}

/// One line of a line diff, with its position in the old and the new text.
#[derive(Debug, Clone, Copy, PartialEq, Eq, Structural)]
pub struct LineChange {
    pub kind: ChangeKind,
    pub old_index: Option<usize>,
    pub new_index: Option<usize>,
}

/// The lines of similar's line diff from `old` to `new`, equal lines
/// included, in order.
pub uninterp spec fn line_diff(old: Seq<char>, new: Seq<char>) -> Seq<LineChange>;

/// `TextDiff::from_lines(old, new).iter_all_changes()`, each change taken as
/// its tag and line positions. The contract names the result.
#[verifier::external_body]
pub(crate) fn diff_lines(old: &str, new: &str) -> (r: Vec<LineChange>)
    ensures
        r@ == line_diff(old@, new@),
{
    let diff = TextDiff::from_lines(old, new);
    diff.iter_all_changes()
        .map(|c| LineChange {
            kind: match c.tag() {
                ChangeTag::Equal => ChangeKind::Equal,
                ChangeTag::Insert => ChangeKind::Insert,
                ChangeTag::Delete => ChangeKind::Delete,
            },
            old_index: c.old_index(),
            new_index: c.new_index(),
        })
        .collect()
}

/// Lines among the first `n` of `c` that are of kind `k`.
pub open spec fn count_kind(c: Seq<LineChange>, n: int, k: ChangeKind) -> nat
    decreases n,
{
    if n <= 0 {
        0
    } else {
        count_kind(c, n - 1, k) + if c[n - 1].kind == k { 1nat } else { 0nat }
    }
}

/// Line `j` of `c` opens a hunk: it changed, and the line before it did not.
pub open spec fn opens_hunk(c: Seq<LineChange>, j: int) -> bool {
    c[j].kind != ChangeKind::Equal && (j == 0 || c[j - 1].kind == ChangeKind::Equal)
}

/// Hunks opened among the first `n` lines of `c`: the number of the hunk
/// that line `n - 1` belongs to (or follows).
pub open spec fn hunks_upto(c: Seq<LineChange>, n: int) -> nat
    decreases n,
{
    if n <= 0 {
        0
    } else {
        hunks_upto(c, n - 1) + if opens_hunk(c, n - 1) { 1nat } else { 0nat }
    }
}

/// How a preview line is highlighted.
#[derive(Debug, Clone, Copy, PartialEq, Eq, Structural)]
pub enum Mark {
    /// In the hunk the cursor is on.
    Active,
    /// In a hunk selected for restoring.
    Selected,
    Plain,
}

/// One line of the preview.
#[derive(Debug, Clone, Copy, PartialEq, Eq, Structural)]
pub struct PreviewLine {
    pub kind: ChangeKind,
    /// The hunk the line belongs to (or, for an unchanged line, follows).
    pub hunk: usize,
    /// The line of the highlighted new text whose colours it takes.
    pub source_line: usize,
    pub mark: Mark,
}

/// A numbered and counted line diff.
#[derive(Debug, Clone)]
pub struct DiffSummary {
    pub hunk_count: usize,
    pub added: usize,
    pub removed: usize,
    pub lines: Vec<PreviewLine>,
}

/// The highlight of a line in hunk `h`.
pub open spec fn mark_spec(h: usize, active: Option<usize>, selected: Seq<usize>) -> Mark {
    if active == Some(h) {
        Mark::Active
    } else if selected.contains(h) {
        Mark::Selected
    } else {
        Mark::Plain
    }
}

/// The preview line for line `j` of `c`.
pub open spec fn preview_line_spec(c: Seq<LineChange>, j: int, active: Option<usize>, selected: Seq<usize>) -> PreviewLine {
    let h = hunks_upto(c, j + 1) as usize;
    PreviewLine {
        kind: c[j].kind,
        hunk: h,
        source_line: match c[j].new_index {
            Some(n) => n,
            None => match c[j].old_index {
                Some(o) => o,
                None => 0,
            },
        },
        mark: mark_spec(h, active, selected),
    }
}

/// Whether `x` occurs in `v`.
fn holds(v: &Vec<usize>, x: usize) -> (r: bool)
    ensures
        r == v@.contains(x),
{
    let mut i: usize = 0;
    while i < v.len()
        invariant
            i <= v@.len(),
            forall|j: int| 0 <= j < i ==> v@[j] != x,
        decreases v@.len() - i,
    {
        if v[i] == x {
            return true;
        }
        i = i + 1;
    }
    false
}

proof fn lemma_counts_bounded(c: Seq<LineChange>, n: int)
    requires
        0 <= n <= c.len(),
    ensures
        count_kind(c, n, ChangeKind::Insert) <= n,
        count_kind(c, n, ChangeKind::Delete) <= n,
        hunks_upto(c, n) <= n,
    decreases n,
{
    if n > 0 {
        lemma_counts_bounded(c, n - 1);
    }
}

/// Numbers the hunks of a line diff (a hunk is a run of changed lines),
/// counts the added and removed lines, and marks each line by whether its
/// hunk is the active one or a selected one.
pub fn summarize_diff(changes: &Vec<LineChange>, active: Option<usize>, selected: &Vec<usize>) -> (r: DiffSummary)
    ensures
        r.hunk_count == hunks_upto(changes@, changes@.len() as int),
        r.added == count_kind(changes@, changes@.len() as int, ChangeKind::Insert),
        r.removed == count_kind(changes@, changes@.len() as int, ChangeKind::Delete),
        r.lines@.len() == changes@.len(),
        forall|j: int| 0 <= j < changes@.len() ==> r.lines@[j] == preview_line_spec(changes@, j, active, selected@),
{
    let mut hunk: usize = 0;
    let mut in_change = false;
    let mut added: usize = 0;
    let mut removed: usize = 0;
    let mut lines: Vec<PreviewLine> = Vec::new();
    let mut i: usize = 0;
    while i < changes.len()
        invariant
            i <= changes@.len(),
            hunk == hunks_upto(changes@, i as int),
            added == count_kind(changes@, i as int, ChangeKind::Insert),
            removed == count_kind(changes@, i as int, ChangeKind::Delete),
            in_change == (i > 0 && changes@[i - 1].kind != ChangeKind::Equal),
            lines@.len() == i,
            forall|j: int| 0 <= j < i ==> lines@[j] == preview_line_spec(changes@, j, active, selected@),
        decreases changes@.len() - i,
    {
        proof {
            lemma_counts_bounded(changes@, i + 1);
        }
        let c = changes[i];
        match c.kind {
            ChangeKind::Insert => { added = added + 1; },
            ChangeKind::Delete => { removed = removed + 1; },
            ChangeKind::Equal => {},
        }
        if c.kind != ChangeKind::Equal {
            if !in_change {
                in_change = true;
                hunk = hunk + 1;
            }
        } else {
            in_change = false;
        }
        let source_line = match c.new_index {
            Some(n) => n,
            None => match c.old_index {
                Some(o) => o,
                None => 0,
            },
        };
        let mark = if active == Some(hunk) {
            Mark::Active
        } else if holds(selected, hunk) {
            Mark::Selected
        } else {
            Mark::Plain
        };
        lines.push(PreviewLine { kind: c.kind, hunk, source_line, mark });
        i = i + 1;
    }
    DiffSummary { hunk_count: hunk, added, removed, lines }
}

/// Added and removed lines between `prev` and `current`, when the current
/// content could be read.
pub fn compute_diff_stats(current: Option<&str>, prev: &str) -> (r: Option<(usize, usize)>)
    ensures
        match current {
            None => r is None,
            Some(c) => r == Some((
                count_kind(line_diff(prev@, c@), line_diff(prev@, c@).len() as int, ChangeKind::Insert) as usize,
                count_kind(line_diff(prev@, c@), line_diff(prev@, c@).len() as int, ChangeKind::Delete) as usize,
            )),
        },
{
    match current {
        None => None,
        Some(c) => {
            let changes = diff_lines(prev, c);
            let s = summarize_diff(&changes, None, &Vec::new());
            Some((s.added, s.removed))
        },
    }
}

/// The preview of the changes from `old` to `new`: similar's line diff of
/// the two, with its lines numbered into hunks, counted and marked.
pub fn preview_diff(old: &str, new: &str, active: Option<usize>, selected: &Vec<usize>) -> (r: (Vec<LineChange>, DiffSummary))
    ensures
        r.0@ == line_diff(old@, new@),
        r.1.hunk_count == hunks_upto(r.0@, r.0@.len() as int),
        r.1.added == count_kind(r.0@, r.0@.len() as int, ChangeKind::Insert),
        r.1.removed == count_kind(r.0@, r.0@.len() as int, ChangeKind::Delete),
        r.1.lines@.len() == r.0@.len(),
        forall|j: int| 0 <= j < r.0@.len() ==> r.1.lines@[j] == preview_line_spec(r.0@, j, active, selected@),
{
    let changes = diff_lines(old, new);
    let s = summarize_diff(&changes, active, selected);
    (changes, s)
}

/// What the preview pane compares against.
#[derive(Debug, Clone)]
pub enum Base {
    /// A stored snapshot, by content hash.
    Snapshot(String),
    /// The file as it is on disk.
    Disk,
}

/// The plain content of a base.
pub enum BaseView {
    Snapshot(Seq<char>),
    Disk,
}

impl View for Base {
    type V = BaseView;

    open spec fn view(&self) -> BaseView {
        match self {
            Base::Snapshot(h) => BaseView::Snapshot(h@),
            Base::Disk => BaseView::Disk,
        }
    }
}

/// The two versions the preview compares: the one shown, and the one its
/// changes are measured against (none: show it plainly).
#[derive(Debug, Clone)]
pub struct PreviewPair {
    pub current: Option<String>,
    pub previous: Option<Base>,
}

/// The plain content of a preview pair.
pub struct PairView {
    pub current: Option<Seq<char>>,
    pub previous: Option<BaseView>,
}

impl View for PreviewPair {
    type V = PairView;

    open spec fn view(&self) -> PairView {
        PairView {
            current: opt_view(self.current),
            previous: match self.previous {
                Some(b) => Some(b@),
                None => None,
            },
        }
    }
}

/// What the preview pane does on a screen.
#[derive(Debug, Clone, Copy, PartialEq, Eq, Structural)]
pub enum PreviewPlan {
    /// Empty the pane at once, leaving the key of the last diff as it is.
    Clear,
    /// Compare the two newest versions of the selected file.
    NewestTwo,
    /// Compare what the timeline selection designates.
    Timeline,
    /// Compare no version: the pane is emptied like for a selection that
    /// names none, and the key of the last diff records it.
    NoVersions,
}

/// What the preview pane does on `screen`.
pub fn preview_plan(screen: Screen) -> (r: PreviewPlan)
    ensures
        r == (match screen {
            Screen::Settings | Screen::Search => PreviewPlan::Clear,
            Screen::Home => PreviewPlan::NewestTwo,
            Screen::History => PreviewPlan::Timeline,
            Screen::Projects | Screen::Statistics => PreviewPlan::NoVersions,
        }),
{
    match screen {
        Screen::Settings | Screen::Search => PreviewPlan::Clear,
        Screen::Home => PreviewPlan::NewestTwo,
        Screen::History => PreviewPlan::Timeline,
        Screen::Projects | Screen::Statistics => PreviewPlan::NoVersions,
    }
}

/// What a computed preview was made from: the screen, the two versions,
/// the active hunk and the selected hunks. The preview is computed again
/// only when this changes.
#[derive(Debug, Clone)]
pub struct DiffKey {
    pub screen: Screen,
    pub current: Option<String>,
    pub previous: Option<Base>,
    pub active_hunk: Option<usize>,
    pub selected_hunks: Vec<usize>,
}

/// The plain content of a diff key.
pub struct DiffKeyView {
    pub screen: Screen,
    pub current: Option<Seq<char>>,
    pub previous: Option<BaseView>,
    pub active_hunk: Option<usize>,
    pub selected_hunks: Seq<usize>,
}

impl View for DiffKey {
    type V = DiffKeyView;

    open spec fn view(&self) -> DiffKeyView {
        DiffKeyView {
            screen: self.screen,
            current: opt_view(self.current),
            previous: match self.previous {
                Some(b) => Some(b@),
                None => None,
            },
            active_hunk: self.active_hunk,
            selected_hunks: self.selected_hunks@,
        }
    }
}

/// The key of the preview of `pair` on `screen` with these hunks marked.
pub fn diff_key(screen: Screen, pair: &PreviewPair, active_hunk: Option<usize>, selected_hunks: &Vec<usize>) -> (r: DiffKey)
    ensures
        r@ == (DiffKeyView {
            screen,
            current: pair@.current,
            previous: pair@.previous,
            active_hunk,
            selected_hunks: selected_hunks@,
        }),
{
    DiffKey {
        screen,
        current: crate::timeline::copy_opt(&pair.current),
        previous: match &pair.previous {
            Some(Base::Snapshot(h)) => Some(Base::Snapshot(h.clone())),
            Some(Base::Disk) => Some(Base::Disk),
            None => None,
        },
        active_hunk,
        selected_hunks: selected_hunks.clone(),
    }
}

fn same_text(a: &Option<String>, b: &Option<String>) -> (r: bool)
    ensures
        r == (opt_view(*a) == opt_view(*b)),
{
    match (a, b) {
        (Some(x), Some(y)) => crate::text::str_eq(x.as_str(), y.as_str()),
        (None, None) => true,
        _ => false,
    }
}

fn same_base(a: &Option<Base>, b: &Option<Base>) -> (r: bool)
    ensures
        r == ((match *a { Some(x) => Some(x@), None => None }) == (match *b { Some(x) => Some(x@), None => None })),
{
    match (a, b) {
        (Some(Base::Snapshot(x)), Some(Base::Snapshot(y))) => crate::text::str_eq(x.as_str(), y.as_str()),
        (Some(Base::Disk), Some(Base::Disk)) => true,
        (None, None) => true,
        _ => false,
    }
}

fn same_hunks(a: &Vec<usize>, b: &Vec<usize>) -> (r: bool)
    ensures
        r == (a@ == b@),
{
    if a.len() != b.len() {
        return false;
    }
    let mut i: usize = 0;
    while i < a.len()
        invariant
            a@.len() == b@.len(),
            i <= a@.len(),
            forall|j: int| 0 <= j < i ==> a@[j] == b@[j],
        decreases a@.len() - i,
    {
        if a[i] != b[i] {
            return false;
        }
        i = i + 1;
    }
    assert(a@ =~= b@);
    true
}

/// Whether the preview must be computed again: no preview was computed
/// yet, or the last one was made from something else than `key`.
pub fn needs_refresh(last: &Option<DiffKey>, key: &DiffKey) -> (r: bool)
    ensures
        r == (match *last {
            Some(k) => k@ != key@,
            None => true,
        }),
{
    match last {
        None => true,
        Some(k) => {
            let same = k.screen == key.screen
                && same_text(&k.current, &key.current)
                && same_base(&k.previous, &key.previous)
                && k.active_hunk == key.active_hunk
                && same_hunks(&k.selected_hunks, &key.selected_hunks);
            proof {
                if k@ == key@ {
                    assert(k@.current == key@.current);
                    assert(k@.previous == key@.previous);
                    assert(k@.selected_hunks == key@.selected_hunks);
                }
            }
            !same
        },
    }
}

/// The newest version against the one before it, from a newest-first list
/// of content hashes.
pub fn newest_pair(hashes: &Vec<String>) -> (r: PreviewPair)
    ensures
        r@ == (PairView {
            current: if hashes@.len() > 0 { Some(hashes@[0]@) } else { None },
            previous: if hashes@.len() > 1 { Some(BaseView::Snapshot(hashes@[1]@)) } else { None },
        }),
{
    let current = if hashes.len() > 0 { Some(hashes[0].clone()) } else { None };
    let previous = if hashes.len() > 1 { Some(Base::Snapshot(hashes[1].clone())) } else { None };
    PreviewPair { current, previous }
}

/// The hash of the first snapshot at or after line `j`.
pub open spec fn snapshot_from(h: Seq<ItemView>, j: int) -> Option<Seq<char>>
    decreases h.len() - j,
{
    if j < 0 || j >= h.len() {
        None
    } else {
        match h[j] {
            ItemView::Snapshot(s) => Some(s.hash),
            _ => snapshot_from(h, j + 1),
        }
    }
}

/// The first line at or after `j` that is not a snapshot (or the end).
pub open spec fn run_end(h: Seq<ItemView>, j: int) -> int
    decreases h.len() - j,
{
    if 0 <= j < h.len() && h[j] is Snapshot {
        run_end(h, j + 1)
    } else {
        j
    }
}

/// The hash of the snapshot on line `j`.
pub open spec fn hash_at(h: Seq<ItemView>, j: int) -> Seq<char> {
    match h[j] {
        ItemView::Snapshot(s) => s.hash,
        _ => Seq::empty(),
    }
}

/// What a selected timeline line compares: a snapshot against the diff base
/// if one is set, else against the file on disk when the preview has the
/// focus, else against the next older snapshot; a session's newest snapshot
/// against its oldest; nothing for a date header.
pub open spec fn timeline_pair_spec(h: Seq<ItemView>, sel: Option<usize>, base: Option<Seq<char>>, focus: Focus) -> PairView {
    let none = PairView { current: None, previous: None };
    match sel {
        Some(i) => if i < h.len() {
            match h[i as int] {
                ItemView::Snapshot(s) => PairView {
                    current: Some(s.hash),
                    previous: match base {
                        Some(b) => Some(BaseView::Snapshot(b)),
                        None => if focus == Focus::Preview {
                            Some(BaseView::Disk)
                        } else {
                            match snapshot_from(h, i + 1) {
                                Some(p) => Some(BaseView::Snapshot(p)),
                                None => None,
                            }
                        },
                    },
                },
                ItemView::Session { .. } => {
                    let e = run_end(h, i + 1);
                    if e > i + 1 {
                        PairView { current: Some(hash_at(h, i + 1)), previous: Some(BaseView::Snapshot(hash_at(h, e - 1))) }
                    } else {
                        none
                    }
                },
                ItemView::DateHeader(_) => none,
            }
        } else {
            none
        },
        None => none,
    }
}

/// The hash of the first snapshot at or after line `from`.
fn next_snapshot_hash(history: &Vec<HistoryItem>, from: usize) -> (r: Option<String>)
    ensures
        opt_view(r) == snapshot_from(items_view(history@), from as int),
{
    let ghost h = items_view(history@);
    let mut j = from;
    while j < history.len()
        invariant
            from <= j,
            h == items_view(history@),
            snapshot_from(h, from as int) == snapshot_from(h, j as int),
        decreases history@.len() - j,
    {
        if let HistoryItem::Snapshot(p) = &history[j] {
            return Some(p.content_hash.clone());
        }
        j = j + 1;
    }
    None
}

/// The first line at or after `from` that is not a snapshot (or the end).
fn snapshot_run_end(history: &Vec<HistoryItem>, from: usize) -> (r: usize)
    ensures
        r == run_end(items_view(history@), from as int),
        from <= r,
        r <= from || r <= history@.len(),
        forall|k: int| from <= k < r ==> items_view(history@)[k] is Snapshot,
{
    let ghost h = items_view(history@);
    let mut j = from;
    loop
        invariant
            from <= j,
            h == items_view(history@),
            run_end(h, from as int) == run_end(h, j as int),
            j <= from || j <= history@.len(),
            forall|k: int| from <= k < j ==> h[k] is Snapshot,
        decreases history@.len() - j,
    {
        if j >= history.len() {
            return j;
        }
        match &history[j] {
            HistoryItem::Snapshot(_) => {},
            _ => { return j; },
        }
        j = j + 1;
    }
}

/// The hash of the snapshot on line `j`.
fn hash_on(history: &Vec<HistoryItem>, j: usize) -> (r: String)
    requires
        j < history@.len(),
    ensures
        r@ == hash_at(items_view(history@), j as int),
{
    match &history[j] {
        HistoryItem::Snapshot(s) => s.content_hash.clone(),
        _ => String::new(),
    }
}

/// What the selected timeline line compares.
pub fn timeline_pair(history: &Vec<HistoryItem>, sel: Option<usize>, base: &Option<String>, focus: Focus) -> (r: PreviewPair)
    ensures
        r@ == timeline_pair_spec(items_view(history@), sel, opt_view(*base), focus),
{
    let none = PreviewPair { current: None, previous: None };
    let i = match sel {
        Some(i) => i,
        None => { return none; },
    };
    if i >= history.len() {
        return none;
    }
    match &history[i] {
        HistoryItem::Snapshot(s) => {
            let previous = match base {
                Some(b) => Some(Base::Snapshot(b.clone())),
                None => if focus == Focus::Preview {
                    Some(Base::Disk)
                } else {
                    match next_snapshot_hash(history, i + 1) {
                        Some(p) => Some(Base::Snapshot(p)),
                        None => None,
                    }
                },
            };
            PreviewPair { current: Some(s.content_hash.clone()), previous }
        },
        HistoryItem::Session(_) => {
            let e = snapshot_run_end(history, i + 1);
            if e > i + 1 {
                PreviewPair { current: Some(hash_on(history, i + 1)), previous: Some(Base::Snapshot(hash_on(history, e - 1))) }
            } else {
                none
            }
        },
        HistoryItem::DateHeader(_) => none,
    }
}

} // verus!
