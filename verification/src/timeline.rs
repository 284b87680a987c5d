//! The entries of a file's version timeline: date headers, work sessions and
//! snapshots, and how a newest-first list of snapshots is grouped into them.

use vstd::prelude::*;
use crate::dates::{rfc3339_day_label, rfc3339_hour, rfc3339_minutes_between, day_label, hour_of, minutes_between};
use crate::text::str_eq;

verus! {

/// The text of an optional string.
pub open spec fn opt_view(o: Option<String>) -> Option<Seq<char>> {
    match o {
        Some(s) => Some(s@),
        None => None,
    }
}

/// The texts of a list of strings.
pub open spec fn strings_view(v: Seq<String>) -> Seq<Seq<char>> {
    v.map_values(|s: String| s@)
}

/// What the timeline needs to know of one stored snapshot.
#[derive(Debug, Clone)]
pub struct SnapshotMeta {
    pub content_hash: String,
    pub timestamp: String,
    pub git_branch: Option<String>,
}

/// A run of snapshots taken close together on one branch.
#[derive(Debug, Clone)]
pub struct SessionInfo {
    pub label: String,
    pub branch: Option<String>,
    pub count: usize,
}

/// One line of the timeline.
#[derive(Debug, Clone)]
pub enum HistoryItem {
    DateHeader(String),
    Session(SessionInfo),
    Snapshot(SnapshotMeta),
}

/// The plain content of a snapshot's metadata.
pub struct SnapView {
    pub hash: Seq<char>,
    pub timestamp: Seq<char>,
    pub branch: Option<Seq<char>>,
}

/// The plain content of a timeline line.
pub enum ItemView {
    DateHeader(Seq<char>),
    Session { label: Seq<char>, branch: Option<Seq<char>>, count: usize },
    Snapshot(SnapView),
}

impl View for SnapshotMeta {
    type V = SnapView;

    open spec fn view(&self) -> SnapView {
        SnapView { hash: self.content_hash@, timestamp: self.timestamp@, branch: opt_view(self.git_branch) }
    }
}

impl View for HistoryItem {
    type V = ItemView;

    open spec fn view(&self) -> ItemView {
        match self {
            HistoryItem::DateHeader(d) => ItemView::DateHeader(d@),
            HistoryItem::Session(s) => ItemView::Session {
                label: s.label@,
                branch: opt_view(s.branch),
                count: s.count,
            },
            HistoryItem::Snapshot(s) => ItemView::Snapshot(s@),
        }
    }
}

/// The plain content of a list of timeline lines.
pub open spec fn items_view(v: Seq<HistoryItem>) -> Seq<ItemView> {
    v.map_values(|it: HistoryItem| it@)
}

/// Whether a line is a date header (navigation skips those).
pub open spec fn is_header(it: ItemView) -> bool {
    it is DateHeader
}

/// Which lines of a timeline are date headers.
pub open spec fn header_flags_spec(items: Seq<ItemView>) -> Seq<bool> {
    items.map_values(|it: ItemView| is_header(it))
}

/// Marks the date headers of a timeline.
pub fn header_flags(items: &Vec<HistoryItem>) -> (r: Vec<bool>)
    ensures
        r@ == header_flags_spec(items_view(items@)),
{
    let mut r: Vec<bool> = Vec::new();
    let mut i: usize = 0;
    while i < items.len()
        invariant
            i <= items@.len(),
            r@ == header_flags_spec(items_view(items@)).subrange(0, i as int),
        decreases items@.len() - i,
    {
        let h = match &items[i] {
            HistoryItem::DateHeader(_) => true,
            _ => false,
        };
        r.push(h);
        i = i + 1;
        assert(r@ =~= header_flags_spec(items_view(items@)).subrange(0, i as int));
    }
    assert(r@ =~= header_flags_spec(items_view(items@)));
    r
}


/// The plain content of a list of snapshots.
pub open spec fn snaps_view(v: Seq<SnapshotMeta>) -> Seq<SnapView> {
    v.map_values(|s: SnapshotMeta| s@)
}

/// The name of a session that starts at hour `h`: the part of the day it
/// falls in, or "Unknown" when the time could not be read.
pub open spec fn session_label(h: Option<u32>) -> Seq<char> {
    match h {
        Some(h) => (if 5 <= h <= 11 {
            "Morning"@
        } else if 12 <= h <= 17 {
            "Afternoon"@
        } else if 18 <= h <= 22 {
            "Evening"@
        } else {
            "Night"@
        }) + " Session"@,
        None => "Unknown Session"@,
    }
}

/// Sessions are named after the part of the day of their newest snapshot:
/// 5 to 11 o'clock is the morning, 12 to 17 the afternoon, 18 to 22 the
/// evening, and 23 to 4 the night; a time that cannot be read gives an
/// unknown session.
pub proof fn law_session_names_follow_the_hour(h: u32)
    ensures
        5 <= h <= 11 ==> session_label(Some(h)) == "Morning Session"@,
        12 <= h <= 17 ==> session_label(Some(h)) == "Afternoon Session"@,
        18 <= h <= 22 ==> session_label(Some(h)) == "Evening Session"@,
        (h <= 4 || h >= 23) ==> session_label(Some(h)) == "Night Session"@,
        session_label(None) == "Unknown Session"@,
{
    reveal_strlit("Morning");
    reveal_strlit("Afternoon");
    reveal_strlit("Evening");
    reveal_strlit("Night");
    reveal_strlit(" Session");
    reveal_strlit("Morning Session");
    reveal_strlit("Afternoon Session");
    reveal_strlit("Evening Session");
    reveal_strlit("Night Session");
    assert("Morning"@ + " Session"@ =~= "Morning Session"@);
    assert("Afternoon"@ + " Session"@ =~= "Afternoon Session"@);
    assert("Evening"@ + " Session"@ =~= "Evening Session"@);
    assert("Night"@ + " Session"@ =~= "Night Session"@);
}

/// The lines of one session, newest snapshot first: a session line named
/// after the newest snapshot's hour and branch, then its snapshots. No line
/// for an empty session.
pub open spec fn session_items(s: Seq<SnapView>) -> Seq<ItemView> {
    if s.len() == 0 {
        Seq::empty()
    } else {
        seq![ItemView::Session { label: session_label(rfc3339_hour(s[0].timestamp)), branch: s[0].branch, count: s.len() as usize }]
            + s.map_values(|x: SnapView| ItemView::Snapshot(x))
    }
}

/// Where grouping stands after some snapshots: the finished lines, the
/// session being gathered, the last day shown and the last snapshot seen.
pub struct GroupState {
    pub items: Seq<ItemView>,
    pub session: Seq<SnapView>,
    pub last_date: Option<Seq<char>>,
    pub last: Option<SnapView>,
}

/// Whether `snap` starts a new session after `last`: more than 30 minutes
/// passed between them, or they lie on different branches (never when a
/// timestamp does not parse).
pub open spec fn starts_session(last: Option<SnapView>, snap: SnapView) -> bool {
    match last {
        Some(l) => match rfc3339_minutes_between(l.timestamp, snap.timestamp) {
            Some(gap) => gap > 30 || l.branch != snap.branch,
            None => false,
        },
        None => false,
    }
}

/// Grouping after one more snapshot: a new day closes the session and adds
/// a date header; a new session closes the session; then the snapshot joins
/// the session being gathered.
pub open spec fn group_step(g: GroupState, snap: SnapView) -> GroupState {
    let day = rfc3339_day_label(snap.timestamp);
    let new_day = day is Some && g.last_date != day;
    let items1 = if new_day { g.items + session_items(g.session) + seq![ItemView::DateHeader(day->0)] } else { g.items };
    let session1 = if new_day { Seq::empty() } else { g.session };
    let last_date = if new_day { day } else { g.last_date };
    let split = starts_session(g.last, snap) && session1.len() > 0;
    GroupState {
        items: if split { items1 + session_items(session1) } else { items1 },
        session: (if split { Seq::empty() } else { session1 }).push(snap),
        last_date,
        last: Some(snap),
    }
}

/// Grouping after the first `n` snapshots.
pub open spec fn group_prefix(snaps: Seq<SnapView>, n: nat) -> GroupState
    decreases n,
{
    if n == 0 {
        GroupState { items: Seq::empty(), session: Seq::empty(), last_date: None, last: None }
    } else {
        group_step(group_prefix(snaps, (n - 1) as nat), snaps[n - 1])
    }
}

/// The timeline of a newest-first list of snapshots.
pub open spec fn group_spec(snaps: Seq<SnapView>) -> Seq<ItemView> {
    let g = group_prefix(snaps, snaps.len());
    g.items + session_items(g.session)
}

/// Whether two optional strings hold the same text.
pub fn opt_eq(a: &Option<String>, b: &Option<String>) -> (r: bool)
    ensures
        r == (opt_view(*a) == opt_view(*b)),
{
    match (a, b) {
        (Some(x), Some(y)) => str_eq(x.as_str(), y.as_str()),
        (None, None) => true,
        _ => false,
    }
}

/// A copy of an optional string.
pub fn copy_opt(o: &Option<String>) -> (r: Option<String>)
    ensures
        opt_view(r) == opt_view(*o),
{
    match o {
        Some(x) => Some(x.clone()),
        None => None,
    }
}

impl SnapshotMeta {
    /// A copy of the metadata.
    pub fn copy(&self) -> (r: SnapshotMeta)
        ensures
            r@ == self@,
    {
        SnapshotMeta {
            content_hash: self.content_hash.clone(),
            timestamp: self.timestamp.clone(),
            git_branch: copy_opt(&self.git_branch),
        }
    }
}

/// The name of a session that starts at the time of `ts`.
fn session_name(ts: &str) -> (r: String)
    ensures
        r@ == session_label(rfc3339_hour(ts@)),
{
    match hour_of(ts) {
        Some(h) => {
            let mut l = String::from_str(
                if 5 <= h && h <= 11 {
                    "Morning"
                } else if 12 <= h && h <= 17 {
                    "Afternoon"
                } else if 18 <= h && h <= 22 {
                    "Evening"
                } else {
                    "Night"
                },
            );
            l.append(" Session");
            l
        },
        None => String::from_str("Unknown Session"),
    }
}

/// Appends the lines of one session to `items`.
pub fn push_session_group(items: &mut Vec<HistoryItem>, snaps: &Vec<SnapshotMeta>)
    ensures
        items_view(final(items)@) == items_view(old(items)@) + session_items(snaps_view(snaps@)),
{
    let ghost before = items_view(items@);
    let ghost sv = snaps_view(snaps@);
    if snaps.len() == 0 {
        assert(before =~= before + session_items(sv));
        return;
    }
    let newest = &snaps[0];
    let label = session_name(newest.timestamp.as_str());
    items.push(HistoryItem::Session(SessionInfo { label, branch: copy_opt(&newest.git_branch), count: snaps.len() }));
    let ghost head = items_view(items@);
    assert(head =~= before + seq![ItemView::Session {
        label: session_label(rfc3339_hour(sv[0].timestamp)),
        branch: sv[0].branch,
        count: sv.len() as usize,
    }]);
    let mut i: usize = 0;
    while i < snaps.len()
        invariant
            i <= snaps@.len(),
            sv == snaps_view(snaps@),
            items_view(items@) == head + sv.subrange(0, i as int).map_values(|x: SnapView| ItemView::Snapshot(x)),
        decreases snaps@.len() - i,
    {
        let ghost prev = items_view(items@);
        items.push(HistoryItem::Snapshot(snaps[i].copy()));
        i = i + 1;
        assert(items_view(items@) =~= prev.push(ItemView::Snapshot(sv[i - 1])));
        assert(sv.subrange(0, i as int).map_values(|x: SnapView| ItemView::Snapshot(x))
            =~= sv.subrange(0, i - 1).map_values(|x: SnapView| ItemView::Snapshot(x)).push(ItemView::Snapshot(sv[i - 1])));
    }
    assert(sv.subrange(0, sv.len() as int) =~= sv);
}

/// Groups a newest-first list of snapshots into date headers, sessions and
/// snapshots.
pub fn group_snapshots(snapshots: Vec<SnapshotMeta>) -> (r: Vec<HistoryItem>)
    ensures
        items_view(r@) == group_spec(snaps_view(snapshots@)),
{
    let ghost sv = snaps_view(snapshots@);
    let mut items: Vec<HistoryItem> = Vec::new();
    let mut session: Vec<SnapshotMeta> = Vec::new();
    let mut last_date: Option<String> = None;
    let mut last: Option<SnapshotMeta> = None;
    let mut i: usize = 0;
    assert(items_view(items@) =~= Seq::<ItemView>::empty());
    assert(snaps_view(session@) =~= Seq::<SnapView>::empty());
    while i < snapshots.len()
        invariant
            i <= snapshots@.len(),
            sv == snaps_view(snapshots@),
            items_view(items@) == group_prefix(sv, i as nat).items,
            snaps_view(session@) == group_prefix(sv, i as nat).session,
            opt_view(last_date) == group_prefix(sv, i as nat).last_date,
            (match last { Some(l) => Some(l@), None => None }) == group_prefix(sv, i as nat).last,
        decreases snapshots@.len() - i,
    {
        let snap = &snapshots[i];
        let ghost g = group_prefix(sv, i as nat);
        if let Some(date_str) = day_label(snap.timestamp.as_str()) {
            let same = match &last_date {
                Some(d) => str_eq(d.as_str(), date_str.as_str()),
                None => false,
            };
            if !same {
                push_session_group(&mut items, &session);
                session = Vec::new();
                assert(snaps_view(session@) =~= Seq::<SnapView>::empty());
                let ghost mid = items_view(items@);
                items.push(HistoryItem::DateHeader(date_str.clone()));
                assert(items_view(items@) =~= mid.push(ItemView::DateHeader(date_str@)));
                last_date = Some(date_str);
            }
        }
        let new_session = match &last {
            Some(l) => match minutes_between(l.timestamp.as_str(), snap.timestamp.as_str()) {
                Some(gap) => gap > 30 || !opt_eq(&l.git_branch, &snap.git_branch),
                None => false,
            },
            None => false,
        };
        if new_session && session.len() > 0 {
            push_session_group(&mut items, &session);
            session = Vec::new();
            assert(snaps_view(session@) =~= Seq::<SnapView>::empty());
        }
        let ghost sess = snaps_view(session@);
        session.push(snap.copy());
        assert(snaps_view(session@) =~= sess.push(sv[i as int]));
        last = Some(snap.copy());
        i = i + 1;
    }
    push_session_group(&mut items, &session);
    items
}

/// The snapshots that a list of timeline lines shows, in order.
pub open spec fn snapshots_in(items: Seq<ItemView>) -> Seq<SnapView>
    decreases items.len(),
{
    if items.len() == 0 {
        Seq::empty()
    } else {
        let rest = snapshots_in(items.drop_last());
        match items.last() {
            ItemView::Snapshot(s) => rest.push(s),
            _ => rest,
        }
    }
}

proof fn lemma_snapshots_in_concat(a: Seq<ItemView>, b: Seq<ItemView>)
    ensures
        snapshots_in(a + b) == snapshots_in(a) + snapshots_in(b),
    decreases b.len(),
{
    if b.len() == 0 {
        assert(a + b =~= a);
        assert(snapshots_in(a) + snapshots_in(b) =~= snapshots_in(a));
    } else {
        lemma_snapshots_in_concat(a, b.drop_last());
        assert((a + b).drop_last() =~= a + b.drop_last());
        assert((a + b).last() == b.last());
        match b.last() {
            ItemView::Snapshot(x) => {
                assert(snapshots_in(a) + snapshots_in(b.drop_last()).push(x)
                    =~= (snapshots_in(a) + snapshots_in(b.drop_last())).push(x));
            },
            _ => {},
        }
    }
}

proof fn lemma_snapshots_in_map(s: Seq<SnapView>)
    ensures
        snapshots_in(s.map_values(|x: SnapView| ItemView::Snapshot(x))) == s,
    decreases s.len(),
{
    if s.len() > 0 {
        lemma_snapshots_in_map(s.drop_last());
        assert(s.map_values(|x: SnapView| ItemView::Snapshot(x)).drop_last()
            =~= s.drop_last().map_values(|x: SnapView| ItemView::Snapshot(x)));
        assert(s.drop_last().push(s.last()) =~= s);
    } else {
        assert(s.map_values(|x: SnapView| ItemView::Snapshot(x)) =~= Seq::<ItemView>::empty());
    }
}

proof fn lemma_snapshots_in_session(s: Seq<SnapView>)
    ensures
        snapshots_in(session_items(s)) == s,
{
    if s.len() > 0 {
        let head = seq![ItemView::Session { label: session_label(rfc3339_hour(s[0].timestamp)), branch: s[0].branch, count: s.len() as usize }];
        lemma_snapshots_in_concat(head, s.map_values(|x: SnapView| ItemView::Snapshot(x)));
        lemma_snapshots_in_map(s);
        assert(head.drop_last() =~= Seq::<ItemView>::empty());
        assert(snapshots_in(head.drop_last()) =~= Seq::<SnapView>::empty());
        assert(snapshots_in(head) =~= Seq::<SnapView>::empty());
        assert(snapshots_in(head) + s =~= s);
    } else {
        assert(snapshots_in(session_items(s)) =~= s);
    }
}

proof fn lemma_group_prefix_keeps(snaps: Seq<SnapView>, n: nat)
    requires
        n <= snaps.len(),
    ensures
        snapshots_in(group_prefix(snaps, n).items) + group_prefix(snaps, n).session == snaps.subrange(0, n as int),
    decreases n,
{
    if n == 0 {
        assert(snapshots_in(Seq::<ItemView>::empty()) + Seq::<SnapView>::empty() =~= snaps.subrange(0, 0));
    } else {
        let g = group_prefix(snaps, (n - 1) as nat);
        lemma_group_prefix_keeps(snaps, (n - 1) as nat);
        let snap = snaps[n - 1];
        let day = rfc3339_day_label(snap.timestamp);
        let new_day = day is Some && g.last_date != day;
        let items1 = if new_day { g.items + session_items(g.session) + seq![ItemView::DateHeader(day->0)] } else { g.items };
        let session1 = if new_day { Seq::<SnapView>::empty() } else { g.session };
        if new_day {
            lemma_snapshots_in_concat(g.items + session_items(g.session), seq![ItemView::DateHeader(day->0)]);
            lemma_snapshots_in_concat(g.items, session_items(g.session));
            lemma_snapshots_in_session(g.session);
            let h = seq![ItemView::DateHeader(day->0)];
            assert(h.drop_last() =~= Seq::<ItemView>::empty());
            assert(snapshots_in(h.drop_last()) =~= Seq::<SnapView>::empty());
            assert(snapshots_in(h) =~= Seq::<SnapView>::empty());
        }
        assert(snapshots_in(items1) + session1 =~= snaps.subrange(0, n - 1));
        let split = starts_session(g.last, snap) && session1.len() > 0;
        if split {
            lemma_snapshots_in_concat(items1, session_items(session1));
            lemma_snapshots_in_session(session1);
        }
        let items2 = if split { items1 + session_items(session1) } else { items1 };
        let session2 = if split { Seq::<SnapView>::empty() } else { session1 };
        assert(snapshots_in(items2) + session2 =~= snaps.subrange(0, n - 1));
        assert(snapshots_in(items2) + session2.push(snap) =~= snaps.subrange(0, n as int));
    }
}

/// Grouping neither drops, repeats nor reorders snapshots: the snapshot
/// lines of the timeline are the given snapshots, in their order.
pub proof fn law_grouping_keeps_snapshots(snaps: Seq<SnapView>)
    ensures
        snapshots_in(group_spec(snaps)) == snaps,
{
    let g = group_prefix(snaps, snaps.len());
    lemma_group_prefix_keeps(snaps, snaps.len());
    lemma_snapshots_in_concat(g.items, session_items(g.session));
    lemma_snapshots_in_session(g.session);
    assert(snaps.subrange(0, snaps.len() as int) =~= snaps);
}

} // verus!
