//! The activity feeds of `mnem history` and `mnem statistics`: which project
//! a query names, the headings, the commits that the activity mentions, and
//! the bars and shades that chart the counts.

use vstd::prelude::*;
use crate::text::{has_prefix, starts_with, str_eq, to_uppercase, uppercase};
use crate::timeline::{opt_view, strings_view, opt_eq};
use crate::text::{can_slice, bytes_text, try_slice, lex_lt, lex_less, lemma_lex_order, utf8_len};
use crate::dates::{rfc3339_minute_label, minute_label};

verus! {

/// A registered project.
#[derive(Debug, Clone)]
pub struct ProjectEntry {
    pub id: String,
    pub name: String,
    pub path: String,
    /// When the project was last opened (RFC 3339).
    pub last_open: String,
}

/// The project that the third command-line argument names by a prefix of
/// its id (the first such project), unless that argument is missing or is
/// an option.
pub open spec fn project_query_spec(ids: Seq<Seq<char>>, args: Seq<Seq<char>>) -> Option<int> {
    if args.len() > 2 && !has_prefix(args[2], "-"@) && exists|i: int| 0 <= i < ids.len() && has_prefix(ids[i], args[2]) {
        Some(choose|i: int| 0 <= i < ids.len() && has_prefix(ids[i], args[2])
            && forall|j: int| 0 <= j < i ==> !has_prefix(ids[j], args[2]))
    } else {
        None
    }
}

/// The ids of the projects.
pub open spec fn project_ids(p: Seq<ProjectEntry>) -> Seq<Seq<char>> {
    p.map_values(|e: ProjectEntry| e.id@)
}

/// The project that the command line names, by position.
pub fn find_project(projects: &Vec<ProjectEntry>, args: &Vec<String>) -> (r: Option<usize>)
    ensures
        match r {
            Some(i) => project_query_spec(project_ids(projects@), strings_view(args@)) == Some(i as int),
            None => project_query_spec(project_ids(projects@), strings_view(args@)) is None,
        },
{
    let ghost ids = project_ids(projects@);
    let ghost av = strings_view(args@);
    if args.len() <= 2 || starts_with(args[2].as_str(), "-") {
        return None;
    }
    let q = args[2].as_str();
    let mut i: usize = 0;
    while i < projects.len()
        invariant
            i <= projects@.len(),
            ids == project_ids(projects@),
            av == strings_view(args@),
            av.len() > 2,
            !has_prefix(av[2], "-"@),
            ids.len() == projects@.len(),
            q@ == av[2],
            forall|j: int| 0 <= j < i ==> !has_prefix(ids[j], q@),
        decreases projects@.len() - i,
    {
        // `id.starts_with(query) || id == query`: equality is a prefix too
        if starts_with(projects[i].id.as_str(), q) || str_eq(projects[i].id.as_str(), q) {
            proof {
                assert(ids[i as int] == projects@[i as int].id@);
                assert(has_prefix(ids[i as int], q@)) by {
                    if projects@[i as int].id@ == q@ {
                        assert(q@.subrange(0, q@.len() as int) =~= q@);
                    }
                }
                let c = choose|c: int| 0 <= c < ids.len() && has_prefix(ids[c], av[2])
                    && forall|j: int| 0 <= j < c ==> !has_prefix(ids[j], av[2]);
                if c < i {
                    assert(!has_prefix(ids[c], q@));
                }
                if c > i {
                    assert(!has_prefix(ids[i as int], av[2]));
                }
            }
            return Some(i);
        }
        i = i + 1;
    }
    None
}

/// The heading of a feed named after `display_name` (`kind` is `HISTORY`
/// or `STATISTICS`): the project's name in capitals, or the generic
/// project heading for a nameless project; `fallback` without a project.
pub open spec fn title_spec(display_name: Option<Seq<char>>, kind: Seq<char>, fallback: Seq<char>) -> Seq<char> {
    match display_name {
        Some(n) => if n.len() == 0 || n == "unknown"@ {
            "PROJECT "@ + kind
        } else {
            kind + ": "@ + uppercase(n)
        },
        None => fallback,
    }
}

/// The heading of a feed.
fn feed_title(display_name: &Option<String>, kind: &str, fallback: &str) -> (r: String)
    ensures
        r@ == title_spec(opt_view(*display_name), kind@, fallback@),
{
    match display_name {
        Some(n) => if n.as_str().unicode_len() == 0 || str_eq(n.as_str(), "unknown") {
            let mut s = String::from_str("PROJECT ");
            s.append(kind);
            s
        } else {
            let mut s = String::from_str(kind);
            s.append(": ");
            let u = to_uppercase(n.as_str());
            s.append(u.as_str());
            s
        },
        None => String::from_str(fallback),
    }
}

/// The heading of `mnem history`: with a project filter but no name it is
/// the generic project heading, without a filter the global one.
pub fn history_title(display_name: &Option<String>, filtered: bool) -> (r: String)
    ensures
        r@ == title_spec(opt_view(*display_name), "HISTORY"@,
            if filtered { "PROJECT HISTORY"@ } else { "GLOBAL HISTORY"@ }),
{
    feed_title(display_name, "HISTORY", if filtered { "PROJECT HISTORY" } else { "GLOBAL HISTORY" })
}

/// The heading of `mnem statistics`.
pub fn statistics_title(display_name: &Option<String>) -> (r: String)
    ensures
        r@ == title_spec(opt_view(*display_name), "STATISTICS"@, "GLOBAL STATISTICS"@),
{
    feed_title(display_name, "STATISTICS", "GLOBAL STATISTICS")
}

/// The name of the project at `path`, if one is registered there (the
/// first such project).
pub fn name_for_path(projects: &Vec<ProjectEntry>, path: &str) -> (r: Option<String>)
    ensures
        match r {
            Some(n) => exists|i: int| 0 <= i < projects@.len() && projects@[i].path@ == path@
                && n@ == projects@[i].name@ && forall|j: int| 0 <= j < i ==> projects@[j].path@ != path@,
            None => forall|j: int| 0 <= j < projects@.len() ==> projects@[j].path@ != path@,
        },
{
    let mut i: usize = 0;
    while i < projects.len()
        invariant
            i <= projects@.len(),
            forall|j: int| 0 <= j < i ==> projects@[j].path@ != path@,
        decreases projects@.len() - i,
    {
        if str_eq(projects[i].path.as_str(), path) {
            return Some(projects[i].name.clone());
        }
        i = i + 1;
    }
    None
}


/// One entry of the activity feed.
#[derive(Debug, Clone)]
pub struct ActivityRow {
    pub id: i64,
    pub content_hash: String,
    pub timestamp: String,
    pub file_path: String,
    pub git_branch: Option<String>,
    pub commit_hash: Option<String>,
    pub commit_message: Option<String>,
}

/// A commit that the activity mentions.
#[derive(Debug, Clone)]
pub struct CommitSummary {
    pub hash: String,
    pub message: String,
    pub time: String,
    /// The number of feed entries that belong to the commit.
    pub files: usize,
}

/// The plain content of a commit summary.
pub struct CommitView {
    pub hash: Seq<char>,
    pub message: Seq<char>,
    pub time: Seq<char>,
    pub files: nat,
}

impl View for CommitSummary {
    type V = CommitView;

    open spec fn view(&self) -> CommitView {
        CommitView { hash: self.hash@, message: self.message@, time: self.time@, files: self.files as nat }
    }
}

/// The plain content of a list of commit summaries.
pub open spec fn commits_view(v: Seq<CommitSummary>) -> Seq<CommitView> {
    v.map_values(|c: CommitSummary| c@)
}

/// When something was recorded, to the minute: chrono's reading of the
/// timestamp, or else its first 16 bytes (none where those cannot be cut).
pub open spec fn minute_text(ts: Seq<char>) -> Option<Seq<char>> {
    match rfc3339_minute_label(ts) {
        Some(l) => Some(l),
        None => if can_slice(ts, 0, 16) { Some(bytes_text(ts, 0, 16)) } else { None },
    }
}

/// When something was recorded, to the minute.
pub fn minute_time(ts: &str) -> (r: Option<String>)
    ensures
        opt_view(r) == minute_text(ts@),
{
    match minute_label(ts) {
        Some(l) => Some(l),
        None => match try_slice(ts, 0, 16) {
            Some(p) => Some(String::from_str(p)),
            None => None,
        },
    }
}

/// The position in `cs` of the commit `h`, if it is there.
pub open spec fn commit_pos(cs: Seq<CommitView>, h: Seq<char>) -> Option<int> {
    if exists|k: int| 0 <= k < cs.len() && cs[k].hash == h {
        Some(choose|k: int| 0 <= k < cs.len() && cs[k].hash == h)
    } else {
        None
    }
}

/// The commits after one more feed entry: a commit seen before counts one
/// more entry; a new one is added with the entry's message ("No message"
/// without one) and time. None once a new commit's time cannot be read.
pub open spec fn commit_step(cs: Option<Seq<CommitView>>, row: ActivityRow) -> Option<Seq<CommitView>> {
    match cs {
        None => None,
        Some(cs) => match row.commit_hash {
            None => Some(cs),
            Some(h) => match commit_pos(cs, h@) {
                Some(k) => Some(cs.update(k, CommitView { files: cs[k].files + 1, ..cs[k] })),
                None => match minute_text(row.timestamp@) {
                    Some(t) => Some(cs.push(CommitView {
                        hash: h@,
                        message: match row.commit_message { Some(m) => m@, None => "No message"@ },
                        time: t,
                        files: 1,
                    })),
                    None => None,
                },
            },
        },
    }
}

/// The commits mentioned by the first `n` feed entries, in order of first
/// mention.
pub open spec fn commits_upto(rows: Seq<ActivityRow>, n: int) -> Option<Seq<CommitView>>
    decreases n,
{
    if n <= 0 { Some(Seq::empty()) } else { commit_step(commits_upto(rows, n - 1), rows[n - 1]) }
}

/// The commits that the activity mentions, in order of first mention, each
/// with the number of its entries; none where the time of a commit's first
/// entry cannot be read.
pub fn collect_commits(rows: &Vec<ActivityRow>) -> (r: Option<Vec<CommitSummary>>)
    ensures
        match r {
            Some(v) => commits_upto(rows@, rows@.len() as int) == Some(commits_view(v@)),
            None => commits_upto(rows@, rows@.len() as int) is None,
        },
{
    let mut out: Vec<CommitSummary> = Vec::new();
    let mut i: usize = 0;
    assert(commits_view(out@) =~= Seq::<CommitView>::empty());
    while i < rows.len()
        invariant
            i <= rows@.len(),
            commits_upto(rows@, i as int) == Some(commits_view(out@)),
            forall|k: int| 0 <= k < out@.len() ==> out@[k].files < usize::MAX || out@[k].files <= i,
            forall|k: int| 0 <= k < out@.len() ==> out@[k].files <= i,
        decreases rows@.len() - i,
    {
        let row = &rows[i];
        let ghost cs = commits_view(out@);
        if let Some(h) = &row.commit_hash {
            let pos = find_commit(&out, h.as_str());
            let found = pos.is_some();
            let k: usize = match pos { Some(k) => k, None => 0 };
            if found {
                proof {
                    let c = choose|c: int| 0 <= c < cs.len() && cs[c].hash == h@;
                    assert(cs[k as int].hash == h@);
                    assert(c == k) by {
                        if c < k { assert(out@[c].hash@ != h@); }
                        if c > k {
                            // the hashes in the list are distinct
                            lemma_commit_hashes_distinct(rows@, i as int, c, k as int);
                        }
                    }
                }
                let old = &out[k];
                let updated = CommitSummary {
                    hash: old.hash.clone(),
                    message: old.message.clone(),
                    time: old.time.clone(),
                    files: old.files + 1,
                };
                out.set(k, updated);
                assert(commits_view(out@) =~= cs.update(k as int, CommitView { files: cs[k as int].files + 1, ..cs[k as int] }));
            } else {
                assert(commit_pos(cs, h@) is None) by {
                    if exists|c: int| 0 <= c < cs.len() && cs[c].hash == h@ {
                        let c = choose|c: int| 0 <= c < cs.len() && cs[c].hash == h@;
                        assert(out@[c].hash@ == h@);
                    }
                }
                match minute_time(row.timestamp.as_str()) {
                    Some(t) => {
                        let message = match &row.commit_message {
                            Some(m) => m.clone(),
                            None => String::from_str("No message"),
                        };
                        out.push(CommitSummary { hash: h.clone(), message, time: t, files: 1 });
                        assert(commits_view(out@) =~= cs.push(CommitView {
                            hash: h@,
                            message: match row.commit_message { Some(m) => m@, None => "No message"@ },
                            time: minute_text(row.timestamp@)->0,
                            files: 1,
                        }));
                    },
                    None => {
                        proof {
                            lemma_commits_none_stays(rows@, i as int + 1, rows@.len() as int);
                        }
                        return None;
                    },
                }
            }
        }
        i = i + 1;
    }
    Some(out)
}

/// The position of commit `h` in `v`, if it is there.
fn find_commit(v: &Vec<CommitSummary>, h: &str) -> (r: Option<usize>)
    ensures
        match r {
            Some(k) => k < v@.len() && v@[k as int].hash@ == h@ && forall|j: int| 0 <= j < k ==> v@[j].hash@ != h@,
            None => forall|j: int| 0 <= j < v@.len() ==> v@[j].hash@ != h@,
        },
{
    let mut k: usize = 0;
    while k < v.len()
        invariant
            k <= v@.len(),
            forall|j: int| 0 <= j < k ==> v@[j].hash@ != h@,
        decreases v@.len() - k,
    {
        if str_eq(v[k].hash.as_str(), h) {
            return Some(k);
        }
        k = k + 1;
    }
    None
}

proof fn lemma_commits_none_stays(rows: Seq<ActivityRow>, m: int, n: int)
    requires
        m <= n,
        commits_upto(rows, m) is None,
    ensures
        commits_upto(rows, n) is None,
    decreases n - m,
{
    if m < n {
        lemma_commits_none_stays(rows, m, n - 1);
    }
}

/// The commits gathered so far name each commit once.
proof fn lemma_commit_hashes_distinct(rows: Seq<ActivityRow>, n: int, a: int, b: int)
    requires
        commits_upto(rows, n) is Some,
        0 <= a < commits_upto(rows, n)->0.len(),
        0 <= b < commits_upto(rows, n)->0.len(),
        a != b,
    ensures
        commits_upto(rows, n)->0[a].hash != commits_upto(rows, n)->0[b].hash,
    decreases n,
{
    if n > 0 {
        let prev = commits_upto(rows, n - 1);
        assert(prev is Some);
        let cs = prev->0;
        let row = rows[n - 1];
        match row.commit_hash {
            None => {
                lemma_commit_hashes_distinct(rows, n - 1, a, b);
            },
            Some(h) => match commit_pos(cs, h@) {
                Some(k) => {
                    lemma_commit_hashes_distinct(rows, n - 1, a, b);
                },
                None => {
                    if a < cs.len() && b < cs.len() {
                        lemma_commit_hashes_distinct(rows, n - 1, a, b);
                    } else if a == cs.len() {
                        assert(cs[b].hash != h@);
                    } else {
                        assert(cs[a].hash != h@);
                    }
                },
            },
        }
    }
}

/// `order` lists the positions of `keys` latest first, as a stable sort
/// does: every position once, no key after a smaller one, and positions
/// with equal keys in their first order.
pub open spec fn stable_newest_first(keys: Seq<Seq<char>>, order: Seq<usize>) -> bool {
    &&& order.len() == keys.len()
    &&& forall|j: int| 0 <= j < order.len() ==> order[j] < keys.len()
    &&& forall|a: int, c: int| 0 <= a < c < order.len() ==> order[a] != order[c]
    &&& forall|a: int, c: int| 0 <= a < c < order.len()
        ==> !lex_lt(#[trigger] keys[order[a] as int], #[trigger] keys[order[c] as int])
    &&& forall|a: int, c: int| 0 <= a < c < order.len() && keys[order[a] as int] == keys[order[c] as int]
        ==> order[a] < order[c]
}

/// The positions of `keys` in a stable order, latest first.
pub fn newest_first_order(keys: &Vec<String>) -> (r: Vec<usize>)
    ensures
        stable_newest_first(strings_view(keys@), r@),
{
    let ghost k = strings_view(keys@);
    let mut out: Vec<usize> = Vec::new();
    let mut i: usize = 0;
    while i < keys.len()
        invariant
            k == strings_view(keys@),
            i <= keys@.len(),
            out@.len() == i,
            forall|j: int| 0 <= j < out@.len() ==> out@[j] < i,
            forall|a: int, c: int| 0 <= a < c < out@.len() ==> out@[a] != out@[c],
            forall|a: int, c: int| 0 <= a < c < out@.len()
                ==> !lex_lt(#[trigger] k[out@[a] as int], #[trigger] k[out@[c] as int]),
            forall|a: int, c: int| 0 <= a < c < out@.len() && k[out@[a] as int] == k[out@[c] as int]
                ==> out@[a] < out@[c],
        decreases keys@.len() - i,
    {
        let mut p: usize = 0;
        while p < out.len() && !lex_less(keys[out[p]].as_str(), keys[i].as_str())
            invariant
                k == strings_view(keys@),
                i < keys@.len(),
                p <= out@.len(),
                forall|j: int| 0 <= j < out@.len() ==> out@[j] < i,
                forall|j: int| 0 <= j < p ==> !lex_lt(k[out@[j] as int], k[i as int]),
            decreases out@.len() - p,
        {
            p = p + 1;
        }
        let ghost before = out@;
        out.insert(p, i);
        proof {
            let after = out@;
            assert(after =~= before.insert(p as int, i));
            let ki = k[i as int];
            assert forall|a: int, c: int| 0 <= a < c < after.len()
                implies !lex_lt(#[trigger] k[after[a] as int], #[trigger] k[after[c] as int])
                    && (k[after[a] as int] == k[after[c] as int] ==> after[a] < after[c])
                    && after[a] != after[c] by {
                if c < p {
                } else if a > p {
                    assert(after[a] == before[a - 1]);
                    assert(after[c] == before[c - 1]);
                } else if c == p {
                    assert(after[a] == before[a]);
                    assert(!lex_lt(k[before[a] as int], ki));
                } else if a == p {
                    let q = k[before[p as int] as int];
                    assert(lex_lt(q, ki));
                    assert(after[c] == before[c - 1]);
                    let kc = k[before[c - 1] as int];
                    if c - 1 > p {
                        assert(!lex_lt(q, kc));
                    }
                    lemma_lex_order(kc, q, ki);
                    lemma_lex_order(ki, kc, q);
                    lemma_lex_order(q, kc, ki);
                    lemma_lex_order(kc, ki, q);
                } else {
                    assert(after[a] == before[a]);
                    assert(after[c] == before[c - 1]);
                }
            }
            assert forall|a: int, c: int| 0 <= a < c < after.len() implies after[a] != after[c] by {
                assert(!lex_lt(k[after[a] as int], k[after[c] as int]));
            }
            assert forall|a: int, c: int| 0 <= a < c < after.len() && k[after[a] as int] == k[after[c] as int]
                implies after[a] < after[c] by {
                assert(!lex_lt(k[after[a] as int], k[after[c] as int]));
            }
        }
        i = i + 1;
    }
    out
}

/// An order of `n` positions: each position below `n`, none twice.
pub open spec fn is_order(n: nat, o: Seq<usize>) -> bool {
    &&& o.len() == n
    &&& forall|j: int| 0 <= j < o.len() ==> o[j] < n
    &&& forall|a: int, c: int| 0 <= a < c < o.len() ==> o[a] != o[c]
}

/// An order of `n` positions holds every position below `n`.
pub proof fn lemma_order_covers(n: nat, o: Seq<usize>, v: int)
    requires
        is_order(n, o),
        0 <= v < n,
    ensures
        exists|j: int| 0 <= j < n && o[j] == v,
{
    let oi = o.map_values(|x: usize| x as int);
    assert(oi.no_duplicates()) by {
        assert forall|a: int, c: int| 0 <= a < oi.len() && 0 <= c < oi.len() && a != c implies oi[a] != oi[c] by {
            if a < c {
                assert(o[a] != o[c]);
            } else {
                assert(o[c] != o[a]);
            }
        }
    }
    oi.unique_seq_to_set();
    vstd::set_lib::lemma_int_range(0, n as int);
    assert(oi.to_set().subset_of(vstd::set_lib::set_int_range(0, n as int))) by {
        assert forall|x: int| oi.to_set().contains(x) implies vstd::set_lib::set_int_range(0, n as int).contains(x) by {
            let j = choose|j: int| 0 <= j < oi.len() && oi[j] == x;
            assert(o[j] < n);
        }
    }
    vstd::seq_lib::seq_to_set_is_finite(oi);
    vstd::set_lib::lemma_subset_equality(oi.to_set(), vstd::set_lib::set_int_range(0, n as int));
    assert(vstd::set_lib::set_int_range(0, n as int).contains(v));
    assert(oi.to_set().contains(v));
    let j = choose|j: int| 0 <= j < oi.len() && oi[j] == v;
    assert(o[j] == v);
}

proof fn lemma_stable_orders_agree(keys: Seq<Seq<char>>, o1: Seq<usize>, o2: Seq<usize>, d: int)
    requires
        stable_newest_first(keys, o1),
        stable_newest_first(keys, o2),
        0 <= d <= keys.len(),
    ensures
        forall|t: int| 0 <= t < d ==> o1[t] == o2[t],
    decreases d,
{
    if d > 0 {
        let m = d - 1;
        lemma_stable_orders_agree(keys, o1, o2, m);
        let a = o1[m];
        let b = o2[m];
        if a != b {
            lemma_order_covers(keys.len(), o1, b as int);
            lemma_order_covers(keys.len(), o2, a as int);
            let e = choose|j: int| 0 <= j < keys.len() && o1[j] == b;
            let f = choose|j: int| 0 <= j < keys.len() && o2[j] == a;
            if e < m {
                assert(o2[e] == b);
            }
            if f < m {
                assert(o1[f] == a);
            }
            assert(m < e && m < f);
            assert(!lex_lt(keys[a as int], keys[b as int]));
            assert(!lex_lt(keys[b as int], keys[a as int]));
            lemma_lex_order(keys[a as int], keys[b as int], keys[a as int]);
            assert(keys[a as int] == keys[b as int]);
            assert(false);
        }
    }
}

/// A stable order, latest first, is unique: two orders that both list the
/// positions of `keys` that way are the same order.
pub proof fn law_stable_order_unique(keys: Seq<Seq<char>>, o1: Seq<usize>, o2: Seq<usize>)
    requires
        stable_newest_first(keys, o1),
        stable_newest_first(keys, o2),
    ensures
        o1 == o2,
{
    lemma_stable_orders_agree(keys, o1, o2, keys.len() as int);
    assert(o1 =~= o2);
}

/// The times of the commits.
pub open spec fn commit_times(v: Seq<CommitSummary>) -> Seq<Seq<char>> {
    v.map_values(|c: CommitSummary| c.time@)
}

/// The commits ordered by time, latest first, as a stable sort leaves
/// them: commits with equal times keep their order.
pub fn sort_commits(v: Vec<CommitSummary>) -> (r: Vec<CommitSummary>)
    ensures
        exists|order: Seq<usize>| {
            &&& stable_newest_first(commit_times(v@), order)
            &&& commits_view(r@) == order.map_values(|j: usize| v@[j as int]@)
        },
{
    let mut times: Vec<String> = Vec::new();
    let mut i: usize = 0;
    while i < v.len()
        invariant
            i <= v@.len(),
            strings_view(times@) == commit_times(v@).subrange(0, i as int),
        decreases v@.len() - i,
    {
        times.push(v[i].time.clone());
        proof {
            assert(commit_times(v@).subrange(0, i + 1) =~= commit_times(v@).subrange(0, i as int).push(v@[i as int].time@));
            assert(strings_view(times@) =~= strings_view(times@.drop_last()).push(times@.last()@));
        }
        i = i + 1;
    }
    assert(commit_times(v@).subrange(0, v@.len() as int) =~= commit_times(v@));
    let order = newest_first_order(&times);
    let mut out: Vec<CommitSummary> = Vec::new();
    let mut j: usize = 0;
    while j < order.len()
        invariant
            stable_newest_first(commit_times(v@), order@),
            j <= order@.len(),
            commits_view(out@) == order@.subrange(0, j as int).map_values(|x: usize| v@[x as int]@),
        decreases order@.len() - j,
    {
        let g = &v[order[j]];
        let ghost before = out@;
        let c = CommitSummary { hash: g.hash.clone(), message: g.message.clone(), time: g.time.clone(), files: g.files };
        assert(c@ == v@[order@[j as int] as int]@);
        out.push(c);
        proof {
            assert(commits_view(out@) =~= commits_view(before).push(c@));
            assert(order@.subrange(0, j + 1).map_values(|x: usize| v@[x as int]@)
                =~= order@.subrange(0, j as int).map_values(|x: usize| v@[x as int]@).push(c@));
        }
        j = j + 1;
    }
    assert(order@.subrange(0, order@.len() as int) =~= order@);
    out
}

/// The branch an entry is filed under: its branch, or none.
pub open spec fn branch_key(r: ActivityRow) -> Option<Seq<char>> {
    opt_view(r.git_branch)
}

/// How many of the positions `kept` hold an entry of branch `b`.
pub open spec fn count_branch(rows: Seq<ActivityRow>, kept: Seq<usize>, b: Option<Seq<char>>) -> nat
    decreases kept.len(),
{
    if kept.len() == 0 {
        0
    } else {
        count_branch(rows, kept.drop_last(), b) + if branch_key(rows[kept.last() as int]) == b { 1nat } else { 0nat }
    }
}

/// The entries among the first `n` that are shown when each branch shows
/// at most `limit` entries (the earliest ones), by position.
pub open spec fn per_branch_upto(rows: Seq<ActivityRow>, limit: nat, n: int) -> Seq<usize>
    decreases n,
{
    if n <= 0 {
        Seq::empty()
    } else {
        let k = per_branch_upto(rows, limit, n - 1);
        if count_branch(rows, k, branch_key(rows[n - 1])) < limit { k.push((n - 1) as usize) } else { k }
    }
}

proof fn lemma_per_branch_bounds(rows: Seq<ActivityRow>, limit: nat, n: int)
    requires
        0 <= n <= rows.len(),
    ensures
        per_branch_upto(rows, limit, n).len() <= n,
        forall|j: int| 0 <= j < per_branch_upto(rows, limit, n).len() ==> per_branch_upto(rows, limit, n)[j] < n,
    decreases n,
{
    if n > 0 {
        lemma_per_branch_bounds(rows, limit, n - 1);
    }
}

/// Shows at most `limit` entries of each branch, the earliest ones.
pub fn paginate_per_branch(rows: &Vec<ActivityRow>, limit: usize) -> (r: Vec<usize>)
    ensures
        r@ == per_branch_upto(rows@, limit as nat, rows@.len() as int),
{
    let mut kept: Vec<usize> = Vec::new();
    let mut i: usize = 0;
    while i < rows.len()
        invariant
            i <= rows@.len(),
            kept@ == per_branch_upto(rows@, limit as nat, i as int),
        decreases rows@.len() - i,
    {
        proof {
            lemma_per_branch_bounds(rows@, limit as nat, i as int);
        }
        let mut c: usize = 0;
        let mut j: usize = 0;
        while j < kept.len()
            invariant
                j <= kept@.len(),
                i < rows@.len(),
                kept@ == per_branch_upto(rows@, limit as nat, i as int),
                forall|t: int| 0 <= t < kept@.len() ==> kept@[t] < i,
                c == count_branch(rows@, kept@.subrange(0, j as int), branch_key(rows@[i as int])),
                c <= j,
            decreases kept@.len() - j,
        {
            assert(kept@.subrange(0, j + 1).drop_last() =~= kept@.subrange(0, j as int));
            if opt_eq(&rows[kept[j]].git_branch, &rows[i].git_branch) {
                c = c + 1;
            }
            j = j + 1;
        }
        assert(kept@.subrange(0, kept@.len() as int) =~= kept@);
        if c < limit {
            kept.push(i);
        }
        i = i + 1;
    }
    kept
}

/// The letter shown for an entry: `M`, `C` or `D` by the remainder of its
/// id divided by three (0, 1, anything else).
pub open spec fn change_letter(id: i64) -> char {
    let r: int = if id >= 0 { (id as int) % 3 } else { -((-(id as int)) % 3) };
    if r == 0 { 'M' } else if r == 1 { 'C' } else { 'D' }
}

/// The letter shown for an entry.
pub fn change_label(id: i64) -> (r: char)
    ensures
        r == change_letter(id),
{
    let r: i64 = if id >= 0 { id % 3 } else if id > -3 { id } else { -((-(id + 3)) % 3) };
    proof {
        if id < 0 && id <= -3 {
            let m = (-(id + 3)) as int;
            assert(m % 3 == ((-id) as int) % 3) by {
                vstd::arithmetic::div_mod::lemma_mod_add_multiples_vanish(m, 3);
            }
        }
    }
    if r == 0 { 'M' } else if r == 1 { 'C' } else { 'D' }
}

/// A line of the `history` feed.
#[derive(Debug, Clone)]
pub enum FeedLine {
    /// A branch section opens, tagged with the branch's first two bytes.
    BranchStart { tag: String, branch: String },
    /// The open branch section closes.
    BranchEnd,
    /// The entries that follow belong to this commit.
    Commit { message: String, short_hash: String },
    /// The feed entry at position `row`.
    Entry { row: usize, short_hash: String, letter: char, time: String },
}

/// The plain content of a feed line.
pub enum FeedView {
    BranchStart { tag: Seq<char>, branch: Seq<char> },
    BranchEnd,
    Commit { message: Seq<char>, short_hash: Seq<char> },
    Entry { row: usize, short_hash: Seq<char>, letter: char, time: Seq<char> },
}

impl View for FeedLine {
    type V = FeedView;

    open spec fn view(&self) -> FeedView {
        match self {
            FeedLine::BranchStart { tag, branch } => FeedView::BranchStart { tag: tag@, branch: branch@ },
            FeedLine::BranchEnd => FeedView::BranchEnd,
            FeedLine::Commit { message, short_hash } => FeedView::Commit { message: message@, short_hash: short_hash@ },
            FeedLine::Entry { row, short_hash, letter, time } => FeedView::Entry {
                row: *row,
                short_hash: short_hash@,
                letter: *letter,
                time: time@,
            },
        }
    }
}

/// The plain content of feed lines.
pub open spec fn feed_view(v: Seq<FeedLine>) -> Seq<FeedView> {
    v.map_values(|l: FeedLine| l@)
}

/// Where the feed stands: its lines, the open branch and the last commit.
pub struct FeedState {
    pub lines: Seq<FeedView>,
    pub branch: Option<Seq<char>>,
    pub commit: Option<Seq<char>>,
}

/// The tag of a branch section: the branch's first two bytes, or the whole
/// name when it is shorter (none where two bytes cut a character).
pub open spec fn branch_tag(b: Seq<char>) -> Option<Seq<char>> {
    if utf8_len(b) >= 2 {
        if can_slice(b, 0, 2) { Some(bytes_text(b, 0, 2)) } else { None }
    } else {
        Some(b)
    }
}

/// The feed after entry `idx`: a new branch closes the open section and
/// opens one; a new commit gets a commit line; then the entry, with the
/// first seven bytes of its hash and the minutes of its timestamp (bytes
/// 11 to 16). None where one of those cannot be cut out.
pub open spec fn feed_step(st: Option<FeedState>, rows: Seq<ActivityRow>, idx: usize) -> Option<FeedState> {
    match st {
        None => None,
        Some(st) => {
            let r = rows[idx as int];
            let branch = match r.git_branch { Some(b) => b@, None => "main"@ };
            if !can_slice(r.content_hash@, 0, 7) || !can_slice(r.timestamp@, 11, 16) || branch_tag(branch) is None {
                None
            } else {
                let new_branch = st.branch != Some(branch);
                let lines1 = if new_branch {
                    (if st.branch is Some { st.lines.push(FeedView::BranchEnd) } else { st.lines })
                        .push(FeedView::BranchStart { tag: branch_tag(branch)->0, branch })
                } else {
                    st.lines
                };
                let commit1 = if new_branch { None } else { st.commit };
                match r.commit_hash {
                    Some(ch) if commit1 != Some(ch@) => if !can_slice(ch@, 0, 7) {
                        None
                    } else {
                        Some(FeedState {
                            lines: lines1.push(FeedView::Commit {
                                message: match r.commit_message { Some(m) => m@, None => "No message"@ },
                                short_hash: bytes_text(ch@, 0, 7),
                            }).push(FeedView::Entry {
                                row: idx,
                                short_hash: bytes_text(r.content_hash@, 0, 7),
                                letter: change_letter(r.id),
                                time: bytes_text(r.timestamp@, 11, 16),
                            }),
                            branch: Some(branch),
                            commit: Some(ch@),
                        })
                    },
                    _ => Some(FeedState {
                        lines: lines1.push(FeedView::Entry {
                            row: idx,
                            short_hash: bytes_text(r.content_hash@, 0, 7),
                            letter: change_letter(r.id),
                            time: bytes_text(r.timestamp@, 11, 16),
                        }),
                        branch: Some(branch),
                        commit: commit1,
                    }),
                }
            }
        },
    }
}

/// The feed after the first `n` shown entries.
pub open spec fn feed_upto(rows: Seq<ActivityRow>, shown: Seq<usize>, n: int) -> Option<FeedState>
    decreases n,
{
    if n <= 0 {
        Some(FeedState { lines: Seq::empty(), branch: None, commit: None })
    } else {
        feed_step(feed_upto(rows, shown, n - 1), rows, shown[n - 1])
    }
}

/// The whole feed: the shown entries, then the close of the open section.
pub open spec fn feed_spec(rows: Seq<ActivityRow>, shown: Seq<usize>) -> Option<Seq<FeedView>> {
    match feed_upto(rows, shown, shown.len() as int) {
        Some(st) => Some(if st.branch is Some { st.lines.push(FeedView::BranchEnd) } else { st.lines }),
        None => None,
    }
}

proof fn lemma_feed_none_stays(rows: Seq<ActivityRow>, shown: Seq<usize>, m: int, n: int)
    requires
        m <= n,
        feed_upto(rows, shown, m) is None,
    ensures
        feed_upto(rows, shown, n) is None,
    decreases n - m,
{
    if m < n {
        lemma_feed_none_stays(rows, shown, m, n - 1);
    }
}

/// Line `p` of `lines`, a commit line, introduces the entry on the line
/// after it, whose row has a commit: the line carries that commit's
/// message ("No message" when the row has none) and the first seven bytes
/// of its hash.
pub open spec fn commit_line_of_entry(rows: Seq<ActivityRow>, lines: Seq<FeedView>, p: int) -> bool {
    &&& 0 <= p && p + 1 < lines.len()
    &&& lines[p + 1] matches FeedView::Entry { row, .. }
    &&& row < rows.len()
    &&& rows[row as int].commit_hash matches Some(h)
    &&& lines[p] == (FeedView::Commit {
        message: match rows[row as int].commit_message { Some(m) => m@, None => "No message"@ },
        short_hash: bytes_text(h@, 0, 7),
    })
}

proof fn lemma_feed_commit_lines(rows: Seq<ActivityRow>, shown: Seq<usize>, n: int)
    requires
        0 <= n <= shown.len(),
        forall|j: int| 0 <= j < shown.len() ==> shown[j] < rows.len(),
        feed_upto(rows, shown, n) is Some,
    ensures
        forall|p: int| 0 <= p < feed_upto(rows, shown, n)->0.lines.len()
            && (#[trigger] feed_upto(rows, shown, n)->0.lines[p]) is Commit
            ==> commit_line_of_entry(rows, feed_upto(rows, shown, n)->0.lines, p),
    decreases n,
{
    if n > 0 {
        if feed_upto(rows, shown, n - 1) is None {
            assert(feed_upto(rows, shown, n) is None);
        }
        lemma_feed_commit_lines(rows, shown, n - 1);
        let prev = feed_upto(rows, shown, n - 1)->0;
        let cur = feed_upto(rows, shown, n)->0;
        let idx = shown[n - 1];
        let r = rows[idx as int];
        let branch = match r.git_branch { Some(b) => b@, None => "main"@ };
        let new_branch = prev.branch != Some(branch);
        let lines1 = if new_branch {
            (if prev.branch is Some { prev.lines.push(FeedView::BranchEnd) } else { prev.lines })
                .push(FeedView::BranchStart { tag: branch_tag(branch)->0, branch })
        } else {
            prev.lines
        };
        assert(lines1.subrange(0, prev.lines.len() as int) =~= prev.lines);
        assert(cur.lines.subrange(0, lines1.len() as int) =~= lines1);
        assert forall|p: int| 0 <= p < cur.lines.len() && (#[trigger] cur.lines[p]) is Commit
            implies commit_line_of_entry(rows, cur.lines, p) by {
            if p < prev.lines.len() {
                assert(prev.lines[p] == cur.lines[p]);
                assert(commit_line_of_entry(rows, prev.lines, p));
                assert(prev.lines[p + 1] == cur.lines[p + 1]);
            }
        }
    }
}

/// Line `p` is a commit line for the commit `h`, and only entries follow it
/// up to line `q`.
pub open spec fn commit_block(lines: Seq<FeedView>, p: int, q: int, h: Seq<char>) -> bool {
    &&& 0 <= p < q <= lines.len()
    &&& lines[p] matches FeedView::Commit { short_hash, .. }
    &&& short_hash == bytes_text(h, 0, 7)
    &&& forall|k: int| p < k < q ==> (#[trigger] lines[k]) is Entry
}

/// Entry line `q`, if its row has a commit, lies in the block of that
/// commit's line.
pub open spec fn entry_under_its_commit(rows: Seq<ActivityRow>, lines: Seq<FeedView>, q: int) -> bool {
    match lines[q] {
        FeedView::Entry { row, .. } => row < rows.len() ==> match rows[row as int].commit_hash {
            Some(h) => exists|p: int| #[trigger] commit_block(lines, p, q, h@),
            None => true,
        },
        _ => true,
    }
}

proof fn lemma_block_prefix(lines: Seq<FeedView>, more: Seq<FeedView>, p: int, q: int, h: Seq<char>)
    requires
        commit_block(lines, p, q, h),
    ensures
        commit_block(lines + more, p, q, h),
{
    assert forall|k: int| p < k < q implies (#[trigger] (lines + more)[k]) is Entry by {
        assert(lines[k] is Entry);
    }
}

proof fn lemma_feed_entries_under_commits(rows: Seq<ActivityRow>, shown: Seq<usize>, n: int)
    requires
        0 <= n <= shown.len(),
        forall|j: int| 0 <= j < shown.len() ==> shown[j] < rows.len(),
        feed_upto(rows, shown, n) is Some,
    ensures
        forall|q: int| 0 <= q < feed_upto(rows, shown, n)->0.lines.len()
            ==> #[trigger] entry_under_its_commit(rows, feed_upto(rows, shown, n)->0.lines, q),
        feed_upto(rows, shown, n)->0.commit matches Some(c) ==> exists|p: int|
            #[trigger] commit_block(feed_upto(rows, shown, n)->0.lines, p, feed_upto(rows, shown, n)->0.lines.len() as int, c),
    decreases n,
{
    if n > 0 {
        if feed_upto(rows, shown, n - 1) is None {
            assert(feed_upto(rows, shown, n) is None);
        }
        lemma_feed_entries_under_commits(rows, shown, n - 1);
        let prev = feed_upto(rows, shown, n - 1)->0;
        let cur = feed_upto(rows, shown, n)->0;
        let idx = shown[n - 1];
        let r = rows[idx as int];
        let branch = match r.git_branch { Some(b) => b@, None => "main"@ };
        let new_branch = prev.branch != Some(branch);
        let lines1 = if new_branch {
            (if prev.branch is Some { prev.lines.push(FeedView::BranchEnd) } else { prev.lines })
                .push(FeedView::BranchStart { tag: branch_tag(branch)->0, branch })
        } else {
            prev.lines
        };
        let commit1 = if new_branch { None } else { prev.commit };
        let extra = cur.lines.subrange(prev.lines.len() as int, cur.lines.len() as int);
        assert(cur.lines =~= prev.lines + extra);
        let m = cur.lines.len() as int;
        let is_new_commit = match r.commit_hash { Some(ch) => commit1 != Some(ch@), None => false };
        assert forall|q: int| 0 <= q < m implies #[trigger] entry_under_its_commit(rows, cur.lines, q) by {
            if q < prev.lines.len() {
                assert(entry_under_its_commit(rows, prev.lines, q));
                assert(cur.lines[q] == prev.lines[q]);
                if let FeedView::Entry { row, .. } = cur.lines[q] {
                    if row < rows.len() {
                        if let Some(h) = rows[row as int].commit_hash {
                            let p = choose|p: int| #[trigger] commit_block(prev.lines, p, q, h@);
                            lemma_block_prefix(prev.lines, extra, p, q, h@);
                        }
                    }
                }
            } else if q == m - 1 {
                if let Some(ch) = r.commit_hash {
                    if is_new_commit {
                        assert(commit_block(cur.lines, m - 2, q, ch@));
                    } else {
                        let p = choose|p: int| #[trigger] commit_block(prev.lines, p, prev.lines.len() as int, ch@);
                        assert(lines1 == prev.lines);
                        assert(commit_block(cur.lines, p, q, ch@));
                    }
                }
            } else {
                assert(!(cur.lines[q] is Entry));
            }
        }
        if let Some(c) = cur.commit {
            if is_new_commit {
                assert(commit_block(cur.lines, m - 2, m, c));
            } else {
                assert(commit1 == Some(c));
                assert(lines1 == prev.lines);
                let p = choose|p: int| #[trigger] commit_block(prev.lines, p, prev.lines.len() as int, c);
                assert(commit_block(cur.lines, p, m, c));
            }
        }
    }
}

/// Every entry of the history feed whose row has a commit is shown under
/// the line of that commit: some commit line before it has the first seven
/// bytes of that commit's hash, and only entries stand between the two.
pub proof fn law_entries_stand_under_their_commit(rows: Seq<ActivityRow>, shown: Seq<usize>, q: int)
    requires
        forall|j: int| 0 <= j < shown.len() ==> shown[j] < rows.len(),
        feed_spec(rows, shown) is Some,
        0 <= q < feed_spec(rows, shown)->0.len(),
    ensures
        entry_under_its_commit(rows, feed_spec(rows, shown)->0, q),
{
    let n = shown.len() as int;
    lemma_feed_entries_under_commits(rows, shown, n);
    let st = feed_upto(rows, shown, n)->0;
    let lines = feed_spec(rows, shown)->0;
    let extra = lines.subrange(st.lines.len() as int, lines.len() as int);
    assert(lines =~= st.lines + extra);
    if q < st.lines.len() {
        assert(entry_under_its_commit(rows, st.lines, q));
        assert(lines[q] == st.lines[q]);
        if let FeedView::Entry { row, .. } = lines[q] {
            if row < rows.len() {
                if let Some(h) = rows[row as int].commit_hash {
                    let p = choose|p: int| #[trigger] commit_block(st.lines, p, q, h@);
                    lemma_block_prefix(st.lines, extra, p, q, h@);
                }
            }
        }
    } else {
        assert(lines[q] == FeedView::BranchEnd);
    }
}

/// Each commit line of the history feed names the commit of the entry it
/// introduces, which follows it: with that row's commit message, or "No
/// message" when the row has none, and the first seven bytes of its hash.
pub proof fn law_commit_lines_carry_their_message(rows: Seq<ActivityRow>, shown: Seq<usize>, p: int)
    requires
        forall|j: int| 0 <= j < shown.len() ==> shown[j] < rows.len(),
        feed_spec(rows, shown) is Some,
        0 <= p < feed_spec(rows, shown)->0.len(),
        feed_spec(rows, shown)->0[p] is Commit,
    ensures
        commit_line_of_entry(rows, feed_spec(rows, shown)->0, p),
{
    let n = shown.len() as int;
    lemma_feed_commit_lines(rows, shown, n);
    let st = feed_upto(rows, shown, n)->0;
    let lines = feed_spec(rows, shown)->0;
    assert(lines.subrange(0, st.lines.len() as int) =~= st.lines);
    if p < st.lines.len() {
        assert(st.lines[p] == lines[p]);
        assert(commit_line_of_entry(rows, st.lines, p));
        assert(st.lines[p + 1] == lines[p + 1]);
    }
}

/// Lays out the shown entries (`shown`, positions into `rows`) in branch
/// sections, with a line for each commit; none where a hash, a branch name
/// or a timestamp is too short to cut.
pub fn history_feed(rows: &Vec<ActivityRow>, shown: &Vec<usize>) -> (r: Option<Vec<FeedLine>>)
    requires
        forall|j: int| 0 <= j < shown@.len() ==> shown@[j] < rows@.len(),
    ensures
        match r {
            Some(v) => feed_spec(rows@, shown@) == Some(feed_view(v@)),
            None => feed_spec(rows@, shown@) is None,
        },
{
    let mut lines: Vec<FeedLine> = Vec::new();
    let mut last_branch: Option<String> = None;
    let mut last_commit: Option<String> = None;
    let mut k: usize = 0;
    assert(feed_view(lines@) =~= Seq::<FeedView>::empty());
    while k < shown.len()
        invariant
            k <= shown@.len(),
            forall|j: int| 0 <= j < shown@.len() ==> shown@[j] < rows@.len(),
            feed_upto(rows@, shown@, k as int) == Some(FeedState {
                lines: feed_view(lines@),
                branch: opt_view(last_branch),
                commit: opt_view(last_commit),
            }),
        decreases shown@.len() - k,
    {
        let idx = shown[k];
        let r = &rows[idx];
        let main = String::from_str("main");
        let branch: &String = match &r.git_branch { Some(b) => b, None => &main };
        let ghost bv = branch@;
        assert(bv == match r.git_branch { Some(b) => b@, None => "main"@ });
        let short = try_slice(r.content_hash.as_str(), 0, 7);
        let time = try_slice(r.timestamp.as_str(), 11, 16);
        let tag: Option<&str> = if branch.as_str().as_bytes().len() >= 2 { try_slice(branch.as_str(), 0, 2) } else { Some(branch.as_str()) };
        assert(match tag { Some(t) => branch_tag(bv) == Some(t@), None => branch_tag(bv) is None });
        if short.is_none() || time.is_none() || tag.is_none() {
            proof {
                lemma_feed_none_stays(rows@, shown@, k + 1, shown@.len() as int);
            }
            return None;
        }
        let short = short.unwrap();
        let time = time.unwrap();
        let tag = tag.unwrap();
        let ghost st = FeedState { lines: feed_view(lines@), branch: opt_view(last_branch), commit: opt_view(last_commit) };
        let same_branch = match &last_branch {
            Some(b) => str_eq(b.as_str(), branch.as_str()),
            None => false,
        };
        assert(same_branch == (st.branch == Some(bv)));
        if !same_branch {
            if last_branch.is_some() {
                let ghost before = feed_view(lines@);
                lines.push(FeedLine::BranchEnd);
                assert(feed_view(lines@) =~= before.push(FeedView::BranchEnd));
            }
            let ghost before = feed_view(lines@);
            lines.push(FeedLine::BranchStart { tag: String::from_str(tag), branch: branch.clone() });
            assert(feed_view(lines@) =~= before.push(FeedView::BranchStart { tag: tag@, branch: bv }));
            last_branch = Some(branch.clone());
            last_commit = None;
        }
        let ghost lines1 = if st.branch != Some(bv) {
            (if st.branch is Some { st.lines.push(FeedView::BranchEnd) } else { st.lines })
                .push(FeedView::BranchStart { tag: branch_tag(bv)->0, branch: bv })
        } else {
            st.lines
        };
        let ghost commit1 = if st.branch != Some(bv) { None } else { st.commit };
        assert(feed_view(lines@) == lines1);
        assert(opt_view(last_commit) == commit1);
        assert(opt_view(last_branch) == Some(bv));
        let entry = FeedLine::Entry {
            row: idx,
            short_hash: String::from_str(short),
            letter: change_label(r.id),
            time: String::from_str(time),
        };
        let ghost ev = FeedView::Entry {
            row: idx,
            short_hash: bytes_text(r.content_hash@, 0, 7),
            letter: change_letter(r.id),
            time: bytes_text(r.timestamp@, 11, 16),
        };
        assert(entry@ == ev);
        if let Some(ch) = &r.commit_hash {
            let same_commit = match &last_commit {
                Some(c) => str_eq(c.as_str(), ch.as_str()),
                None => false,
            };
            assert(same_commit == (commit1 == Some(ch@)));
            if !same_commit {
                match try_slice(ch.as_str(), 0, 7) {
                    Some(cs) => {
                        let message = match &r.commit_message {
                            Some(m) => m.clone(),
                            None => String::from_str("No message"),
                        };
                        let ghost before = feed_view(lines@);
                        lines.push(FeedLine::Commit { message, short_hash: String::from_str(cs) });
                        assert(feed_view(lines@) =~= before.push(FeedView::Commit {
                            message: match r.commit_message { Some(m) => m@, None => "No message"@ },
                            short_hash: bytes_text(ch@, 0, 7),
                        }));
                        last_commit = Some(ch.clone());
                    },
                    None => {
                        proof {
                            lemma_feed_none_stays(rows@, shown@, k + 1, shown@.len() as int);
                        }
                        return None;
                    },
                }
            }
        }
        let ghost before = feed_view(lines@);
        lines.push(entry);
        assert(feed_view(lines@) =~= before.push(ev));
        k = k + 1;
    }
    if last_branch.is_some() {
        let ghost before = feed_view(lines@);
        lines.push(FeedLine::BranchEnd);
        assert(feed_view(lines@) =~= before.push(FeedView::BranchEnd));
    }
    Some(lines)
}

/// The largest of the counts, or 1 when there are none.
pub open spec fn max_count_spec(v: Seq<usize>) -> usize
    decreases v.len(),
{
    if v.len() == 0 {
        1
    } else if v.len() == 1 {
        v[0]
    } else {
        let m = max_count_spec(v.drop_last());
        if v.last() > m { v.last() } else { m }
    }
}

/// The largest of the counts, or 1 when there are none.
pub fn max_count(v: &Vec<usize>) -> (r: usize)
    ensures
        r == max_count_spec(v@),
        v@.len() > 0 ==> forall|i: int| 0 <= i < v@.len() ==> v@[i] <= r,
{
    if v.len() == 0 {
        return 1;
    }
    let mut m = v[0];
    let mut i: usize = 1;
    assert(v@.subrange(0, 1).drop_last() =~= Seq::<usize>::empty());
    assert(max_count_spec(v@.subrange(0, 1)) == v@[0]);
    while i < v.len()
        invariant
            1 <= i <= v@.len(),
            m == max_count_spec(v@.subrange(0, i as int)),
            forall|j: int| 0 <= j < i ==> v@[j] <= m,
        decreases v@.len() - i,
    {
        assert(v@.subrange(0, i + 1).drop_last() =~= v@.subrange(0, i as int));
        if v[i] > m {
            m = v[i];
        }
        i = i + 1;
    }
    assert(v@.subrange(0, v@.len() as int) =~= v@);
    m
}

/// The length of a chart bar for `count` against the largest count `max`
/// on a chart `scale` wide: at least one block, none when `max` is 0.
pub open spec fn bar_len_spec(count: usize, max: usize, scale: usize) -> int {
    if max > 0 {
        let l = (count * scale) / (max as int);
        if l < 1 { 1 } else { l }
    } else {
        0
    }
}

/// The length of a chart bar.
pub fn bar_len(count: usize, max: usize, scale: usize) -> (r: usize)
    requires
        count * scale <= usize::MAX,
    ensures
        r == bar_len_spec(count, max, scale),
{
    if max > 0 {
        let l = count * scale / max;
        if l < 1 { 1 } else { l }
    } else {
        0
    }
}

/// The count recorded for hour `h`: the last pair for it wins; 0 without one.
pub open spec fn hour_count(pairs: Seq<(u32, usize)>, h: u32) -> usize
    decreases pairs.len(),
{
    if pairs.len() == 0 {
        0
    } else if pairs.last().0 == h {
        pairs.last().1
    } else {
        hour_count(pairs.drop_last(), h)
    }
}

/// The shade (0 to 7) of an hour's count against the largest count.
pub open spec fn shade(count: usize, max: usize) -> u8 {
    if max > 0 {
        let l = (count * 7) / (max as int);
        (if l > 7 { 7 } else { l }) as u8
    } else {
        0
    }
}

/// The count recorded for hour `h`.
fn count_for_hour(pairs: &Vec<(u32, usize)>, h: u32) -> (r: usize)
    ensures
        r == hour_count(pairs@, h),
{
    let mut i = pairs.len();
    assert(pairs@.subrange(0, i as int) =~= pairs@);
    while i > 0
        invariant
            i <= pairs@.len(),
            hour_count(pairs@, h) == hour_count(pairs@.subrange(0, i as int), h),
        decreases i,
    {
        let ghost t = pairs@.subrange(0, i as int);
        assert(t.drop_last() =~= pairs@.subrange(0, i - 1));
        if pairs[i - 1].0 == h {
            return pairs[i - 1].1;
        }
        i = i - 1;
    }
    0
}

/// The shades of the 24 hours of the day, from the recorded (hour, count)
/// pairs.
pub fn hour_shades(pairs: &Vec<(u32, usize)>, max: usize) -> (r: Vec<u8>)
    requires
        forall|h: u32| h < 24 ==> hour_count(pairs@, h) * 7 <= usize::MAX,
    ensures
        r@.len() == 24,
        forall|h: int| 0 <= h < 24 ==> r@[h] == shade(hour_count(pairs@, h as u32), max),
{
    let mut out: Vec<u8> = Vec::new();
    let mut h: u32 = 0;
    assert(pairs@.subrange(0, pairs@.len() as int) =~= pairs@);
    while h < 24
        invariant
            h <= 24,
            out@.len() == h,
            forall|x: u32| x < 24 ==> hour_count(pairs@, x) * 7 <= usize::MAX,
            forall|g: int| 0 <= g < h ==> out@[g] == shade(hour_count(pairs@, g as u32), max),
        decreases 24 - h,
    {
        let c = count_for_hour(pairs, h);
        let s: u8 = if max > 0 {
            let l = c * 7 / max;
            if l > 7 { 7 } else { l as u8 }
        } else {
            0
        };
        out.push(s);
        h = h + 1;
    }
    out
}


proof fn lemma_count_branch_push(rows: Seq<ActivityRow>, kept: Seq<usize>, x: usize, b: Option<Seq<char>>)
    ensures
        count_branch(rows, kept.push(x), b) == count_branch(rows, kept, b)
            + if branch_key(rows[x as int]) == b { 1nat } else { 0nat },
{
    assert(kept.push(x).drop_last() =~= kept);
}

/// No branch shows more than `limit` entries, and the shown entries keep
/// the feed's order.
pub proof fn law_per_branch_limit(rows: Seq<ActivityRow>, limit: nat, n: int, b: Option<Seq<char>>)
    requires
        0 <= n <= rows.len(),
        rows.len() <= usize::MAX,
    ensures
        count_branch(rows, per_branch_upto(rows, limit, n), b) <= limit,
        forall|i: int, j: int| 0 <= i < j < per_branch_upto(rows, limit, n).len()
            ==> per_branch_upto(rows, limit, n)[i] < per_branch_upto(rows, limit, n)[j],
    decreases n,
{
    if n > 0 {
        law_per_branch_limit(rows, limit, n - 1, b);
        lemma_per_branch_bounds(rows, limit, n - 1);
        let k = per_branch_upto(rows, limit, n - 1);
        let x = (n - 1) as usize;
        lemma_count_branch_push(rows, k, x, b);
        if count_branch(rows, k, branch_key(rows[n - 1])) < limit {
            assert forall|i: int, j: int| 0 <= i < j < k.push(x).len() implies k.push(x)[i] < k.push(x)[j] by {
                if j == k.len() {
                    assert(k[i] < n - 1);
                }
            }
        }
    }
}

/// The number of entries that belong to some commit among the first `n`.
pub open spec fn rows_with_commit(rows: Seq<ActivityRow>, n: int) -> nat
    decreases n,
{
    if n <= 0 { 0 } else { rows_with_commit(rows, n - 1) + if rows[n - 1].commit_hash is Some { 1nat } else { 0nat } }
}

/// The file counts of a list of commits, added up.
pub open spec fn total_files(cs: Seq<CommitView>) -> nat
    decreases cs.len(),
{
    if cs.len() == 0 { 0 } else { total_files(cs.drop_last()) + cs.last().files }
}

proof fn lemma_total_files_update(cs: Seq<CommitView>, k: int, c: CommitView)
    requires
        0 <= k < cs.len(),
    ensures
        total_files(cs.update(k, c)) + cs[k].files == total_files(cs) + c.files,
    decreases cs.len(),
{
    if k == cs.len() - 1 {
        assert(cs.update(k, c).drop_last() =~= cs.drop_last());
    } else {
        lemma_total_files_update(cs.drop_last(), k, c);
        assert(cs.update(k, c).drop_last() =~= cs.drop_last().update(k, c));
    }
}

/// Every entry that belongs to a commit is counted once: the commits' file
/// counts add up to the number of such entries.
pub proof fn law_commit_counts_add_up(rows: Seq<ActivityRow>, n: int)
    requires
        0 <= n <= rows.len(),
        commits_upto(rows, n) is Some,
    ensures
        total_files(commits_upto(rows, n)->0) == rows_with_commit(rows, n),
    decreases n,
{
    if n > 0 {
        let prev = commits_upto(rows, n - 1);
        assert(prev is Some) by {
            if prev is None {
                assert(commits_upto(rows, n) is None);
            }
        }
        law_commit_counts_add_up(rows, n - 1);
        let cs = prev->0;
        let row = rows[n - 1];
        match row.commit_hash {
            None => {},
            Some(h) => match commit_pos(cs, h@) {
                Some(k) => {
                    lemma_total_files_update(cs, k, CommitView { files: cs[k].files + 1, ..cs[k] });
                },
                None => {
                    let t = minute_text(row.timestamp@);
                    if let Some(tt) = t {
                        let c = CommitView {
                            hash: h@,
                            message: match row.commit_message { Some(m) => m@, None => "No message"@ },
                            time: tt,
                            files: 1,
                        };
                        assert(cs.push(c).drop_last() =~= cs);
                    }
                },
            },
        }
    }
}

} // verus!
