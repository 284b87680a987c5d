//! `mnem track`: listing tracked projects a page at a time, finding the
//! project to stop tracking, and the messages that report the outcome.

use vstd::prelude::*;
use crate::text::{has_prefix, starts_with, str_eq};
use crate::config::{trim, trim_spec};
use crate::timeline::{opt_view, strings_view};
use crate::activity::ProjectEntry;

verus! {

/// Track and manage projects.
#[derive(Debug, Clone)]
pub struct TrackCommand {
    /// List all tracked projects
    pub list: bool,
    /// Remove project from tracking
    pub remove: bool,
    /// Remove project and delete local history
    pub purge: bool,
    /// Project ID to remove
    pub id: Option<String>,
    /// Maximum number of results
    pub limit: usize,
    /// Page number
    pub page: usize,
}

/// A tracked project as the answer lists it.
#[derive(Debug, Clone)]
pub struct ProjectInfo {
    pub name: String,
    pub path: String,
    pub id: String,
}

/// The answer of `mnem track`.
#[derive(Debug, Clone)]
pub struct TrackResponse {
    pub success: bool,
    pub projects: Vec<ProjectInfo>,
    pub current: Option<ProjectInfo>,
    pub message: String,
    pub total_projects: usize,
    pub limit: usize,
    pub page: usize,
    pub action: String,
}

/// What a `track` invocation asks for.
#[derive(Debug, Clone, Copy, PartialEq, Eq, Structural)]
pub enum TrackAction {
    /// List the tracked projects, one page.
    List,
    /// Stop tracking a project (and, with `purge`, delete its local history).
    Remove,
    /// Start tracking the current directory.
    Track,
}

impl TrackCommand {
    /// Which action the options ask for: listing first, then removal.
    pub fn action(&self) -> (r: TrackAction)
        ensures
            r == (if self.list {
                TrackAction::List
            } else if self.remove || self.purge {
                TrackAction::Remove
            } else {
                TrackAction::Track
            }),
    {
        if self.list {
            TrackAction::List
        } else if self.remove || self.purge {
            TrackAction::Remove
        } else {
            TrackAction::Track
        }
    }
}

/// The positions `start..end` of a list of `total` entries shown on page
/// `page` (counted from 1; page 0 counts as 1) of `limit` entries.
pub open spec fn page_bounds(total: nat, page: nat, limit: nat) -> (int, int) {
    let offset: int = (if page > 0 { page - 1 } else { 0 }) * limit;
    let start = if offset < total { offset } else { total as int };
    let end = if start + limit < total { start + limit } else { total as int };
    (start, end)
}

/// Pages follow one another: page `page + 1` starts where page `page` ends.
pub proof fn law_pages_are_contiguous(total: nat, page: nat, limit: nat)
    requires
        page >= 1,
    ensures
        page_bounds(total, page + 1, limit).0 == page_bounds(total, page, limit).1,
{
    assert(page * limit == (page - 1) * limit + limit) by (nonlinear_arith)
        requires page >= 1;
    assert((page - 1) * limit >= 0) by (nonlinear_arith)
        requires page >= 1;
}

/// Every entry is shown on one page: entry `i` of `total` lies on page
/// `i / limit + 1`.
pub proof fn law_entry_on_its_page(total: nat, i: nat, limit: nat)
    requires
        i < total,
        limit > 0,
    ensures
        page_bounds(total, i / limit + 1, limit).0 <= i < page_bounds(total, i / limit + 1, limit).1,
{
    let q = i / limit;
    assert(q * limit <= i < q * limit + limit) by (nonlinear_arith)
        requires q == i / limit, limit > 0;
    assert(q >= 0) by (nonlinear_arith)
        requires q == i / limit, limit > 0;
}

/// How many entries come before page `page` (counted from 1; page 0 counts
/// as 1) of `limit` entries, unless that number overflows.
pub fn page_offset(page: usize, limit: usize) -> (r: Option<usize>)
    ensures
        match r {
            Some(o) => o == (if page > 0 { page - 1 } else { 0 }) * limit,
            None => (if page > 0 { page - 1 } else { 0 }) * limit > usize::MAX,
        },
{
    let p = if page > 0 { page - 1 } else { 0 };
    p.checked_mul(limit)
}

/// The positions of the entries shown on a page.
pub fn page_range(total: usize, page: usize, limit: usize) -> (r: (usize, usize))
    requires
        (if page > 0 { page - 1 } else { 0 }) * limit <= usize::MAX,
    ensures
        (r.0 as int, r.1 as int) == page_bounds(total as nat, page as nat, limit as nat),
{
    let p = if page > 0 { page - 1 } else { 0 };
    let offset = p * limit;
    let start = if offset < total { offset } else { total };
    let end = if limit < total - start { start + limit } else { total };
    (start, end)
}

/// Whether `shown` lists, in order, the entries of page `page` of `all`.
pub open spec fn lists_page(all: Seq<ProjectEntry>, page: nat, limit: nat, shown: Seq<ProjectInfo>) -> bool {
    let (start, end) = page_bounds(all.len(), page, limit);
    &&& shown.len() == end - start
    &&& forall|i: int| 0 <= i < shown.len() ==> {
        &&& (#[trigger] shown[i]).name@ == all[start + i].name@
        &&& shown[i].path@ == all[start + i].path@
        &&& shown[i].id@ == all[start + i].id@
    }
}

/// The answer of `mnem track --list`: page `page` (of `limit` entries) of
/// the tracked projects, with their number.
pub fn track_list_response(all: &Vec<ProjectEntry>, page: usize, limit: usize) -> (r: TrackResponse)
    requires
        (if page > 0 { page - 1 } else { 0 }) * limit <= usize::MAX,
    ensures
        r.success,
        r.current is None,
        r.message@ == "Listing tracked projects"@,
        r.total_projects == all@.len(),
        r.limit == limit,
        r.page == page,
        r.action@ == "list"@,
        lists_page(all@, page as nat, limit as nat, r.projects@),
{
    let (start, end) = page_range(all.len(), page, limit);
    let mut projects: Vec<ProjectInfo> = Vec::new();
    let mut i: usize = start;
    while i < end
        invariant
            (start as int, end as int) == page_bounds(all@.len(), page as nat, limit as nat),
            start <= i <= end,
            end <= all@.len(),
            projects@.len() == i - start,
            forall|k: int| 0 <= k < projects@.len() ==> {
                &&& (#[trigger] projects@[k]).name@ == all@[start + k].name@
                &&& projects@[k].path@ == all@[start + k].path@
                &&& projects@[k].id@ == all@[start + k].id@
            },
        decreases end - i,
    {
        let p = &all[i];
        projects.push(ProjectInfo { name: p.name.clone(), path: p.path.clone(), id: p.id.clone() });
        i = i + 1;
    }
    TrackResponse {
        success: true,
        projects,
        current: None,
        message: String::from_str("Listing tracked projects"),
        total_projects: all.len(),
        limit,
        page,
        action: String::from_str("list"),
    }
}

/// The end of the line that starts at `i`: the first newline at or after
/// it, or the end of the text.
pub open spec fn line_end(s: Seq<char>, i: int) -> int
    decreases s.len() - i,
{
    if i < 0 || i >= s.len() || s[i] == '\n' {
        if i < 0 { 0 } else if i > s.len() { s.len() as int } else { i }
    } else {
        line_end(s, i + 1)
    }
}

/// The lines of `s` from position `i` on (pieces between newlines).
pub open spec fn lines_from(s: Seq<char>, i: int) -> Seq<Seq<char>>
    decreases s.len() - i,
{
    if i < 0 || i > s.len() {
        Seq::empty()
    } else {
        let e = line_end(s, i);
        if e >= s.len() {
            seq![s.subrange(i, s.len() as int)]
        } else {
            proof {
                lemma_line_end_bounds(s, i);
            }
            seq![s.subrange(i, e)] + lines_from(s, e + 1)
        }
    }
}

/// The text after the first `:` of `line`, up to the next `:` or the end
/// (`line.split(':').nth(1)`), when it has a `:`.
pub open spec fn second_field(line: Seq<char>) -> Option<Seq<char>> {
    if exists|i: int| 0 <= i < line.len() && line[i] == ':' {
        let i = choose|i: int| 0 <= i < line.len() && line[i] == ':' && forall|j: int| 0 <= j < i ==> line[j] != ':';
        Some(line.subrange(i + 1, line_end_at(line, i + 1, ':')))
    } else {
        None
    }
}

/// The first position at or after `i` that holds `c`, or the end.
pub open spec fn line_end_at(s: Seq<char>, i: int, c: char) -> int
    decreases s.len() - i,
{
    if i >= s.len() || i < 0 {
        if i < 0 { 0 } else { s.len() as int }
    } else if s[i] == c {
        i
    } else {
        line_end_at(s, i + 1, c)
    }
}

/// The value that a project's `tracked` file records under `key` (such as
/// `project_id:`): the trimmed field after the first `:` of the first line
/// that starts with the key.
pub open spec fn tracked_field_in(lines: Seq<Seq<char>>, key: Seq<char>) -> Option<Seq<char>>
    decreases lines.len(),
{
    if lines.len() == 0 {
        None
    } else if has_prefix(lines[0], key) {
        match second_field(lines[0]) {
            Some(f) => Some(trim_spec(f)),
            None => None,
        }
    } else {
        tracked_field_in(lines.drop_first(), key)
    }
}

/// The position of the first `c` at or after `i` in `s`, or its length.
fn find_char_from(s: &str, i: usize, c: char) -> (r: usize)
    requires
        i <= s@.len(),
    ensures
        r == line_end_at(s@, i as int, c),
        i <= r <= s@.len(),
        forall|k: int| i <= k < r ==> s@[k] != c,
        r < s@.len() ==> s@[r as int] == c,
{
    let n = s.unicode_len();
    let mut j = i;
    while j < n && s.get_char(j) != c
        invariant
            n == s@.len(),
            i <= j <= n,
            line_end_at(s@, i as int, c) == line_end_at(s@, j as int, c),
            forall|k: int| i <= k < j ==> s@[k] != c,
        decreases n - j,
    {
        j = j + 1;
    }
    j
}

/// The project id recorded in the contents of a `tracked` file.
pub fn tracked_project_id(content: &str) -> (r: Option<String>)
    ensures
        opt_view(r) == tracked_field_in(lines_from(content@, 0), "project_id:"@),
{
    tracked_field(content, "project_id:")
}

/// The project name recorded in the contents of a `tracked` file, or
/// `Unknown`.
pub fn tracked_project_name(content: &str) -> (r: String)
    ensures
        r@ == (match tracked_field_in(lines_from(content@, 0), "project_name:"@) {
            Some(n) => n,
            None => "Unknown"@,
        }),
{
    match tracked_field(content, "project_name:") {
        Some(n) => n,
        None => String::from_str("Unknown"),
    }
}

/// The value recorded under `key` in the contents of a `tracked` file.
pub fn tracked_field(content: &str, key: &str) -> (r: Option<String>)
    ensures
        opt_view(r) == tracked_field_in(lines_from(content@, 0), key@),
{
    let n = content.unicode_len();
    let mut i: usize = 0;
    loop
        invariant
            n == content@.len(),
            i <= n,
            tracked_field_in(lines_from(content@, 0), key@) == tracked_field_in(lines_from(content@, i as int), key@),
        decreases n - i,
    {
        let e = find_char_from(content, i, '\n');
        assert(e == line_end(content@, i as int)) by {
            lemma_line_end_same(content@, i as int);
        }
        let line = content.substring_char(i, e);
        let ghost ls = lines_from(content@, i as int);
        assert(ls[0] == line@);
        if starts_with(line, key) {
            let c = find_char_from(line, 0, ':');
            if c < line.unicode_len() {
                let d = find_char_from(line, c + 1, ':');
                proof {
                    let w = choose|w: int| 0 <= w < line@.len() && line@[w] == ':' && forall|j: int| 0 <= j < w ==> line@[j] != ':';
                    assert(0 <= c < line@.len() && line@[c as int] == ':');
                    if w < c { assert(line@[w] != ':'); }
                    if c < w { assert(line@[c as int] != ':'); }
                }
                let field = line.substring_char(c + 1, d);
                return Some(String::from_str(trim(field)));
            }
            return None;
        }
        assert(!has_prefix(ls[0], key@));
        assert(tracked_field_in(ls, key@) == tracked_field_in(ls.drop_first(), key@));
        if e >= n {
            assert(ls.len() == 1);
            assert(ls.drop_first() =~= Seq::<Seq<char>>::empty());
            assert(tracked_field_in(ls.drop_first(), key@) is None);
            return None;
        }
        assert(ls.drop_first() =~= lines_from(content@, e + 1));
        i = e + 1;
    }
}

/// A line ends at or after its start, and within the text.
pub proof fn lemma_line_end_bounds(s: Seq<char>, i: int)
    requires
        0 <= i <= s.len(),
    ensures
        i <= line_end(s, i) <= s.len(),
    decreases s.len() - i,
{
    if i < s.len() && s[i] != '\n' {
        lemma_line_end_bounds(s, i + 1);
    }
}

proof fn lemma_line_end_same(s: Seq<char>, i: int)
    requires
        0 <= i <= s.len(),
    ensures
        line_end(s, i) == line_end_at(s, i, '\n'),
    decreases s.len() - i,
{
    if i < s.len() && s[i] != '\n' {
        lemma_line_end_same(s, i + 1);
    }
}

/// The project whose path is `path`, by position.
pub fn find_by_path(paths: &Vec<String>, path: &str) -> (r: Option<usize>)
    ensures
        match r {
            Some(i) => i < paths@.len() && paths@[i as int]@ == path@
                && forall|j: int| 0 <= j < i ==> paths@[j]@ != path@,
            None => forall|j: int| 0 <= j < paths@.len() ==> paths@[j]@ != path@,
        },
{
    let mut i: usize = 0;
    while i < paths.len()
        invariant
            i <= paths@.len(),
            forall|j: int| 0 <= j < i ==> paths@[j]@ != path@,
        decreases paths@.len() - i,
    {
        if str_eq(paths[i].as_str(), path) {
            return Some(i);
        }
        i = i + 1;
    }
    None
}

/// How deleting the local history went, when it was asked for.
#[derive(Debug, Clone)]
pub enum PurgeOutcome {
    /// No deletion was asked for, or there was no local history.
    NotAsked,
    Deleted,
    Failed(String),
}

/// The message after a removal request: whether a project was removed, and
/// how deleting its local history went.
pub open spec fn remove_message_spec(removed: bool, purge: PurgeOutcome) -> Seq<char> {
    if !removed {
        "Project not found or not tracked"@
    } else {
        match purge {
            PurgeOutcome::NotAsked => "Project removed from tracking"@,
            PurgeOutcome::Deleted => "Project untracked and local history purged successfully"@,
            PurgeOutcome::Failed(e) => "Removed from tracking, but failed to delete .mnemosyne: "@ + e@,
        }
    }
}

/// The message after a removal request.
pub fn remove_message(removed: bool, purge: &PurgeOutcome) -> (r: String)
    ensures
        r@ == remove_message_spec(removed, *purge),
{
    if !removed {
        return String::from_str("Project not found or not tracked");
    }
    match purge {
        PurgeOutcome::NotAsked => String::from_str("Project removed from tracking"),
        PurgeOutcome::Deleted => String::from_str("Project untracked and local history purged successfully"),
        PurgeOutcome::Failed(e) => {
            let mut s = String::from_str("Removed from tracking, but failed to delete .mnemosyne: ");
            s.append(e.as_str());
            s
        },
    }
}

/// How telling the daemon to reload its projects went.
#[derive(Debug, Clone)]
pub enum ReloadOutcome {
    /// The daemon is not running.
    NotRunning,
    Reloaded,
    /// The reload request failed.
    Failed(String),
    /// No connection could be made.
    Unreachable(String),
}

/// The message after tracking started.
pub open spec fn track_message_spec(reload: ReloadOutcome) -> Seq<char> {
    match reload {
        ReloadOutcome::NotRunning => "Tracking started"@,
        ReloadOutcome::Reloaded => "Tracking started and daemon reloaded"@,
        ReloadOutcome::Failed(e) => "Tracking started but could not reload daemon: "@ + e@,
        ReloadOutcome::Unreachable(e) => "Tracking started but could not connect to daemon: "@ + e@,
    }
}

/// The message after tracking started.
pub fn track_message(reload: &ReloadOutcome) -> (r: String)
    ensures
        r@ == track_message_spec(*reload),
{
    match reload {
        ReloadOutcome::NotRunning => String::from_str("Tracking started"),
        ReloadOutcome::Reloaded => String::from_str("Tracking started and daemon reloaded"),
        ReloadOutcome::Failed(e) => {
            let mut s = String::from_str("Tracking started but could not reload daemon: ");
            s.append(e.as_str());
            s
        },
        ReloadOutcome::Unreachable(e) => {
            let mut s = String::from_str("Tracking started but could not connect to daemon: ");
            s.append(e.as_str());
            s
        },
    }
}

} // verus!
