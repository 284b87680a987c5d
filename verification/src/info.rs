//! `mnem info`: the figures of a project computed from its recent activity,
//! the kinds of files it holds, and how a failure to open it is reported.

use vstd::prelude::*;
use crate::text::{has_substring, contains, str_eq};
use crate::timeline::{opt_view, strings_view};
use crate::search::{distinct_in_order, positions_of, distinct_keys, group_by_key, KeyGroup};
use crate::paths::{path_file_name, file_name};
use crate::activity::lemma_order_covers;

verus! {

/// Show project information and statistics.
#[derive(Debug, Clone)]
pub struct InfoCommand {
    /// Project path (default: current directory)
    pub project: Option<String>,
}

/// The extension of a path as `Path::extension` reads it.
pub uninterp spec fn path_extension(p: Seq<char>) -> Option<Seq<char>>;

/// `Path::new(path).extension()`, as text. The contract names the result.
#[verifier::external_body]
pub(crate) fn extension_of(path: &str) -> (r: Option<String>)
    ensures
        match r {
            Some(e) => path_extension(path@) == Some(e@),
            None => path_extension(path@) is None,
        },
{
    match std::path::Path::new(path).extension() {
        Some(e) => e.to_str().map(|s| s.to_string()),
        None => None,
    }
}

/// The kind a file is counted under: its extension, or `no ext`.
pub open spec fn kind_of(p: Seq<char>) -> Seq<char> {
    match path_extension(p) {
        Some(e) => e,
        None => "no ext"@,
    }
}

/// The figures of a project.
#[derive(Debug, Clone)]
pub struct ProjectInfoResponse {
    pub success: bool,
    pub name: String,
    pub path: String,
    pub id: String,
    pub size_bytes: u64,
    pub total_snapshots: usize,
    pub total_files: usize,
    pub total_branches: usize,
    /// Each kind of file with the number of files of that kind.
    pub extensions: Vec<(String, usize)>,
    pub source: String,
}

/// `order` lists the positions of `counts` largest first, as a stable sort
/// does: every position once, no count after a smaller one, and positions
/// with equal counts in their first order.
pub open spec fn stable_largest_first(counts: Seq<usize>, order: Seq<usize>) -> bool {
    &&& order.len() == counts.len()
    &&& forall|j: int| 0 <= j < order.len() ==> order[j] < counts.len()
    &&& forall|a: int, c: int| 0 <= a < c < order.len() ==> order[a] != order[c]
    &&& forall|a: int, c: int| 0 <= a < c < order.len()
        ==> #[trigger] counts[order[a] as int] >= #[trigger] counts[order[c] as int]
    &&& forall|a: int, c: int| 0 <= a < c < order.len() && counts[order[a] as int] == counts[order[c] as int]
        ==> order[a] < order[c]
}

proof fn lemma_largest_orders_agree(counts: Seq<usize>, o1: Seq<usize>, o2: Seq<usize>, d: int)
    requires
        stable_largest_first(counts, o1),
        stable_largest_first(counts, o2),
        0 <= d <= counts.len(),
    ensures
        forall|t: int| 0 <= t < d ==> o1[t] == o2[t],
    decreases d,
{
    if d > 0 {
        let m = d - 1;
        lemma_largest_orders_agree(counts, o1, o2, m);
        let a = o1[m];
        let b = o2[m];
        if a != b {
            lemma_order_covers(counts.len(), o1, b as int);
            lemma_order_covers(counts.len(), o2, a as int);
            let e = choose|j: int| 0 <= j < counts.len() && o1[j] == b;
            let f = choose|j: int| 0 <= j < counts.len() && o2[j] == a;
            if e < m {
                assert(o2[e] == b);
            }
            if f < m {
                assert(o1[f] == a);
            }
            assert(m < e && m < f);
            assert(counts[a as int] >= counts[b as int]);
            assert(counts[b as int] >= counts[a as int]);
            assert(false);
        }
    }
}

/// A stable order, largest count first, is unique.
pub proof fn law_largest_first_unique(counts: Seq<usize>, o1: Seq<usize>, o2: Seq<usize>)
    requires
        stable_largest_first(counts, o1),
        stable_largest_first(counts, o2),
    ensures
        o1 == o2,
{
    lemma_largest_orders_agree(counts, o1, o2, counts.len() as int);
    assert(o1 =~= o2);
}

/// The counts of the kinds.
pub open spec fn kind_counts(ext: Seq<(String, usize)>) -> Seq<usize> {
    ext.map_values(|e: (String, usize)| e.1)
}

/// The kinds of file with the most files, largest first (kinds with equal
/// counts keep their order), at most `n` of them, by position.
pub fn top_kinds(ext: &Vec<(String, usize)>, n: usize) -> (r: Vec<usize>)
    ensures
        exists|order: Seq<usize>| {
            &&& stable_largest_first(kind_counts(ext@), order)
            &&& r@ == order.take(if n < order.len() { n as int } else { order.len() as int })
        },
{
    let ghost k = kind_counts(ext@);
    let mut out: Vec<usize> = Vec::new();
    let mut i: usize = 0;
    while i < ext.len()
        invariant
            k == kind_counts(ext@),
            i <= ext@.len(),
            out@.len() == i,
            forall|j: int| 0 <= j < out@.len() ==> out@[j] < i,
            forall|a: int, c: int| 0 <= a < c < out@.len() ==> out@[a] != out@[c],
            forall|a: int, c: int| 0 <= a < c < out@.len()
                ==> #[trigger] k[out@[a] as int] >= #[trigger] k[out@[c] as int],
            forall|a: int, c: int| 0 <= a < c < out@.len() && k[out@[a] as int] == k[out@[c] as int]
                ==> out@[a] < out@[c],
        decreases ext@.len() - i,
    {
        let mut p: usize = 0;
        while p < out.len() && ext[out[p]].1 >= ext[i].1
            invariant
                k == kind_counts(ext@),
                i < ext@.len(),
                p <= out@.len(),
                forall|j: int| 0 <= j < out@.len() ==> out@[j] < i,
                forall|j: int| 0 <= j < p ==> k[out@[j] as int] >= k[i as int],
            decreases out@.len() - p,
        {
            p = p + 1;
        }
        let ghost before = out@;
        out.insert(p, i);
        proof {
            let after = out@;
            assert(after =~= before.insert(p as int, i));
            assert forall|a: int, c: int| 0 <= a < c < after.len()
                implies #[trigger] k[after[a] as int] >= #[trigger] k[after[c] as int]
                    && (k[after[a] as int] == k[after[c] as int] ==> after[a] < after[c])
                    && after[a] != after[c] by {
                if c < p {
                } else if a > p {
                    assert(after[a] == before[a - 1]);
                    assert(after[c] == before[c - 1]);
                } else if c == p {
                    assert(after[a] == before[a]);
                } else if a == p {
                    assert(after[c] == before[c - 1]);
                    if c - 1 > p {
                        assert(k[before[p as int] as int] >= k[before[c - 1] as int]);
                    }
                } else {
                    assert(after[a] == before[a]);
                    assert(after[c] == before[c - 1]);
                }
            }
        }
        i = i + 1;
    }
    let ghost order = out@;
    assert(stable_largest_first(kind_counts(ext@), order));
    let m = if n < out.len() { n } else { out.len() };
    out.truncate(m);
    assert(out@ =~= order.take(m as int));
    out
}

/// Each kind with the number of files of that kind, as the figures list them.
pub fn kind_totals(kinds: &Vec<KeyGroup>) -> (r: Vec<(String, usize)>)
    ensures
        r@.len() == kinds@.len(),
        forall|g: int| 0 <= g < kinds@.len()
            ==> (#[trigger] r@[g]).0@ == kinds@[g].key@ && r@[g].1 == kinds@[g].positions@.len(),
{
    let mut out: Vec<(String, usize)> = Vec::new();
    let mut i: usize = 0;
    while i < kinds.len()
        invariant
            i <= kinds@.len(),
            out@.len() == i,
            forall|g: int| 0 <= g < i
                ==> (#[trigger] out@[g]).0@ == kinds@[g].key@ && out@[g].1 == kinds@[g].positions@.len(),
        decreases kinds@.len() - i,
    {
        out.push((kinds[i].key.clone(), kinds[i].positions.len()));
        i = i + 1;
    }
    out
}

/// The name `info` gives the project in the current directory: the last
/// component of its path, or `Unknown`.
pub fn directory_name(path: &str) -> (r: String)
    ensures
        r@ == match path_file_name(path@) {
            Some(n) => n,
            None => "Unknown"@,
        },
{
    match file_name(path) {
        Some(n) => n,
        None => String::from_str("Unknown"),
    }
}

/// One entry of the activity, as the figures need it.
#[derive(Debug, Clone)]
pub struct Touch {
    pub file_path: String,
    pub git_branch: Option<String>,
}

/// The branch an entry is counted under: its branch, or `main`.
pub open spec fn touch_branch(t: Touch) -> Seq<char> {
    match t.git_branch {
        Some(b) => b@,
        None => "main"@,
    }
}

/// The files, kinds and branches that the activity touches.
pub struct Tally {
    /// The distinct files, in order of first appearance.
    pub files: Vec<String>,
    /// Each kind with the positions (among `files`) of its files.
    pub kinds: Vec<KeyGroup>,
    /// The distinct branches, in order of first appearance.
    pub branches: Vec<String>,
}

/// Counts the distinct files, the files of each kind and the distinct
/// branches that the activity touches.
pub fn tally(history: &Vec<Touch>) -> (r: Tally)
    ensures
        strings_view(r.files@) == distinct_in_order(history@.map_values(|t: Touch| t.file_path@)),
        r.kinds@.len() == distinct_in_order(strings_view(r.files@).map_values(|p: Seq<char>| kind_of(p))).len(),
        forall|g: int| 0 <= g < r.kinds@.len() ==> {
            let kinds = strings_view(r.files@).map_values(|p: Seq<char>| kind_of(p));
            &&& (#[trigger] r.kinds@[g]).key@ == distinct_in_order(kinds)[g]
            &&& r.kinds@[g].positions@ == positions_of(kinds, distinct_in_order(kinds)[g], kinds.len() as int)
        },
        strings_view(r.branches@) == distinct_in_order(history@.map_values(|t: Touch| touch_branch(t))),
{
    let mut paths: Vec<String> = Vec::new();
    let mut branch_names: Vec<String> = Vec::new();
    let mut i: usize = 0;
    while i < history.len()
        invariant
            i <= history@.len(),
            strings_view(paths@) == history@.subrange(0, i as int).map_values(|t: Touch| t.file_path@),
            strings_view(branch_names@) == history@.subrange(0, i as int).map_values(|t: Touch| touch_branch(t)),
        decreases history@.len() - i,
    {
        let ghost p0 = strings_view(paths@);
        let ghost b0 = strings_view(branch_names@);
        paths.push(history[i].file_path.clone());
        let b = match &history[i].git_branch {
            Some(b) => b.clone(),
            None => String::from_str("main"),
        };
        branch_names.push(b);
        assert(strings_view(paths@) =~= p0.push(history@[i as int].file_path@));
        assert(strings_view(branch_names@) =~= b0.push(touch_branch(history@[i as int])));
        assert(history@.subrange(0, i + 1).map_values(|t: Touch| t.file_path@)
            =~= history@.subrange(0, i as int).map_values(|t: Touch| t.file_path@).push(history@[i as int].file_path@));
        assert(history@.subrange(0, i + 1).map_values(|t: Touch| touch_branch(t))
            =~= history@.subrange(0, i as int).map_values(|t: Touch| touch_branch(t)).push(touch_branch(history@[i as int])));
        i = i + 1;
    }
    assert(history@.subrange(0, history@.len() as int) =~= history@);
    let files = distinct_keys(&paths);
    let branches = distinct_keys(&branch_names);
    let mut kinds_of_files: Vec<String> = Vec::new();
    let mut j: usize = 0;
    while j < files.len()
        invariant
            j <= files@.len(),
            strings_view(kinds_of_files@) == strings_view(files@).subrange(0, j as int).map_values(|p: Seq<char>| kind_of(p)),
        decreases files@.len() - j,
    {
        let k = match extension_of(files[j].as_str()) {
            Some(e) => e,
            None => String::from_str("no ext"),
        };
        let ghost k0 = strings_view(kinds_of_files@);
        kinds_of_files.push(k);
        assert(strings_view(kinds_of_files@) =~= k0.push(kind_of(files@[j as int]@)));
        assert(strings_view(files@).subrange(0, j + 1).map_values(|p: Seq<char>| kind_of(p))
            =~= strings_view(files@).subrange(0, j as int).map_values(|p: Seq<char>| kind_of(p)).push(kind_of(files@[j as int]@)));
        j = j + 1;
    }
    assert(strings_view(files@).subrange(0, files@.len() as int) =~= strings_view(files@));
    let kinds = group_by_key(&kinds_of_files);
    Tally { files, kinds, branches }
}

/// The icon shown beside a kind of file.
pub open spec fn kind_icon_spec(ext: Seq<char>) -> Seq<char> {
    if ext == "rs"@ {
        "🦀"@
    } else if ext == "js"@ || ext == "ts"@ || ext == "jsx"@ || ext == "tsx"@ {
        "📜"@
    } else if ext == "py"@ {
        "🐍"@
    } else if ext == "go"@ {
        "🐹"@
    } else if ext == "java"@ {
        "☕"@
    } else if ext == "c"@ || ext == "cpp"@ || ext == "h"@ || ext == "hpp"@ {
        "⚙️"@
    } else if ext == "html"@ || ext == "css"@ || ext == "scss"@ || ext == "sass"@ {
        "🌐"@
    } else if ext == "json"@ || ext == "toml"@ || ext == "yaml"@ || ext == "yml"@ {
        "📝"@
    } else if ext == "md"@ || ext == "markdown"@ {
        "📖"@
    } else {
        "📄"@
    }
}

/// The icon shown beside a kind of file.
pub fn kind_icon(ext: &str) -> (r: &'static str)
    ensures
        r@ == kind_icon_spec(ext@),
{
    if str_eq(ext, "rs") {
        "🦀"
    } else if str_eq(ext, "js") || str_eq(ext, "ts") || str_eq(ext, "jsx") || str_eq(ext, "tsx") {
        "📜"
    } else if str_eq(ext, "py") {
        "🐍"
    } else if str_eq(ext, "go") {
        "🐹"
    } else if str_eq(ext, "java") {
        "☕"
    } else if str_eq(ext, "c") || str_eq(ext, "cpp") || str_eq(ext, "h") || str_eq(ext, "hpp") {
        "⚙️"
    } else if str_eq(ext, "html") || str_eq(ext, "css") || str_eq(ext, "scss") || str_eq(ext, "sass") {
        "🌐"
    } else if str_eq(ext, "json") || str_eq(ext, "toml") || str_eq(ext, "yaml") || str_eq(ext, "yml") {
        "📝"
    } else if str_eq(ext, "md") || str_eq(ext, "markdown") {
        "📖"
    } else {
        "📄"
    }
}

/// Why a project could not be opened.
#[derive(Debug, Clone, Copy, PartialEq, Eq, Structural)]
pub enum OpenFailure {
    /// The database is held by the running daemon.
    Locked,
    /// The directory is not a tracked project.
    NotTracked,
    Other,
}

/// Why a project could not be opened, from the error text and whether the
/// directory holds a `tracked` file: the report checks for "Database
/// already open" too, the JSON code only for "lock".
pub open spec fn open_failure_spec(msg: Seq<char>, registered: bool, for_json: bool) -> OpenFailure {
    if has_substring(msg, "lock"@) || (!for_json && has_substring(msg, "Database already open"@)) {
        OpenFailure::Locked
    } else if !registered {
        OpenFailure::NotTracked
    } else {
        OpenFailure::Other
    }
}

/// Why a project could not be opened.
pub fn open_failure(msg: &str, registered: bool, for_json: bool) -> (r: OpenFailure)
    ensures
        r == open_failure_spec(msg@, registered, for_json),
{
    if contains(msg, "lock") || (!for_json && contains(msg, "Database already open")) {
        OpenFailure::Locked
    } else if !registered {
        OpenFailure::NotTracked
    } else {
        OpenFailure::Other
    }
}

/// The code reported in JSON for a failure.
pub fn failure_code(f: OpenFailure) -> (r: &'static str)
    ensures
        r@ == (match f {
            OpenFailure::Locked => "DB_LOCKED"@,
            OpenFailure::NotTracked => "NOT_TRACKED"@,
            OpenFailure::Other => "UNKNOWN_ERROR"@,
        }),
{
    match f {
        OpenFailure::Locked => "DB_LOCKED",
        OpenFailure::NotTracked => "NOT_TRACKED",
        OpenFailure::Other => "UNKNOWN_ERROR",
    }
}

} // verus!
