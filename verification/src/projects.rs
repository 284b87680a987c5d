//! The project commands (`list`, `project`, `forget`, `watch`): which
//! projects are listed, which one a query names, and which arguments they
//! read.

use vstd::prelude::*;
use crate::text::{has_prefix, starts_with, str_eq, utf8_len};
use crate::paths::{path_within, path_starts_with, path_file_name, file_name};
use crate::timeline::{opt_view, strings_view};
use crate::config::{trim, trim_spec};
use crate::text::{lowercase, to_lowercase};
use crate::activity::{ProjectEntry, stable_newest_first, newest_first_order};
use crate::fmt::{decimal, usize_to_string};

verus! {

/// Whether `list` shows a project: it has a name other than `unknown`, and
/// it is not the root directory.
pub open spec fn listable(p: ProjectEntry) -> bool {
    p.name@.len() > 0 && p.name@ != "unknown"@ && p.path@ != "/"@
}

/// The projects that `list` shows, by position.
pub open spec fn listable_upto(ps: Seq<ProjectEntry>, n: int) -> Seq<usize>
    decreases n,
{
    if n <= 0 {
        Seq::empty()
    } else {
        let k = listable_upto(ps, n - 1);
        if listable(ps[n - 1]) { k.push((n - 1) as usize) } else { k }
    }
}

/// The projects that `list` shows, by position.
pub fn listable_projects(ps: &Vec<ProjectEntry>) -> (r: Vec<usize>)
    ensures
        r@ == listable_upto(ps@, ps@.len() as int),
{
    let mut out: Vec<usize> = Vec::new();
    let mut i: usize = 0;
    while i < ps.len()
        invariant
            i <= ps@.len(),
            out@ == listable_upto(ps@, i as int),
        decreases ps@.len() - i,
    {
        let p = &ps[i];
        if p.name.as_str().unicode_len() > 0 && !str_eq(p.name.as_str(), "unknown") && !str_eq(p.path.as_str(), "/") {
            out.push(i);
        }
        i = i + 1;
    }
    out
}

/// The last-open times of the projects at positions `l`.
pub open spec fn open_times(ps: Seq<ProjectEntry>, l: Seq<usize>) -> Seq<Seq<char>> {
    l.map_values(|j: usize| ps[j as int].last_open@)
}

/// What `list` shows: the listed projects latest opened first (projects
/// opened at the same time keep their registered order), at most `limit`
/// of them, by position; and how many projects are listed in all.
pub open spec fn list_order_spec(ps: Seq<ProjectEntry>, limit: nat, r: (Seq<usize>, nat)) -> bool {
    let l = listable_upto(ps, ps.len() as int);
    &&& r.1 == l.len()
    &&& exists|order: Seq<usize>| {
        &&& stable_newest_first(open_times(ps, l), order)
        &&& r.0 == order.map_values(|k: usize| l[k as int]).take(if limit < l.len() { limit as int } else { l.len() as int })
    }
}

/// What `list` shows, by position, and how many projects are listed in all.
pub fn list_order(ps: &Vec<ProjectEntry>, limit: usize) -> (r: (Vec<usize>, usize))
    ensures
        list_order_spec(ps@, limit as nat, (r.0@, r.1 as nat)),
{
    let l = listable_projects(ps);
    proof {
        lemma_listable_bounds(ps@, ps@.len() as int);
    }
    let mut keys: Vec<String> = Vec::new();
    let mut i: usize = 0;
    while i < l.len()
        invariant
            l@ == listable_upto(ps@, ps@.len() as int),
            forall|j: int| 0 <= j < l@.len() ==> l@[j] < ps@.len(),
            i <= l@.len(),
            strings_view(keys@) == open_times(ps@, l@).subrange(0, i as int),
        decreases l@.len() - i,
    {
        keys.push(ps[l[i]].last_open.clone());
        proof {
            assert(open_times(ps@, l@).subrange(0, i + 1) =~= open_times(ps@, l@).subrange(0, i as int).push(ps@[l@[i as int] as int].last_open@));
            assert(strings_view(keys@) =~= strings_view(keys@.drop_last()).push(keys@.last()@));
        }
        i = i + 1;
    }
    assert(open_times(ps@, l@).subrange(0, l@.len() as int) =~= open_times(ps@, l@));
    let order = newest_first_order(&keys);
    let n = if limit < l.len() { limit } else { l.len() };
    let mut out: Vec<usize> = Vec::new();
    let mut j: usize = 0;
    while j < n
        invariant
            stable_newest_first(open_times(ps@, l@), order@),
            order@.len() == l@.len(),
            n <= l@.len(),
            j <= n,
            out@ == order@.map_values(|k: usize| l@[k as int]).subrange(0, j as int),
        decreases n - j,
    {
        out.push(l[order[j]]);
        proof {
            assert(out@ =~= order@.map_values(|k: usize| l@[k as int]).subrange(0, j + 1));
        }
        j = j + 1;
    }
    (out, l.len())
}

proof fn lemma_listable_bounds(ps: Seq<ProjectEntry>, n: int)
    requires
        0 <= n <= ps.len(),
    ensures
        forall|j: int| 0 <= j < listable_upto(ps, n).len() ==> listable_upto(ps, n)[j] < n,
    decreases n,
{
    if n > 0 {
        lemma_listable_bounds(ps, n - 1);
        let k = listable_upto(ps, n - 1);
        assert forall|j: int| 0 <= j < listable_upto(ps, n).len() implies listable_upto(ps, n)[j] < n by {
            if j < k.len() {
                assert(listable_upto(ps, n)[j] == k[j]);
            }
        }
    }
}

/// The name `list` shows for a project: the last component of its path,
/// or `unknown` when the path has none.
pub fn list_name(path: &str) -> (r: String)
    ensures
        r@ == match path_file_name(path@) {
            Some(n) => n,
            None => "unknown"@,
        },
{
    match file_name(path) {
        Some(n) => n,
        None => String::from_str("unknown"),
    }
}

/// Whether `list` marks a project as the current one: the current
/// directory lies in it, or it lies in the current directory.
pub fn is_current(path: &str, cwd: &str) -> (r: bool)
    ensures
        r == (path_within(cwd@, path@) || path_within(path@, cwd@)),
{
    path_starts_with(cwd, path) || path_starts_with(path, cwd)
}

/// The row tag of a listed project: its position, in at least two digits.
pub fn list_tag(i: usize) -> (r: String)
    ensures
        r@ == (if i < 10 { "0"@ + decimal(i as nat) } else { decimal(i as nat) }),
{
    let d = usize_to_string(i);
    if i < 10 {
        let mut s = String::from_str("0");
        s.append(d.as_str());
        s
    } else {
        d
    }
}

/// The first project whose id starts with `q`, or (when `by_path`) whose
/// path is `q`.
pub open spec fn names(p: ProjectEntry, q: Seq<char>, by_path: bool) -> bool {
    has_prefix(p.id@, q) || (by_path && p.path@ == q)
}

/// The first project that `q` names, by position.
pub fn find_named(ps: &Vec<ProjectEntry>, q: &str, by_path: bool) -> (r: Option<usize>)
    ensures
        match r {
            Some(i) => i < ps@.len() && names(ps@[i as int], q@, by_path)
                && forall|j: int| 0 <= j < i ==> !names(ps@[j], q@, by_path),
            None => forall|j: int| 0 <= j < ps@.len() ==> !names(ps@[j], q@, by_path),
        },
{
    let mut i: usize = 0;
    while i < ps.len()
        invariant
            i <= ps@.len(),
            forall|j: int| 0 <= j < i ==> !names(ps@[j], q@, by_path),
        decreases ps@.len() - i,
    {
        let p = &ps[i];
        // `id.starts_with(q) || id == q`: equality is a prefix too
        if starts_with(p.id.as_str(), q) || str_eq(p.id.as_str(), q) || (by_path && str_eq(p.path.as_str(), q)) {
            proof {
                if p.id@ == q@ {
                    assert(q@.subrange(0, q@.len() as int) =~= q@);
                }
            }
            return Some(i);
        }
        i = i + 1;
    }
    None
}

/// The project id that `mnem project <id>` (or `mnem <id>`) asks about, or
/// the error for a missing id.
pub fn project_query(args: &Vec<String>) -> (r: Result<String, String>)
    requires
        args@.len() >= 2,
    ensures
        match r {
            Ok(q) => if args@[1]@ == "project"@ { args@.len() > 2 && q@ == args@[2]@ } else { q@ == args@[1]@ },
            Err(e) => args@[1]@ == "project"@ && args@.len() <= 2 && e@ == "Project ID is required"@,
        },
{
    if str_eq(args[1].as_str(), "project") {
        if args.len() > 2 {
            Ok(args[2].clone())
        } else {
            Err(String::from_str("Project ID is required"))
        }
    } else {
        Ok(args[1].clone())
    }
}

/// The error for a project id that names no project.
pub fn project_not_found(q: &str, with_id: bool) -> (r: String)
    ensures
        r@ == (if with_id { "Project not found with ID: "@ } else { "Project not found: "@ }) + q@,
{
    let mut s = String::from_str(if with_id { "Project not found with ID: " } else { "Project not found: " });
    s.append(q);
    s
}

/// Whether an argument asks `forget` to delete the project's data too.
pub fn wants_prune(args: &Vec<String>) -> (r: bool)
    ensures
        r == exists|i: int| 0 <= i < args@.len() && (args@[i]@ == "--prune"@ || args@[i]@ == "--nuke"@),
{
    let mut i: usize = 0;
    while i < args.len()
        invariant
            i <= args@.len(),
            forall|j: int| 0 <= j < i ==> !(args@[j]@ == "--prune"@ || args@[j]@ == "--nuke"@),
        decreases args@.len() - i,
    {
        if str_eq(args[i].as_str(), "--prune") || str_eq(args[i].as_str(), "--nuke") {
            return true;
        }
        i = i + 1;
    }
    false
}

/// The argument after the first `flag`, if there is one.
pub open spec fn arg_after_spec(args: Seq<Seq<char>>, flag: Seq<char>) -> Option<Seq<char>> {
    if exists|i: int| 0 <= i < args.len() && args[i] == flag {
        let i = choose|i: int| 0 <= i < args.len() && args[i] == flag && forall|j: int| 0 <= j < i ==> args[j] != flag;
        if i + 1 < args.len() { Some(args[i + 1]) } else { None }
    } else {
        None
    }
}

/// The argument after the first `flag` (as `watch -p <path>` reads it).
pub fn arg_after(args: &Vec<String>, flag: &str) -> (r: Option<String>)
    ensures
        opt_view(r) == arg_after_spec(strings_view(args@), flag@),
{
    let ghost av = strings_view(args@);
    let mut i: usize = 0;
    while i < args.len()
        invariant
            i <= args@.len(),
            av == strings_view(args@),
            forall|j: int| 0 <= j < i ==> av[j] != flag@,
        decreases args@.len() - i,
    {
        if str_eq(args[i].as_str(), flag) {
            proof {
                let c = choose|c: int| 0 <= c < av.len() && av[c] == flag@ && forall|j: int| 0 <= j < c ==> av[j] != flag@;
                assert(av[i as int] == args@[i as int]@);
                if c < i { assert(av[c] != flag@); }
                if c > i { assert(av[i as int] != flag@); }
            }
            if i + 1 < args.len() {
                return Some(args[i + 1].clone());
            }
            return None;
        }
        i = i + 1;
    }
    None
}

/// Number of `/` characters in `s`.
pub open spec fn slash_count(s: Seq<char>) -> nat
    decreases s.len(),
{
    if s.len() == 0 {
        0
    } else {
        slash_count(s.drop_last()) + if s.last() == '/' { 1nat } else { 0nat }
    }
}

/// Whether a registered project can hold the current directory: the root,
/// `/Users` and the home directories right below it, and projects named
/// `unknown` never do.
pub open spec fn may_contain(p: ProjectEntry) -> bool {
    &&& p.path@ != "/"@
    &&& !(has_prefix(p.path@, "/Users"@) && slash_count(p.path@) <= 2)
    &&& p.name@ != "unknown"@
}

/// Whether project `i` holds the directory `cwd`.
pub open spec fn holds_dir(ps: Seq<ProjectEntry>, cwd: Seq<char>, i: int) -> bool {
    may_contain(ps[i]) && path_within(cwd, ps[i].path@)
}

fn count_slashes(s: &str) -> (r: usize)
    ensures
        r == slash_count(s@),
{
    let n = s.unicode_len();
    let mut k: usize = 0;
    let mut i: usize = 0;
    while i < n
        invariant
            n == s@.len(),
            i <= n,
            k <= i,
            k == slash_count(s@.subrange(0, i as int)),
        decreases n - i,
    {
        proof {
            assert(s@.subrange(0, i + 1).drop_last() =~= s@.subrange(0, i as int));
        }
        if s.get_char(i) == '/' {
            k = k + 1;
        }
        i = i + 1;
    }
    proof {
        assert(s@.subrange(0, n as int) =~= s@);
    }
    k
}

/// The first registered project whose path begins `cwd` (a path equal to
/// `cwd` begins it too), by position.
pub fn first_holding(ps: &Vec<ProjectEntry>, cwd: &str) -> (r: Option<usize>)
    ensures
        match r {
            Some(i) => i < ps@.len() && path_within(cwd@, ps@[i as int].path@)
                && forall|j: int| 0 <= j < i ==> !path_within(cwd@, #[trigger] ps@[j].path@),
            None => forall|j: int| 0 <= j < ps@.len() ==> !path_within(cwd@, #[trigger] ps@[j].path@),
        },
{
    let mut i: usize = 0;
    while i < ps.len()
        invariant
            i <= ps@.len(),
            forall|j: int| 0 <= j < i ==> !path_within(cwd@, #[trigger] ps@[j].path@),
        decreases ps@.len() - i,
    {
        if path_starts_with(cwd, ps[i].path.as_str()) {
            return Some(i);
        }
        i = i + 1;
    }
    None
}

/// The project that holds the directory `cwd`: among those that can hold
/// it, the one with the longest path (in bytes), the first registered one
/// when several are as long.
pub fn containing_project(ps: &Vec<ProjectEntry>, cwd: &str) -> (r: Option<usize>)
    ensures
        match r {
            Some(i) => {
                &&& i < ps@.len()
                &&& holds_dir(ps@, cwd@, i as int)
                &&& forall|j: int| 0 <= j < ps@.len() && #[trigger] holds_dir(ps@, cwd@, j)
                    ==> utf8_len(ps@[j].path@) <= utf8_len(ps@[i as int].path@)
                        && (j < i ==> utf8_len(ps@[j].path@) < utf8_len(ps@[i as int].path@))
            },
            None => forall|j: int| 0 <= j < ps@.len() ==> !#[trigger] holds_dir(ps@, cwd@, j),
        },
{
    let mut best: Option<usize> = None;
    let mut best_len: usize = 0;
    let mut i: usize = 0;
    while i < ps.len()
        invariant
            i <= ps@.len(),
            match best {
                Some(b) => {
                    &&& b < i
                    &&& holds_dir(ps@, cwd@, b as int)
                    &&& best_len == utf8_len(ps@[b as int].path@)
                    &&& forall|j: int| 0 <= j < i && #[trigger] holds_dir(ps@, cwd@, j)
                        ==> utf8_len(ps@[j].path@) <= best_len && (j < b ==> utf8_len(ps@[j].path@) < best_len)
                },
                None => forall|j: int| 0 <= j < i ==> !#[trigger] holds_dir(ps@, cwd@, j),
            },
        decreases ps@.len() - i,
    {
        let p = &ps[i];
        let path = p.path.as_str();
        let eligible = !str_eq(path, "/")
            && !(starts_with(path, "/Users") && count_slashes(path) <= 2)
            && !str_eq(p.name.as_str(), "unknown");
        assert(eligible == may_contain(ps@[i as int]));
        let within = path_starts_with(cwd, path);
        assert(holds_dir(ps@, cwd@, i as int) == (eligible && within));
        if eligible && within {
            let l = path.as_bytes().len();
            match best {
                None => {
                    best = Some(i);
                    best_len = l;
                },
                Some(_) => {
                    if l > best_len {
                        best = Some(i);
                        best_len = l;
                    }
                },
            }
        }
        i = i + 1;
    }
    best
}

/// The directory that `watch` is asked to watch: the argument after the
/// first `-p` or `--path` (none when that option ends the line, or is not
/// given); a `-p` right after the program name takes the argument after it.
pub open spec fn watch_path_spec(args: Seq<Seq<char>>) -> Option<Seq<char>> {
    if args.len() > 2 && args[1] == "-p"@ {
        Some(args[2])
    } else if exists|i: int| 0 <= i < args.len() && (args[i] == "-p"@ || args[i] == "--path"@) {
        let i = choose|i: int| 0 <= i < args.len() && (args[i] == "-p"@ || args[i] == "--path"@)
            && forall|j: int| 0 <= j < i ==> !(args[j] == "-p"@ || args[j] == "--path"@);
        if i + 1 < args.len() { Some(args[i + 1]) } else { None }
    } else {
        None
    }
}

/// The directory that `watch` is asked to watch, when one is named.
pub fn watch_path(args: &Vec<String>) -> (r: Option<String>)
    ensures
        opt_view(r) == watch_path_spec(strings_view(args@)),
{
    let ghost av = strings_view(args@);
    if args.len() > 2 && str_eq(args[1].as_str(), "-p") {
        return Some(args[2].clone());
    }
    assert(!(av.len() > 2 && av[1] == "-p"@)) by {
        if av.len() > 2 {
            assert(av[1] == args@[1]@);
        }
    }
    let mut i: usize = 0;
    while i < args.len()
        invariant
            i <= args@.len(),
            av == strings_view(args@),
            forall|j: int| 0 <= j < i ==> !(av[j] == "-p"@ || av[j] == "--path"@),
            !(av.len() > 2 && av[1] == "-p"@),
        decreases args@.len() - i,
    {
        if str_eq(args[i].as_str(), "-p") || str_eq(args[i].as_str(), "--path") {
            proof {
                assert(av[i as int] == args@[i as int]@);
                let c = choose|c: int| 0 <= c < av.len() && (av[c] == "-p"@ || av[c] == "--path"@)
                    && forall|j: int| 0 <= j < c ==> !(av[j] == "-p"@ || av[j] == "--path"@);
                if c < i { assert(!(av[c] == "-p"@ || av[c] == "--path"@)); }
                if c > i { assert(!(av[i as int] == "-p"@ || av[i as int] == "--path"@)); }
            }
            if i + 1 < args.len() {
                return Some(args[i + 1].clone());
            }
            return None;
        }
        i = i + 1;
    }
    None
}

/// Whether an answer to a confirmation question says yes: it reads `yes`
/// once trimmed and lowercased.
pub fn confirms(answer: &str) -> (r: bool)
    ensures
        r == (lowercase(trim_spec(answer@)) == "yes"@),
{
    let t = trim(answer);
    let l = to_lowercase(t);
    str_eq(l.as_str(), "yes")
}

} // verus!
