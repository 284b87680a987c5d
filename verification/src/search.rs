//! `mnem search`: reading its options, grouping the hits by file and by
//! snapshot, and marking the matched part of a line.

use vstd::prelude::*;
use crate::cli::{parse_usize, parse_usize_spec};
use crate::text::{is_ascii_text, ascii_lower, has_prefix, str_eq, starts_with, contains, has_substring, occurs_at, find, lowercase, to_lowercase, utf8_len, bytes_text, can_slice, try_slice, replace_char, replace_char_spec};
use crate::dates::{rfc3339_minute_label, minute_label};
use crate::timeline::{opt_view, strings_view};
use crate::track::{page_bounds, page_range};

verus! {

/// What a `search` invocation asks for.
#[derive(Debug, Clone)]
pub struct SearchRequest {
    pub query: String,
    pub limit: usize,
    pub file_filter: Option<String>,
    pub symbol_mode: bool,
}

/// The plain content of a search request.
pub struct SearchView {
    pub query: Seq<char>,
    pub limit: usize,
    pub file_filter: Option<Seq<char>>,
    pub symbol_mode: bool,
}

impl View for SearchRequest {
    type V = SearchView;

    open spec fn view(&self) -> SearchView {
        SearchView { query: self.query@, limit: self.limit, file_filter: opt_view(self.file_filter), symbol_mode: self.symbol_mode }
    }
}

/// The request after reading the arguments from position `i` on, starting
/// from `r`: `--limit`/`-n` and `--file`/`-f` take the next argument (a
/// limit that is no number is ignored), `--symbol`/`-s` asks for symbols,
/// and the first argument not starting with `-` is the query.
pub open spec fn search_from(args: Seq<Seq<char>>, i: int, r: SearchView) -> SearchView
    decreases args.len() - i,
{
    if i < 0 || i >= args.len() {
        r
    } else {
        let a = args[i];
        let has_value = i + 1 < args.len();
        if a == "--limit"@ || a == "-n"@ {
            if has_value {
                let limit = match parse_usize_spec(args[i + 1]) {
                    Some(l) => l,
                    None => r.limit,
                };
                search_from(args, i + 2, SearchView { limit, ..r })
            } else {
                search_from(args, i + 1, r)
            }
        } else if a == "--file"@ || a == "-f"@ {
            if has_value {
                search_from(args, i + 2, SearchView { file_filter: Some(args[i + 1]), ..r })
            } else {
                search_from(args, i + 1, r)
            }
        } else if a == "--symbol"@ || a == "-s"@ {
            search_from(args, i + 1, SearchView { symbol_mode: true, ..r })
        } else if !has_prefix(a, "-"@) && r.query.len() == 0 {
            search_from(args, i + 1, SearchView { query: a, ..r })
        } else {
            search_from(args, i + 1, r)
        }
    }
}

/// The request of `mnem search ...`: query empty, limit 50, no file filter,
/// text search, then the arguments after the command name.
pub open spec fn search_request_spec(args: Seq<Seq<char>>) -> SearchView {
    search_from(args, 2, SearchView { query: Seq::empty(), limit: 50, file_filter: None, symbol_mode: false })
}

/// An option that takes the argument after it as its value.
pub open spec fn takes_value(a: Seq<char>) -> bool {
    a == "--limit"@ || a == "-n"@ || a == "--file"@ || a == "-f"@
}

/// A request for symbols stays one whatever follows.
proof fn lemma_symbol_mode_kept(args: Seq<Seq<char>>, i: int, r: SearchView)
    requires
        r.symbol_mode,
    ensures
        search_from(args, i, r).symbol_mode,
    decreases args.len() - i,
{
    if 0 <= i < args.len() {
        let a = args[i];
        let has_value = i + 1 < args.len();
        if a == "--limit"@ || a == "-n"@ {
            if has_value {
                let limit = match parse_usize_spec(args[i + 1]) { Some(l) => l, None => r.limit };
                lemma_symbol_mode_kept(args, i + 2, SearchView { limit, ..r });
            } else {
                lemma_symbol_mode_kept(args, i + 1, r);
            }
        } else if a == "--file"@ || a == "-f"@ {
            if has_value {
                lemma_symbol_mode_kept(args, i + 2, SearchView { file_filter: Some(args[i + 1]), ..r });
            } else {
                lemma_symbol_mode_kept(args, i + 1, r);
            }
        } else if a == "-s"@ || a == "--symbol"@ {
            lemma_symbol_mode_kept(args, i + 1, SearchView { symbol_mode: true, ..r });
        } else if !has_prefix(a, "-"@) && r.query.len() == 0 {
            lemma_symbol_mode_kept(args, i + 1, SearchView { query: a, ..r });
        } else {
            lemma_symbol_mode_kept(args, i + 1, r);
        }
    }
}

/// Reading from `i` reaches a `--symbol` or `-s` at `j` unless the
/// argument before it is an option that takes it as its value.
proof fn lemma_symbol_flag_read(args: Seq<Seq<char>>, i: int, j: int, r: SearchView)
    requires
        0 <= i <= j < args.len(),
        args[j] == "--symbol"@ || args[j] == "-s"@,
        j == i || !takes_value(args[j - 1]),
    ensures
        search_from(args, i, r).symbol_mode,
    decreases j - i,
{
    let a = args[i];
    let has_value = i + 1 < args.len();
    if i == j {
        reveal_strlit("--limit");
        reveal_strlit("-n");
        reveal_strlit("--file");
        reveal_strlit("-f");
        reveal_strlit("--symbol");
        reveal_strlit("-s");
        assert(a != "--limit"@ && a != "-n"@ && a != "--file"@ && a != "-f"@) by {
            if a == "--symbol"@ {
                assert(a.len() == 8);
                assert(a[2] == 's');
            } else {
                assert(a.len() == 2);
                assert(a[1] == 's');
            }
        }
        lemma_symbol_mode_kept(args, i + 1, SearchView { symbol_mode: true, ..r });
    } else if a == "--limit"@ || a == "-n"@ {
        if has_value {
            let limit = match parse_usize_spec(args[i + 1]) { Some(l) => l, None => r.limit };
            lemma_symbol_flag_read(args, i + 2, j, SearchView { limit, ..r });
        } else {
            lemma_symbol_flag_read(args, i + 1, j, r);
        }
    } else if a == "--file"@ || a == "-f"@ {
        if has_value {
            lemma_symbol_flag_read(args, i + 2, j, SearchView { file_filter: Some(args[i + 1]), ..r });
        } else {
            lemma_symbol_flag_read(args, i + 1, j, r);
        }
    } else if a == "-s"@ || a == "--symbol"@ {
        lemma_symbol_mode_kept(args, i + 1, SearchView { symbol_mode: true, ..r });
    } else if !has_prefix(a, "-"@) && r.query.len() == 0 {
        lemma_symbol_flag_read(args, i + 1, j, SearchView { query: a, ..r });
    } else {
        lemma_symbol_flag_read(args, i + 1, j, r);
    }
}

/// Without `--symbol` or `-s` from position `i` on, the symbol mode is the
/// one reading started with.
proof fn lemma_no_symbol_flag(args: Seq<Seq<char>>, i: int, r: SearchView)
    requires
        forall|j: int| i <= j < args.len() ==> !(args[j] == "--symbol"@ || args[j] == "-s"@),
    ensures
        search_from(args, i, r).symbol_mode == r.symbol_mode,
    decreases args.len() - i,
{
    if 0 <= i < args.len() {
        let a = args[i];
        let has_value = i + 1 < args.len();
        if a == "--limit"@ || a == "-n"@ {
            if has_value {
                let limit = match parse_usize_spec(args[i + 1]) { Some(l) => l, None => r.limit };
                lemma_no_symbol_flag(args, i + 2, SearchView { limit, ..r });
            } else {
                lemma_no_symbol_flag(args, i + 1, r);
            }
        } else if a == "--file"@ || a == "-f"@ {
            if has_value {
                lemma_no_symbol_flag(args, i + 2, SearchView { file_filter: Some(args[i + 1]), ..r });
            } else {
                lemma_no_symbol_flag(args, i + 1, r);
            }
        } else if !has_prefix(a, "-"@) && r.query.len() == 0 {
            lemma_no_symbol_flag(args, i + 1, SearchView { query: a, ..r });
        } else {
            lemma_no_symbol_flag(args, i + 1, r);
        }
    }
}

/// `mnem search` searches symbols exactly when asked to: a `--symbol` or
/// `-s` after the command name (that is not the value of `--limit`, `-n`,
/// `--file` or `-f`) turns symbol search on, and without either flag the
/// search is a text search.
pub proof fn law_symbol_flag_turns_on_symbol_search(args: Seq<Seq<char>>, j: int)
    ensures
        2 <= j < args.len() && (args[j] == "--symbol"@ || args[j] == "-s"@) && (j == 2 || !takes_value(args[j - 1]))
            ==> search_request_spec(args).symbol_mode,
        (forall|k: int| 2 <= k < args.len() ==> !(args[k] == "--symbol"@ || args[k] == "-s"@))
            ==> !search_request_spec(args).symbol_mode,
{
    let r0 = SearchView { query: Seq::empty(), limit: 50, file_filter: None, symbol_mode: false };
    if 2 <= j < args.len() && (args[j] == "--symbol"@ || args[j] == "-s"@) && (j == 2 || !takes_value(args[j - 1])) {
        lemma_symbol_flag_read(args, 2, j, r0);
    }
    if forall|k: int| 2 <= k < args.len() ==> !(args[k] == "--symbol"@ || args[k] == "-s"@) {
        lemma_no_symbol_flag(args, 2, r0);
    }
}

impl SearchRequest {
    /// Reads the options of `mnem search` from the whole command line.
    pub fn parse(args: &Vec<String>) -> (r: SearchRequest)
        ensures
            r@ == search_request_spec(strings_view(args@)),
    {
        let ghost sa = strings_view(args@);
        let mut query = String::new();
        let mut limit: usize = 50;
        let mut file_filter: Option<String> = None;
        let mut symbol_mode = false;
        let mut i: usize = 2;
        while i < args.len()
            invariant
                sa == strings_view(args@),
                2 <= i,
                search_request_spec(sa) == search_from(sa, i as int,
                    SearchView { query: query@, limit, file_filter: opt_view(file_filter), symbol_mode }),
            decreases args@.len() - i,
        {
            let a = args[i].as_str();
            let has_value = i + 1 < args.len();
            if str_eq(a, "--limit") || str_eq(a, "-n") {
                if has_value {
                    if let Some(l) = parse_usize(args[i + 1].as_str()) {
                        limit = l;
                    }
                    i = i + 1;
                }
            } else if str_eq(a, "--file") || str_eq(a, "-f") {
                if has_value {
                    file_filter = Some(args[i + 1].clone());
                    i = i + 1;
                }
            } else if str_eq(a, "--symbol") || str_eq(a, "-s") {
                symbol_mode = true;
            } else if !starts_with(a, "-") && query.as_str().unicode_len() == 0 {
                query = args[i].clone();
            }
            i = i + 1;
        }
        SearchRequest { query, limit, file_filter, symbol_mode }
    }
}


/// The distinct values of `keys`, in the order they first appear.
pub open spec fn distinct_in_order(keys: Seq<Seq<char>>) -> Seq<Seq<char>>
    decreases keys.len(),
{
    if keys.len() == 0 {
        Seq::empty()
    } else {
        let u = distinct_in_order(keys.drop_last());
        if u.contains(keys.last()) { u } else { u.push(keys.last()) }
    }
}

/// The positions among the first `n` of `keys` that hold `k`, in order.
pub open spec fn positions_of(keys: Seq<Seq<char>>, k: Seq<char>, n: int) -> Seq<usize>
    decreases n,
{
    if n <= 0 {
        Seq::empty()
    } else {
        let p = positions_of(keys, k, n - 1);
        if keys[n - 1] == k { p.push((n - 1) as usize) } else { p }
    }
}

/// The entries that share one key.
#[derive(Debug, Clone)]
pub struct KeyGroup {
    pub key: String,
    pub positions: Vec<usize>,
}

/// Whether `v` holds the text `s`.
pub fn contains_str(v: &Vec<String>, s: &str) -> (r: bool)
    ensures
        r == strings_view(v@).contains(s@),
{
    let mut i: usize = 0;
    while i < v.len()
        invariant
            i <= v@.len(),
            forall|j: int| 0 <= j < i ==> v@[j]@ != s@,
        decreases v@.len() - i,
    {
        if str_eq(v[i].as_str(), s) {
            assert(strings_view(v@)[i as int] == s@);
            return true;
        }
        i = i + 1;
    }
    assert(!strings_view(v@).contains(s@)) by {
        if strings_view(v@).contains(s@) {
            let j = choose|j: int| 0 <= j < strings_view(v@).len() && strings_view(v@)[j] == s@;
            assert(v@[j]@ == s@);
        }
    }
    false
}

/// The distinct keys in order of first appearance.
pub fn distinct_keys(keys: &Vec<String>) -> (r: Vec<String>)
    ensures
        strings_view(r@) == distinct_in_order(strings_view(keys@)),
{
    let ghost kv = strings_view(keys@);
    let mut out: Vec<String> = Vec::new();
    let mut i: usize = 0;
    assert(strings_view(out@) =~= distinct_in_order(kv.subrange(0, 0)));
    while i < keys.len()
        invariant
            i <= keys@.len(),
            kv == strings_view(keys@),
            strings_view(out@) == distinct_in_order(kv.subrange(0, i as int)),
        decreases keys@.len() - i,
    {
        assert(kv.subrange(0, i + 1).drop_last() =~= kv.subrange(0, i as int));
        if !contains_str(&out, keys[i].as_str()) {
            let ghost before = strings_view(out@);
            out.push(keys[i].clone());
            assert(strings_view(out@) =~= before.push(kv[i as int]));
        }
        i = i + 1;
    }
    assert(kv.subrange(0, keys@.len() as int) =~= kv);
    out
}

/// The positions of `keys` that hold `k`.
pub fn positions(keys: &Vec<String>, k: &str) -> (r: Vec<usize>)
    ensures
        r@ == positions_of(strings_view(keys@), k@, keys@.len() as int),
{
    let ghost kv = strings_view(keys@);
    let mut out: Vec<usize> = Vec::new();
    let mut j: usize = 0;
    while j < keys.len()
        invariant
            j <= keys@.len(),
            kv == strings_view(keys@),
            out@ == positions_of(kv, k@, j as int),
        decreases keys@.len() - j,
    {
        if str_eq(keys[j].as_str(), k) {
            out.push(j);
        }
        j = j + 1;
    }
    out
}

/// The entries grouped by key: one group per distinct key, in order of
/// first appearance, each listing in order the positions holding its key.
pub fn group_by_key(keys: &Vec<String>) -> (r: Vec<KeyGroup>)
    ensures
        r@.len() == distinct_in_order(strings_view(keys@)).len(),
        forall|g: int| 0 <= g < r@.len() ==> {
            &&& (#[trigger] r@[g]).key@ == distinct_in_order(strings_view(keys@))[g]
            &&& r@[g].positions@ == positions_of(strings_view(keys@), distinct_in_order(strings_view(keys@))[g], keys@.len() as int)
        },
{
    let ghost d = distinct_in_order(strings_view(keys@));
    let ks = distinct_keys(keys);
    let mut out: Vec<KeyGroup> = Vec::new();
    let mut g: usize = 0;
    while g < ks.len()
        invariant
            g <= ks@.len(),
            strings_view(ks@) == d,
            d == distinct_in_order(strings_view(keys@)),
            out@.len() == g,
            forall|h: int| 0 <= h < g ==> {
                &&& (#[trigger] out@[h]).key@ == d[h]
                &&& out@[h].positions@ == positions_of(strings_view(keys@), d[h], keys@.len() as int)
            },
        decreases ks@.len() - g,
    {
        assert(strings_view(ks@)[g as int] == ks@[g as int]@);
        let p = positions(keys, ks[g].as_str());
        out.push(KeyGroup { key: ks[g].clone(), positions: p });
        g = g + 1;
    }
    out
}

/// The positions among the first `n` paths that the filter keeps (all of
/// them without a filter; else those containing it).
pub open spec fn kept_positions(paths: Seq<Seq<char>>, filter: Option<Seq<char>>, n: int) -> Seq<usize>
    decreases n,
{
    if n <= 0 {
        Seq::empty()
    } else {
        let p = kept_positions(paths, filter, n - 1);
        let keep = match filter {
            Some(f) => has_substring(paths[n - 1], f),
            None => true,
        };
        if keep { p.push((n - 1) as usize) } else { p }
    }
}

/// The symbol locations on page `page` (of `limit` locations each) among
/// those whose file path contains the file filter, by position.
pub fn filter_locations(paths: &Vec<String>, filter: &Option<String>, page: usize, limit: usize) -> (r: Vec<usize>)
    requires
        (if page > 0 { page - 1 } else { 0 }) * limit <= usize::MAX,
    ensures
        r@ == ({
            let k = kept_positions(strings_view(paths@), opt_view(*filter), paths@.len() as int);
            let b = page_bounds(k.len(), page as nat, limit as nat);
            k.subrange(b.0, b.1)
        }),
{
    let ghost pv = strings_view(paths@);
    let mut kept: Vec<usize> = Vec::new();
    let mut j: usize = 0;
    while j < paths.len()
        invariant
            j <= paths@.len(),
            pv == strings_view(paths@),
            kept@ == kept_positions(pv, opt_view(*filter), j as int),
            kept@.len() <= j,
        decreases paths@.len() - j,
    {
        let keep = match filter {
            Some(f) => contains(paths[j].as_str(), f.as_str()),
            None => true,
        };
        if keep {
            kept.push(j);
        }
        j = j + 1;
    }
    let (start, end) = page_range(kept.len(), page, limit);
    let mut out: Vec<usize> = Vec::new();
    let mut i: usize = start;
    while i < end
        invariant
            start <= i <= end,
            end <= kept@.len(),
            out@ == kept@.subrange(start as int, i as int),
        decreases end - i,
    {
        out.push(kept[i]);
        proof {
            assert(out@ =~= kept@.subrange(start as int, i + 1));
        }
        i = i + 1;
    }
    out
}


/// The first position at which `p` occurs in `s` (meaningful when it occurs).
pub open spec fn first_occurrence(s: Seq<char>, p: Seq<char>) -> int {
    choose|i: int| occurs_at(s, p, i) && forall|j: int| 0 <= j < i ==> !occurs_at(s, p, j)
}

/// The byte position in the lowercased `line` where the lowercased `query`
/// first occurs, if it does.
pub open spec fn match_start(line: Seq<char>, query: Seq<char>) -> Option<int> {
    let l = lowercase(line);
    let q = lowercase(query);
    if has_substring(l, q) {
        Some(utf8_len(l.subrange(0, first_occurrence(l, q))) as int)
    } else {
        None
    }
}

/// A line of a search hit, split around the matched text.
#[derive(Debug, Clone)]
pub enum Highlight {
    /// No match: the line as it is.
    Plain,
    /// The text before the match, the match, and the text after it.
    Parts { before: String, matched: String, after: String },
}

/// The plain content of a highlight.
pub enum HighlightView {
    Plain,
    Parts { before: Seq<char>, matched: Seq<char>, after: Seq<char> },
}

impl View for Highlight {
    type V = HighlightView;

    open spec fn view(&self) -> HighlightView {
        match self {
            Highlight::Plain => HighlightView::Plain,
            Highlight::Parts { before, matched, after } => HighlightView::Parts {
                before: before@,
                matched: matched@,
                after: after@,
            },
        }
    }
}

/// Splits `line` around the bytes `start..start + len`.
pub fn split_highlight(line: &str, start: usize, len: usize) -> (r: Highlight)
    requires
        start + len <= usize::MAX,
        can_slice(line@, start as int, (start + len) as int),
    ensures
        r@ == (HighlightView::Parts {
            before: bytes_text(line@, 0, start as int),
            matched: bytes_text(line@, start as int, start + len),
            after: bytes_text(line@, start + len, utf8_len(line@) as int),
        }),
{
    proof {
        vstd::utf8::encode_utf8_valid_utf8(line@);
        vstd::utf8::is_char_boundary_start_end_of_seq(vstd::utf8::encode_utf8(line@));
    }
    let total = line.as_bytes().len();
    let before = try_slice(line, 0, start);
    let matched = try_slice(line, start, start + len);
    let after = try_slice(line, start + len, total);
    match (before, matched, after) {
        (Some(b), Some(m), Some(a)) => Highlight::Parts {
            before: String::from_str(b),
            matched: String::from_str(m),
            after: String::from_str(a),
        },
        _ => Highlight::Plain,
    }
}

/// The hit line with the first match of the query marked, compared without
/// regard to case; the matched bytes are as many as the query has. None
/// where those bytes cannot be cut out of the line (the lowercase forms can
/// differ in length from the line and the query).
pub fn highlight_match(line: &str, query: &str) -> (r: Option<Highlight>)
    ensures
        is_ascii_text(line@) ==> lowercase(line@) == line@.map_values(|c: char| ascii_lower(c)),
        is_ascii_text(query@) ==> lowercase(query@) == query@.map_values(|c: char| ascii_lower(c)),
        match match_start(line@, query@) {
            None => r matches Some(h) && h@ == HighlightView::Plain,
            Some(st) => {
                let end = st + utf8_len(query@);
                if can_slice(line@, st, end) {
                    r matches Some(h) && h@ == (HighlightView::Parts {
                        before: bytes_text(line@, 0, st),
                        matched: bytes_text(line@, st, end),
                        after: bytes_text(line@, end, utf8_len(line@) as int),
                    })
                } else {
                    r is None
                }
            },
        },
{
    let l = to_lowercase(line);
    let q = to_lowercase(query);
    match find(l.as_str(), q.as_str()) {
        None => Some(Highlight::Plain),
        Some(ci) => {
            proof {
                assert(occurs_at(l@, q@, ci as int));
                let c = first_occurrence(l@, q@);
                assert(occurs_at(l@, q@, c) && forall|j: int| 0 <= j < c ==> !occurs_at(l@, q@, j));
                if c < ci {
                    assert(!occurs_at(l@, q@, c));
                }
                if ci < c {
                    assert(!occurs_at(l@, q@, ci as int));
                }
                assert(c == ci);
            }
            let st = l.as_str().substring_char(0, ci).as_bytes().len();
            let ql = query.as_bytes().len();
            let bl = line.as_bytes().len();
            if st > bl || ql > bl - st {
                return None;
            }
            if let Some(_m) = try_slice(line, st, st + ql) {
                Some(split_highlight(line, st, ql))
            } else {
                None
            }
        },
    }
}

/// The hit line with the first match of the query marked, as `mnem s`
/// marks it: like `highlight_match`, but the marked bytes stop at the end
/// of the line. None where the cut falls inside a character.
pub fn highlight_match_clamped(line: &str, query: &str) -> (r: Option<Highlight>)
    ensures
        is_ascii_text(line@) ==> lowercase(line@) == line@.map_values(|c: char| ascii_lower(c)),
        is_ascii_text(query@) ==> lowercase(query@) == query@.map_values(|c: char| ascii_lower(c)),
        match match_start(line@, query@) {
            None => r matches Some(h) && h@ == HighlightView::Plain,
            Some(st) => {
                let end0 = st + utf8_len(query@);
                let end = if end0 < utf8_len(line@) { end0 } else { utf8_len(line@) as int };
                if can_slice(line@, st, end) {
                    r matches Some(h) && h@ == (HighlightView::Parts {
                        before: bytes_text(line@, 0, st),
                        matched: bytes_text(line@, st, end),
                        after: bytes_text(line@, end, utf8_len(line@) as int),
                    })
                } else {
                    r is None
                }
            },
        },
{
    let l = to_lowercase(line);
    let q = to_lowercase(query);
    match find(l.as_str(), q.as_str()) {
        None => Some(Highlight::Plain),
        Some(ci) => {
            proof {
                assert(occurs_at(l@, q@, ci as int));
                let c = first_occurrence(l@, q@);
                assert(occurs_at(l@, q@, c) && forall|j: int| 0 <= j < c ==> !occurs_at(l@, q@, j));
                if c < ci {
                    assert(!occurs_at(l@, q@, c));
                }
                if ci < c {
                    assert(!occurs_at(l@, q@, ci as int));
                }
                assert(c == ci);
            }
            let st = l.as_str().substring_char(0, ci).as_bytes().len();
            let ql = query.as_bytes().len();
            let bl = line.as_bytes().len();
            if st > bl {
                return None;
            }
            let end = if ql > bl - st { bl } else { st + ql };
            if let Some(_m) = try_slice(line, st, end) {
                Some(split_highlight(line, st, end - st))
            } else {
                None
            }
        },
    }
}

/// When a hit's snapshot was taken, to the minute: chrono's reading of the
/// timestamp, or else its first 16 bytes with `T` shown as a space (none
/// where those bytes cannot be cut out).
pub fn search_time_label(ts: &str) -> (r: Option<String>)
    ensures
        match rfc3339_minute_label(ts@) {
            Some(l) => r matches Some(x) && x@ == l,
            None => if can_slice(ts@, 0, 16) {
                r matches Some(x) && x@ == replace_char_spec(bytes_text(ts@, 0, 16), 'T', ' ')
            } else {
                r is None
            },
        },
{
    match minute_label(ts) {
        Some(l) => Some(l),
        None => match try_slice(ts, 0, 16) {
            Some(p) => Some(replace_char(p, 'T', ' ')),
            None => None,
        },
    }
}

/// Search the stored history.
#[derive(Debug, Clone)]
pub struct SearchCommand {
    /// Search query
    pub query: Option<String>,
    /// Filter by file path
    pub file: Option<String>,
    /// Maximum number of results
    pub limit: usize,
    /// Page number
    pub page: usize,
    /// Search for symbols instead of raw text
    pub semantic: bool,
}

impl SearchCommand {
    /// The query to search for: none when it is missing or empty.
    pub fn asked_query(&self) -> (r: Option<String>)
        ensures
            match r {
                Some(q) => self.query matches Some(s) && s@ == q@ && q@.len() > 0,
                None => self.query matches Some(s) ==> s@.len() == 0,
            },
    {
        match &self.query {
            Some(q) => {
                if q.as_str().unicode_len() > 0 {
                    Some(q.clone())
                } else {
                    None
                }
            },
            None => None,
        }
    }
}

} // verus!
