//! `mnem blame`: a symbol's versions, filtered by author, limited and
//! numbered.

use vstd::prelude::*;
use crate::text::str_eq;
use crate::timeline::{opt_view, strings_view};

verus! {

/// Show the history of a symbol and who changed it.
#[derive(Debug, Clone)]
pub struct BlameCommand {
    /// File path containing the symbol
    pub file: String,
    /// Symbol name to blame
    pub symbol: String,
    /// Show statistics only
    pub stats_only: bool,
    /// Filter by git user email
    pub user: Option<String>,
    /// Limit number of versions
    pub limit: usize,
}

/// One stored change of a symbol.
#[derive(Debug, Clone)]
pub struct SymbolChange {
    pub timestamp: String,
    pub git_user_name: String,
    pub git_user_email: String,
    pub symbol_kind: String,
    pub symbol_name: String,
    pub complexity: usize,
    pub start_line: usize,
    pub end_line: usize,
}

/// One version of a symbol as the answer lists it.
#[derive(Debug)]
pub struct SymbolVersion {
    pub version: usize,
    pub timestamp: String,
    pub git_user: String,
    pub changes: Vec<String>,
    pub complexity: usize,
    pub lines: (usize, usize),
}

/// The changes kept by the author filter (all without one), by position.
pub open spec fn by_author(h: Seq<SymbolChange>, user: Option<Seq<char>>, n: int) -> Seq<usize>
    decreases n,
{
    if n <= 0 {
        Seq::empty()
    } else {
        let k = by_author(h, user, n - 1);
        let keep = match user { Some(u) => h[n - 1].git_user_email@ == u, None => true };
        if keep { k.push((n - 1) as usize) } else { k }
    }
}

/// Version `v` (counted from 1) made from change `c`.
pub open spec fn version_of(c: SymbolChange, v: usize, out: SymbolVersion) -> bool {
    &&& out.version == v
    &&& out.timestamp@ == c.timestamp@
    &&& out.git_user@ == c.git_user_name@ + " <"@ + c.git_user_email@ + ">"@
    &&& strings_view(out.changes@) == seq![c.symbol_kind@ + " "@ + c.symbol_name@]
    &&& out.complexity == c.complexity
    &&& out.lines == (c.start_line, c.end_line)
}

/// The versions shown: the changes by the chosen author, at most `limit`
/// of them, numbered from 1.
pub fn blame_versions(history: &Vec<SymbolChange>, user: &Option<String>, limit: usize) -> (r: Vec<SymbolVersion>)
    ensures
        ({
            let k = by_author(history@, opt_view(*user), history@.len() as int);
            let shown = if k.len() > limit { k.subrange(0, limit as int) } else { k };
            &&& r@.len() == shown.len()
            &&& forall|i: int| 0 <= i < shown.len() ==> version_of(history@[shown[i] as int], (i + 1) as usize, #[trigger] r@[i])
        }),
{
    let mut kept: Vec<usize> = Vec::new();
    let mut j: usize = 0;
    while j < history.len()
        invariant
            j <= history@.len(),
            kept@ == by_author(history@, opt_view(*user), j as int),
            forall|t: int| 0 <= t < kept@.len() ==> kept@[t] < j,
            kept@.len() <= j,
        decreases history@.len() - j,
    {
        let keep = match user {
            Some(u) => str_eq(history[j].git_user_email.as_str(), u.as_str()),
            None => true,
        };
        if keep {
            kept.push(j);
        }
        j = j + 1;
    }
    if kept.len() > limit {
        kept.truncate(limit);
    }
    let mut out: Vec<SymbolVersion> = Vec::new();
    let mut i: usize = 0;
    while i < kept.len()
        invariant
            i <= kept@.len(),
            kept@.len() <= history@.len(),
            forall|t: int| 0 <= t < kept@.len() ==> kept@[t] < history@.len(),
            out@.len() == i,
            forall|t: int| 0 <= t < i ==> version_of(history@[kept@[t] as int], (t + 1) as usize, #[trigger] out@[t]),
        decreases kept@.len() - i,
    {
        let c = &history[kept[i]];
        let mut user_text = c.git_user_name.clone();
        user_text.append(" <");
        user_text.append(c.git_user_email.as_str());
        user_text.append(">");
        let mut change = c.symbol_kind.clone();
        change.append(" ");
        change.append(c.symbol_name.as_str());
        let mut changes: Vec<String> = Vec::new();
        changes.push(change);
        assert(strings_view(changes@) =~= seq![c.symbol_kind@ + " "@ + c.symbol_name@]);
        out.push(SymbolVersion {
            version: i + 1,
            timestamp: c.timestamp.clone(),
            git_user: user_text,
            changes,
            complexity: c.complexity,
            lines: (c.start_line, c.end_line),
        });
        i = i + 1;
    }
    out
}

} // verus!
