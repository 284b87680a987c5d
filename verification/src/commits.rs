//! Git commits as the commit commands look them up.

use vstd::prelude::*;
use crate::text::{has_prefix, starts_with};

verus! {

/// How many of the latest commits `commit-info` searches.
pub const COMMIT_SEARCH_DEPTH: usize = 100;

/// The first of the first `COMMIT_SEARCH_DEPTH` hashes that begins with `q`,
/// by position.
pub fn find_commit_by_prefix(hashes: &Vec<String>, q: &str) -> (r: Option<usize>)
    ensures
        match r {
            Some(i) => i < hashes@.len() && i < COMMIT_SEARCH_DEPTH && has_prefix(hashes@[i as int]@, q@)
                && forall|j: int| 0 <= j < i ==> !has_prefix(#[trigger] hashes@[j]@, q@),
            None => forall|j: int| 0 <= j < hashes@.len() && j < COMMIT_SEARCH_DEPTH
                ==> !has_prefix(#[trigger] hashes@[j]@, q@),
        },
{
    let mut i: usize = 0;
    while i < hashes.len() && i < COMMIT_SEARCH_DEPTH
        invariant
            i <= hashes@.len(),
            i <= COMMIT_SEARCH_DEPTH,
            forall|j: int| 0 <= j < i ==> !has_prefix(#[trigger] hashes@[j]@, q@),
        decreases hashes@.len() - i,
    {
        if starts_with(hashes[i].as_str(), q) {
            return Some(i);
        }
        i = i + 1;
    }
    None
}

/// A commit as the post-commit hook reports it.
#[derive(Debug, Clone)]
pub struct GitEvent {
    pub hash: String,
    pub message: String,
    pub author: String,
    pub timestamp: String,
}

/// The commit that `mnem git-event <hash> <message> <author> <timestamp>`
/// reports: the third to sixth arguments, none when there are fewer.
pub fn git_event_args(args: &Vec<String>) -> (r: Option<GitEvent>)
    ensures
        args@.len() < 6 ==> r is None,
        args@.len() >= 6 ==> (r matches Some(e) && e.hash@ == args@[2]@ && e.message@ == args@[3]@
            && e.author@ == args@[4]@ && e.timestamp@ == args@[5]@),
{
    if args.len() < 6 {
        return None;
    }
    Some(GitEvent {
        hash: args[2].clone(),
        message: args[3].clone(),
        author: args[4].clone(),
        timestamp: args[5].clone(),
    })
}

} // verus!
