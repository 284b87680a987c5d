//! `mnem h`: clearing a project's history, keeping one branch's entries,
//! and the timeline view that is not written yet.

use vstd::prelude::*;
use crate::text::str_eq;
use crate::timeline::opt_view;
use crate::fmt::{decimal, push_decimal};

verus! {

/// How a request to clear the history went.
#[derive(Debug, Clone)]
pub enum ClearOutcome {
    /// The daemon is not running.
    NoDaemon,
    /// The daemon runs but could not be reached: nothing was said.
    Unreachable,
    /// The daemon deleted this many snapshots.
    Cleared(u64),
    Failed(String),
}

/// Whether clearing worked, and the message that says so.
pub open spec fn clear_report_spec(o: ClearOutcome) -> (bool, Seq<char>) {
    match o {
        ClearOutcome::NoDaemon => (false, "Daemon must be running to clear history"@),
        ClearOutcome::Unreachable => (false, Seq::empty()),
        ClearOutcome::Cleared(n) => (true, "Successfully cleared history ("@ + decimal(n as nat) + " snapshots deleted)"@),
        ClearOutcome::Failed(e) => (false, "Failed to clear history: "@ + e@),
    }
}

/// Whether clearing worked, and the message that says so.
pub fn clear_report(o: &ClearOutcome) -> (r: (bool, String))
    ensures
        (r.0, r.1@) == clear_report_spec(*o),
{
    match o {
        ClearOutcome::NoDaemon => (false, String::from_str("Daemon must be running to clear history")),
        ClearOutcome::Unreachable => (false, String::new()),
        ClearOutcome::Cleared(n) => {
            let mut s = String::from_str("Successfully cleared history (");
            push_decimal(&mut s, *n);
            s.append(" snapshots deleted)");
            (true, s)
        },
        ClearOutcome::Failed(e) => {
            let mut s = String::from_str("Failed to clear history: ");
            s.append(e.as_str());
            (false, s)
        },
    }
}

/// The entries (by position) whose branch, `main` when they have none, is `br`.
pub open spec fn on_branch(branches: Seq<Option<String>>, br: Seq<char>, n: int) -> Seq<usize>
    decreases n,
{
    if n <= 0 {
        Seq::empty()
    } else {
        let k = on_branch(branches, br, n - 1);
        let b = match branches[n - 1] { Some(b) => b@, None => "main"@ };
        if b == br { k.push((n - 1) as usize) } else { k }
    }
}

/// Keeps the entries of one branch, by position.
pub fn filter_by_branch(branches: &Vec<Option<String>>, br: &str) -> (r: Vec<usize>)
    ensures
        r@ == on_branch(branches@, br@, branches@.len() as int),
{
    let mut out: Vec<usize> = Vec::new();
    let mut i: usize = 0;
    while i < branches.len()
        invariant
            i <= branches@.len(),
            out@ == on_branch(branches@, br@, i as int),
        decreases branches@.len() - i,
    {
        let same = match &branches[i] {
            Some(b) => str_eq(b.as_str(), br),
            None => str_eq("main", br),
        };
        if same {
            out.push(i);
        }
        i = i + 1;
    }
    out
}

/// The timeline view of `mnem h --timeline`: the file it would show (the
/// view itself is announced as coming), or the error without a file.
pub fn handle_timeline_view(file: &Option<String>) -> (r: Result<String, String>)
    ensures
        match r {
            Ok(f) => file is Some && f@ == file->0@,
            Err(e) => file is None && e@ == "Use --file to specify a file for timeline"@,
        },
{
    match file {
        Some(f) => Ok(f.clone()),
        None => Err(String::from_str("Use --file to specify a file for timeline")),
    }
}

/// The heading of `mnem h`: the file when one is asked for, else the project.
pub fn history_heading(file: &Option<String>, project_name: &str) -> (r: String)
    ensures
        r@ == match file {
            Some(f) => "FILE HISTORY: "@ + f@,
            None => "PROJECT HISTORY: "@ + project_name@,
        },
{
    match file {
        Some(f) => {
            let mut s = String::from_str("FILE HISTORY: ");
            s.append(f.as_str());
            s
        },
        None => {
            let mut s = String::from_str("PROJECT HISTORY: ");
            s.append(project_name);
            s
        },
    }
}

} // verus!
