//! Routing of a command line to a registered command.

use vstd::prelude::*;
use crate::commands::{CommandKind, find_command, lookup_spec};
use crate::text::str_eq;

verus! {

/// Whether `c` is an ASCII hexadecimal digit.
pub open spec fn is_hex_digit(c: char) -> bool {
    ('0' <= c && c <= '9') || ('a' <= c && c <= 'f') || ('A' <= c && c <= 'F')
}

/// A project ID is a hexadecimal string of at least four characters.
pub open spec fn is_project_id_spec(s: Seq<char>) -> bool {
    s.len() >= 4 && forall|i: int| 0 <= i < s.len() ==> is_hex_digit(#[trigger] s[i])
}

/// Commands that first make sure the daemon watches the current project.
pub open spec fn context_dependent(cmd: Seq<char>) -> bool {
    cmd == "log"@ || cmd == "diff"@ || cmd == "info"@ || cmd == "restore"@
        || cmd == "checkpoint"@ || cmd == "tui"@ || cmd == "search"@ || cmd == "history"@
        || cmd == "timeline"@ || cmd == "statistics"@ || cmd == "stats"@
}

/// Where a command line goes.
#[derive(Debug)]
pub enum Route {
    /// Run `command` on `args`, after making sure the daemon watches the
    /// current project when `ensure_watching` holds.
    Run { command: CommandKind, ensure_watching: bool, args: Vec<String> },
    /// No command of that name: report it and exit with status 1.
    Unknown { name: String },
}

/// Command dispatcher that parses arguments and routes to appropriate command.
pub struct Dispatcher;

/// The route that `Dispatcher::route` takes.
pub open spec fn route_spec(args: Seq<String>, in_project: bool, r: Route) -> bool {
    if args.len() <= 1 {
        if in_project {
            r matches Route::Run { command, ensure_watching, args: a }
                && command == CommandKind::History && ensure_watching
                && a@.len() == 2 && a@[0]@ == "mnem"@ && a@[1]@ == "history"@
        } else {
            r matches Route::Run { command, ensure_watching, args: a }
                && command == CommandKind::List && !ensure_watching && a@ == args
        }
    } else {
        let name = args[1]@;
        match lookup_spec(name) {
            Some(k) => r matches Route::Run { command, ensure_watching, args: a }
                && command == k && ensure_watching == (context_dependent(name) && in_project)
                && a@ == args,
            None => if is_project_id_spec(name) {
                r matches Route::Run { command, ensure_watching, args: a }
                    && command == CommandKind::Project && !ensure_watching && a@ == args
            } else {
                r matches Route::Unknown { name: n } && n@ == name
            },
        }
    }
}

fn is_context_dependent(cmd: &str) -> (r: bool)
    ensures
        r == context_dependent(cmd@),
{
    str_eq(cmd, "log") || str_eq(cmd, "diff") || str_eq(cmd, "info") || str_eq(cmd, "restore")
        || str_eq(cmd, "checkpoint") || str_eq(cmd, "tui") || str_eq(cmd, "search")
        || str_eq(cmd, "history") || str_eq(cmd, "timeline") || str_eq(cmd, "statistics")
        || str_eq(cmd, "stats")
}

impl Dispatcher {
    /// Decide where a command line goes; `in_project` tells whether the
    /// current directory lies in a tracked project.
    pub fn route(args: Vec<String>, in_project: bool) -> (r: Route)
        ensures
            route_spec(args@, in_project, r),
    {
        if args.len() <= 1 {
            return Self::default_route(args, in_project);
        }
        let name = args[1].clone();
        match find_command(name.as_str()) {
            Some(k) => {
                let ensure_watching = is_context_dependent(name.as_str()) && in_project;
                Route::Run { command: k, ensure_watching, args }
            },
            None => {
                if Self::is_project_id(name.as_str()) {
                    Route::Run { command: CommandKind::Project, ensure_watching: false, args }
                } else {
                    Route::Unknown { name }
                }
            },
        }
    }

    /// Default behavior when no command is provided.
    fn default_route(args: Vec<String>, in_project: bool) -> (r: Route)
        requires
            args@.len() <= 1,
        ensures
            route_spec(args@, in_project, r),
    {
        if in_project {
            let a = vec![String::from_str("mnem"), String::from_str("history")];
            Route::Run { command: CommandKind::History, ensure_watching: true, args: a }
        } else {
            Route::Run { command: CommandKind::List, ensure_watching: false, args }
        }
    }

    /// Check if a string looks like a project ID (hex string >= 4 chars).
    pub fn is_project_id(s: &str) -> (r: bool)
        ensures
            r == is_project_id_spec(s@),
    {
        let n = s.unicode_len();
        if n < 4 {
            return false;
        }
        let mut i: usize = 0;
        while i < n
            invariant
                n == s@.len(),
                i <= n,
                forall|j: int| 0 <= j < i ==> is_hex_digit(#[trigger] s@[j]),
            decreases n - i,
        {
            let c = s.get_char(i);
            if !(('0' <= c && c <= '9') || ('a' <= c && c <= 'f') || ('A' <= c && c <= 'F')) {
                assert(!is_hex_digit(s@[i as int]));
                return false;
            }
            i = i + 1;
        }
        true
    }
}

} // verus!
