//! `mnem checkpoint`: which action the options ask for, the messages that
//! report it, and the table row of a checkpoint.

use vstd::prelude::*;
use crate::text::{can_slice, bytes_text, try_slice, replace_char, replace_char_spec, byte_prefix, prefix_at_boundary, prefix_bytes};
use crate::timeline::opt_view;
use crate::fmt::{decimal, usize_to_string};
use crate::paths::{checkpoint_file_path, relative_spec};
use crate::text::remove_all_spec;

verus! {

/// Manage named project checkpoints.
#[derive(Debug, Clone)]
pub struct CheckpointCommand {
    /// Name of the checkpoint (e.g., 'v1-stable', 'pre-refactor')
    pub name: Option<String>,
    /// List all checkpoints
    pub list: bool,
    /// Remove the specified checkpoint
    pub remove: bool,
    /// Show checkpoint history (when it was created/updated)
    pub history: bool,
    /// Show file manifest for the specified checkpoint
    pub show: bool,
    /// Update a specific file in the checkpoint to its current state
    pub update: Option<String>,
    /// Optional description for the checkpoint
    pub message: Option<String>,
}

/// What a `checkpoint` invocation asks for.
#[derive(Debug, Clone)]
pub enum CheckpointPlan {
    List,
    /// No name was given.
    MissingName,
    Remove { name: String },
    Show { name: String },
    UpdateFile { name: String, file: String },
    Save { name: String, description: Option<String> },
}

/// The plan for the given options: listing first, then (with a name)
/// removal, showing, updating one file, and else creating or updating.
pub open spec fn checkpoint_plan_spec(c: CheckpointCommand, r: CheckpointPlan) -> bool {
    if c.list {
        r is List
    } else {
        match c.name {
            None => r is MissingName,
            Some(n) => if c.remove {
                r matches CheckpointPlan::Remove { name } && name@ == n@
            } else if c.show {
                r matches CheckpointPlan::Show { name } && name@ == n@
            } else if c.update is Some {
                r matches CheckpointPlan::UpdateFile { name, file } && name@ == n@ && file@ == c.update->0@
            } else {
                r matches CheckpointPlan::Save { name, description } && name@ == n@
                    && opt_view(description) == opt_view(c.message)
            },
        }
    }
}

impl CheckpointCommand {
    /// Which action the options ask for.
    pub fn plan(&self) -> (r: CheckpointPlan)
        ensures
            checkpoint_plan_spec(*self, r),
    {
        if self.list {
            return CheckpointPlan::List;
        }
        let name = match &self.name {
            Some(n) => n.clone(),
            None => { return CheckpointPlan::MissingName; },
        };
        if self.remove {
            CheckpointPlan::Remove { name }
        } else if self.show {
            CheckpointPlan::Show { name }
        } else if let Some(f) = &self.update {
            CheckpointPlan::UpdateFile { name, file: f.clone() }
        } else {
            CheckpointPlan::Save { name, description: crate::timeline::copy_opt(&self.message) }
        }
    }
}

/// The message that reports a plan once done.
pub open spec fn checkpoint_message_spec(p: CheckpointPlan) -> Seq<char> {
    match p {
        CheckpointPlan::List | CheckpointPlan::Show { .. } => "Success"@,
        CheckpointPlan::MissingName => "Specify a checkpoint name (or use --list)"@,
        CheckpointPlan::Remove { name } => "Checkpoint '"@ + name@ + "' removed"@,
        CheckpointPlan::UpdateFile { name, file } => "Updated file '"@ + file@ + "' in checkpoint '"@ + name@ + "'"@,
        CheckpointPlan::Save { name, .. } => "Checkpoint '"@ + name@ + "' created/updated"@,
    }
}

/// The message that reports a plan once done (the error for a missing name).
pub fn checkpoint_message(p: &CheckpointPlan) -> (r: String)
    ensures
        r@ == checkpoint_message_spec(*p),
{
    match p {
        CheckpointPlan::List | CheckpointPlan::Show { .. } => String::from_str("Success"),
        CheckpointPlan::MissingName => String::from_str("Specify a checkpoint name (or use --list)"),
        CheckpointPlan::Remove { name } => {
            let mut s = String::from_str("Checkpoint '");
            s.append(name.as_str());
            s.append("' removed");
            s
        },
        CheckpointPlan::UpdateFile { name, file } => {
            let mut s = String::from_str("Updated file '");
            s.append(file.as_str());
            s.append("' in checkpoint '");
            s.append(name.as_str());
            s.append("'");
            s
        },
        CheckpointPlan::Save { name, .. } => {
            let mut s = String::from_str("Checkpoint '");
            s.append(name.as_str());
            s.append("' created/updated");
            s
        },
    }
}

/// A stored checkpoint.
#[derive(Debug, Clone)]
pub struct CheckpointInfo {
    pub name: String,
    pub git_branch: Option<String>,
    pub file_count: usize,
    pub timestamp: String,
    pub description: Option<String>,
}

/// The cells of a checkpoint's table row: name, branch (`main` without
/// one), file count, creation time (the first 16 bytes of the timestamp,
/// `T` shown as a space) and description (`-` without one). None where the
/// timestamp is too short to cut.
pub fn checkpoint_row(cp: &CheckpointInfo) -> (r: Option<Vec<String>>)
    ensures
        match r {
            Some(cells) => can_slice(cp.timestamp@, 0, 16) && cells@.len() == 5
                && cells@[0]@ == cp.name@
                && cells@[1]@ == (match cp.git_branch { Some(b) => b@, None => "main"@ })
                && cells@[2]@ == decimal(cp.file_count as nat)
                && cells@[3]@ == replace_char_spec(bytes_text(cp.timestamp@, 0, 16), 'T', ' ')
                && cells@[4]@ == (match cp.description { Some(d) => d@, None => "-"@ }),
            None => !can_slice(cp.timestamp@, 0, 16),
        },
{
    let created = match try_slice(cp.timestamp.as_str(), 0, 16) {
        Some(t) => replace_char(t, 'T', ' '),
        None => { return None; },
    };
    let mut cells: Vec<String> = Vec::new();
    cells.push(cp.name.clone());
    cells.push(match &cp.git_branch { Some(b) => b.clone(), None => String::from_str("main") });
    cells.push(usize_to_string(cp.file_count));
    cells.push(created);
    cells.push(match &cp.description { Some(d) => d.clone(), None => String::from_str("-") });
    Some(cells)
}

/// What `mnem cp` asks for.
#[derive(Debug, Clone)]
pub enum CpPlan {
    List,
    Info(String),
    Remove(String),
    Restore(String),
    /// An operation on a checkpoint was asked for without naming one.
    MissingId,
    /// Create a checkpoint, with this description if one was given.
    Create(Option<String>),
}

/// The plan of `mnem cp`: for info, removal or restoring, the checkpoint is
/// the `id` option, or the first argument when no id is given.
pub open spec fn cp_plan_spec(message: Option<Seq<char>>, list: bool, id: Option<Seq<char>>, info: bool,
    remove: bool, restore: bool, r: CpPlan) -> bool {
    let op = info || remove || restore;
    let target = if op && id is None { message } else { id };
    if list {
        r is List
    } else {
        match target {
            Some(t) => if info {
                r matches CpPlan::Info(x) && x@ == t
            } else if remove {
                r matches CpPlan::Remove(x) && x@ == t
            } else if restore {
                r matches CpPlan::Restore(x) && x@ == t
            } else {
                r matches CpPlan::Create(m) && opt_view(m) == message
            },
            None => if op {
                r is MissingId
            } else {
                r matches CpPlan::Create(m) && opt_view(m) == message
            },
        }
    }
}

/// The plan of `mnem cp`.
pub fn cp_plan(message: &Option<String>, list: bool, id: &Option<String>, info: bool, remove: bool, restore: bool) -> (r: CpPlan)
    ensures
        cp_plan_spec(opt_view(*message), list, opt_view(*id), info, remove, restore, r),
{
    if list {
        return CpPlan::List;
    }
    let op = info || remove || restore;
    let target = if op && id.is_none() { message } else { id };
    match target {
        Some(t) => if info {
            CpPlan::Info(t.clone())
        } else if remove {
            CpPlan::Remove(t.clone())
        } else if restore {
            CpPlan::Restore(t.clone())
        } else {
            CpPlan::Create(crate::timeline::copy_opt(message))
        },
        None => if op {
            CpPlan::MissingId
        } else {
            CpPlan::Create(crate::timeline::copy_opt(message))
        },
    }
}

/// What `mnem cp` shows for an operation on a checkpoint asked for without
/// naming one: the error, then the usage (after the command's name).
pub fn cp_missing_id() -> (r: (&'static str, &'static str))
    ensures
        r.0@ == "Specify a checkpoint ID for this operation."@,
        r.1@ == "<id> --info|--remove|--restore"@,
{
    ("Specify a checkpoint ID for this operation.", "<id> --info|--remove|--restore")
}

/// How many files of a checkpoint its details list by name.
pub const CP_FILES_SHOWN: usize = 10;

/// The files that the details of a checkpoint list (the first
/// `CP_FILES_SHOWN`, each as `checkpoint_file_path` shows it below `base`),
/// and how many more it has.
pub fn checkpoint_files_shown(paths: &Vec<String>, base: &str) -> (r: (Vec<String>, usize))
    ensures
        r.0@.len() == (if paths@.len() < CP_FILES_SHOWN { paths@.len() } else { CP_FILES_SHOWN as nat }),
        forall|i: int| 0 <= i < r.0@.len() ==> (#[trigger] r.0@[i])@
            == relative_spec(remove_all_spec(paths@[i]@, "\\\\?\\"@), base@),
        r.1 == paths@.len() - r.0@.len(),
{
    let k = if paths.len() < CP_FILES_SHOWN { paths.len() } else { CP_FILES_SHOWN };
    let mut shown: Vec<String> = Vec::new();
    let mut i: usize = 0;
    while i < k
        invariant
            k <= paths@.len(),
            k == (if paths@.len() < CP_FILES_SHOWN { paths@.len() } else { CP_FILES_SHOWN as nat }),
            i <= k,
            shown@.len() == i,
            forall|j: int| 0 <= j < i ==> (#[trigger] shown@[j])@
                == relative_spec(remove_all_spec(paths@[j]@, "\\\\?\\"@), base@),
        decreases k - i,
    {
        shown.push(checkpoint_file_path(paths[i].as_str(), base));
        i = i + 1;
    }
    (shown, paths.len() - k)
}

/// The position of the first `c` in `s`, or its length.
pub open spec fn first_char_pos(s: Seq<char>, c: char, i: int) -> int
    decreases s.len() - i,
{
    if i < 0 || i >= s.len() {
        if i < 0 { 0 } else { s.len() as int }
    } else if s[i] == c {
        i
    } else {
        first_char_pos(s, c, i + 1)
    }
}

/// A checkpoint's creation time as listed: the date, a space and the time
/// without its fraction (`2024-01-02T10:20:30.5Z` reads `2024-01-02
/// 10:20:30`), or the timestamp as it is when it has no `T`.
pub open spec fn cp_time_spec(ts: Seq<char>) -> Seq<char> {
    let t = first_char_pos(ts, 'T', 0);
    if t >= ts.len() {
        ts
    } else {
        let rest = ts.subrange(t + 1, first_char_pos(ts, 'T', t + 1));
        ts.subrange(0, t) + " "@ + rest.subrange(0, first_char_pos(rest, '.', 0))
    }
}

/// The position of the first `c` at or after `i` in `s`, or its length.
fn char_pos(s: &str, c: char, i: usize) -> (r: usize)
    requires
        i <= s@.len(),
    ensures
        r == first_char_pos(s@, c, i as int),
        i <= r <= s@.len(),
{
    let n = s.unicode_len();
    let mut j = i;
    while j < n && s.get_char(j) != c
        invariant
            n == s@.len(),
            i <= j <= n,
            first_char_pos(s@, c, i as int) == first_char_pos(s@, c, j as int),
        decreases n - j,
    {
        j = j + 1;
    }
    j
}

/// A checkpoint's creation time as listed.
pub fn cp_time(ts: &str) -> (r: String)
    ensures
        r@ == cp_time_spec(ts@),
{
    let n = ts.unicode_len();
    let t = char_pos(ts, 'T', 0);
    if t >= n {
        return String::from_str(ts);
    }
    let e = char_pos(ts, 'T', t + 1);
    let rest = ts.substring_char(t + 1, e);
    let d = char_pos(rest, '.', 0);
    let mut out = String::from_str(ts.substring_char(0, t));
    out.append(" ");
    out.append(rest.substring_char(0, d));
    out
}

/// The short form of a checkpoint id: its first eight bytes.
pub fn short_id(id: &str) -> (r: &str)
    requires
        prefix_at_boundary(id@, 8),
    ensures
        r@ == byte_prefix(id@, 8),
{
    prefix_bytes(id, 8)
}

/// The name of the scratch copy of a checkpoint file: the first eight bytes
/// of its hash, `_`, and the file's name (`file` when the path has none).
/// None where eight bytes cut a character.
pub fn manifest_temp_name(hash: &str, path: &str) -> (r: Option<String>)
    ensures
        prefix_at_boundary(hash@, 8) ==> (r matches Some(n) && n@ == byte_prefix(hash@, 8) + "_"@
            + match crate::paths::path_file_name(path@) { Some(f) => f, None => "file"@ }),
        !prefix_at_boundary(hash@, 8) ==> r is None,
{
    match crate::text::head_bytes(hash, 8) {
        Some(h) => {
            let mut n = String::from_str(h);
            n.append("_");
            match crate::paths::file_name(path) {
                Some(f) => n.append(f.as_str()),
                None => n.append("file"),
            }
            Some(n)
        },
        None => None,
    }
}

} // verus!
