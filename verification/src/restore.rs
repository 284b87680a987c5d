//! Decisions of `mnem restore`: which action the options ask for, which
//! version a request designates, and the message that reports the outcome.

use vstd::prelude::*;
use crate::text::{strip_all, trim_start_matches, byte_prefix, prefix_at_boundary, prefix_bytes};
use crate::fmt::{decimal, push_decimal};

verus! {

/// Restore files to previous versions.
#[derive(Debug, Clone)]
pub struct RestoreCommand {
    /// File to restore
    pub file: Option<String>,
    /// Version number to restore
    pub version: Option<usize>,
    /// List available versions
    pub list: bool,
    /// Undo last change
    pub undo: bool,
    /// Restore to specific hash
    pub to: Option<String>,
    /// Symbol to restore
    pub symbol: Option<String>,
    /// Restore to checkpoint
    pub checkpoint: Option<String>,
    /// Filter by git branch
    pub branch: Option<String>,
    /// Maximum number of results
    pub limit: usize,
    /// Page number
    pub page: usize,
}

/// The file path as the project stores it: leading `.\` and then `./` removed.
pub open spec fn clean_path_spec(f: Seq<char>) -> Seq<char> {
    strip_all(strip_all(f, ".\\"@), "./"@)
}

/// `f.trim_start_matches(".\\").trim_start_matches("./")`.
pub fn clean_path(f: &str) -> (r: String)
    ensures
        r@ == clean_path_spec(f@),
{
    let a = trim_start_matches(f, ".\\");
    let b = trim_start_matches(a, "./");
    String::from_str(b)
}

/// What a `restore` invocation asks for.
#[derive(Debug)]
pub enum RestorePlan {
    /// Revert the whole project to a checkpoint.
    Checkpoint { checkpoint: String },
    /// No file was named.
    MissingFile,
    /// List the versions of a file, optionally on one branch.
    List { file: String, path: String, branch: Option<String> },
    /// Restore the version before the latest.
    Undo { file: String, path: String },
    /// Restore a given snapshot hash (of the whole file or of one symbol).
    ToHash { file: String, path: String, hash: String, symbol: Option<String> },
    /// Restore the `version`-th newest version.
    ToVersion { file: String, path: String, version: usize, symbol: Option<String> },
    /// No action was given: show usage.
    Usage,
}

/// The plan that `RestoreCommand::plan` makes.
pub open spec fn plan_spec(c: RestoreCommand, r: RestorePlan) -> bool {
    match c.checkpoint {
        Some(cp) => r matches RestorePlan::Checkpoint { checkpoint } && checkpoint == cp,
        None => match c.file {
            None => r is MissingFile,
            Some(f) => {
                let p = clean_path_spec(f@);
                if c.list {
                    r matches RestorePlan::List { file, path, branch }
                        && file == f && path@ == p && branch == c.branch
                } else if c.undo {
                    r matches RestorePlan::Undo { file, path } && file == f && path@ == p
                } else if c.to is Some {
                    r matches RestorePlan::ToHash { file, path, hash, symbol }
                        && file == f && path@ == p && hash == c.to->0 && symbol == c.symbol
                } else if c.version is Some {
                    r matches RestorePlan::ToVersion { file, path, version, symbol }
                        && file == f && path@ == p && version == c.version->0 && symbol == c.symbol
                } else {
                    r is Usage
                }
            },
        },
    }
}

impl RestoreCommand {
    /// Decide what the options ask for, in the order the command checks them:
    /// checkpoint, missing file, list, undo, hash, version.
    pub fn plan(&self) -> (r: RestorePlan)
        ensures
            plan_spec(*self, r),
    {
        match &self.checkpoint {
            Some(cp) => RestorePlan::Checkpoint { checkpoint: cp.clone() },
            None => match &self.file {
                None => RestorePlan::MissingFile,
                Some(f) => {
                    let path = clean_path(f.as_str());
                    if self.list {
                        RestorePlan::List { file: f.clone(), path, branch: self.branch.clone() }
                    } else if self.undo {
                        RestorePlan::Undo { file: f.clone(), path }
                    } else if let Some(h) = &self.to {
                        RestorePlan::ToHash { file: f.clone(), path, hash: h.clone(), symbol: self.symbol.clone() }
                    } else if let Some(v) = self.version {
                        RestorePlan::ToVersion { file: f.clone(), path, version: v, symbol: self.symbol.clone() }
                    } else {
                        RestorePlan::Usage
                    }
                },
            },
        }
    }
}

/// Why a restore request cannot be carried out.
#[derive(Debug, Clone, Copy, PartialEq, Eq, Structural)]
pub enum RestoreError {
    /// `--undo` with fewer than two versions.
    NoPreviousVersion,
    /// A version number of 0 or beyond the history.
    InvalidVersion,
    /// Neither the daemon nor the local database can be reached.
    Unavailable,
}

/// The text of each restore error.
pub open spec fn restore_error_text(e: RestoreError) -> Seq<char> {
    match e {
        RestoreError::NoPreviousVersion => "No previous version to restore"@,
        RestoreError::InvalidVersion => "Invalid version number. Use --list to see available versions."@,
        RestoreError::Unavailable => "Neither daemon nor local DB is available"@,
    }
}

impl RestoreError {
    /// The error's message.
    pub fn message(&self) -> (r: &'static str)
        ensures
            r@ == restore_error_text(*self),
    {
        match self {
            RestoreError::NoPreviousVersion => "No previous version to restore",
            RestoreError::InvalidVersion => "Invalid version number. Use --list to see available versions.",
            RestoreError::Unavailable => "Neither daemon nor local DB is available",
        }
    }
}

/// Index, in a newest-first history of `len` versions, of the version that
/// `--undo` restores: the second newest.
pub fn undo_target(len: usize) -> (r: Result<usize, RestoreError>)
    ensures
        len < 2 ==> r == Err::<usize, RestoreError>(RestoreError::NoPreviousVersion),
        len >= 2 ==> r == Ok::<usize, RestoreError>(1),
{
    if len < 2 {
        Err(RestoreError::NoPreviousVersion)
    } else {
        Ok(1)
    }
}

/// Index, in a newest-first history of `len` versions, of version number `v`
/// (1 is the newest).
pub fn version_target(v: usize, len: usize) -> (r: Result<usize, RestoreError>)
    ensures
        (v == 0 || v > len) ==> r == Err::<usize, RestoreError>(RestoreError::InvalidVersion),
        (1 <= v <= len) ==> r == Ok::<usize, RestoreError>((v - 1) as usize),
{
    if v == 0 || v > len {
        Err(RestoreError::InvalidVersion)
    } else {
        Ok(v - 1)
    }
}

/// How a checkpoint restore was carried out.
#[derive(Debug, Clone, Copy)]
pub enum CheckpointRestore {
    /// By the daemon, which reports no count.
    Daemon,
    /// From the local database, restoring this many files.
    Local(usize),
}

/// Message after restoring a checkpoint.
pub open spec fn checkpoint_message_spec(cp: Seq<char>, how: CheckpointRestore) -> Seq<char> {
    match how {
        CheckpointRestore::Daemon => "Restored project from checkpoint "@ + cp,
        CheckpointRestore::Local(n) => "Restored "@ + decimal(n as nat) + " files from checkpoint "@ + cp,
    }
}

/// Message after restoring a checkpoint.
pub fn checkpoint_message(cp: &str, how: CheckpointRestore) -> (r: String)
    ensures
        r@ == checkpoint_message_spec(cp@, how),
{
    let mut s = String::new();
    match how {
        CheckpointRestore::Daemon => {
            s.append("Restored project from checkpoint ");
        },
        CheckpointRestore::Local(n) => {
            s.append("Restored ");
            push_decimal(&mut s, n as u64);
            s.append(" files from checkpoint ");
        },
    }
    s.append(cp);
    assert(s@ =~= checkpoint_message_spec(cp@, how));
    s
}

/// Message after `--undo`, naming the timestamp of the restored version.
pub open spec fn undo_message_spec(path: Seq<char>, ts: Seq<char>) -> Seq<char> {
    "Restored "@ + path + " to version from "@ + ts
}

/// Message after `--undo`.
pub fn undo_message(path: &str, ts: &str) -> (r: String)
    ensures
        r@ == undo_message_spec(path@, ts@),
{
    let mut s = String::new();
    s.append("Restored ");
    s.append(path);
    s.append(" to version from ");
    s.append(ts);
    assert(s@ =~= undo_message_spec(path@, ts@));
    s
}

/// Message after `--to <hash>`, naming the first 8 bytes of the hash.
pub open spec fn to_hash_message_spec(path: Seq<char>, hash: Seq<char>, symbol: Option<Seq<char>>) -> Seq<char> {
    match symbol {
        Some(sym) => "Restored symbol '"@ + sym + "' in "@ + path + " to "@ + byte_prefix(hash, 8),
        None => "Restored "@ + path + " to "@ + byte_prefix(hash, 8),
    }
}

/// Message after `--to <hash>`.
pub fn to_hash_message(path: &str, hash: &str, symbol: Option<&str>) -> (r: String)
    requires
        prefix_at_boundary(hash@, 8),
    ensures
        r@ == to_hash_message_spec(path@, hash@, match symbol { Some(x) => Some(x@), None => None }),
{
    let mut s = String::new();
    match symbol {
        Some(sym) => {
            s.append("Restored symbol '");
            s.append(sym);
            s.append("' in ");
        },
        None => {
            s.append("Restored ");
        },
    }
    s.append(path);
    s.append(" to ");
    s.append(prefix_bytes(hash, 8));
    assert(s@ =~= to_hash_message_spec(path@, hash@, match symbol { Some(x) => Some(x@), None => None }));
    s
}

/// Message after restoring version number `v`.
pub open spec fn version_message_spec(path: Seq<char>, v: nat, symbol: Option<Seq<char>>) -> Seq<char> {
    match symbol {
        Some(sym) => "Restored symbol '"@ + sym + "' in "@ + path + " to version "@ + decimal(v),
        None => "Restored "@ + path + " to version "@ + decimal(v),
    }
}

/// Message after restoring version number `v`.
pub fn version_message(path: &str, v: usize, symbol: Option<&str>) -> (r: String)
    ensures
        r@ == version_message_spec(path@, v as nat, match symbol { Some(x) => Some(x@), None => None }),
{
    let mut s = String::new();
    match symbol {
        Some(sym) => {
            s.append("Restored symbol '");
            s.append(sym);
            s.append("' in ");
        },
        None => {
            s.append("Restored ");
        },
    }
    s.append(path);
    s.append(" to version ");
    push_decimal(&mut s, v as u64);
    assert(s@ =~= version_message_spec(path@, v as nat, match symbol { Some(x) => Some(x@), None => None }));
    s
}

} // verus!
