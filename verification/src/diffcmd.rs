//! `mnem d`: which two stored versions a diff compares, and how each line
//! of a unified diff is shown.

use vstd::prelude::*;
use crate::text::{has_prefix, starts_with};

verus! {

/// Why the requested versions cannot be compared.
#[derive(Debug, Clone, Copy, PartialEq, Eq, Structural)]
pub enum DiffRangeError {
    /// The `from` version is older than the `to` version.
    Reversed,
}

impl DiffRangeError {
    /// The error `mnem d` answers with.
    pub fn message(&self) -> (r: &'static str)
        ensures
            r@ == (match self {
                DiffRangeError::Reversed => "'from' version must be newer than 'to' version"@,
            }),
    {
        match self {
            DiffRangeError::Reversed => "'from' version must be newer than 'to' version",
        }
    }
}

/// The versions compared (numbered from 1, newest first): `from` defaults
/// to 2 and `to` to 1, both capped at the number of versions.
pub open spec fn diff_versions_spec(from: Option<usize>, to: Option<usize>, len: usize) -> Result<(usize, usize), DiffRangeError> {
    let f = match from { Some(f) => f, None => 2 };
    let t = match to { Some(t) => t, None => 1 };
    let f2 = if f < len { f } else { len };
    let t2 = if t < len { t } else { len };
    if f2 < t2 { Err(DiffRangeError::Reversed) } else { Ok((f2, t2)) }
}

/// The versions compared.
pub fn diff_versions(from: Option<usize>, to: Option<usize>, len: usize) -> (r: Result<(usize, usize), DiffRangeError>)
    ensures
        r == diff_versions_spec(from, to, len),
{
    let f = match from { Some(f) => f, None => 2 };
    let t = match to { Some(t) => t, None => 1 };
    let f2 = if f < len { f } else { len };
    let t2 = if t < len { t } else { len };
    if f2 < t2 { Err(DiffRangeError::Reversed) } else { Ok((f2, t2)) }
}

/// How a line of a unified diff is shown.
#[derive(Debug, Clone, Copy, PartialEq, Eq, Structural)]
pub enum DiffLineKind {
    Added,
    Removed,
    /// A hunk header (`@@`).
    Header,
    /// A file header (`+++` or `---`).
    FileHeader,
    Context,
}

/// How a line of a unified diff is shown.
pub open spec fn diff_line_kind_spec(line: Seq<char>) -> DiffLineKind {
    if has_prefix(line, "+"@) && !has_prefix(line, "+++"@) {
        DiffLineKind::Added
    } else if has_prefix(line, "-"@) && !has_prefix(line, "---"@) {
        DiffLineKind::Removed
    } else if has_prefix(line, "@@"@) {
        DiffLineKind::Header
    } else if has_prefix(line, "+++"@) || has_prefix(line, "---"@) {
        DiffLineKind::FileHeader
    } else {
        DiffLineKind::Context
    }
}

/// How a line of a unified diff is shown.
pub fn diff_line_kind(line: &str) -> (r: DiffLineKind)
    ensures
        r == diff_line_kind_spec(line@),
{
    if starts_with(line, "+") && !starts_with(line, "+++") {
        DiffLineKind::Added
    } else if starts_with(line, "-") && !starts_with(line, "---") {
        DiffLineKind::Removed
    } else if starts_with(line, "@@") {
        DiffLineKind::Header
    } else if starts_with(line, "+++") || starts_with(line, "---") {
        DiffLineKind::FileHeader
    } else {
        DiffLineKind::Context
    }
}

/// How `mnem diff` shows a line of the daemon's diff: by its first
/// character alone (`@@` opens a hunk header).
pub open spec fn plain_line_kind_spec(line: Seq<char>) -> DiffLineKind {
    if has_prefix(line, "+"@) {
        DiffLineKind::Added
    } else if has_prefix(line, "-"@) {
        DiffLineKind::Removed
    } else if has_prefix(line, "@@"@) {
        DiffLineKind::Header
    } else {
        DiffLineKind::Context
    }
}

/// How `mnem diff` shows a line of the daemon's diff.
pub fn plain_line_kind(line: &str) -> (r: DiffLineKind)
    ensures
        r == plain_line_kind_spec(line@),
{
    if starts_with(line, "+") {
        DiffLineKind::Added
    } else if starts_with(line, "-") {
        DiffLineKind::Removed
    } else if starts_with(line, "@@") {
        DiffLineKind::Header
    } else {
        DiffLineKind::Context
    }
}

} // verus!
