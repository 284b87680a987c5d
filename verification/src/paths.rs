//! File paths as the commands show and filter them.

use vstd::prelude::*;
use crate::text::{has_substring, contains, has_prefix, starts_with, str_eq, remove_all, remove_all_spec};

verus! {

/// The last component of a path as `Path::file_name` reads it (none for a
/// path that is empty, a root, or ends in `..`).
pub uninterp spec fn path_file_name(p: Seq<char>) -> Option<Seq<char>>;

/// `Path::new(path).file_name()`, as text. The contract names the result.
#[verifier::external_body]
pub(crate) fn file_name(path: &str) -> (r: Option<String>)
    ensures
        match r {
            Some(n) => path_file_name(path@) == Some(n@),
            None => path_file_name(path@) is None,
        },
{
    match std::path::Path::new(path).file_name() {
        Some(n) => Some(n.to_string_lossy().to_string()),
        None => None,
    }
}

/// The name a path is listed under: its last component, or the whole path
/// when it has none.
pub fn get_filename(path: &str) -> (r: String)
    ensures
        r@ == match path_file_name(path@) {
            Some(n) => n,
            None => path@,
        },
{
    match file_name(path) {
        Some(n) => n,
        None => String::from_str(path),
    }
}

/// Whether the watcher skips a changed path: it lies under a version-control,
/// build, editor or temporary directory, or is a log, backup, swap or
/// Finder file.
pub open spec fn should_ignore_spec(p: Seq<char>) -> bool {
    ||| has_substring(p, ".git/"@)
    ||| has_substring(p, ".mnemosyne/"@)
    ||| has_substring(p, "target/"@)
    ||| has_substring(p, "node_modules/"@)
    ||| has_substring(p, ".idea/"@)
    ||| has_substring(p, ".vscode/"@)
    ||| has_substring(p, "tmp/"@)
    ||| has_substring(p, "temp/"@)
    ||| has_substring(p, ".log"@)
    ||| has_substring(p, ".tmp"@)
    ||| has_substring(p, ".bak"@)
    ||| has_substring(p, ".swp"@)
    ||| has_substring(p, ".swo"@)
    ||| has_substring(p, ".DS_Store"@)
}

/// Whether the watcher skips a changed path.
pub fn should_ignore(path: &str) -> (r: bool)
    ensures
        r == should_ignore_spec(path@),
{
    contains(path, ".git/") || contains(path, ".mnemosyne/") || contains(path, "target/")
        || contains(path, "node_modules/") || contains(path, ".idea/") || contains(path, ".vscode/")
        || contains(path, "tmp/") || contains(path, "temp/") || contains(path, ".log")
        || contains(path, ".tmp") || contains(path, ".bak") || contains(path, ".swp")
        || contains(path, ".swo") || contains(path, ".DS_Store")
}

/// The text after the last `.` of `s` (all of `s` when it has none).
pub open spec fn after_last_dot(s: Seq<char>) -> Seq<char>
    decreases s.len(),
{
    if s.len() == 0 {
        s
    } else if s.last() == '.' {
        Seq::empty()
    } else {
        after_last_dot(s.drop_last()).push(s.last())
    }
}

/// `path.split('.').last()`: the extension, or the whole path without a dot.
pub fn extension(path: &str) -> (r: &str)
    ensures
        r@ == after_last_dot(path@),
{
    let n = path.unicode_len();
    let mut i = n;
    assert(path@.subrange(0, n as int) =~= path@);
    assert(after_last_dot(path@) =~= after_last_dot(path@.subrange(0, n as int)) + path@.subrange(n as int, n as int));
    while i > 0
        invariant
            n == path@.len(),
            i <= n,
            after_last_dot(path@) == after_last_dot(path@.subrange(0, i as int)) + path@.subrange(i as int, n as int),
        decreases i,
    {
        let ghost t = path@.subrange(0, i as int);
        assert(t.drop_last() =~= path@.subrange(0, i - 1));
        if path.get_char(i - 1) == '.' {
            assert(after_last_dot(t) =~= Seq::<char>::empty());
            let r = path.substring_char(i, n);
            assert(r@ =~= after_last_dot(path@));
            return r;
        }
        assert(after_last_dot(t) == after_last_dot(path@.subrange(0, i - 1)).push(path@[i - 1]));
        assert(after_last_dot(path@.subrange(0, i - 1)).push(path@[i - 1]) + path@.subrange(i as int, n as int)
            =~= after_last_dot(path@.subrange(0, i - 1)) + path@.subrange(i - 1, n as int));
        i = i - 1;
    }
    assert(path@.subrange(0, 0) =~= Seq::<char>::empty());
    assert(path@.subrange(0, n as int) =~= path@);
    path
}

/// Whether the preview colours a file with the built-in tree-sitter
/// highlighter (Rust and Ruby files) rather than with syntect.
pub fn uses_tree_sitter(path: &str) -> (r: bool)
    ensures
        r == (after_last_dot(path@) == "rs"@ || after_last_dot(path@) == "rb"@),
{
    let ext = extension(path);
    str_eq(ext, "rs") || str_eq(ext, "rb")
}

/// The path with one leading `.\` or `./` removed.
pub open spec fn strip_dot_prefix_spec(f: Seq<char>) -> Seq<char> {
    if has_prefix(f, ".\\"@) || has_prefix(f, "./"@) { f.subrange(2, f.len() as int) } else { f }
}

/// The path with one leading `.\` or `./` removed.
pub fn strip_dot_prefix(f: &str) -> (r: &str)
    ensures
        r@ == strip_dot_prefix_spec(f@),
{
    if starts_with(f, ".\\") || starts_with(f, "./") {
        proof {
            reveal_strlit(".\\");
            reveal_strlit("./");
        }
        f.substring_char(2, f.unicode_len())
    } else {
        f
    }
}

/// Whether the components of `base` begin the components of `path`, as
/// `Path::starts_with` compares them (whole components only).
pub uninterp spec fn path_within(path: Seq<char>, base: Seq<char>) -> bool;

/// `Path::new(path).starts_with(base)`. The contract names the result.
#[verifier::external_body]
pub(crate) fn path_starts_with(path: &str, base: &str) -> (r: bool)
    ensures
        r == path_within(path@, base@),
{
    std::path::Path::new(path).starts_with(std::path::Path::new(base))
}

/// What is left of `path` once the components of `base` are taken off its
/// front, as `Path::strip_prefix` gives it.
pub uninterp spec fn path_below(path: Seq<char>, base: Seq<char>) -> Seq<char>;

/// `Path::new(path).strip_prefix(base)`, as text. The contract names the
/// rest, and states what the documentation gives: there is one exactly when
/// `path` starts with `base`.
#[verifier::external_body]
pub(crate) fn strip_path_prefix(path: &str, base: &str) -> (r: Option<String>)
    ensures
        match r {
            Some(rest) => path_within(path@, base@) && rest@ == path_below(path@, base@),
            None => !path_within(path@, base@),
        },
{
    match std::path::Path::new(path).strip_prefix(std::path::Path::new(base)) {
        Ok(rest) => Some(rest.to_string_lossy().to_string()),
        Err(_) => None,
    }
}

/// A path as it is shown relative to `base`: what follows `base` when the
/// path lies below it, else the path itself.
pub open spec fn relative_spec(path: Seq<char>, base: Seq<char>) -> Seq<char> {
    if path_within(path, base) { path_below(path, base) } else { path }
}

/// A path as it is shown relative to `base`.
pub fn relative_to(path: &str, base: &str) -> (r: String)
    ensures
        r@ == relative_spec(path@, base@),
{
    match strip_path_prefix(path, base) {
        Some(rest) => rest,
        None => String::from_str(path),
    }
}

/// A file of a checkpoint as its details list it: the path without the
/// `\\?\` marks of extended Windows paths, relative to `base`.
pub fn checkpoint_file_path(path: &str, base: &str) -> (r: String)
    ensures
        r@ == relative_spec(remove_all_spec(path@, "\\\\?\\"@), base@),
{
    let p = remove_all(path, "\\\\?\\");
    relative_to(p.as_str(), base)
}

} // verus!
