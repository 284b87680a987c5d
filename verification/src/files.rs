//! The small decisions of the file commands (`log`, `diff`, `open`,
//! `timeline`): which arguments they read and how they name things.

use vstd::prelude::*;
use crate::text::{str_eq, can_slice, bytes_text, try_slice, utf8_len};
use crate::timeline::{opt_view, strings_view};
use crate::tui::Ide;
use crate::dates::{rfc3339_minute_label, minute_label};
use crate::info::{path_extension, extension_of};

verus! {

/// The argument after the first `--symbol` or `-s`, if there is one.
pub open spec fn symbol_arg_spec(args: Seq<Seq<char>>) -> Option<Seq<char>> {
    if exists|i: int| 0 <= i < args.len() && (args[i] == "--symbol"@ || args[i] == "-s"@) {
        let i = choose|i: int| 0 <= i < args.len() && (args[i] == "--symbol"@ || args[i] == "-s"@)
            && forall|j: int| 0 <= j < i ==> !(args[j] == "--symbol"@ || args[j] == "-s"@);
        if i + 1 < args.len() { Some(args[i + 1]) } else { None }
    } else {
        None
    }
}

/// The symbol that `mnem log --symbol <name>` asks about.
pub fn symbol_arg(args: &Vec<String>) -> (r: Option<String>)
    ensures
        opt_view(r) == symbol_arg_spec(strings_view(args@)),
{
    let ghost av = strings_view(args@);
    let mut i: usize = 0;
    while i < args.len()
        invariant
            i <= args@.len(),
            av == strings_view(args@),
            forall|j: int| 0 <= j < i ==> !(av[j] == "--symbol"@ || av[j] == "-s"@),
        decreases args@.len() - i,
    {
        if str_eq(args[i].as_str(), "--symbol") || str_eq(args[i].as_str(), "-s") {
            proof {
                let c = choose|c: int| 0 <= c < av.len() && (av[c] == "--symbol"@ || av[c] == "-s"@)
                    && forall|j: int| 0 <= j < c ==> !(av[j] == "--symbol"@ || av[j] == "-s"@);
                assert(av[i as int] == args@[i as int]@);
                if c < i { assert(!(av[c] == "--symbol"@ || av[c] == "-s"@)); }
                if c > i { assert(!(av[i as int] == "--symbol"@ || av[i as int] == "-s"@)); }
            }
            if i + 1 < args.len() {
                return Some(args[i + 1].clone());
            }
            return None;
        }
        i = i + 1;
    }
    None
}

/// What `mnem log` was asked for.
#[derive(Debug, Clone)]
pub enum LogRequest {
    /// Too few arguments: the usage is shown.
    Usage,
    /// The history of a symbol (`--symbol <name>` or `-s <name>`).
    Symbol(String),
    /// The history of the file named by the third argument.
    File(String),
}

/// The line `mnem log` prints when it is given neither a file nor a symbol.
pub fn log_usage() -> (r: &'static str)
    ensures
        r@ == "Usage: mnem log <file_path> or mnem log --symbol <name>"@,
{
    "Usage: mnem log <file_path> or mnem log --symbol <name>"
}

/// What `mnem log` was asked for: the usage below three arguments, then a
/// symbol when one is named, then the file.
pub fn log_request(args: &Vec<String>) -> (r: LogRequest)
    ensures
        args@.len() < 3 ==> r is Usage,
        args@.len() >= 3 ==> match symbol_arg_spec(strings_view(args@)) {
            Some(name) => r matches LogRequest::Symbol(x) && x@ == name,
            None => r matches LogRequest::File(f) && f@ == args@[2]@,
        },
{
    if args.len() < 3 {
        return LogRequest::Usage;
    }
    match symbol_arg(args) {
        Some(name) => LogRequest::Symbol(name),
        None => LogRequest::File(args[2].clone()),
    }
}

/// What `mnem diff <file> <hash1> [hash2]` compares the first version with.
#[derive(Debug, Clone)]
pub enum DiffTarget {
    /// The second hash given.
    Hash(String),
    /// The file as it is on disk.
    Disk,
}

/// What the first version is compared with: the fifth argument, else the disk.
pub fn diff_target(args: &Vec<String>) -> (r: DiffTarget)
    ensures
        match r {
            DiffTarget::Hash(h) => args@.len() > 4 && h@ == args@[4]@,
            DiffTarget::Disk => args@.len() <= 4,
        },
{
    if args.len() > 4 {
        DiffTarget::Hash(args[4].clone())
    } else {
        DiffTarget::Disk
    }
}

/// The name of the temporary file a snapshot is opened from:
/// `mnem_snap_<first 8 bytes of the hash>.<extension>` (`txt` without one;
/// the whole hash when it has 8 bytes or fewer). None where eight bytes cut
/// a character.
pub open spec fn temp_name_spec(hash: Seq<char>, ext: Option<Seq<char>>) -> Option<Seq<char>> {
    let e = match ext { Some(e) => e, None => "txt"@ };
    if utf8_len(hash) > 8 {
        if can_slice(hash, 0, 8) { Some("mnem_snap_"@ + bytes_text(hash, 0, 8) + "."@ + e) } else { None }
    } else {
        Some("mnem_snap_"@ + hash + "."@ + e)
    }
}

/// The name of the temporary file a snapshot is opened from.
pub fn snapshot_temp_name(hash: &str, ext: Option<&str>) -> (r: Option<String>)
    ensures
        opt_view(r) == temp_name_spec(hash@, match ext { Some(e) => Some(e@), None => None }),
{
    let prefix: &str = if hash.as_bytes().len() > 8 {
        match try_slice(hash, 0, 8) {
            Some(p) => p,
            None => { return None; },
        }
    } else {
        hash
    };
    let mut name = String::from_str("mnem_snap_");
    name.append(prefix);
    name.append(".");
    name.append(match ext { Some(e) => e, None => "txt" });
    Some(name)
}

/// The name of the temporary file that the snapshot `hash` of the file at
/// `file_path` is opened from: named after the file's extension.
pub fn snapshot_temp_name_for(hash: &str, file_path: &str) -> (r: Option<String>)
    ensures
        opt_view(r) == temp_name_spec(hash@, path_extension(file_path@)),
{
    match extension_of(file_path) {
        Some(e) => snapshot_temp_name(hash, Some(e.as_str())),
        None => snapshot_temp_name(hash, None),
    }
}

/// The application that opens files for an editor on macOS.
pub fn ide_app_name(ide: Ide) -> (r: &'static str)
    ensures
        r@ == (match ide {
            Ide::Zed => "Zed"@,
            Ide::VsCode => "Visual Studio Code"@,
            Ide::ZedPreview => "Zed Preview"@,
        }),
{
    match ide {
        Ide::Zed => "Zed",
        Ide::VsCode => "Visual Studio Code",
        Ide::ZedPreview => "Zed Preview",
    }
}

/// How a symbol changed.
#[derive(Debug, Clone, Copy, PartialEq, Eq, Structural)]
pub enum RecordKind {
    Added,
    Modified,
    Deleted,
    Renamed,
}

/// The label of a change in the semantic timeline.
pub fn record_label(k: RecordKind) -> (r: &'static str)
    ensures
        r@ == (match k {
            RecordKind::Added => "CREATED"@,
            RecordKind::Modified => "MODIFIED"@,
            RecordKind::Deleted => "DELETED"@,
            RecordKind::Renamed => "RENAMED"@,
        }),
{
    match k {
        RecordKind::Added => "CREATED",
        RecordKind::Modified => "MODIFIED",
        RecordKind::Deleted => "DELETED",
        RecordKind::Renamed => "RENAMED",
    }
}

/// The name shown for a change: `old → new` for a rename, else the name.
pub fn change_name(name: &str, new_name: Option<&str>) -> (r: String)
    ensures
        r@ == (match new_name { Some(n) => name@ + " → "@ + n@, None => name@ }),
{
    let mut s = String::from_str(name);
    if let Some(n) = new_name {
        s.append(" → ");
        s.append(n);
    }
    s
}

/// When a version was stored, to the minute: chrono's reading of the
/// timestamp, or else the timestamp as it is.
pub fn log_time(ts: &str) -> (r: String)
    ensures
        r@ == (match rfc3339_minute_label(ts@) { Some(l) => l, None => ts@ }),
{
    match minute_label(ts) {
        Some(l) => l,
        None => String::from_str(ts),
    }
}

} // verus!
