//! `mnem update`: comparing the running version with the latest release,
//! choosing the release archive for this machine, and checking that the
//! archive held every program.

use vstd::prelude::*;
use crate::text::{has_prefix, has_suffix, has_substring, starts_with, ends_with, contains, str_eq,
    lowercase, to_lowercase, strip_all, trim_start_matches};
use crate::timeline::strings_view;
use crate::paths::{path_file_name, file_name};

verus! {

/// The answer of `mnem update`.
#[derive(Debug, Clone)]
pub struct UpdateResponse {
    pub success: bool,
    pub current_version: String,
    pub latest_version: String,
    pub update_available: bool,
    pub message: String,
    pub check_only: bool,
}

/// The version a release tag names: the tag without its leading `v`s.
pub fn release_version(tag: &str) -> (r: &str)
    ensures
        r@ == strip_all(tag@, "v"@),
{
    trim_start_matches(tag, "v")
}

impl UpdateResponse {
    /// The answer after looking up the latest release `tag`: an update is
    /// available when its version differs from `current`.
    pub fn checked(current: &str, tag: &str, check_only: bool) -> (r: UpdateResponse)
        ensures
            r.success,
            r.current_version@ == current@,
            r.latest_version@ == strip_all(tag@, "v"@),
            r.update_available == (strip_all(tag@, "v"@) != current@),
            r.message@ == (if r.update_available { "New version available"@ } else { "Already on latest version"@ }),
            r.check_only == check_only,
    {
        let latest = release_version(tag);
        let update_available = !str_eq(latest, current);
        UpdateResponse {
            success: true,
            current_version: String::from_str(current),
            latest_version: String::from_str(latest),
            update_available,
            message: String::from_str(if update_available { "New version available" } else { "Already on latest version" }),
            check_only,
        }
    }

    /// Records how installing the update went.
    pub fn installed(&mut self, result: Result<(), String>)
        ensures
            final(self).success == (result is Ok),
            final(self).message@ == (match result {
                Ok(_) => "Update installed successfully"@,
                Err(e) => "Installation failed: "@ + e@,
            }),
            final(self).current_version == old(self).current_version,
            final(self).latest_version == old(self).latest_version,
            final(self).update_available == old(self).update_available,
            final(self).check_only == old(self).check_only,
    {
        match result {
            Ok(_) => {
                self.success = true;
                self.message = String::from_str("Update installed successfully");
            },
            Err(e) => {
                self.success = false;
                let mut m = String::from_str("Installation failed: ");
                m.append(e.as_str());
                self.message = m;
            },
        }
    }
}

/// Whether an asset is the archive for `platform` and `arch`: its name, in
/// lowercase, starts with `mnem-`, names both and ends with `.zip`.
pub open spec fn unix_asset_match(name: Seq<char>, platform: Seq<char>, arch: Seq<char>) -> bool {
    let n = lowercase(name);
    has_prefix(n, "mnem-"@) && has_substring(n, platform) && has_substring(n, arch) && has_suffix(n, ".zip"@)
}

/// The archive picked for a Unix platform is a zip file named for the
/// program, the platform and the architecture: its lowercase name starts
/// with `mnem-`, contains both and ends with `.zip`; so a `.tar.gz` asset
/// is never picked. Any name of that form is picked.
pub proof fn law_unix_asset_is_the_zip(name: Seq<char>, platform: Seq<char>, arch: Seq<char>)
    ensures
        unix_asset_match(name, platform, arch) ==> has_suffix(lowercase(name), ".zip"@),
        unix_asset_match(name, platform, arch) ==> has_prefix(lowercase(name), "mnem-"@),
        unix_asset_match(name, platform, arch) ==> has_substring(lowercase(name), platform)
            && has_substring(lowercase(name), arch),
        has_suffix(lowercase(name), ".tar.gz"@) ==> !unix_asset_match(name, platform, arch),
        has_prefix(lowercase(name), "mnem-"@) && has_substring(lowercase(name), platform)
            && has_substring(lowercase(name), arch) && has_suffix(lowercase(name), ".zip"@)
            ==> unix_asset_match(name, platform, arch),
{
    let n = lowercase(name);
    if has_suffix(n, ".tar.gz"@) && has_suffix(n, ".zip"@) {
        reveal_strlit(".tar.gz");
        reveal_strlit(".zip");
        assert(n.last() == 'z') by {
            assert(n.subrange(n.len() - 7, n.len() as int)[6] == 'z');
        }
        assert(n.last() == 'p') by {
            assert(n.subrange(n.len() - 4, n.len() as int)[3] == 'p');
        }
    }
}

/// The error when no archive fits.
pub open spec fn unix_asset_error(platform: Seq<char>, arch: Seq<char>) -> Seq<char> {
    "ZIP asset not found in release for "@ + platform + "-"@ + arch + ". Expected mnem-"@ + platform + "-"@ + arch
        + ".zip"@
}

/// The first release asset (by position among `names`) that is the archive
/// for `platform` and `arch`, or the error that says which was expected.
pub fn find_unix_zip_asset(names: &Vec<String>, platform: &str, arch: &str) -> (r: Result<usize, String>)
    ensures
        match r {
            Ok(i) => i < names@.len() && unix_asset_match(names@[i as int]@, platform@, arch@)
                && forall|j: int| 0 <= j < i ==> !unix_asset_match(names@[j]@, platform@, arch@),
            Err(e) => e@ == unix_asset_error(platform@, arch@)
                && forall|j: int| 0 <= j < names@.len() ==> !unix_asset_match(names@[j]@, platform@, arch@),
        },
{
    let mut i: usize = 0;
    while i < names.len()
        invariant
            i <= names@.len(),
            forall|j: int| 0 <= j < i ==> !unix_asset_match(names@[j]@, platform@, arch@),
        decreases names@.len() - i,
    {
        let n = to_lowercase(names[i].as_str());
        let s = n.as_str();
        if starts_with(s, "mnem-") && contains(s, platform) && contains(s, arch) && ends_with(s, ".zip") {
            return Ok(i);
        }
        i = i + 1;
    }
    let mut e = String::from_str("ZIP asset not found in release for ");
    e.append(platform);
    e.append("-");
    e.append(arch);
    e.append(". Expected mnem-");
    e.append(platform);
    e.append("-");
    e.append(arch);
    e.append(".zip");
    Err(e)
}

/// Whether an asset is the Windows archive: its name, in lowercase, names
/// `windows` and ends with `.zip`.
pub open spec fn windows_asset_match(name: Seq<char>) -> bool {
    has_substring(lowercase(name), "windows"@) && has_suffix(lowercase(name), ".zip"@)
}

/// The archive picked for Windows is a zip file that names Windows: its
/// lowercase name contains `windows` and ends with `.zip`, so a `.tar.gz`
/// asset is never picked; any such name is picked.
pub proof fn law_windows_asset_is_the_zip(name: Seq<char>)
    ensures
        windows_asset_match(name) ==> has_suffix(lowercase(name), ".zip"@)
            && has_substring(lowercase(name), "windows"@),
        has_suffix(lowercase(name), ".tar.gz"@) ==> !windows_asset_match(name),
        has_substring(lowercase(name), "windows"@) && has_suffix(lowercase(name), ".zip"@)
            ==> windows_asset_match(name),
{
    let n = lowercase(name);
    if has_suffix(n, ".tar.gz"@) && has_suffix(n, ".zip"@) {
        reveal_strlit(".tar.gz");
        reveal_strlit(".zip");
        assert(n.last() == 'z') by {
            assert(n.subrange(n.len() - 7, n.len() as int)[6] == 'z');
        }
        assert(n.last() == 'p') by {
            assert(n.subrange(n.len() - 4, n.len() as int)[3] == 'p');
        }
    }
}

/// The first release asset that is the Windows archive, or the error that
/// names the release.
pub fn find_windows_zip_asset(names: &Vec<String>, tag: &str) -> (r: Result<usize, String>)
    ensures
        match r {
            Ok(i) => i < names@.len() && windows_asset_match(names@[i as int]@)
                && forall|j: int| 0 <= j < i ==> !windows_asset_match(names@[j]@),
            Err(e) => e@ == "Windows zip asset not found in release '"@ + tag@
                + "'. Expected an asset whose name contains 'windows' and ends with '.zip'."@
                && forall|j: int| 0 <= j < names@.len() ==> !windows_asset_match(names@[j]@),
        },
{
    let mut i: usize = 0;
    while i < names.len()
        invariant
            i <= names@.len(),
            forall|j: int| 0 <= j < i ==> !windows_asset_match(names@[j]@),
        decreases names@.len() - i,
    {
        let n = to_lowercase(names[i].as_str());
        if contains(n.as_str(), "windows") && ends_with(n.as_str(), ".zip") {
            return Ok(i);
        }
        i = i + 1;
    }
    let mut e = String::from_str("Windows zip asset not found in release '");
    e.append(tag);
    e.append("'. Expected an asset whose name contains 'windows' and ends with '.zip'.");
    Err(e)
}

/// The required programs that are not among the extracted file names, in
/// the order they are required.
pub open spec fn missing_spec(required: Seq<Seq<char>>, extracted: Seq<Seq<char>>) -> Seq<Seq<char>>
    decreases required.len(),
{
    if required.len() == 0 {
        Seq::empty()
    } else {
        let m = missing_spec(required.drop_last(), extracted);
        if extracted.contains(required.last()) { m } else { m.push(required.last()) }
    }
}

/// The required programs that the archive did not hold.
pub fn missing_binaries(required: &Vec<String>, extracted: &Vec<String>) -> (r: Vec<String>)
    ensures
        strings_view(r@) == missing_spec(strings_view(required@), strings_view(extracted@)),
{
    let ghost rv = strings_view(required@);
    let mut out: Vec<String> = Vec::new();
    let mut i: usize = 0;
    assert(strings_view(out@) =~= missing_spec(rv.subrange(0, 0), strings_view(extracted@)));
    while i < required.len()
        invariant
            i <= required@.len(),
            rv == strings_view(required@),
            strings_view(out@) == missing_spec(rv.subrange(0, i as int), strings_view(extracted@)),
        decreases required@.len() - i,
    {
        assert(rv.subrange(0, i + 1).drop_last() =~= rv.subrange(0, i as int));
        if !crate::search::contains_str(extracted, required[i].as_str()) {
            let ghost before = strings_view(out@);
            out.push(required[i].clone());
            assert(strings_view(out@) =~= before.push(rv[i as int]));
        }
        i = i + 1;
    }
    assert(rv.subrange(0, required@.len() as int) =~= rv);
    out
}

/// The error that lists the missing programs, separated by commas.
pub fn missing_error(missing: &Vec<String>) -> (r: String)
    ensures
        r@ == "The following binaries were not found in the archive: "@ + joined(strings_view(missing@)),
{
    let mut e = String::from_str("The following binaries were not found in the archive: ");
    let ghost head = e@;
    let mut i: usize = 0;
    while i < missing.len()
        invariant
            i <= missing@.len(),
            e@ == head + joined(strings_view(missing@).subrange(0, i as int)),
        decreases missing@.len() - i,
    {
        let ghost sv = strings_view(missing@);
        assert(sv.subrange(0, i + 1).drop_last() =~= sv.subrange(0, i as int));
        if i > 0 {
            e.append(", ");
        }
        e.append(missing[i].as_str());
        i = i + 1;
        assert(e@ =~= head + joined(sv.subrange(0, i as int)));
    }
    assert(strings_view(missing@).subrange(0, missing@.len() as int) =~= strings_view(missing@));
    e
}

/// The programs a release archive must hold on Windows or elsewhere.
pub fn required_binaries(windows: bool) -> (r: Vec<String>)
    ensures
        strings_view(r@) == (if windows {
            seq!["mnem.exe"@, "mnem-daemon.exe"@]
        } else {
            seq!["mnem"@, "mnem-daemon"@]
        }),
{
    let r = if windows {
        vec![String::from_str("mnem.exe"), String::from_str("mnem-daemon.exe")]
    } else {
        vec![String::from_str("mnem"), String::from_str("mnem-daemon")]
    };
    assert(strings_view(r@) =~= (if windows {
        seq!["mnem.exe"@, "mnem-daemon.exe"@]
    } else {
        seq!["mnem"@, "mnem-daemon"@]
    }));
    r
}

/// The platform and architecture names that release archives use for this
/// machine: `macos` or `linux`, `arm64` or `x86_64`.
pub fn unix_platform(macos: bool, aarch64: bool) -> (r: (&'static str, &'static str))
    ensures
        r.0@ == (if macos { "macos"@ } else { "linux"@ }),
        r.1@ == (if aarch64 { "arm64"@ } else { "x86_64"@ }),
{
    (if macos { "macos" } else { "linux" }, if aarch64 { "arm64" } else { "x86_64" })
}

/// The program an archive entry holds, when it is one of the required
/// ones: the entry's file name.
pub fn wanted_member(entry: &str, required: &Vec<String>) -> (r: Option<String>)
    ensures
        match r {
            Some(n) => path_file_name(entry@) == Some(n@) && strings_view(required@).contains(n@),
            None => match path_file_name(entry@) {
                Some(n) => !strings_view(required@).contains(n),
                None => true,
            },
        },
{
    match file_name(entry) {
        Some(n) => {
            if crate::search::contains_str(required, n.as_str()) {
                Some(n)
            } else {
                None
            }
        },
        None => None,
    }
}

/// The texts separated by `, ` (`join(", ")`).
pub open spec fn joined(v: Seq<Seq<char>>) -> Seq<char>
    decreases v.len(),
{
    if v.len() == 0 {
        Seq::empty()
    } else if v.len() == 1 {
        v[0]
    } else {
        joined(v.drop_last()) + ", "@ + v.last()
    }
}

} // verus!
