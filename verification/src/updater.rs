//! Finding, naming and unpacking rust-analyzer releases.
use vstd::prelude::*;
use crate::json::JsonValue;
use crate::paths::{extension_of, file_name_of, path_extension, path_file_name};
use crate::text::{chars_of, ends_with, has_suffix, str_eq, string_from_chars, trim, trim_chars};

verus! {

/// Why an update step failed.
pub enum UpdateError {
    /// The release answer has no `tag_name` text.
    NoTagName,
    /// The downloaded archive holds no rust-analyzer binary.
    BinaryNotInArchive,
}

impl UpdateError {
    pub fn message(&self) -> (r: String)
        ensures
            r@ == match self {
                UpdateError::NoTagName => "No tag_name in response"@,
                UpdateError::BinaryNotInArchive => "rust-analyzer binary not found in archive"@,
            },
    {
        match self {
            UpdateError::NoTagName => String::from_str("No tag_name in response"),
            UpdateError::BinaryNotInArchive => String::from_str(
                "rust-analyzer binary not found in archive",
            ),
        }
    }
}

/// A file attached to a release.
pub struct Asset {
    pub name: String,
    pub browser_download_url: String,
}

/// The tag of the latest release, from the answer of the releases API.
pub fn release_tag(resp: &JsonValue) -> (r: Result<String, UpdateError>)
    ensures
        match resp.view().field_str("tag_name"@) {
            Some(t) => r matches Ok(s) && s@ == t,
            None => r matches Err(UpdateError::NoTagName),
        },
{
    match resp.get_str("tag_name") {
        Some(t) => Ok(String::from_str(t)),
        None => Err(UpdateError::NoTagName),
    }
}

/// The platform names and archive extension of the release asset to fetch
/// for an operating system and architecture; Linux on x86_64 for any other.
pub open spec fn asset_platform(os: Seq<char>, arch: Seq<char>) -> (Seq<char>, Seq<char>, Seq<char>) {
    if os == "linux"@ && arch == "x86_64"@ {
        ("linux"@, "x86_64"@, "gz"@)
    } else if os == "linux"@ && arch == "aarch64"@ {
        ("linux"@, "aarch64"@, "gz"@)
    } else if os == "macos"@ && arch == "x86_64"@ {
        ("macos"@, "x86_64"@, "gz"@)
    } else if os == "macos"@ && arch == "aarch64"@ {
        ("macos"@, "aarch64"@, "gz"@)
    } else if os == "windows"@ && arch == "x86_64"@ {
        ("windows"@, "x86_64"@, "zip"@)
    } else {
        ("linux"@, "x86_64"@, "gz"@)
    }
}

pub open spec fn download_url(tag: Seq<char>, os: Seq<char>, arch: Seq<char>) -> Seq<char> {
    let (o, a, e) = asset_platform(os, arch);
    "https://github.com/rust-lang/rust-analyzer/releases/download/"@ + tag + "/rust-analyzer-"@ + o
        + "-"@ + a + "-"@ + o + "."@ + e
}

fn platform_names(os: &str, arch: &str) -> (r: (&'static str, &'static str, &'static str))
    ensures
        (r.0@, r.1@, r.2@) == asset_platform(os@, arch@),
{
    let linux = str_eq(os, "linux");
    let macos = str_eq(os, "macos");
    let windows = str_eq(os, "windows");
    let x86 = str_eq(arch, "x86_64");
    let arm = str_eq(arch, "aarch64");
    if linux && x86 {
        ("linux", "x86_64", "gz")
    } else if linux && arm {
        ("linux", "aarch64", "gz")
    } else if macos && x86 {
        ("macos", "x86_64", "gz")
    } else if macos && arm {
        ("macos", "aarch64", "gz")
    } else if windows && x86 {
        ("windows", "x86_64", "zip")
    } else {
        ("linux", "x86_64", "gz")
    }
}

/// The download address of a release's archive for the given operating
/// system and architecture.
pub fn get_download_url(tag: &str, os: &str, arch: &str) -> (r: String)
    ensures
        r@ == download_url(tag@, os@, arch@),
{
    let (o, a, e) = platform_names(os, arch);
    let mut s = String::from_str("https://github.com/rust-lang/rust-analyzer/releases/download/");
    s.append(tag);
    s.append("/rust-analyzer-");
    s.append(o);
    s.append("-");
    s.append(a);
    s.append("-");
    s.append(o);
    s.append(".");
    s.append(e);
    s
}

/// The name the downloaded archive is saved under.
pub fn archive_file_name(tag: &str) -> (r: String)
    ensures
        r@ == "rust-analyzer-"@ + tag@,
{
    let mut s = String::from_str("rust-analyzer-");
    s.append(tag);
    s
}

/// The installed version: the version file's text without surrounding
/// whitespace, or `unknown` when there is no such file.
pub fn installed_version(contents: Option<String>) -> (r: String)
    ensures
        r@ == match contents {
            Some(c) => trim(c@),
            None => "unknown"@,
        },
{
    match contents {
        Some(c) => {
            let cs = chars_of(c.as_str());
            let t = trim_chars(cs.as_slice());
            string_from_chars(t.as_slice())
        },
        None => String::from_str("unknown"),
    }
}

/// The archive is unpacked as a zip when its name ends in `.zip`, else as
/// a gzipped tar.
pub fn is_zip_archive(archive_path: &str) -> (r: bool)
    ensures
        r == (extension_of(archive_path@) == Some("zip"@)),
{
    match path_extension(archive_path) {
        Some(e) => str_eq(e.as_str(), "zip"),
        None => false,
    }
}

/// The tar entry that holds the binary: the one whose file name is
/// `rust-analyzer`.
pub fn is_ra_tar_entry(entry_path: &str) -> (r: bool)
    ensures
        r == (file_name_of(entry_path@) == Some("rust-analyzer"@)),
{
    match path_file_name(entry_path) {
        Some(n) => str_eq(n.as_str(), "rust-analyzer"),
        None => false,
    }
}

/// The zip entry that holds the binary: one whose name ends in
/// `rust-analyzer.exe` or `rust-analyzer`.
pub fn is_ra_zip_entry(name: &str) -> (r: bool)
    ensures
        r == (ends_with(name@, "rust-analyzer.exe"@) || ends_with(name@, "rust-analyzer"@)),
{
    let n = chars_of(name);
    let exe = chars_of("rust-analyzer.exe");
    let plain = chars_of("rust-analyzer");
    has_suffix(n.as_slice(), exe.as_slice()) || has_suffix(n.as_slice(), plain.as_slice())
}

/// Whether the releases publish an archive for an operating system and
/// architecture: Linux and macOS on x86_64 and aarch64, Windows on x86_64.
pub open spec fn has_release_asset(os: Seq<char>, arch: Seq<char>) -> bool {
    ((os == "linux"@ || os == "macos"@) && (arch == "x86_64"@ || arch == "aarch64"@)) || (os
        == "windows"@ && arch == "x86_64"@)
}

/// Law: the asset fetched for a platform that has one is named by that very
/// operating system and architecture, a zip archive on Windows and a gzip
/// archive elsewhere; any other platform gets the Linux x86_64 asset.
pub proof fn law_asset_names_the_platform(tag: Seq<char>, os: Seq<char>, arch: Seq<char>)
    ensures
        has_release_asset(os, arch) ==> asset_platform(os, arch) == (
            os,
            arch,
            if os == "windows"@ {
                "zip"@
            } else {
                "gz"@
            },
        ),
        !has_release_asset(os, arch) ==> asset_platform(os, arch) == ("linux"@, "x86_64"@, "gz"@),
        has_release_asset(os, arch) ==> download_url(tag, os, arch)
            == "https://github.com/rust-lang/rust-analyzer/releases/download/"@ + tag
            + "/rust-analyzer-"@ + os + "-"@ + arch + "-"@ + os + "."@ + asset_platform(os, arch).2,
{
    lemma_platform_names_differ();
}

/// The platform names of the release assets are distinct texts.
proof fn lemma_platform_names_differ()
    ensures
        "linux"@.len() == 5,
        "macos"@.len() == 5,
        "windows"@.len() == 7,
        "x86_64"@.len() == 6,
        "aarch64"@.len() == 7,
        "linux"@ != "macos"@,
        "windows"@ != "aarch64"@,
{
    reveal_strlit("linux");
    reveal_strlit("macos");
    reveal_strlit("windows");
    reveal_strlit("x86_64");
    reveal_strlit("aarch64");
    assert("linux"@[0] != "macos"@[0]);
    assert("windows"@[0] != "aarch64"@[0]);
}

} // verus!
