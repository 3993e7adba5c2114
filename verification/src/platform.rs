//! Where rust-analyzer is looked for and installed, and the order in which
//! the places are tried.
use vstd::prelude::*;
use crate::paths::{backslash_separates, joined, path_join};
use crate::text::{chars_of, string_from_chars, trim, trim_chars};

verus! {

/// The binary's file name on Windows or elsewhere.
pub open spec fn binary_name(windows: bool) -> Seq<char> {
    if windows {
        "rust-analyzer.exe"@
    } else {
        "rust-analyzer"@
    }
}

pub fn ra_binary_name_for(windows: bool) -> (r: &'static str)
    ensures
        r@ == binary_name(windows),
{
    if windows {
        "rust-analyzer.exe"
    } else {
        "rust-analyzer"
    }
}

/// The binary's file name on the platform this runs on.
pub fn get_ra_binary_name() -> (r: &'static str)
    ensures
        r@ == binary_name(true) || r@ == binary_name(false),
{
    ra_binary_name_for(backslash_separates())
}

/// The environment variable that names the base of the install directory.
pub fn base_dir_var(windows: bool) -> (r: &'static str)
    ensures
        r@ == if windows {
            "LOCALAPPDATA"@
        } else {
            "HOME"@
        },
{
    if windows {
        "LOCALAPPDATA"
    } else {
        "HOME"
    }
}

/// The directory the server keeps its files in: under the base directory
/// (the variable's value, or a fixed default where it is unset).
pub open spec fn data_dir(base: Option<Seq<char>>, windows: bool) -> Seq<char> {
    let b = match base {
        Some(v) => v,
        None => if windows {
            "C:\\Program Files"@
        } else {
            "/usr/local"@
        },
    };
    joined(
        b,
        if windows {
            "rust-analyzer-mcp"@
        } else {
            ".rust-analyzer-mcp"@
        },
    )
}

fn data_dir_of(base: Option<&str>, windows: bool) -> (r: String)
    ensures
        r@ == data_dir(
            match base {
                Some(v) => Some(v@),
                None => None,
            },
            windows,
        ),
{
    let b = match base {
        Some(v) => v,
        None => if windows {
            "C:\\Program Files"
        } else {
            "/usr/local"
        },
    };
    let sub = if windows {
        "rust-analyzer-mcp"
    } else {
        ".rust-analyzer-mcp"
    };
    path_join(b, sub)
}

pub open spec fn opt_str(o: Option<&str>) -> Option<Seq<char>> {
    match o {
        Some(v) => Some(v@),
        None => None,
    }
}

/// The directory the binary is installed in, given the base variable's
/// value.
pub fn get_default_install_dir(base: Option<&str>, windows: bool) -> (r: String)
    ensures
        r@ == joined(data_dir(opt_str(base), windows), "bin"@),
{
    let d = data_dir_of(base, windows);
    path_join(d.as_str(), "bin")
}

/// Where the installed binary lives: its file name in the install
/// directory.
pub fn installed_binary_path(base: Option<&str>, windows: bool) -> (r: String)
    ensures
        r@ == joined(joined(data_dir(opt_str(base), windows), "bin"@), binary_name(windows)),
{
    let dir = get_default_install_dir(base, windows);
    path_join(dir.as_str(), ra_binary_name_for(windows))
}

/// The file that records the installed version.
pub fn version_file(base: Option<&str>, windows: bool) -> (r: String)
    ensures
        r@ == joined(data_dir(opt_str(base), windows), "rust-analyzer-version"@),
{
    let d = data_dir_of(base, windows);
    path_join(d.as_str(), "rust-analyzer-version")
}

/// The path that `which` printed: its output without surrounding whitespace.
pub fn which_output_path(stdout: &str) -> (r: String)
    ensures
        r@ == trim(stdout@),
{
    let cs = chars_of(stdout);
    let t = trim_chars(cs.as_slice());
    string_from_chars(t.as_slice())
}

/// The text before the first line break, or all of it.
pub open spec fn first_line(s: Seq<char>) -> Seq<char> {
    if exists|i: int| 0 <= i < s.len() && s[i] == '\n' {
        s.take(choose|i: int| 0 <= i < s.len() && s[i] == '\n' && forall|j: int| 0 <= j < i ==> s[j] != '\n')
    } else {
        s
    }
}

/// The first path that `where` printed, without surrounding whitespace.
pub fn where_output_path(stdout: &str) -> (r: String)
    ensures
        r@ == trim(first_line(stdout@)),
{
    let cs = chars_of(stdout);
    let mut i: usize = 0;
    while i < cs.len() && cs[i] != '\n'
        invariant
            cs@ == stdout@,
            i <= cs@.len(),
            forall|j: int| 0 <= j < i ==> cs@[j] != '\n',
        decreases cs.len() - i,
    {
        i = i + 1;
    }
    let mut line: Vec<char> = Vec::new();
    let mut k: usize = 0;
    while k < i
        invariant
            i <= cs@.len(),
            k <= i,
            line@ == cs@.take(k as int),
        decreases i - k,
    {
        line.push(cs[k]);
        k = k + 1;
        proof {
            assert(line@ =~= cs@.take(k as int));
        }
    }
    proof {
        if i < cs@.len() {
            let w = choose|w: int| 0 <= w < cs@.len() && cs@[w] == '\n' && forall|j: int| 0 <= j < w ==> cs@[j] != '\n';
            assert(cs@[i as int] == '\n');
            if w < i {
                assert(cs@[w] != '\n');
            }
            if i < w {
                assert(cs@[i as int] != '\n');
            }
            assert(w == i);
        } else {
            assert(cs@.take(i as int) =~= cs@);
        }
    }
    let t = trim_chars(line.as_slice());
    string_from_chars(t.as_slice())
}

/// Why no binary could be had.
pub enum RaError {
    /// The path given on the command line does not exist.
    CustomPathMissing(String),
    /// None was found, and none could be installed.
    NotFound,
}

impl RaError {
    pub fn message(&self) -> (r: String)
        ensures
            r@ == match self {
                RaError::CustomPathMissing(p) => "Custom rust-analyzer path does not exist: "@ + p@,
                RaError::NotFound => not_found_text(),
            },
    {
        match self {
            RaError::CustomPathMissing(p) => {
                let mut s = String::from_str("Custom rust-analyzer path does not exist: ");
                s.append(p.as_str());
                s
            },
            RaError::NotFound => String::from_str(
                "rust-analyzer not found. Please either:\n1. Install rust-analyzer in your PATH\n2. Provide custom path with --ra-path\n3. Run with --no-auto-update and install manually",
            ),
        }
    }
}

pub open spec fn not_found_text() -> Seq<char> {
    "rust-analyzer not found. Please either:\n1. Install rust-analyzer in your PATH\n2. Provide custom path with --ra-path\n3. Run with --no-auto-update and install manually"@
}

/// What has been learned so far in the search for the binary.
pub enum RaSearch {
    /// Nothing yet; the path given on the command line, if any.
    Start(Option<String>),
    /// Whether the given path exists.
    CustomChecked(String, bool),
    /// What the search of `PATH` found.
    PathSearched(Option<String>),
    /// Whether the binary is in the install directory, at the path given.
    InstalledChecked(String, bool),
    /// Whether the binary is there after the latest release was installed.
    DownloadChecked(String, bool),
}

/// What to do next.
pub enum RaAction {
    CheckCustom(String),
    SearchPath,
    CheckInstalled,
    DownloadLatest,
    Use(String),
    Fail(RaError),
}

/// The search order: a given path must exist; else `PATH`; else the install
/// directory; else, with automatic updates, the latest release is
/// installed there.
pub open spec fn next_action_spec(state: RaSearch, auto_update: bool) -> RaAction {
    match state {
        RaSearch::Start(Some(p)) => RaAction::CheckCustom(p),
        RaSearch::Start(None) => RaAction::SearchPath,
        RaSearch::CustomChecked(p, found) => if found {
            RaAction::Use(p)
        } else {
            RaAction::Fail(RaError::CustomPathMissing(p))
        },
        RaSearch::PathSearched(Some(p)) => RaAction::Use(p),
        RaSearch::PathSearched(None) => RaAction::CheckInstalled,
        RaSearch::InstalledChecked(p, found) => if found {
            RaAction::Use(p)
        } else if auto_update {
            RaAction::DownloadLatest
        } else {
            RaAction::Fail(RaError::NotFound)
        },
        RaSearch::DownloadChecked(p, found) => if found {
            RaAction::Use(p)
        } else {
            RaAction::Fail(RaError::NotFound)
        },
    }
}

/// Law: the search uses a binary only where it was found: the given path
/// once it exists, what `PATH` gave, or the install directory's binary once
/// it is there.
pub proof fn law_binary_used_only_where_found(state: RaSearch, auto_update: bool, p: String)
    requires
        next_action_spec(state, auto_update) == RaAction::Use(p),
    ensures
        state == RaSearch::CustomChecked(p, true) || state == RaSearch::PathSearched(Some(p))
            || state == RaSearch::InstalledChecked(p, true) || state == RaSearch::DownloadChecked(
            p,
            true,
        ),
{
}

/// Law: without automatic updates nothing is ever downloaded.
pub proof fn law_no_download_without_auto_update(state: RaSearch)
    ensures
        !(next_action_spec(state, false) is DownloadLatest),
{
}

/// Law: a path given on the command line is the only one tried: it is
/// checked first, and then used or reported missing.
pub proof fn law_given_path_is_not_bypassed(p: String, found: bool, auto_update: bool)
    ensures
        next_action_spec(RaSearch::Start(Some(p)), auto_update) == RaAction::CheckCustom(p),
        found ==> next_action_spec(RaSearch::CustomChecked(p, found), auto_update) == RaAction::Use(p),
        !found ==> next_action_spec(RaSearch::CustomChecked(p, found), auto_update) == RaAction::Fail(
            RaError::CustomPathMissing(p),
        ),
{
}

/// One step of `ensure_ra_binary`: from what is known, the next action.
pub fn next_ra_action(state: RaSearch, auto_update: bool) -> (r: RaAction)
    ensures
        r == next_action_spec(state, auto_update),
{
    match state {
        RaSearch::Start(Some(p)) => RaAction::CheckCustom(p),
        RaSearch::Start(None) => RaAction::SearchPath,
        RaSearch::CustomChecked(p, found) => if found {
            RaAction::Use(p)
        } else {
            RaAction::Fail(RaError::CustomPathMissing(p))
        },
        RaSearch::PathSearched(Some(p)) => RaAction::Use(p),
        RaSearch::PathSearched(None) => RaAction::CheckInstalled,
        RaSearch::InstalledChecked(p, found) => if found {
            RaAction::Use(p)
        } else if auto_update {
            RaAction::DownloadLatest
        } else {
            RaAction::Fail(RaError::NotFound)
        },
        RaSearch::DownloadChecked(p, found) => if found {
            RaAction::Use(p)
        } else {
            RaAction::Fail(RaError::NotFound)
        },
    }
}

} // verus!
