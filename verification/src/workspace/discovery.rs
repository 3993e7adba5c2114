//! Finding Cargo projects and Rust files.
use vstd::prelude::*;
use crate::paths::{extension_of, joined, parent_of, path_exists, path_extension, path_join, path_parent};
use crate::text::str_eq;

verus! {

/// The `k`-th directory up from `p`: `p` itself, its parent, and so on,
/// while there is one.
pub open spec fn ancestor(p: Seq<char>, k: nat) -> Option<Seq<char>>
    decreases k,
{
    if k == 0 {
        Some(p)
    } else {
        match ancestor(p, (k - 1) as nat) {
            Some(q) => parent_of(q),
            None => None,
        }
    }
}

/// The position of the first `true` among the existence answers, if any.
pub open spec fn first_present(present: Seq<bool>) -> Option<int> {
    if exists|i: int| 0 <= i < present.len() && present[i] {
        Some(choose|i: int| 0 <= i < present.len() && present[i] && forall|j: int| 0 <= j < i ==> !present[j])
    } else {
        None
    }
}

/// Among directories listed nearest first, with whether each holds a
/// manifest, the nearest that does.
pub fn nearest_with_manifest(ancestors: &[String], present: &[bool]) -> (r: Option<usize>)
    requires
        ancestors@.len() == present@.len(),
    ensures
        r matches Some(i) ==> i < present@.len() && present@[i as int] && forall|j: int|
            0 <= j < i ==> !present@[j],
        r is None ==> forall|j: int| 0 <= j < present@.len() ==> !present@[j],
{
    let mut i: usize = 0;
    while i < present.len()
        invariant
            i <= present@.len(),
            forall|j: int| 0 <= j < i ==> !present@[j],
        decreases present.len() - i,
    {
        if present[i] {
            return Some(i);
        }
        i = i + 1;
    }
    None
}

/// The manifest path probed in the `k`-th directory up from `start`.
pub open spec fn manifest_probe(start: Seq<char>, k: nat) -> Seq<char> {
    joined(ancestor(start, k)->0, "Cargo.toml"@)
}

/// The probes, nearest first, are the manifest paths of the directories
/// on the way up from `start`.
pub open spec fn probes_on_the_way_up(start: Seq<char>, probes: Seq<Seq<char>>) -> bool {
    forall|k: int|
        0 <= k < probes.len() ==> #[trigger] probes[k] == manifest_probe(start, k as nat) && ancestor(
            start,
            k as nat,
        ) is Some
}

/// Every answer but the last is `false`: the walk stops at the first `true`.
pub open spec fn stops_at_first(present: Seq<bool>) -> bool {
    forall|k: int| 0 <= k < present.len() - 1 ==> !#[trigger] present[k]
}

/// The result after the answers `present`: the directory of the first
/// `true` answer, or, with none, `None` once the directories ran out.
pub open spec fn walk_result(start: Seq<char>, present: Seq<bool>, r: Option<Seq<char>>) -> bool {
    match r {
        Some(d) => present.len() > 0 && first_present(present) == Some(present.len() - 1) && ancestor(
            start,
            (present.len() - 1) as nat,
        ) == Some(d),
        None => first_present(present) is None && ancestor(start, present.len()) is None,
    }
}

/// What a walk up from `start` that probed `probes` (nearest first) and got
/// the answers `present` returns: it probed the manifest path in each
/// directory up to the first answer that is `true`, or until the directories
/// ran out, and returns that directory, if any.
pub open spec fn walk_outcome(
    start: Seq<char>,
    probes: Seq<Seq<char>>,
    present: Seq<bool>,
    r: Option<Seq<char>>,
) -> bool {
    &&& probes.len() == present.len()
    &&& probes_on_the_way_up(start, probes)
    &&& stops_at_first(present)
    &&& walk_result(start, present, r)
}

proof fn lemma_probes_on_the_way_up(start: Seq<char>, probes: Seq<Seq<char>>, dirs: Seq<Seq<char>>)
    requires
        dirs.len() == probes.len(),
        forall|k: int| 0 <= k < dirs.len() ==> ancestor(start, k as nat) == Some(#[trigger] dirs[k]),
        forall|k: int| 0 <= k < probes.len() ==> #[trigger] probes[k] == manifest_probe(start, k as nat),
    ensures
        probes_on_the_way_up(start, probes),
{
    assert forall|k: int| 0 <= k < probes.len() implies #[trigger] probes[k] == manifest_probe(
        start,
        k as nat,
    ) && ancestor(start, k as nat) is Some by {
        assert(ancestor(start, k as nat) == Some(dirs[k]));
    }
}

/// Walks up from `start_dir` to the nearest directory that holds a
/// `Cargo.toml`, probing `dir/Cargo.toml` in each directory in turn. What
/// the file system answers is not known here: the result is the nearest
/// directory for which the probe answered that the file exists, and `None`
/// when none did up to a directory with no parent.
pub fn find_cargo_project(start_dir: &str) -> (r: Option<String>)
    ensures
        exists|probes: Seq<Seq<char>>, present: Seq<bool>|
            walk_outcome(start_dir@, probes, present, #[trigger] opt_text(r)),
        r matches Some(d) ==> exists|k: nat| ancestor(start_dir@, k) == Some(d@),
        r is None ==> exists|k: nat| ancestor(start_dir@, k) is None,
{
    let mut dirs: Vec<String> = Vec::new();
    let mut present: Vec<bool> = Vec::new();
    let ghost mut probes: Seq<Seq<char>> = Seq::empty();
    let mut current: Option<String> = Some(String::from_str(start_dir));
    let mut stop = false;
    while !stop
        invariant
            dirs@.len() == present@.len(),
            probes.len() == present@.len(),
            forall|k: int| 0 <= k < dirs@.len() ==> ancestor(start_dir@, k as nat) == Some(
                #[trigger] dirs@[k]@,
            ),
            forall|k: int| 0 <= k < probes.len() ==> #[trigger] probes[k] == manifest_probe(
                start_dir@,
                k as nat,
            ),
            forall|k: int| 0 <= k < present@.len() - 1 ==> !#[trigger] present@[k],
            !stop ==> (forall|k: int| 0 <= k < present@.len() ==> !#[trigger] present@[k]),
            !stop ==> match current {
                Some(d) => ancestor(start_dir@, dirs@.len()) == Some(d@),
                None => ancestor(start_dir@, dirs@.len()) is None,
            },
            stop ==> (present@.len() > 0 && present@.last()) || ((forall|k: int|
                0 <= k < present@.len() ==> !#[trigger] present@[k]) && ancestor(
                start_dir@,
                dirs@.len(),
            ) is None),
        decreases
            if stop {
                0
            } else {
                match current {
                    Some(d) => d@.len() + 2,
                    None => 1,
                }
            },
    {
        match current {
            Some(dir) => {
                let manifest = path_join(dir.as_str(), "Cargo.toml");
                proof {
                    probes = probes.push(manifest@);
                }
                let found = path_exists(manifest.as_str());
                let next = path_parent(dir.as_str());
                dirs.push(dir);
                present.push(found);
                if found {
                    stop = true;
                    current = None;
                } else {
                    current = next;
                }
            },
            None => {
                stop = true;
            },
        }
    }
    let chosen = nearest_with_manifest(dirs.as_slice(), present.as_slice());
    let r = match chosen {
        Some(i) => Some(dirs[i].clone()),
        None => None,
    };
    proof {
        let p = present@;
        let n = p.len();
        match chosen {
            Some(i) => {
                assert(i == n - 1) by {
                    if i < n - 1 {
                        assert(!p[i as int]);
                    }
                }
                assert(p[n - 1] && forall|j: int| 0 <= j < n - 1 ==> !p[j]);
                let c = choose|c: int| 0 <= c < n && p[c] && forall|j: int| 0 <= j < c ==> !p[j];
                assert(c == n - 1) by {
                    if c < n - 1 {
                        assert(!p[c]);
                    }
                }
                assert(first_present(p) == Some(n - 1));
                assert(ancestor(start_dir@, (n - 1) as nat) == Some(dirs@[n - 1]@));
            },
            None => {
                assert(first_present(p) is None);
                if n > 0 {
                    assert(!p[n - 1]);
                }
                assert(ancestor(start_dir@, dirs@.len()) is None);
            },
        }
        let pr = probes;
        lemma_probes_on_the_way_up(start_dir@, pr, crate::text::views(dirs@));
        assert(walk_outcome(start_dir@, pr, p, opt_text(r)));
    }
    r
}

pub open spec fn opt_text(o: Option<String>) -> Option<Seq<char>> {
    match o {
        Some(s) => Some(s@),
        None => None,
    }
}

/// Whether an extension, if any, is that of a Rust source file.
pub fn is_rust_extension(ext: &Option<String>) -> (r: bool)
    ensures
        r == match ext {
            Some(e) => e@ == "rs"@,
            None => false,
        },
{
    match ext {
        Some(e) => str_eq(e.as_str(), "rs"),
        None => false,
    }
}

/// Whether the path names a Rust source file: its extension is `rs`.
pub fn is_rust_file(path: &str) -> (r: bool)
    ensures
        r == (extension_of(path@) == Some("rs"@)),
{
    let ext = path_extension(path);
    is_rust_extension(&ext)
}

} // verus!
