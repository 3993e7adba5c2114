//! Paths held as text, and the few operations of `std::path` that the
//! library makes on them. Each is what `std::path` computes for the target
//! the library is built for: Unix and Windows read separators differently.
use vstd::prelude::*;

verus! {

/// What `Path::parent` gives for a path.
pub uninterp spec fn parent_of(p: Seq<char>) -> Option<Seq<char>>;

/// What `Path::join` gives for a base and a further part.
pub uninterp spec fn joined(base: Seq<char>, part: Seq<char>) -> Seq<char>;

/// What `Path::extension` gives for a path.
pub uninterp spec fn extension_of(p: Seq<char>) -> Option<Seq<char>>;

/// What `Path::file_name` gives for a path.
pub uninterp spec fn file_name_of(p: Seq<char>) -> Option<Seq<char>>;

/// Whether `Path::starts_with` holds: `base`'s components begin `p`'s.
pub uninterp spec fn within(p: Seq<char>, base: Seq<char>) -> bool;

/// Whether `Path::is_absolute` holds.
pub uninterp spec fn absolute(p: Seq<char>) -> bool;

/// The path rebuilt from its components, as `Path::components` reads them;
/// two paths that compare equal as `Path`s have the same normal form.
pub uninterp spec fn normal_form(p: Seq<char>) -> Seq<char>;

/// `Path::parent`: the path without its final component, or `None` for a
/// root or an empty path. Having lost a component, the parent is shorter.
#[verifier::external_body]
pub(crate) fn path_parent(p: &str) -> (r: Option<String>)
    ensures
        opt_seq(&r) == parent_of(p@),
        r matches Some(q) ==> q@.len() < p@.len(),
{
    std::path::Path::new(p).parent().map(|q| q.to_string_lossy().into_owned())
}

/// `Path::join`: `part` appended to `base` as a further component.
#[verifier::external_body]
pub(crate) fn path_join(base: &str, part: &str) -> (r: String)
    ensures
        r@ == joined(base@, part@),
{
    std::path::Path::new(base).join(part).to_string_lossy().into_owned()
}

/// `Path::extension`: what follows the last `.` of the file name, if any.
#[verifier::external_body]
pub(crate) fn path_extension(p: &str) -> (r: Option<String>)
    ensures
        opt_seq(&r) == extension_of(p@),
{
    std::path::Path::new(p).extension().map(|e| e.to_string_lossy().into_owned())
}

/// `Path::file_name`: the final component when it is a normal one.
#[verifier::external_body]
pub(crate) fn path_file_name(p: &str) -> (r: Option<String>)
    ensures
        opt_seq(&r) == file_name_of(p@),
{
    std::path::Path::new(p).file_name().map(|n| n.to_string_lossy().into_owned())
}

/// `Path::starts_with`: whether `base` is a prefix of `p`, component by
/// component.
#[verifier::external_body]
pub(crate) fn path_starts_with(p: &str, base: &str) -> (r: bool)
    ensures
        r == within(p@, base@),
{
    std::path::Path::new(p).starts_with(base)
}

/// The path rebuilt from `Path::components`, so that paths which compare
/// equal as `Path`s come out as the same text.
#[verifier::external_body]
pub(crate) fn path_key(p: &str) -> (r: String)
    ensures
        r@ == normal_form(p@),
{
    std::path::Path::new(p).components().collect::<std::path::PathBuf>().to_string_lossy().into_owned()
}

/// `Path::is_absolute`: whether the path does not depend on the current
/// directory.
#[verifier::external_body]
pub(crate) fn path_is_absolute(p: &str) -> (r: bool)
    ensures
        r == absolute(p@),
{
    std::path::Path::new(p).is_absolute()
}

/// `Path::exists`: whether something is at the path now. What it answers
/// depends on the file system at the time of the call; nothing is said of it.
#[verifier::external_body]
pub(crate) fn path_exists(p: &str) -> (r: bool) {
    std::path::Path::new(p).exists()
}

/// `std::path::is_separator('\\')`: whether the platform this runs on takes
/// a backslash as a path separator, as Windows alone does. It depends on the
/// machine; nothing is said of it.
#[verifier::external_body]
pub(crate) fn backslash_separates() -> (r: bool) {
    std::path::is_separator('\\')
}

pub open spec fn opt_seq(o: &Option<String>) -> Option<Seq<char>> {
    match o {
        Some(s) => Some(s@),
        None => None,
    }
}

} // verus!
