//! Checks on the arguments and paths that tools hand on.
use vstd::prelude::*;
use crate::paths::{path_starts_with, within};
use crate::text::{chars_of, contains_chars, contains_seq, views};

verus! {

/// Why a path or an argument was refused.
pub enum SecurityError {
    /// An argument holds a shell metacharacter; the argument is kept.
    DangerousCharacter(String),
    /// The path lies outside the allowed directory; the path as given.
    EscapesAllowedDirectory(String),
    /// The path holds `..`, or both `~` and `/.ssh`.
    DangerousPattern,
}

impl SecurityError {
    /// The error's text.
    pub fn message(&self) -> (r: String)
        ensures
            r@ == match self {
                SecurityError::DangerousCharacter(a) => "Dangerous character in argument: "@ + a@,
                SecurityError::EscapesAllowedDirectory(p) => "Path escapes allowed directory: "@ + p@,
                SecurityError::DangerousPattern => "Dangerous path pattern detected"@,
            },
    {
        match self {
            SecurityError::DangerousCharacter(a) => {
                let mut s = String::from_str("Dangerous character in argument: ");
                s.append(a.as_str());
                s
            },
            SecurityError::EscapesAllowedDirectory(p) => {
                let mut s = String::from_str("Path escapes allowed directory: ");
                s.append(p.as_str());
                s
            },
            SecurityError::DangerousPattern => String::from_str("Dangerous path pattern detected"),
        }
    }
}

/// The characters that a shell would read as syntax.
pub open spec fn is_dangerous(c: char) -> bool {
    c == ';' || c == '|' || c == '&' || c == '$' || c == '`' || c == '(' || c == ')' || c == '{'
        || c == '}' || c == '[' || c == ']' || c == '<' || c == '>' || c == '\'' || c == '"' || c
        == '\\'
}

pub fn is_dangerous_char(c: char) -> (r: bool)
    ensures
        r == is_dangerous(c),
{
    c == ';' || c == '|' || c == '&' || c == '$' || c == '`' || c == '(' || c == ')' || c == '{'
        || c == '}' || c == '[' || c == ']' || c == '<' || c == '>' || c == '\'' || c == '"' || c
        == '\\'
}

/// No character of the argument is dangerous.
pub open spec fn is_safe_arg(a: Seq<char>) -> bool {
    forall|i: int| 0 <= i < a.len() ==> !is_dangerous(#[trigger] a[i])
}

fn safe_arg(a: &str) -> (r: bool)
    ensures
        r == is_safe_arg(a@),
{
    let cs = chars_of(a);
    let mut i: usize = 0;
    while i < cs.len()
        invariant
            cs@ == a@,
            i <= cs@.len(),
            forall|k: int| 0 <= k < i ==> !is_dangerous(#[trigger] cs@[k]),
        decreases cs.len() - i,
    {
        if is_dangerous_char(cs[i]) {
            return false;
        }
        i = i + 1;
    }
    true
}

/// Passes the arguments on unchanged when none holds a dangerous character;
/// else refuses the first one that does.
pub fn sanitize_command_args(args: &[String]) -> (r: Result<Vec<String>, SecurityError>)
    ensures
        match r {
            Ok(v) => views(v@) == views(args@) && forall|i: int|
                0 <= i < args@.len() ==> is_safe_arg(#[trigger] args@[i]@),
            Err(e) => exists|i: int|
                0 <= i < args@.len() && !is_safe_arg(#[trigger] args@[i]@) && (forall|j: int|
                    0 <= j < i ==> is_safe_arg(#[trigger] args@[j]@)) && (e matches SecurityError::DangerousCharacter(a) && a@ == args@[i]@),
        },
{
    let mut out: Vec<String> = Vec::new();
    let mut i: usize = 0;
    while i < args.len()
        invariant
            i <= args@.len(),
            out@.len() == i,
            forall|k: int| 0 <= k < i ==> (#[trigger] out@[k])@ == args@[k]@,
            forall|k: int| 0 <= k < i ==> is_safe_arg(#[trigger] args@[k]@),
        decreases args.len() - i,
    {
        if !safe_arg(args[i].as_str()) {
            let bad = args[i].clone();
            return Err(SecurityError::DangerousCharacter(bad));
        }
        out.push(args[i].clone());
        i = i + 1;
    }
    proof {
        assert(views(out@) =~= views(args@));
    }
    Ok(out)
}

/// Some blocked pattern occurs in the path's text.
pub open spec fn blocked_by(path: Seq<char>, blocked: Seq<Seq<char>>) -> bool {
    exists|i: int| 0 <= i < blocked.len() && contains_seq(path, #[trigger] blocked[i])
}

/// Whether the path's text contains any of the blocked patterns.
pub fn is_blocked_path(path: &str, blocked: &[String]) -> (r: bool)
    ensures
        r == blocked_by(path@, views(blocked@)),
{
    let p = chars_of(path);
    let mut i: usize = 0;
    while i < blocked.len()
        invariant
            p@ == path@,
            i <= blocked@.len(),
            forall|k: int| 0 <= k < i ==> !contains_seq(path@, #[trigger] views(blocked@)[k]),
        decreases blocked.len() - i,
    {
        let pattern = chars_of(blocked[i].as_str());
        if contains_chars(p.as_slice(), pattern.as_slice()) {
            proof {
                assert(views(blocked@)[i as int] == blocked@[i as int]@);
            }
            return true;
        }
        proof {
            assert(views(blocked@)[i as int] == blocked@[i as int]@);
        }
        i = i + 1;
    }
    false
}

/// The path text holds `..`, or both `~` and `/.ssh`.
pub open spec fn dangerous_pattern(p: Seq<char>) -> bool {
    contains_seq(p, seq!['.', '.']) || (contains_seq(p, seq!['~']) && contains_seq(
        p,
        seq!['/', '.', 's', 's', 'h'],
    ))
}

pub fn has_dangerous_pattern(p: &str) -> (r: bool)
    ensures
        r == dangerous_pattern(p@),
{
    let cs = chars_of(p);
    let dots = vec!['.', '.'];
    let tilde = vec!['~'];
    let ssh = vec!['/', '.', 's', 's', 'h'];
    proof {
        assert(dots@ =~= seq!['.', '.']);
        assert(tilde@ =~= seq!['~']);
        assert(ssh@ =~= seq!['/', '.', 's', 's', 'h']);
    }
    contains_chars(cs.as_slice(), dots.as_slice()) || (contains_chars(cs.as_slice(), tilde.as_slice())
        && contains_chars(cs.as_slice(), ssh.as_slice()))
}

/// The checks on a resolved path: it must lie under the allowed directory,
/// and then show no dangerous pattern. `shown` is the path as it was given,
/// for the message.
pub fn check_resolved_path(canonical: &str, allowed: &str, shown: &str) -> (r: Result<(), SecurityError>)
    ensures
        !within(canonical@, allowed@) ==> (r matches Err(SecurityError::EscapesAllowedDirectory(p))
            && p@ == shown@),
        within(canonical@, allowed@) && dangerous_pattern(canonical@) ==> r matches Err(
            SecurityError::DangerousPattern,
        ),
        within(canonical@, allowed@) && !dangerous_pattern(canonical@) ==> r is Ok,
{
    if !path_starts_with(canonical, allowed) {
        return Err(SecurityError::EscapesAllowedDirectory(String::from_str(shown)));
    }
    if has_dangerous_pattern(canonical) {
        return Err(SecurityError::DangerousPattern);
    }
    Ok(())
}

/// Whether a file of `len` bytes is over `max_mb` mebibytes.
pub open spec fn too_large(len: nat, max_mb: nat) -> bool {
    len > max_mb * 1048576
}

/// Compares in whole bytes; the size in MiB is `len / 2^20`, so this is the
/// comparison `len / 2^20 > max_mb` made exactly.
pub fn exceeds_size_limit(len: u64, max_mb: u64) -> (r: bool)
    ensures
        r == too_large(len as nat, max_mb as nat),
{
    let limit: u128 = (max_mb as u128) * 1048576;
    (len as u128) > limit
}

} // verus!
