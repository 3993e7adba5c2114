//! The transport to rust-analyzer: its standard input and output.
use vstd::prelude::*;

verus! {

/// The transport is the child process's piped standard streams; there is
/// nothing else to hold.
pub struct Transport {}

} // verus!
