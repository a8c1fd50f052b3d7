//! The two kinds of pending removal.

use std::path::PathBuf;
use vstd::prelude::*;

verus! {

/// `std::path::PathBuf`, made known to the verifier as an opaque type.
///
/// Nothing is claimed about what a path holds: a path is carried through the
/// list unchanged and compared only for equality in contracts.
#[verifier::external_type_specification]
#[verifier::external_body]
pub struct ExPathBuf(std::path::PathBuf);

/// One pending removal.
///
/// The path is taken as it is given. It need not exist or be well formed at
/// the time of registration.
#[derive(Debug, PartialEq, Eq)]
pub enum Item {
    /// A single file to delete.
    File(PathBuf),
    /// A single directory to delete. The removal is not recursive: it is
    /// expected to fail on a directory that is not empty.
    Dir(PathBuf),
}

} // verus!
