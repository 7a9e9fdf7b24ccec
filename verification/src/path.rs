//! The path of a file in a directory, as the platform writes it.

use std::path::PathBuf;
use vstd::prelude::*;

verus! {

/// Calls `std::path::PathBuf::push` on the directory `dir` with the file
/// name `name`, and hands the path back as text. How a path is written is
/// the platform's matter, so nothing is claimed of it; `None` if the path
/// is no valid text.
#[verifier::external_body]
pub(crate) fn join_path(dir: &str, name: &str) -> (path: Option<String>) {
    let mut p = PathBuf::from(dir);
    p.push(name);
    p.into_os_string().into_string().ok()
}

} // verus!
