//! Paths as texts: what the platform's path rules make of them.

use vstd::prelude::*;

verus! {

/// Calls `Path::parent` on the path that `path` spells and hands its text
/// back. The parent is the path without its final component, so the contract
/// claims that its text is a proper prefix of `path`. Whether a path has a
/// parent depends on the platform's separators: nothing is claimed of that.
#[verifier::external_body]
pub(crate) fn parent_dir(path: &str) -> (r: Option<String>)
    ensures
        r matches Some(parent) ==> parent@.len() < path@.len() && parent@ == path@.take(
            parent@.len() as int,
        ),
{
    std::path::Path::new(path).parent().map(|p| p.to_string_lossy().into_owned())
}

/// Calls `Path::join` on the path that `dir` spells and hands the text of
/// the joined path back. How two paths are joined depends on the platform:
/// nothing is claimed of the result.
#[verifier::external_body]
pub(crate) fn join_path(dir: &str, name: &str) -> String {
    std::path::Path::new(dir).join(name).to_string_lossy().into_owned()
}

} // verus!
