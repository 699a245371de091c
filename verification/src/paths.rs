//! File-system paths as text. The operations are those of `std::path`. Each
//! is a function of its arguments alone, by the path syntax of the platform
//! that the crate is built for, and gets a name that the contracts of the
//! graph builder speak of.

use std::path::Path;
use vstd::prelude::*;

verus! {

/// The directory part of a path, where it has one.
pub uninterp spec fn parent_of(path: Seq<char>) -> Option<Seq<char>>;

/// `rel` appended to `base` as a path: an absolute `rel` replaces `base`.
pub uninterp spec fn joined(base: Seq<char>, rel: Seq<char>) -> Seq<char>;

/// A path relative to `root`, where `root` is a prefix of it by whole
/// components.
pub uninterp spec fn stripped_prefix(path: Seq<char>, root: Seq<char>) -> Option<Seq<char>>;

/// Calls `Path::parent`: the path without its final component, or `None`
/// where the path is empty or ends in a root. The contract names the result
/// `parent_of`.
#[verifier::external_body]
pub(crate) fn path_parent(path: &str) -> (r: Option<String>)
    ensures
        match r {
            Some(p) => parent_of(path@) == Some(p@),
            None => parent_of(path@) is None,
        },
{
    match Path::new(path).parent() {
        Some(p) => Some(p.to_string_lossy().into_owned()),
        None => None,
    }
}

/// Calls `Path::join`. The contract names the result `joined`.
#[verifier::external_body]
pub(crate) fn path_join(base: &str, rel: &str) -> (r: String)
    ensures
        r@ == joined(base@, rel@),
{
    Path::new(base).join(rel).to_string_lossy().into_owned()
}

/// Calls `Path::strip_prefix`: the rest of the path where `root` is a prefix
/// of it, `None` where it is not. The contract names the result
/// `stripped_prefix`.
#[verifier::external_body]
pub(crate) fn path_strip_prefix(path: &str, root: &str) -> (r: Option<String>)
    ensures
        match r {
            Some(p) => stripped_prefix(path@, root@) == Some(p@),
            None => stripped_prefix(path@, root@) is None,
        },
{
    match Path::new(path).strip_prefix(root) {
        Ok(p) => Some(p.to_string_lossy().into_owned()),
        Err(_) => None,
    }
}

} // verus!
