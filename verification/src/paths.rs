//! Paths as the standard library reads them.
//!
//! The library keeps paths as strings; what a path means (its components,
//! separators, roots) is decided by `std::path`, through the items below. Path
//! syntax is fixed when the program is compiled for its target, so the same
//! strings always give the same result.
use vstd::prelude::*;

verus! {

/// What `std::path::Path::parent` returns for a path.
pub uninterp spec fn spec_parent(path: Seq<char>) -> Option<Seq<char>>;

/// What `std::path::Path::strip_prefix` returns for a path and a base.
pub uninterp spec fn spec_strip_prefix(path: Seq<char>, base: Seq<char>) -> Option<Seq<char>>;

/// What `std::path::Path::join` returns for a path and another one.
pub uninterp spec fn spec_join(base: Seq<char>, path: Seq<char>) -> Seq<char>;

/// Calls `Path::parent`: the path without its final component, or `None`
/// when the path ends in a root or is empty. The result is named, not
/// described.
#[verifier::external_body]
pub(crate) fn path_parent(path: &str) -> (r: Option<String>)
    ensures
        match r {
            Some(s) => spec_parent(path@) == Some(s@),
            None => spec_parent(path@) is None,
        },
{
    match std::path::Path::new(path).parent() {
        Some(p) => Some(p.to_string_lossy().into_owned()),
        None => None,
    }
}

/// Calls `Path::strip_prefix`: the path that, joined onto `base`, gives
/// `path`, or `None` when `base` is not a prefix of `path` in whole
/// components. The result is named, not described, but for one fact that
/// the documentation of `strip_prefix` shows: a path stripped of itself is
/// the empty path.
#[verifier::external_body]
pub(crate) fn path_strip_prefix(path: &str, base: &str) -> (r: Option<String>)
    ensures
        match r {
            Some(s) => spec_strip_prefix(path@, base@) == Some(s@),
            None => spec_strip_prefix(path@, base@) is None,
        },
        path@ == base@ ==> (r is Some && r->0@ == Seq::<char>::empty()),
{
    match std::path::Path::new(path).strip_prefix(base) {
        Ok(p) => Some(p.to_string_lossy().into_owned()),
        Err(_) => None,
    }
}

/// Calls `Path::join`: `path` appended to `base` (or `path` itself when it
/// is absolute). The result is named, not described.
#[verifier::external_body]
pub(crate) fn path_join(base: &str, path: &str) -> (r: String)
    ensures
        r@ == spec_join(base@, path@),
{
    std::path::Path::new(base).join(path).to_string_lossy().into_owned()
}

} // verus!
