//! Paths as text, compared and split the way `std::path::Path` does it.

use vstd::prelude::*;

verus! {

/// Whether `std::path::Path` holds the two paths equal. Paths are compared
/// component by component, so `a//b` and `a/b` are the same path.
pub uninterp spec fn same_path(a: Seq<char>, b: Seq<char>) -> bool;

/// The directory that `std::path::Path::parent` finds for a path, if any.
pub uninterp spec fn parent_of(p: Seq<char>) -> Option<Seq<char>>;

/// Relies on `<Path as PartialEq>::eq`: a comparison of the two paths'
/// components, which depends on the two texts alone; a path is equal to itself.
#[verifier::external_body]
pub(crate) fn paths_equal(a: &str, b: &str) -> (r: bool)
    ensures
        r == same_path(a@, b@),
        a@ == b@ ==> r,
{
    std::path::Path::new(a) == std::path::Path::new(b)
}

/// Relies on `Path::parent`: the path without its last component, which
/// depends on the text alone; the empty path has no parent.
#[verifier::external_body]
pub(crate) fn parent_dir(p: &str) -> (r: Option<String>)
    ensures
        r.is_some() == parent_of(p@).is_some(),
        r.is_some() ==> r.unwrap()@ == parent_of(p@).unwrap(),
        p@.len() == 0 ==> r.is_none(),
{
    std::path::Path::new(p).parent().and_then(|d| d.to_str()).map(String::from)
}

} // verus!
