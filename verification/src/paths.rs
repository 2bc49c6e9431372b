//! Paths as the library sees them: text, the bytes of that text, and the
//! platform's notion of two texts naming the same path.

use vstd::prelude::*;
use vstd::utf8::encode_utf8;

verus! {

/// The bytes of a path's text.
pub open spec fn path_bytes(text: Seq<char>) -> Seq<u8> {
    encode_utf8(text)
}

/// The texts of a list of paths.
pub open spec fn texts(paths: Seq<String>) -> Seq<Seq<char>> {
    paths.map_values(|p: String| p@)
}

/// What the platform's path comparison answers for two texts that differ.
/// It depends on the two texts alone: paths are compared by their
/// components, without looking at the file system.
pub uninterp spec fn path_eq(a: Seq<char>, b: Seq<char>) -> bool;

/// Whether two texts name the same path. Equal texts always do; texts that
/// differ may still do so, as `a//b` and `a/b`.
pub open spec fn same_path(a: Seq<char>, b: Seq<char>) -> bool {
    a == b || path_eq(a, b)
}

/// Whether `a` and `b` name the same path.
///
/// Trusted: compares the two texts as `std::path::Path` values with `==`.
/// The contract claims that the answer is a function of the two texts and
/// that a text names the same path as itself; it claims nothing else about
/// which different texts are the same path.
#[verifier::external_body]
pub(crate) fn paths_equal(a: &String, b: &String) -> (r: bool)
    ensures
        r == (a@ == b@ || path_eq(a@, b@)),
{
    std::path::Path::new(a.as_str()) == std::path::Path::new(b.as_str())
}

} // verus!
