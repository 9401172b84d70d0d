//! Lists of lists and lists of strings as mathematical values.

use vstd::prelude::*;

verus! {

/// The entries of a list of lists.
pub open spec fn nested<T>(v: &Vec<Vec<T>>) -> Seq<Seq<T>> {
    v@.map_values(|inner: Vec<T>| inner@)
}

/// The texts of a list of strings.
pub open spec fn texts(v: Seq<String>) -> Seq<Seq<char>> {
    v.map_values(|s: String| s@)
}

} // verus!
