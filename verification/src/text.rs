//! Lists of strings as lists of character sequences.

use vstd::prelude::*;

verus! {

/// The texts of a list of string slices, in order.
pub open spec fn texts(items: Seq<&'static str>) -> Seq<Seq<char>> {
    Seq::new(items.len(), |i: int| items[i]@)
}

/// The texts of a list of owned strings, in order.
pub open spec fn owned_texts(items: Seq<String>) -> Seq<Seq<char>> {
    Seq::new(items.len(), |i: int| items[i]@)
}

} // verus!
