//! Views of text.

use vstd::prelude::*;

verus! {

/// The characters of an optional text.
pub open spec fn chars(s: Option<String>) -> Option<Seq<char>> {
    match s {
        Some(s) => Some(s@),
        None => None,
    }
}

} // verus!
