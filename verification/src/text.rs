//! Comparing text.

use vstd::prelude::*;

verus! {

/// Whether two texts are the same, character by character. The comparison
/// goes through `String`, whose `==` has a specification.
pub(crate) fn text_is(text: &str, other: &str) -> (same: bool)
    ensures
        same == (text@ == other@),
{
    text.to_owned() == other.to_owned()
}

} // verus!
