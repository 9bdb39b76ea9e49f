//! A predicate on sequences that the contracts of several modules share.

use vstd::prelude::*;

verus! {

/// `after` is the sequence `before` but for the entry at `at`.
pub open spec fn same_but_at<T>(before: Seq<T>, after: Seq<T>, at: int) -> bool {
    &&& after.len() == before.len()
    &&& forall|i: int| 0 <= i < before.len() && i != at ==> after[i] == before[i]
}

} // verus!
