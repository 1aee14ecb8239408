//! Key types whose order behaves as an order.
use vstd::prelude::*;

verus! {

/// Whether the order of `A` is a total order that agrees with `==`, so that ordered maps keyed by
/// it behave as maps.
pub open spec fn ordered_keys<A: Ord>() -> bool {
    vstd::laws_cmp::obeys_cmp::<A>()
}

} // verus!
