//! The external random source: one uniform draw from the host's generator.

use vstd::prelude::*;

verus! {

/// Relies on `rand::random_range` over the range `0..max`: the drawn value
/// lies in `[0, max)`, and the call panics only on an empty range, which the
/// precondition rules out.  Nothing else is assumed of the result; in
/// particular two draws with the same bound may differ.
#[verifier::external_body]
pub(crate) fn draw_uniform(max: usize) -> (r: usize)
    requires
        1 <= max,
    ensures
        r < max,
{
    rand::random_range(0..max)
}

} // verus!
