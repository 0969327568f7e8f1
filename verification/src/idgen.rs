//! Sequential identities for specifications.

use vstd::prelude::*;

verus! {

/// The next identity after `seed`, which is advanced to it. Identities drawn
/// from one seed are distinct and increasing.
pub fn idgen(seed: &mut i64) -> (id: i64)
    requires
        *old(seed) < i64::MAX,
    ensures
        *final(seed) == *old(seed) + 1,
        id == *final(seed),
{
    *seed = *seed + 1;
    *seed
}

} // verus!
