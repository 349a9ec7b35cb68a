//! User profiles, as far as the library decides anything about them: the
//! profiles themselves are listed by the caller from the profile store.

use vstd::prelude::*;

verus! {

/// The number of profiles among those that the profile store listed.
pub fn count<P>(profiles: &Vec<P>) -> (r: usize)
    ensures
        r == profiles@.len(),
{
    profiles.len()
}

} // verus!
