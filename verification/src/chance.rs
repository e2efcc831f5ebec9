//! The one place where the library draws on chance.

use rand::seq::SliceRandom;
use vstd::prelude::*;

verus! {

/// Draws one element of `items` with the thread-local generator of the `rand`
/// crate, through `rand::seq::SliceRandom::choose`.
///
/// Trusted, not proved: `choose` answers `None` exactly when the slice is
/// empty, and otherwise hands out a reference to the element at an index
/// below the slice's length. Which element comes out is left open, so two
/// draws from the same slice may differ. The generator seeds itself from the
/// operating system on its first use in a thread and panics if that source
/// is unavailable.
#[verifier::external_body]
pub(crate) fn draw<T>(items: &[T]) -> (picked: Option<&T>)
    ensures
        items@.len() == 0 ==> picked is None,
        items@.len() > 0 ==> picked is Some,
        picked matches Some(item) ==> exists|i: int| 0 <= i < items@.len() && items@[i] == *item,
{
    items.choose(&mut rand::thread_rng())
}

} // verus!
