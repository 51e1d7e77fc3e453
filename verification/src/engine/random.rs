//! The one source of chance: where and how fast an enemy appears.

use vstd::prelude::*;
use rand::Rng;

verus! {

/// A number drawn from `low .. high` by the thread's generator of the `rand`
/// crate: `rand::thread_rng().gen_range(low..high)`.
///
/// Believed, not proved: the draw lies in the range. `gen_range` refuses an
/// empty range, so there must be one value at least. Which value comes is
/// not stated, and two draws need not agree.
///
/// The generator leans on the operating system, and gives up where the
/// system lets it down, whatever the range: when it seeds itself at a
/// thread's first draw and finds no entropy, when it seeds itself anew
/// (after every 64 KiB it has given out, and after a fork) and finds none,
/// and when it cannot register its fork handler.
#[verifier::external_body]
pub(crate) fn random_in_range(low: u32, high: u32) -> (drawn: u32)
    requires
        low < high,
    ensures
        low <= drawn < high,
{
    rand::thread_rng().gen_range(low..high)
}

} // verus!
