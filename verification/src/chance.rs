//! The library's one source of chance.

use vstd::prelude::*;

verus! {

/// Draws a number below `bound` from the thread-local generator of the
/// `rand` crate, by `Rng::gen_range` on the range from zero up to but not
/// including `bound`. `gen_range` panics on an empty range, which is why
/// `bound` must not be zero; all that is claimed of the outcome is that it
/// lies in the range. How the numbers are spread over the range is left to
/// the crate, and two calls need not agree.
///
/// The generator also panics when the operating system gives it no
/// entropy, at its first use in a thread and whenever it seeds itself anew.
/// No argument can rule that out, so the contract does not speak of it: like
/// running out of memory, it ends the program.
#[verifier::external_body]
pub(crate) fn random_below(bound: usize) -> (r: usize)
    requires
        bound > 0,
    ensures
        r < bound,
{
    rand::Rng::gen_range(&mut rand::thread_rng(), 0..bound)
}

} // verus!
