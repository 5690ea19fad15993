//! The random draws behind the game's chance decisions (what spawns, behaviour
//! rolls, burst sizes, meat drops), made through the `rand` crate.
use vstd::prelude::*;
use rand::Rng;
use rand::rngs::ThreadRng;

verus! {

/// The thread-local generator of `rand`, carried through unread.
#[verifier::external_type_specification]
#[verifier::external_body]
pub struct ExThreadRng(rand::rngs::ThreadRng);

/// Draws a number in `lo..hi` by `rand::Rng::gen_range` on a half-open
/// range. Claimed: the result lies in the range; `gen_range` panics on an
/// empty range, which `requires` rules out. Which number comes is left open.
#[verifier::external_body]
pub(crate) fn gen_range_u32(rng: &mut ThreadRng, lo: u32, hi: u32) -> (r: u32)
    requires
        lo < hi,
    ensures
        lo <= r < hi,
{
    rng.gen_range(lo..hi)
}

} // verus!
