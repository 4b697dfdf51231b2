//! The library's only source of randomness: a fresh cell index for player
//! placement.

use vstd::prelude::*;
use rand::Rng;

verus! {

/// Relies on rand's `Rng::gen_range` on a `ThreadRng`: it returns a value
/// in the given range, which here is non-empty, so the result is a cell of
/// the board. Nothing more is assumed of which cell comes back.
#[verifier::external_body]
pub(crate) fn random_cell() -> (r: i16)
    ensures
        crate::board::in_board(r),
{
    let mut rand_lib = rand::thread_rng();
    rand_lib.gen_range(0..crate::board::WIDTH * crate::board::HEIGHT)
}

} // verus!
