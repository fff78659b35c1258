use vstd::prelude::*;

verus! {

/// Draws from macroquad's global generator (`macroquad::rand::rand`, which is
/// `quad_rand::rand`): the next output of a seeded PCG stream. Any `u32` may come back,
/// and two draws may differ, so nothing is claimed of the result.
#[verifier::external_body]
pub(crate) fn random_u32() -> (r: u32) {
    macroquad::rand::rand()
}

/// Draws from macroquad's global generator through `macroquad::rand::gen_range::<i32>(0, high)`.
/// quad-rand scales a draw `d` to `(high as f64) * (d as f64 / 2^32)` and truncates it toward
/// zero. For `0 < high <= 2^20` that product lies in `[0, high)` and is exact enough that
/// truncation stays below `high`, which is all the contract claims; which value comes back
/// rests on the stream and is not stated.
#[verifier::external_body]
pub(crate) fn random_below(high: i32) -> (r: i32)
    requires
        0 < high <= 0x10_0000,
    ensures
        0 <= r < high,
{
    macroquad::rand::gen_range(0, high)
}

} // verus!
