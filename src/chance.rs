use rand::rngs::StdRng;
use rand::Rng;
use vstd::prelude::*;

verus! {

#[verifier::external_type_specification]
#[verifier::external_body]
pub struct ExStdRng(StdRng);

/// Relies on `rand::Rng::gen_ratio(1, n)`: `true` with probability `1/n`,
/// and always `true` when `n == 1`. It panics when `n == 0`.
#[verifier::external_body]
fn draw_one_in(rng: &mut StdRng, n: u32) -> (r: bool)
    requires
        n >= 1,
    ensures
        n == 1 ==> r,
{
    rng.gen_ratio(1, n)
}

/// Draws a failure that comes with probability `1/n`, independently on
/// each call. With `n <= 1` the failure is certain.
pub fn one_in(rng: &mut StdRng, n: u32) -> (r: bool)
    ensures
        n <= 1 ==> r,
{
    if n == 0 {
        true
    } else {
        draw_one_in(rng, n)
    }
}

} // verus!
