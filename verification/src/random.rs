//! The random source behind every stochastic decision of a captcha.

use rand::Rng;
use vstd::prelude::*;

verus! {

/// Draws an integer uniformly from `0..=len`.
///
/// Trusted: calls `rand::Rng::gen_range` on the thread-local generator with
/// the inclusive range `0..=len`. The contract claims only what holds of
/// every draw: the value lies in the range. An inclusive range is never
/// empty, so the call cannot hit the generator's empty-range panic.
#[verifier::external_body]
pub(crate) fn rand_num(len: usize) -> (n: usize)
    ensures
        n <= len,
{
    rand::thread_rng().gen_range(0..=len)
}

/// Draws an integer uniformly from `min..=max`.
pub fn get_next(min: u32, max: u32) -> (value: u32)
    requires
        min <= max,
    ensures
        min <= value <= max,
{
    let span: u32 = max - min;
    let step: usize = rand_num(span as usize);
    min + step as u32
}

} // verus!
