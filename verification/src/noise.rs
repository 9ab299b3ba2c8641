//! Gaussian pixel noise, graded by the complexity of a captcha.

use crate::canvas::{add_gaussian_noise, Canvas};
use vstd::prelude::*;

verus! {

/// Lowest complexity.
pub const MIN_COMPLEXITY: usize = 1;

/// Highest complexity.
pub const MAX_COMPLEXITY: usize = 10;

/// The parameters of a noise pass.
#[derive(Clone, Copy, Debug, PartialEq, Eq, Structural)]
pub struct NoiseLevel {
    pub mean: u32,
    pub deviation: u32,
    pub seed: u64,
}

/// The complexity that a request stands for: the request itself where it
/// lies in 1 to 10, else the nearer of the two bounds.
pub open spec fn clamp_complexity(complexity: int) -> int {
    if complexity < MIN_COMPLEXITY {
        MIN_COMPLEXITY as int
    } else if complexity > MAX_COMPLEXITY {
        MAX_COMPLEXITY as int
    } else {
        complexity
    }
}

/// The noise of a complexity: all three parameters grow linearly with it,
/// and at the lowest complexity all three are zero.
pub open spec fn noise_level(complexity: int) -> NoiseLevel {
    NoiseLevel {
        mean: (complexity - 1) as u32,
        deviation: (10 * complexity - 10) as u32,
        seed: (5 * complexity - 5) as u64,
    }
}

impl NoiseLevel {
    /// The noise of a complexity between 1 and 10.
    pub fn for_complexity(complexity: usize) -> (level: NoiseLevel)
        requires
            MIN_COMPLEXITY <= complexity <= MAX_COMPLEXITY,
        ensures
            level == noise_level(complexity as int),
            level.mean == complexity - 1,
            level.deviation == 10 * complexity - 10,
            level.seed == 5 * complexity - 5,
    {
        NoiseLevel {
            mean: (complexity - 1) as u32,
            deviation: (10 * complexity - 10) as u32,
            seed: (5 * complexity - 5) as u64,
        }
    }
}

/// Clamps a requested complexity into 1 to 10.
pub fn clamp(complexity: usize) -> (clamped: usize)
    ensures
        clamped == clamp_complexity(complexity as int),
        MIN_COMPLEXITY <= clamped <= MAX_COMPLEXITY,
{
    if complexity < MIN_COMPLEXITY {
        MIN_COMPLEXITY
    } else if complexity > MAX_COMPLEXITY {
        MAX_COMPLEXITY
    } else {
        complexity
    }
}

/// Grains the canvas with the noise of a complexity and returns its level.
pub fn add_noise(canvas: &mut Canvas, complexity: usize) -> (applied: NoiseLevel)
    requires
        MIN_COMPLEXITY <= complexity <= MAX_COMPLEXITY,
    ensures
        final(canvas)@.same_size(old(canvas)@),
        applied == noise_level(complexity as int),
{
    let level = NoiseLevel::for_complexity(complexity);
    add_gaussian_noise(canvas, level.mean, level.deviation, level.seed);
    level
}

} // verus!
