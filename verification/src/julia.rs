//! The parameters of the Julia-set picture, as exact numbers, and the way a
//! pixel is mapped to its sample of the complex plane.
//!
//! The picture covers the square from `-SPAN / 2` to `SPAN / 2` on both
//! axes. A pixel's sample lies a whole number of scale steps from the corner
//! of that square, one step being `SPAN / WIDTH` along the real axis and
//! `SPAN / HEIGHT` along the imaginary one.

use vstd::prelude::*;

verus! {

/// The side of the square of the plane that the picture covers.
pub const SPAN: u32 = 3;

/// The constant added in each step of the recurrence, in tenths: its real
/// and its imaginary part.
pub const C_TENTHS: (i32, i32) = (-4, 6);

/// The magnitude beyond which an orbit counts as escaped.
pub const ESCAPE_RADIUS: u32 = 2;

/// Where a pixel samples the plane: the number of scale steps from the
/// corner of the square along each axis.
#[derive(Clone, Copy, Debug, PartialEq, Eq, Structural)]
pub struct Sample {
    pub re_steps: u32,
    pub im_steps: u32,
}

/// The sample of the pixel in column `x` and row `y`. The row gives the real
/// part and the column the imaginary part.
pub open spec fn sample_at(x: u32, y: u32) -> Sample {
    Sample { re_steps: y, im_steps: x }
}

/// Computes `sample_at`.
pub fn sample(x: u32, y: u32) -> (at: Sample)
    ensures
        at == sample_at(x, y),
{
    Sample { re_steps: y, im_steps: x }
}

/// Exchanging a pixel's column and row exchanges the two parts of its
/// sample, and the pixels on the diagonal are those whose parts are equal.
pub proof fn lemma_sample_transposes(x: u32, y: u32)
    ensures
        sample_at(y, x).re_steps == sample_at(x, y).im_steps,
        sample_at(y, x).im_steps == sample_at(x, y).re_steps,
        sample_at(x, y).re_steps == sample_at(x, y).im_steps <==> x == y,
{
}

} // verus!
