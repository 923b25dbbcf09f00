//! Lengths on the screen.
//!
//! A window has a size in physical pixels and a scale factor, the number of
//! physical pixels to one logical pixel. Positions come in fractions of a
//! physical pixel while the controls are laid out in logical pixels. Both are
//! whole multiples of one length, the grain, in which they are compared without
//! rounding: a fraction of a physical pixel is `SCALE_ONE` grains, a logical
//! pixel is `SUBPIXELS * scale` grains.

use vstd::prelude::*;

verus! {

/// The parts into which a position divides a physical pixel.
pub const SUBPIXELS: i64 = 65_536;

/// A scale factor of one. Percentages, 96ths and 120ths, in which window
/// systems state scale factors, are all whole numbers of these parts.
pub const SCALE_ONE: u32 = 4_800;

/// The largest scale factor that a viewport can have.
pub const MAX_SCALE: u32 = 33_554_432;

#[derive(Clone, Copy, Debug, PartialEq, Eq, Structural)]
pub struct PhysicalSize {
    pub width: u32,
    pub height: u32,
}

/// A place in a window, in `SUBPIXELS`ths of a physical pixel.
#[derive(Clone, Copy, Debug, PartialEq, Eq, Structural)]
pub struct PhysicalPosition {
    pub x: i64,
    pub y: i64,
}

/// An exact nonnegative quotient.
#[derive(Clone, Copy, Debug, PartialEq, Eq, Structural)]
pub struct Ratio {
    pub numerator: u128,
    pub denominator: u128,
}

/// The size of a window and its scale factor in parts of `SCALE_ONE`.
#[derive(Clone, Copy, Debug, PartialEq, Eq, Structural)]
pub struct Viewport {
    pub size: PhysicalSize,
    pub scale: u32,
}

impl Viewport {
    pub open spec fn wf(self) -> bool {
        0 < self.scale <= MAX_SCALE
    }

    /// A logical pixel in grains.
    pub open spec fn px(self) -> int {
        SUBPIXELS * self.scale
    }

    /// The window's width in grains.
    pub open spec fn width(self) -> int {
        self.size.width * SUBPIXELS * SCALE_ONE
    }

    /// The window's height in grains.
    pub open spec fn height(self) -> int {
        self.size.height * SUBPIXELS * SCALE_ONE
    }
}

/// A coordinate in grains.
pub open spec fn grains(coordinate: i64) -> int {
    coordinate * SCALE_ONE
}

/// `value` lies between two bounds or on one of them.
pub open spec fn between(value: int, lower: int, upper: int) -> bool {
    lower <= value <= upper
}

/// The larger of two numbers.
pub open spec fn larger(a: int, b: int) -> int {
    if a >= b {
        a
    } else {
        b
    }
}

/// The whole number nearest to a quotient, the larger one of two.
pub open spec fn rounded(numerator: int, denominator: int) -> int {
    (2 * numerator + denominator) / (2 * denominator)
}

/// The least whole number that is not below a quotient.
pub open spec fn rounded_up(numerator: int, denominator: int) -> int {
    (numerator + denominator - 1) / denominator
}

pub(crate) fn contains(value: i128, lower: i128, upper: i128) -> (inside: bool)
    ensures
        inside == between(value as int, lower as int, upper as int),
{
    lower <= value && value <= upper
}

pub(crate) fn max_length(a: i128, b: i128) -> (larger_one: i128)
    ensures
        larger_one == larger(a as int, b as int),
{
    if a >= b {
        a
    } else {
        b
    }
}

/// The nearest whole number, the larger one of two, is no further than a half
/// from the quotient.
pub proof fn law_rounding_is_to_the_nearest(numerator: int, denominator: int)
    requires
        denominator > 0,
    ensures
        2 * denominator * rounded(numerator, denominator) <= 2 * numerator + denominator,
        2 * numerator < 2 * denominator * rounded(numerator, denominator) + denominator,
{
    vstd::arithmetic::div_mod::lemma_fundamental_div_mod(
        2 * numerator + denominator,
        2 * denominator,
    );
    vstd::arithmetic::div_mod::lemma_mod_bound(2 * numerator + denominator, 2 * denominator);
}

/// Rounding up gives the least whole number that is not below the quotient.
pub proof fn law_rounding_up_is_the_least_not_below(numerator: int, denominator: int)
    requires
        denominator > 0,
    ensures
        numerator <= denominator * rounded_up(numerator, denominator),
        denominator * rounded_up(numerator, denominator) < numerator + denominator,
{
    vstd::arithmetic::div_mod::lemma_fundamental_div_mod(numerator + denominator - 1, denominator);
    vstd::arithmetic::div_mod::lemma_mod_bound(numerator + denominator - 1, denominator);
}

} // verus!
