//! Fixed-point arithmetic of movement.
//!
//! Positions are whole pixels and time is whole nanoseconds. Speeds and scale
//! factors carry three decimal places as integers: a speed of `400_000` is
//! 400 pixels per second, a scale of `2000` doubles. Every result is stated
//! exactly over the integers, so two runs over the same frames agree pixel
//! for pixel.

use vstd::prelude::*;
use vstd::arithmetic::div_mod::lemma_hoist_over_denominator;
use vstd::arithmetic::div_mod::lemma_div_is_ordered;
use vstd::arithmetic::div_mod::lemma_div_multiples_vanish;
use vstd::arithmetic::div_mod::lemma_div_pos_is_pos;

verus! {

/// Thousandths in a whole: the fixed-point unit of speeds, sizes and scales.
pub const UNIT: u32 = 1000;

/// What a speed times a duration is divided by to give pixels:
/// thousandths of a pixel per pixel, times nanoseconds per second.
pub const PER_SECOND: u64 = 1_000_000_000_000;

/// The value nearest to `value` within `low ..= high`.
pub open spec fn clamp(value: int, low: int, high: int) -> int {
    if value < low {
        low
    } else if value > high {
        high
    } else {
        value
    }
}

/// Whole pixels covered in `nanos` nanoseconds at `speed` thousandths of a
/// pixel per second; the fraction of a pixel left over is dropped.
pub open spec fn travelled(speed: int, nanos: int) -> int {
    speed * nanos / (PER_SECOND as int)
}

/// The exact position `numerator / denominator`, brought onto the pixel grid:
/// rounded toward zero, and kept within what a coordinate can hold.
pub open spec fn settle(numerator: int, denominator: int) -> int
    recommends
        denominator > 0,
{
    if numerator <= 0 {
        0
    } else if numerator / denominator > u32::MAX {
        u32::MAX as int
    } else {
        numerator / denominator
    }
}

/// A coordinate after moving up the axis from `position` for `nanos`
/// nanoseconds at `rate / per` pixels per nanosecond.
pub open spec fn moved_up(position: int, rate: int, nanos: int, per: int) -> int {
    settle(position * per + rate * nanos, per)
}

/// A coordinate after moving down the axis from `position` for `nanos`
/// nanoseconds at `rate / per` pixels per nanosecond. It stops at zero.
pub open spec fn moved_down(position: int, rate: int, nanos: int, per: int) -> int {
    settle(position * per - rate * nanos, per)
}

proof fn lemma_product_fits(a: u64, b: u64)
    ensures
        0 <= a * b <= 0xffff_ffff_ffff_ffff * 0xffff_ffff_ffff_ffff,
        a * b <= u128::MAX,
{
    assert(0 <= a * b <= 0xffff_ffff_ffff_ffff * 0xffff_ffff_ffff_ffff) by (nonlinear_arith)
        requires
            0 <= a <= 0xffff_ffff_ffff_ffff,
            0 <= b <= 0xffff_ffff_ffff_ffff,
    ;
}

/// Computes [`travelled`].
pub fn travelled_pixels(speed: u32, nanos: u64) -> (pixels: u64)
    ensures
        pixels == travelled(speed as int, nanos as int),
{
    proof {
        lemma_product_fits(speed as u64, nanos);
        assert(speed * nanos <= 0xffff_ffff * 0xffff_ffff_ffff_ffff) by (nonlinear_arith)
            requires
                0 <= speed <= 0xffff_ffff,
                0 <= nanos <= 0xffff_ffff_ffff_ffff,
        ;
    }
    let product: u128 = (speed as u128) * (nanos as u128);
    let pixels: u128 = product / (PER_SECOND as u128);
    pixels as u64
}

/// Computes [`moved_up`].
pub fn move_up(position: u32, rate: u64, nanos: u64, per: u64) -> (moved: u32)
    requires
        per > 0,
    ensures
        moved == moved_up(position as int, rate as int, nanos as int, per as int),
{
    proof {
        lemma_product_fits(rate, nanos);
    }
    let product: u128 = (rate as u128) * (nanos as u128);
    let step: u128 = product / (per as u128);
    let room: u32 = u32::MAX - position;
    proof {
        lemma_hoist_over_denominator(product as int, position as int, per as nat);
        lemma_div_pos_is_pos(product as int, per as int);
        assert(position * per >= 0) by (nonlinear_arith)
            requires
                position >= 0,
                per > 0,
        ;
        assert(position * per + product == product + position * per);
    }
    proof {
        if position * per + product <= 0 {
            assert(position == 0 && product == 0) by (nonlinear_arith)
                requires
                    position * per + product <= 0,
                    position >= 0,
                    per > 0,
                    product >= 0,
            ;
        }
    }
    if step >= room as u128 {
        u32::MAX
    } else {
        position + (step as u32)
    }
}

/// Computes [`moved_down`].
pub fn move_down(position: u32, rate: u64, nanos: u64, per: u64) -> (moved: u32)
    requires
        per > 0,
    ensures
        moved == moved_down(position as int, rate as int, nanos as int, per as int),
        moved <= position,
{
    proof {
        lemma_product_fits(rate, nanos);
        assert(0 <= position * per <= 0xffff_ffff * 0xffff_ffff_ffff_ffff) by (nonlinear_arith)
            requires
                0 <= position <= 0xffff_ffff,
                0 < per <= 0xffff_ffff_ffff_ffff,
        ;
    }
    let product: u128 = (rate as u128) * (nanos as u128);
    let start: u128 = (position as u128) * (per as u128);
    if product >= start {
        0
    } else {
        let rest: u128 = start - product;
        proof {
            lemma_div_is_ordered(rest as int, start as int, per as int);
            lemma_div_multiples_vanish(position as int, per as int);
            assert(start == per * position) by (nonlinear_arith)
                requires
                    start == position * per,
            ;
        }
        (rest / (per as u128)) as u32
    }
}

} // verus!
