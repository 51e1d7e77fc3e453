//! Axis-aligned bounding boxes and the overlap test between them.

use vstd::prelude::*;
use crate::engine::geometry::Vector2;
use crate::engine::motion::UNIT;

verus! {

/// A rectangle of the screen, centred on its origin.
///
/// The origin is in whole pixels; width and height are in thousandths of a
/// pixel ([`UNIT`] to the pixel), so that a sprite of any size under any
/// scale has an exact extent.
#[derive(Clone, Copy, Debug)]
pub struct Collision2D {
    origin: Vector2,
    width: u64,
    height: u64,
}

/// What a [`Collision2D`] stands for.
pub struct Rect {
    /// Centre, in pixels.
    pub x: int,
    pub y: int,
    /// Full extent on each axis, in thousandths of a pixel.
    pub width: int,
    pub height: int,
}

impl Rect {
    /// Twice the distance between two coordinates in pixels, in thousandths
    /// of a pixel: what the sum of two full extents is held against.
    pub open spec fn twice_apart(a: int, b: int) -> int {
        2000 * (vstd::math::abs(a - b) as int)
    }

    /// Two rectangles overlap when their centres are closer than the sum of
    /// their half extents on both axes at once. Rectangles that only touch
    /// do not overlap.
    pub open spec fn overlaps(self, other: Rect) -> bool {
        &&& Rect::twice_apart(self.x, other.x) < self.width + other.width
        &&& Rect::twice_apart(self.y, other.y) < self.height + other.height
    }

    /// The same rectangle about another centre.
    pub open spec fn moved_to(self, x: int, y: int) -> Rect {
        Rect { x, y, width: self.width, height: self.height }
    }

    /// The extent of one side after it is multiplied by `scale` thousandths,
    /// cut to a whole number of thousandths and to what a side can hold.
    pub open spec fn scaled_side(side: int, scale: int) -> int {
        if side * scale / 1000 > u64::MAX {
            u64::MAX as int
        } else {
            side * scale / 1000
        }
    }
}

impl View for Collision2D {
    type V = Rect;

    closed spec fn view(&self) -> Rect {
        Rect {
            x: self.origin.x as int,
            y: self.origin.y as int,
            width: self.width as int,
            height: self.height as int,
        }
    }
}

fn distance(a: u32, b: u32) -> (d: u32)
    ensures
        d == vstd::math::abs(a - b),
{
    if a >= b {
        a - b
    } else {
        b - a
    }
}

fn scale_side(side: u64, scale: u32) -> (scaled: u64)
    ensures
        scaled == Rect::scaled_side(side as int, scale as int),
{
    proof {
        assert(0 <= side * scale <= 0xffff_ffff_ffff_ffff * 0xffff_ffff) by (nonlinear_arith)
            requires
                0 <= side <= 0xffff_ffff_ffff_ffff,
                0 <= scale <= 0xffff_ffff,
        ;
    }
    let product: u128 = (side as u128) * (scale as u128);
    let quotient: u128 = product / (UNIT as u128);
    if quotient > u64::MAX as u128 {
        u64::MAX
    } else {
        quotient as u64
    }
}

impl Collision2D {
    /// A box about `origin` for a sprite of `width` by `height` pixels drawn
    /// at `scale` thousandths of its size.
    pub fn new(origin: Vector2, width: u32, height: u32, scale: u32) -> (collision: Collision2D)
        ensures
            collision@ == (Rect {
                x: origin.x as int,
                y: origin.y as int,
                width: width * scale,
                height: height * scale,
            }),
    {
        proof {
            assert(0 <= width * scale <= 0xffff_ffff * 0xffff_ffff) by (nonlinear_arith)
                requires
                    0 <= width <= 0xffff_ffff,
                    0 <= scale <= 0xffff_ffff,
            ;
            assert(0 <= height * scale <= 0xffff_ffff * 0xffff_ffff) by (nonlinear_arith)
                requires
                    0 <= height <= 0xffff_ffff,
                    0 <= scale <= 0xffff_ffff,
            ;
        }
        Collision2D {
            origin,
            width: (width as u64) * (scale as u64),
            height: (height as u64) * (scale as u64),
        }
    }

    /// Moves the box to `origin`. Its extent stays as it is.
    pub fn update(&mut self, origin: Vector2)
        ensures
            final(self)@ == old(self)@.moved_to(origin.x as int, origin.y as int),
    {
        self.origin = origin;
    }

    /// Multiplies the extent the box has now by `scale` thousandths. A second
    /// call multiplies again: the factors compound.
    pub fn set_scale(&mut self, scale: u32)
        ensures
            final(self)@ == (Rect {
                x: old(self)@.x,
                y: old(self)@.y,
                width: Rect::scaled_side(old(self)@.width, scale as int),
                height: Rect::scaled_side(old(self)@.height, scale as int),
            }),
    {
        self.width = scale_side(self.width, scale);
        self.height = scale_side(self.height, scale);
    }

    /// Centre of the box, in pixels.
    pub fn origin(&self) -> (origin: Vector2)
        ensures
            origin.x == self@.x,
            origin.y == self@.y,
    {
        self.origin
    }

    /// Full width of the box, in thousandths of a pixel.
    pub fn width(&self) -> (width: u64)
        ensures
            width == self@.width,
    {
        self.width
    }

    /// Full height of the box, in thousandths of a pixel.
    pub fn height(&self) -> (height: u64)
        ensures
            height == self@.height,
    {
        self.height
    }

    /// Whether this box and `other` overlap.
    pub fn check_collision(&self, other: &Collision2D) -> (hit: bool)
        ensures
            hit == self@.overlaps(other@),
    {
        let dx: u128 = 2000 * (distance(self.origin.x, other.origin.x) as u128);
        let dy: u128 = 2000 * (distance(self.origin.y, other.origin.y) as u128);
        dx < (self.width as u128) + (other.width as u128)
            && dy < (self.height as u128) + (other.height as u128)
    }
}

/// The overlap test does not depend on which box asks.
pub proof fn lemma_overlap_is_symmetric(a: Rect, b: Rect)
    ensures
        a.overlaps(b) == b.overlaps(a),
{
}

/// Boxes that exactly touch along an axis, the distance between their
/// centres being the sum of their half extents there, do not overlap,
/// wherever they stand on the other axis.
pub proof fn lemma_touching_boxes_do_not_overlap(a: Rect, b: Rect)
    requires
        Rect::twice_apart(a.x, b.x) == a.width + b.width || Rect::twice_apart(a.y, b.y)
            == a.height + b.height,
    ensures
        !a.overlaps(b),
        !b.overlaps(a),
{
}

} // verus!
