//! How a sprite is turned and enlarged when it is painted.

use vstd::prelude::*;

verus! {

/// A rotation and a uniform scale, both in thousandths: of a degree, and of
/// the sprite's own size.
///
/// The scale matrix is whole numbers and is given here. The rotation matrix
/// is sines and cosines; whoever paints works it out from the angle.
#[derive(Clone, Copy, Debug)]
pub struct Transformation {
    rotation: i32,
    scale: u32,
}

/// What a [`Transformation`] stands for.
pub struct TransformationView {
    /// Rotation, in thousandths of a degree.
    pub rotation: int,
    /// Scale factor, in thousandths.
    pub scale: int,
}

impl View for Transformation {
    type V = TransformationView;

    closed spec fn view(&self) -> TransformationView {
        TransformationView { rotation: self.rotation as int, scale: self.scale as int }
    }
}

impl Transformation {
    /// The transformation that turns by `rotation` and enlarges by `scale`.
    pub fn new(rotation: i32, scale: u32) -> (transformation: Transformation)
        ensures
            transformation@ == (TransformationView {
                rotation: rotation as int,
                scale: scale as int,
            }),
    {
        Transformation { rotation, scale }
    }

    /// Replaces rotation and scale. Nothing of what was there is carried
    /// over, so the same call twice leaves what one call leaves.
    pub fn update(&mut self, rotation: i32, scale: u32)
        ensures
            final(self)@ == (TransformationView {
                rotation: rotation as int,
                scale: scale as int,
            }),
    {
        self.rotation = rotation;
        self.scale = scale;
    }

    /// Rotation, in thousandths of a degree.
    pub fn rotation_deg(&self) -> (rotation: i32)
        ensures
            rotation == self@.rotation,
    {
        self.rotation
    }

    /// Scale factor, in thousandths.
    pub fn scale_factor(&self) -> (scale: u32)
        ensures
            scale == self@.scale,
    {
        self.scale
    }

    /// The scale matrix, in thousandths: the scale factor on the diagonal
    /// and zero off it.
    pub fn scale(&self) -> (matrix: [[u32; 2]; 2])
        ensures
            matrix[0][0] == self@.scale,
            matrix[0][1] == 0,
            matrix[1][0] == 0,
            matrix[1][1] == self@.scale,
    {
        [[self.scale, 0], [0, self.scale]]
    }
}

} // verus!
