//! The part every actor is built on: a sprite placed on the screen.

use vstd::prelude::*;
use crate::engine::geometry::PhysicalSize;
use crate::engine::geometry::Vector2;
use crate::engine::transformation::Transformation;

verus! {

/// A sprite placed on the screen: the pixel size of its image, where it
/// stands, how far it is turned and how much it is enlarged.
#[derive(Clone, Copy, Debug)]
pub struct Entity {
    sprite: PhysicalSize,
    position: Vector2,
    transformation: Transformation,
}

/// What an [`Entity`] stands for.
pub struct EntityView {
    /// Size of the sprite's image, in pixels.
    pub sprite_width: int,
    pub sprite_height: int,
    /// Position, in pixels.
    pub x: int,
    pub y: int,
    /// Rotation, in thousandths of a degree.
    pub rotation: int,
    /// Scale factor, in thousandths.
    pub scale: int,
}

impl EntityView {
    /// The same sprite after it is put at (`x`, `y`) with the given rotation
    /// and scale.
    pub open spec fn placed(self, x: int, y: int, rotation: int, scale: int) -> EntityView {
        EntityView {
            sprite_width: self.sprite_width,
            sprite_height: self.sprite_height,
            x,
            y,
            rotation,
            scale,
        }
    }

    /// The same sprite at (`x`, `y`), turned and scaled as before.
    pub open spec fn moved_to(self, x: int, y: int) -> EntityView {
        self.placed(x, y, self.rotation, self.scale)
    }
}

impl View for Entity {
    type V = EntityView;

    closed spec fn view(&self) -> EntityView {
        EntityView {
            sprite_width: self.sprite.width as int,
            sprite_height: self.sprite.height as int,
            x: self.position.x as int,
            y: self.position.y as int,
            rotation: self.transformation@.rotation,
            scale: self.transformation@.scale,
        }
    }
}

impl Entity {
    /// An entity for an image of `sprite` pixels, at (`x`, `y`), turned by
    /// `rotation` thousandths of a degree and drawn at `scale` thousandths of
    /// its size.
    pub fn new(sprite: PhysicalSize, x: u32, y: u32, rotation: i32, scale: u32) -> (entity: Entity)
        ensures
            entity@ == (EntityView {
                sprite_width: sprite.width as int,
                sprite_height: sprite.height as int,
                x: x as int,
                y: y as int,
                rotation: rotation as int,
                scale: scale as int,
            }),
    {
        Entity { sprite, position: Vector2 { x, y }, transformation: Transformation::new(rotation, scale) }
    }

    /// Puts the entity at (`x`, `y`) with the given rotation and scale. All
    /// four replace what was there; nothing accumulates from call to call.
    pub fn update(&mut self, x: u32, y: u32, rotation: i32, scale: u32)
        ensures
            final(self)@ == old(self)@.placed(x as int, y as int, rotation as int, scale as int),
    {
        self.position.x = x;
        self.position.y = y;
        self.transformation.update(rotation, scale);
    }

    /// Size of the sprite's image, in pixels.
    pub fn sprite(&self) -> (sprite: PhysicalSize)
        ensures
            sprite.width == self@.sprite_width,
            sprite.height == self@.sprite_height,
    {
        self.sprite
    }

    /// Where the entity stands.
    pub fn position(&self) -> (position: Vector2)
        ensures
            position.x == self@.x,
            position.y == self@.y,
    {
        self.position
    }

    pub fn position_x(&self) -> (x: u32)
        ensures
            x == self@.x,
    {
        self.position.x
    }

    pub fn position_y(&self) -> (y: u32)
        ensures
            y == self@.y,
    {
        self.position.y
    }

    /// How the sprite is turned and enlarged.
    pub fn transformation(&self) -> (transformation: Transformation)
        ensures
            transformation@.rotation == self@.rotation,
            transformation@.scale == self@.scale,
    {
        self.transformation
    }

    /// Rotation, in thousandths of a degree.
    pub fn rotation(&self) -> (rotation: i32)
        ensures
            rotation == self@.rotation,
    {
        self.transformation.rotation_deg()
    }

    /// Scale factor, in thousandths.
    pub fn scale(&self) -> (scale: u32)
        ensures
            scale == self@.scale,
    {
        self.transformation.scale_factor()
    }
}

} // verus!
