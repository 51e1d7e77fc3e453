//! Bullets: they fly up the screen until they leave it or hit an enemy.

use vstd::prelude::*;
use crate::engine::collision_2d::Collision2D;
use crate::engine::collision_2d::Rect;
use crate::engine::draw::Actor;
use crate::engine::draw::Draw;
use crate::engine::draw::DrawCall;
use crate::engine::draw::DrawCallView;
use crate::engine::entity::Entity;
use crate::engine::entity::EntityView;
use crate::engine::geometry::PhysicalSize;
use crate::engine::geometry::Vector2;
use crate::engine::motion::moved_up;
use crate::engine::motion::move_up;
use crate::engine::motion::PER_SECOND;

verus! {

/// Speed of every bullet, in thousandths of a pixel per second.
pub const BULLET_SPEED: u32 = 4_000_000;

/// A bullet in flight, or one that is spent and waits to be cleared away.
#[derive(Clone, Copy, Debug)]
pub struct Bullet {
    entity: Entity,
    collision: Collision2D,
    alive: bool,
}

/// What a [`Bullet`] stands for.
pub struct BulletView {
    pub entity: EntityView,
    pub collision: Rect,
    pub alive: bool,
}

impl BulletView {
    /// The bounding box is centred where the bullet stands and has the size
    /// of the sprite under the bullet's scale.
    pub open spec fn wf(self) -> bool {
        &&& self.collision.x == self.entity.x
        &&& self.collision.y == self.entity.y
        &&& self.collision.width == self.entity.sprite_width * self.entity.scale
        &&& self.collision.height == self.entity.sprite_height * self.entity.scale
    }

    /// The bullet after a frame of `nanos` nanoseconds on a screen
    /// `screen_height` pixels high.
    ///
    /// A bullet found past the screen's height is spent and stays where it
    /// is. Any other moves up by what its speed covers, its bounding box with
    /// it.
    pub open spec fn update(self, nanos: int, screen_height: int) -> BulletView {
        if self.entity.y > screen_height {
            self.killed()
        } else {
            let y = moved_up(self.entity.y, BULLET_SPEED as int, nanos, PER_SECOND as int);
            BulletView {
                entity: self.entity.moved_to(self.entity.x, y),
                collision: self.collision.moved_to(self.entity.x, y),
                alive: self.alive,
            }
        }
    }

    /// A bullet as it is made: in flight at (`x`, `y`), for an image of
    /// `sprite_width` by `sprite_height` pixels drawn at `scale` thousandths
    /// of its size, in a bounding box of that image's scaled extent.
    pub open spec fn fresh(
        sprite_width: int,
        sprite_height: int,
        x: int,
        y: int,
        rotation: int,
        scale: int,
    ) -> BulletView {
        BulletView {
            entity: EntityView { sprite_width, sprite_height, x, y, rotation, scale },
            collision: Rect { x, y, width: sprite_width * scale, height: sprite_height * scale },
            alive: true,
        }
    }

    /// What painting the bullet takes.
    pub open spec fn drawn(self) -> DrawCallView {
        DrawCallView { actor: Actor::Bullet, entity: self.entity }
    }

    /// The same bullet, spent.
    pub open spec fn killed(self) -> BulletView {
        BulletView { entity: self.entity, collision: self.collision, alive: false }
    }

    /// The bullet after the frames of `frames` in turn, each a length in
    /// nanoseconds.
    pub open spec fn after(self, frames: Seq<int>, screen_height: int) -> BulletView
        decreases frames.len(),
    {
        if frames.len() == 0 {
            self
        } else {
            self.after(frames.drop_last(), screen_height).update(frames.last(), screen_height)
        }
    }
}

impl View for Bullet {
    type V = BulletView;

    closed spec fn view(&self) -> BulletView {
        BulletView { entity: self.entity@, collision: self.collision@, alive: self.alive }
    }
}

impl Bullet {
    /// A live bullet for an image of `sprite` pixels at (`x`, `y`).
    pub fn new(sprite: PhysicalSize, x: u32, y: u32, rotation: i32, scale: u32) -> (bullet: Bullet)
        ensures
            bullet@ == BulletView::fresh(
                sprite.width as int,
                sprite.height as int,
                x as int,
                y as int,
                rotation as int,
                scale as int,
            ),
            bullet@.wf(),
    {
        let entity = Entity::new(sprite, x, y, rotation, scale);
        let collision = Collision2D::new(entity.position(), sprite.width, sprite.height, scale);
        Bullet { entity, collision, alive: true }
    }

    /// Advances the bullet by a frame of `elapsed_nanos` nanoseconds.
    pub fn update(&mut self, elapsed_nanos: u64, screen_height: u32)
        ensures
            final(self)@ == old(self)@.update(elapsed_nanos as int, screen_height as int),
            final(self)@.alive == (old(self)@.alive && old(self)@.entity.y <= screen_height),
            old(self)@.wf() ==> final(self)@.wf(),
    {
        if self.entity.position_y() > screen_height {
            self.alive = false;
        } else {
            let x: u32 = self.entity.position_x();
            let y: u32 = move_up(self.entity.position_y(), BULLET_SPEED as u64, elapsed_nanos, PER_SECOND);
            let rotation: i32 = self.entity.rotation();
            let scale: u32 = self.entity.scale();
            self.entity.update(x, y, rotation, scale);
            self.collision.update(self.entity.position());
        }
    }

    /// The bullet's bounding box.
    pub fn get_collision(&self) -> (collision: &Collision2D)
        ensures
            collision@ == self@.collision,
    {
        &self.collision
    }

    /// Marks the bullet spent. Nothing brings it back.
    pub fn kill(&mut self)
        ensures
            final(self)@ == old(self)@.killed(),
    {
        self.alive = false;
    }

    /// Whether the bullet is still in flight.
    pub fn alive(&self) -> (alive: bool)
        ensures
            alive == self@.alive,
    {
        self.alive
    }

    /// Where the bullet stands.
    pub fn position(&self) -> (position: Vector2)
        ensures
            position.x == self@.entity.x,
            position.y == self@.entity.y,
    {
        self.entity.position()
    }
}

impl Draw for Bullet {
    open spec fn drawn(&self) -> DrawCallView {
        self@.drawn()
    }

    fn draw(&self) -> (call: DrawCall) {
        DrawCall { actor: Actor::Bullet, entity: self.entity }
    }
}

/// A frame leaves a bullet in flight exactly when it was in flight and had
/// not passed the screen's height; a bullet that is spent does not move.
pub proof fn lemma_bullet_dies_past_the_screen(bullet: BulletView, nanos: int, screen_height: int)
    ensures
        bullet.update(nanos, screen_height).alive == (bullet.alive && bullet.entity.y
            <= screen_height),
        bullet.entity.y > screen_height ==> bullet.update(nanos, screen_height).entity
            == bullet.entity,
{
}

/// A spent bullet is spent after any number of frames.
pub proof fn lemma_spent_bullet_stays_spent(bullet: BulletView, frames: Seq<int>, screen_height: int)
    requires
        !bullet.alive,
    ensures
        !bullet.after(frames, screen_height).alive,
    decreases frames.len(),
{
    if frames.len() > 0 {
        lemma_spent_bullet_stays_spent(bullet, frames.drop_last(), screen_height);
    }
}

/// A frame keeps the bounding box on the bullet and at the sprite's size.
pub proof fn lemma_bullet_update_keeps_wf(bullet: BulletView, nanos: int, screen_height: int)
    requires
        bullet.wf(),
    ensures
        bullet.update(nanos, screen_height).wf(),
{
}

} // verus!
