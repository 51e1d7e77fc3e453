//! Enemies: they cross the screen, turning round at its sides, until they
//! reach the far end or are shot.

use vstd::prelude::*;
use crate::engine::collision_2d::Collision2D;
use crate::engine::collision_2d::Rect;
use crate::engine::draw::Actor;
use crate::engine::draw::Draw;
use crate::engine::draw::DrawCall;
use crate::engine::draw::DrawCallView;
use crate::engine::entity::Entity;
use crate::engine::entity::EntityView;
use crate::engine::geometry::PhysicalSize;
use crate::engine::geometry::Vector2;
use crate::engine::motion::moved_down;
use crate::engine::motion::moved_up;
use crate::engine::motion::move_down;
use crate::engine::motion::move_up;
use crate::engine::motion::PER_SECOND;

verus! {

/// The sideways heading of an enemy.
#[derive(Clone, Copy, Debug, PartialEq, Eq)]
pub enum Direction {
    /// Towards smaller horizontal coordinates: the sign -1.
    Left,
    /// Towards larger horizontal coordinates: the sign +1.
    Right,
}

impl Direction {
    /// The opposite heading.
    pub open spec fn flipped(self) -> Direction {
        match self {
            Direction::Left => Direction::Right,
            Direction::Right => Direction::Left,
        }
    }

    /// -1 for left, +1 for right.
    pub open spec fn sign(self) -> int {
        match self {
            Direction::Left => -1,
            Direction::Right => 1,
        }
    }
}

/// What an enemy's sideways speed is divided by on top of [`PER_SECOND`]:
/// sideways it covers two pixels for every three it advances.
pub const SIDEWAYS_PER_SECOND: u64 = 3_000_000_000_000;

/// An enemy on its way, or one that is gone and waits to be cleared away.
#[derive(Clone, Copy, Debug)]
pub struct Enemy {
    entity: Entity,
    collision: Collision2D,
    alive: bool,
    direction: Direction,
    velocity: u32,
}

/// What an [`Enemy`] stands for.
pub struct EnemyView {
    pub entity: EntityView,
    pub collision: Rect,
    pub alive: bool,
    pub direction: Direction,
    /// Speed of advance, in thousandths of a pixel per second.
    pub velocity: int,
}

impl EnemyView {
    /// The bounding box is centred where the enemy stands and has the size
    /// of the sprite under the enemy's scale.
    pub open spec fn wf(self) -> bool {
        &&& self.collision.x == self.entity.x
        &&& self.collision.y == self.entity.y
        &&& self.collision.width == self.entity.sprite_width * self.entity.scale
        &&& self.collision.height == self.entity.sprite_height * self.entity.scale
    }

    /// The heading for the coming frame: an enemy found at or past either
    /// side of a screen `screen_width` pixels wide turns round.
    pub open spec fn heading(self, screen_width: int) -> Direction {
        if self.entity.x >= screen_width || self.entity.x <= 0 {
            self.direction.flipped()
        } else {
            self.direction
        }
    }

    /// The horizontal coordinate after a frame of `nanos` nanoseconds: the
    /// enemy moves along its heading at two thirds of its velocity.
    pub open spec fn next_x(self, nanos: int, screen_width: int) -> int {
        match self.heading(screen_width) {
            Direction::Right => moved_up(
                self.entity.x,
                2 * self.velocity,
                nanos,
                SIDEWAYS_PER_SECOND as int,
            ),
            Direction::Left => moved_down(
                self.entity.x,
                2 * self.velocity,
                nanos,
                SIDEWAYS_PER_SECOND as int,
            ),
        }
    }

    /// The vertical coordinate after a frame of `nanos` nanoseconds: the
    /// enemy advances towards zero at its velocity.
    pub open spec fn next_y(self, nanos: int) -> int {
        moved_down(self.entity.y, self.velocity, nanos, PER_SECOND as int)
    }

    /// The enemy after a frame of `nanos` nanoseconds.
    ///
    /// An enemy found at the far end, where the vertical coordinate is zero,
    /// is gone. Gone or not it turns round if it is at a side, then moves,
    /// its bounding box with it.
    pub open spec fn update(self, nanos: int, screen_height: int, screen_width: int) -> EnemyView {
        let x = self.next_x(nanos, screen_width);
        let y = self.next_y(nanos);
        EnemyView {
            entity: self.entity.moved_to(x, y),
            collision: self.collision.moved_to(x, y),
            alive: self.alive && self.entity.y > 0,
            direction: self.heading(screen_width),
            velocity: self.velocity,
        }
    }

    /// An enemy as it is made: on its way at (`x`, `y`), heading left, for
    /// an image of `sprite_width` by `sprite_height` pixels drawn at `scale`
    /// thousandths of its size, in a bounding box of that image's scaled
    /// extent.
    pub open spec fn fresh(
        sprite_width: int,
        sprite_height: int,
        x: int,
        y: int,
        velocity: int,
        rotation: int,
        scale: int,
    ) -> EnemyView {
        EnemyView {
            entity: EntityView { sprite_width, sprite_height, x, y, rotation, scale },
            collision: Rect { x, y, width: sprite_width * scale, height: sprite_height * scale },
            alive: true,
            direction: Direction::Left,
            velocity,
        }
    }

    /// What painting the enemy takes.
    pub open spec fn drawn(self) -> DrawCallView {
        DrawCallView { actor: Actor::Enemy, entity: self.entity }
    }

    /// The same enemy, gone.
    pub open spec fn killed(self) -> EnemyView {
        EnemyView {
            entity: self.entity,
            collision: self.collision,
            alive: false,
            direction: self.direction,
            velocity: self.velocity,
        }
    }

    /// The enemy after the frames of `frames` in turn, each a length in
    /// nanoseconds.
    pub open spec fn after(self, frames: Seq<int>, screen_height: int, screen_width: int) -> EnemyView
        decreases frames.len(),
    {
        if frames.len() == 0 {
            self
        } else {
            self.after(frames.drop_last(), screen_height, screen_width).update(
                frames.last(),
                screen_height,
                screen_width,
            )
        }
    }

    /// Whether the coming frame of `nanos` nanoseconds carries the enemy
    /// past the right side of the screen: it heads right, and the exact
    /// place it reaches is a whole pixel or more beyond `screen_width`.
    pub open spec fn overshoots(self, nanos: int, screen_width: int) -> bool {
        &&& self.heading(screen_width) == Direction::Right
        &&& self.entity.x * SIDEWAYS_PER_SECOND + 2 * self.velocity * nanos >= (screen_width + 1)
            * SIDEWAYS_PER_SECOND
    }

    /// Whether no frame of `frames`, taken in turn, carries the enemy past
    /// the right side of the screen.
    pub open spec fn never_overshoots(self, frames: Seq<int>, screen_height: int, screen_width: int) -> bool
        decreases frames.len(),
    {
        if frames.len() == 0 {
            true
        } else {
            &&& self.never_overshoots(frames.drop_last(), screen_height, screen_width)
            &&& !self.after(frames.drop_last(), screen_height, screen_width).overshoots(
                frames.last(),
                screen_width,
            )
        }
    }
}

impl View for Enemy {
    type V = EnemyView;

    closed spec fn view(&self) -> EnemyView {
        EnemyView {
            entity: self.entity@,
            collision: self.collision@,
            alive: self.alive,
            direction: self.direction,
            velocity: self.velocity as int,
        }
    }
}

impl Enemy {
    /// A live enemy for an image of `sprite` pixels at (`x`, `y`), heading
    /// left, that advances at `velocity` thousandths of a pixel per second.
    pub fn new(sprite: PhysicalSize, x: u32, y: u32, velocity: u32, rotation: i32, scale: u32) -> (enemy: Enemy)
        ensures
            enemy@ == EnemyView::fresh(
                sprite.width as int,
                sprite.height as int,
                x as int,
                y as int,
                velocity as int,
                rotation as int,
                scale as int,
            ),
            enemy@.wf(),
    {
        let entity = Entity::new(sprite, x, y, rotation, scale);
        let collision = Collision2D::new(entity.position(), sprite.width, sprite.height, scale);
        Enemy { entity, collision, alive: true, direction: Direction::Left, velocity }
    }

    /// Advances the enemy by a frame of `elapsed_nanos` nanoseconds on a
    /// screen of `screen_width` by `screen_height` pixels.
    pub fn update(&mut self, elapsed_nanos: u64, screen_height: u32, screen_width: u32)
        ensures
            final(self)@ == old(self)@.update(
                elapsed_nanos as int,
                screen_height as int,
                screen_width as int,
            ),
            old(self)@.wf() ==> final(self)@.wf(),
    {
        if self.entity.position_y() == 0 {
            self.alive = false;
        }
        if self.entity.position_x() >= screen_width || self.entity.position_x() == 0 {
            self.direction = match self.direction {
                Direction::Left => Direction::Right,
                Direction::Right => Direction::Left,
            };
        }
        let sideways: u64 = 2 * (self.velocity as u64);
        let x: u32 = match self.direction {
            Direction::Right => move_up(self.entity.position_x(), sideways, elapsed_nanos, SIDEWAYS_PER_SECOND),
            Direction::Left => move_down(self.entity.position_x(), sideways, elapsed_nanos, SIDEWAYS_PER_SECOND),
        };
        let y: u32 = move_down(self.entity.position_y(), self.velocity as u64, elapsed_nanos, PER_SECOND);
        let rotation: i32 = self.entity.rotation();
        let scale: u32 = self.entity.scale();
        self.entity.update(x, y, rotation, scale);
        self.collision.update(self.entity.position());
    }

    /// The enemy's bounding box.
    pub fn get_collision(&self) -> (collision: &Collision2D)
        ensures
            collision@ == self@.collision,
    {
        &self.collision
    }

    /// Marks the enemy gone. Nothing brings it back.
    pub fn kill(&mut self)
        ensures
            final(self)@ == old(self)@.killed(),
    {
        self.alive = false;
    }

    /// Whether the enemy is still on its way.
    pub fn alive(&self) -> (alive: bool)
        ensures
            alive == self@.alive,
    {
        self.alive
    }

    /// Where the enemy stands.
    pub fn position(&self) -> (position: Vector2)
        ensures
            position.x == self@.entity.x,
            position.y == self@.entity.y,
    {
        self.entity.position()
    }

    /// The enemy's sideways heading.
    pub fn direction(&self) -> (direction: Direction)
        ensures
            direction == self@.direction,
    {
        self.direction
    }

    /// Speed of advance, in thousandths of a pixel per second.
    pub fn velocity(&self) -> (velocity: u32)
        ensures
            velocity == self@.velocity,
    {
        self.velocity
    }
}

impl Draw for Enemy {
    open spec fn drawn(&self) -> DrawCallView {
        self@.drawn()
    }

    fn draw(&self) -> (call: DrawCall) {
        DrawCall { actor: Actor::Enemy, entity: self.entity }
    }
}

/// An enemy found at either side of the screen turns round in the coming
/// frame; one found between the sides keeps its heading.
pub proof fn lemma_enemy_turns_at_the_sides(enemy: EnemyView, nanos: int, screen_height: int, screen_width: int)
    ensures
        enemy.entity.x <= 0 || enemy.entity.x >= screen_width ==> enemy.update(
            nanos,
            screen_height,
            screen_width,
        ).direction == enemy.direction.flipped(),
        0 < enemy.entity.x < screen_width ==> enemy.update(
            nanos,
            screen_height,
            screen_width,
        ).direction == enemy.direction,
{
}

/// An enemy within the screen's width is within it after a frame that does
/// not carry it past the right side. On the left it cannot leave: there its
/// coordinate stops at zero.
pub proof fn lemma_enemy_stays_within_the_sides(
    enemy: EnemyView,
    nanos: int,
    screen_height: int,
    screen_width: int,
)
    requires
        0 <= enemy.entity.x <= screen_width,
        0 <= enemy.velocity,
        0 <= nanos,
        !enemy.overshoots(nanos, screen_width),
    ensures
        0 <= enemy.update(nanos, screen_height, screen_width).entity.x <= screen_width,
{
    let per = SIDEWAYS_PER_SECOND as int;
    let x = enemy.entity.x;
    let rate = 2 * enemy.velocity;
    assert(rate * nanos >= 0) by (nonlinear_arith)
        requires
            rate >= 0,
            nanos >= 0,
    ;
    match enemy.heading(screen_width) {
        Direction::Right => {
            let exact = x * per + rate * nanos;
            assert(exact < (screen_width + 1) * per);
            assert(exact / per < screen_width + 1) by (nonlinear_arith)
                requires
                    exact < (screen_width + 1) * per,
                    per > 0,
            ;
            assert(exact / per >= 0) by (nonlinear_arith)
                requires
                    exact >= 0,
                    per > 0,
            ;
            assert(x * per >= 0) by (nonlinear_arith)
                requires
                    x >= 0,
                    per > 0,
            ;
        },
        Direction::Left => {
            let exact = x * per - rate * nanos;
            assert(exact <= x * per);
            assert(exact / per <= x) by (nonlinear_arith)
                requires
                    exact <= x * per,
                    per > 0,
            ;
            assert(exact > 0 ==> exact / per >= 0) by (nonlinear_arith)
                requires
                    per > 0,
            ;
        },
    }
}

/// An enemy within the screen's width is within it after any number of
/// frames, none of which carries it past the right side.
pub proof fn lemma_enemy_stays_within_the_sides_for_good(
    enemy: EnemyView,
    frames: Seq<int>,
    screen_height: int,
    screen_width: int,
)
    requires
        0 <= enemy.entity.x <= screen_width,
        0 <= enemy.velocity,
        forall|i: int| 0 <= i < frames.len() ==> 0 <= #[trigger] frames[i],
        enemy.never_overshoots(frames, screen_height, screen_width),
    ensures
        0 <= enemy.after(frames, screen_height, screen_width).entity.x <= screen_width,
        enemy.after(frames, screen_height, screen_width).velocity == enemy.velocity,
    decreases frames.len(),
{
    if frames.len() > 0 {
        lemma_enemy_stays_within_the_sides_for_good(
            enemy,
            frames.drop_last(),
            screen_height,
            screen_width,
        );
        lemma_enemy_stays_within_the_sides(
            enemy.after(frames.drop_last(), screen_height, screen_width),
            frames.last(),
            screen_height,
            screen_width,
        );
    }
}

/// An enemy that is gone is gone after any number of frames.
pub proof fn lemma_gone_enemy_stays_gone(
    enemy: EnemyView,
    frames: Seq<int>,
    screen_height: int,
    screen_width: int,
)
    requires
        !enemy.alive,
    ensures
        !enemy.after(frames, screen_height, screen_width).alive,
    decreases frames.len(),
{
    if frames.len() > 0 {
        lemma_gone_enemy_stays_gone(enemy, frames.drop_last(), screen_height, screen_width);
    }
}

/// A frame keeps the bounding box on the enemy and at the sprite's size.
pub proof fn lemma_enemy_update_keeps_wf(enemy: EnemyView, nanos: int, screen_height: int, screen_width: int)
    requires
        enemy.wf(),
    ensures
        enemy.update(nanos, screen_height, screen_width).wf(),
{
}

} // verus!
