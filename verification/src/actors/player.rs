//! The player's ship: moved by four intents, kept on the screen.

use vstd::prelude::*;
use crate::engine::draw::Actor;
use crate::engine::draw::Draw;
use crate::engine::draw::DrawCall;
use crate::engine::draw::DrawCallView;
use crate::engine::entity::Entity;
use crate::engine::entity::EntityView;
use crate::engine::geometry::PhysicalSize;
use crate::engine::motion::clamp;
use crate::engine::motion::travelled;
use crate::engine::motion::travelled_pixels;
use crate::engine::window::VirtualKeyCode;

verus! {

/// Sideways speed of the ship, in thousandths of a pixel per second:
/// 0.090 pixels every hundred microseconds.
pub const HORIZONTAL_SPEED: u32 = 900_000;

/// Speed of the ship along the vertical axis, in thousandths of a pixel per
/// second: 0.125 pixels every hundred microseconds.
pub const VERTICAL_SPEED: u32 = 1_250_000;

/// The ship and the four movement intents that the keyboard sets.
#[derive(Clone, Copy, Debug)]
pub struct Player {
    pub entity: Entity,
    pub up: bool,
    pub down: bool,
    pub left: bool,
    pub right: bool,
}

/// What a [`Player`] stands for.
pub struct PlayerView {
    pub entity: EntityView,
    pub up: bool,
    pub down: bool,
    pub left: bool,
    pub right: bool,
}

impl PlayerView {
    /// A ship as it is made: at (`x`, `y`), with no intent set.
    pub open spec fn fresh(
        sprite_width: int,
        sprite_height: int,
        x: int,
        y: int,
        rotation: int,
        scale: int,
    ) -> PlayerView {
        PlayerView {
            entity: EntityView { sprite_width, sprite_height, x, y, rotation, scale },
            up: false,
            down: false,
            left: false,
            right: false,
        }
    }

    /// The ship with the intent that `key` names set to `pressed`; any key
    /// but the four arrows leaves it as it is.
    pub open spec fn with_intent(self, key: VirtualKeyCode, pressed: bool) -> PlayerView {
        PlayerView {
            entity: self.entity,
            up: if key == VirtualKeyCode::Up {
                pressed
            } else {
                self.up
            },
            down: if key == VirtualKeyCode::Down {
                pressed
            } else {
                self.down
            },
            left: if key == VirtualKeyCode::Left {
                pressed
            } else {
                self.left
            },
            right: if key == VirtualKeyCode::Right {
                pressed
            } else {
                self.right
            },
        }
    }

    /// What painting the ship takes.
    pub open spec fn drawn(self) -> DrawCallView {
        DrawCallView { actor: Actor::Player, entity: self.entity }
    }

    /// The horizontal coordinate after a frame of `nanos` nanoseconds.
    ///
    /// With no horizontal intent it stays. Otherwise the ship moves by the
    /// whole pixels its speed covers and is held within `0 ..= screen_width`;
    /// where both intents are set, `right` decides.
    pub open spec fn next_x(self, nanos: int, screen_width: int) -> int {
        let step = travelled(HORIZONTAL_SPEED as int, nanos);
        if self.right {
            clamp(self.entity.x + step, 0, screen_width)
        } else if self.left {
            clamp(self.entity.x - step, 0, screen_width)
        } else {
            self.entity.x
        }
    }

    /// Whether a frame of `nanos` nanoseconds moves a ship at the left edge
    /// off it: the `right` intent is set, which decides over `left`, the
    /// frame is long enough to cover a pixel, and the screen has width.
    pub open spec fn pushed_right(self, nanos: int, screen_width: int) -> bool {
        self.right && screen_width > 0 && travelled(HORIZONTAL_SPEED as int, nanos) > 0
    }

    /// The vertical coordinate after a frame of `nanos` nanoseconds.
    ///
    /// With no vertical intent it stays. Otherwise the ship moves by the
    /// whole pixels its speed covers, `up` towards larger values, and is held
    /// within `0 ..= screen_height`; where both intents are set, `down`
    /// decides.
    pub open spec fn next_y(self, nanos: int, screen_height: int) -> int {
        let step = travelled(VERTICAL_SPEED as int, nanos);
        if self.down {
            clamp(self.entity.y - step, 0, screen_height)
        } else if self.up {
            clamp(self.entity.y + step, 0, screen_height)
        } else {
            self.entity.y
        }
    }

    /// The ship after a frame of `nanos` nanoseconds on a screen of the given
    /// size. The intents, the rotation and the scale stay as they are.
    pub open spec fn update(self, nanos: int, screen_width: int, screen_height: int) -> PlayerView {
        PlayerView {
            entity: self.entity.moved_to(
                self.next_x(nanos, screen_width),
                self.next_y(nanos, screen_height),
            ),
            up: self.up,
            down: self.down,
            left: self.left,
            right: self.right,
        }
    }

    /// The ship after the frames of `frames` in turn, each a length in
    /// nanoseconds.
    pub open spec fn after(self, frames: Seq<int>, screen_width: int, screen_height: int) -> PlayerView
        decreases frames.len(),
    {
        if frames.len() == 0 {
            self
        } else {
            self.after(frames.drop_last(), screen_width, screen_height).update(
                frames.last(),
                screen_width,
                screen_height,
            )
        }
    }
}

impl View for Player {
    type V = PlayerView;

    open spec fn view(&self) -> PlayerView {
        PlayerView {
            entity: self.entity@,
            up: self.up,
            down: self.down,
            left: self.left,
            right: self.right,
        }
    }
}

/// One axis of the ship's movement: `position` moved by `step` pixels up or
/// down the axis, held within `0 ..= limit`.
fn slide(position: u32, step: u64, forward: bool, limit: u32) -> (moved: u32)
    ensures
        forward ==> moved == clamp(position + step, 0, limit as int),
        !forward ==> moved == clamp(position - step, 0, limit as int),
{
    if forward {
        if step >= limit as u64 {
            limit
        } else if position as u64 >= limit as u64 - step {
            limit
        } else {
            position + (step as u32)
        }
    } else if step >= position as u64 {
        0
    } else {
        let moved: u32 = position - (step as u32);
        if moved > limit {
            limit
        } else {
            moved
        }
    }
}

impl Player {
    /// A ship for an image of `sprite` pixels at (`x`, `y`), with no intent
    /// set.
    pub fn new(sprite: PhysicalSize, x: u32, y: u32, rotation: i32, scale: u32) -> (player: Player)
        ensures
            player@ == PlayerView::fresh(
                sprite.width as int,
                sprite.height as int,
                x as int,
                y as int,
                rotation as int,
                scale as int,
            ),
    {
        Player { entity: Entity::new(sprite, x, y, rotation, scale), up: false, down: false, left: false, right: false }
    }

    /// Moves the ship by what its intents ask for in `elapsed_nanos`
    /// nanoseconds, on a screen of `screen_width` by `screen_height` pixels.
    pub fn update(&mut self, elapsed_nanos: u64, screen_width: u32, screen_height: u32)
        ensures
            final(self)@ == old(self)@.update(
                elapsed_nanos as int,
                screen_width as int,
                screen_height as int,
            ),
    {
        let mut x: u32 = self.entity.position_x();
        let mut y: u32 = self.entity.position_y();
        if self.left {
            x = slide(self.entity.position_x(), travelled_pixels(HORIZONTAL_SPEED, elapsed_nanos), false, screen_width);
        }
        if self.right {
            x = slide(self.entity.position_x(), travelled_pixels(HORIZONTAL_SPEED, elapsed_nanos), true, screen_width);
        }
        if self.up {
            y = slide(self.entity.position_y(), travelled_pixels(VERTICAL_SPEED, elapsed_nanos), true, screen_height);
        }
        if self.down {
            y = slide(self.entity.position_y(), travelled_pixels(VERTICAL_SPEED, elapsed_nanos), false, screen_height);
        }
        let rotation: i32 = self.entity.rotation();
        let scale: u32 = self.entity.scale();
        self.entity.update(x, y, rotation, scale);
    }

    /// Horizontal position, in pixels.
    pub fn x(&self) -> (x: u32)
        ensures
            x == self@.entity.x,
    {
        self.entity.position_x()
    }

    /// Vertical position, in pixels.
    pub fn y(&self) -> (y: u32)
        ensures
            y == self@.entity.y,
    {
        self.entity.position_y()
    }
}

impl Draw for Player {
    open spec fn drawn(&self) -> DrawCallView {
        self@.drawn()
    }

    fn draw(&self) -> (call: DrawCall) {
        DrawCall { actor: Actor::Player, entity: self.entity }
    }
}

/// A frame in which a horizontal intent is set leaves the ship within the
/// screen's width, and one in which a vertical intent is set within its
/// height, wherever the ship was before.
pub proof fn lemma_moving_player_is_on_screen(
    player: PlayerView,
    nanos: int,
    screen_width: int,
    screen_height: int,
)
    requires
        0 <= screen_width,
        0 <= screen_height,
    ensures
        player.left || player.right ==> 0 <= player.update(nanos, screen_width, screen_height).entity.x
            <= screen_width,
        player.up || player.down ==> 0 <= player.update(nanos, screen_width, screen_height).entity.y
            <= screen_height,
{
}

/// A ship that is on the screen is on it after any frame.
pub proof fn lemma_player_stays_on_screen(
    player: PlayerView,
    nanos: int,
    screen_width: int,
    screen_height: int,
)
    requires
        0 <= player.entity.x <= screen_width,
        0 <= player.entity.y <= screen_height,
    ensures
        0 <= player.update(nanos, screen_width, screen_height).entity.x <= screen_width,
        0 <= player.update(nanos, screen_width, screen_height).entity.y <= screen_height,
{
}

/// A ship at the left edge with the `left` intent set is still at the left
/// edge after any number of frames, none of which pushes it right.
pub proof fn lemma_player_pinned_at_left_edge(
    player: PlayerView,
    frames: Seq<int>,
    screen_width: int,
    screen_height: int,
)
    requires
        player.left,
        player.entity.x == 0,
        0 <= screen_width,
        forall|i: int| 0 <= i < frames.len() ==> 0 <= #[trigger] frames[i],
        forall|i: int|
            0 <= i < frames.len() ==> !player.pushed_right(#[trigger] frames[i], screen_width),
    ensures
        player.after(frames, screen_width, screen_height).entity.x == 0,
        player.after(frames, screen_width, screen_height).left == player.left,
        player.after(frames, screen_width, screen_height).right == player.right,
    decreases frames.len(),
{
    if frames.len() > 0 {
        lemma_player_pinned_at_left_edge(player, frames.drop_last(), screen_width, screen_height);
        let nanos = frames.last();
        assert(travelled(HORIZONTAL_SPEED as int, nanos) >= 0) by (nonlinear_arith)
            requires
                nanos >= 0,
                HORIZONTAL_SPEED == 900_000,
        {
        }
        assert(!player.pushed_right(nanos, screen_width));
    }
}

} // verus!
