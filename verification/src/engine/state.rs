//! The simulation: the player, the enemies and bullets on the screen, and
//! what one frame does to them.

use vstd::prelude::*;
use crate::actors::bullet::Bullet;
use crate::actors::bullet::BulletView;
use crate::actors::enemy::Enemy;
use crate::actors::enemy::EnemyView;
use crate::actors::player::Player;
use crate::actors::player::PlayerView;
use crate::engine::collision_2d::Collision2D;
use crate::engine::collision_2d::Rect;
use crate::engine::draw::Draw;
use crate::engine::draw::DrawCall;
use crate::engine::draw::DrawCallView;
use crate::engine::geometry::PhysicalSize;
use crate::engine::random::random_in_range;
use crate::engine::window::ElementState;
use crate::engine::window::VirtualKeyCode;
use crate::engine::window::WindowEvent;

verus! {

/// How many bullets are kept in flight: a new one is fired while there are
/// fewer.
pub const MAX_BULLETS: usize = 1;

/// How many enemies are kept on their way: a new one appears, one a frame,
/// while there are fewer.
pub const MAX_ENEMIES: usize = 15;

/// Scale of the player's sprite, in thousandths.
pub const PLAYER_SCALE: u32 = 4000;

/// Scale of a bullet's sprite, in thousandths.
pub const BULLET_SCALE: u32 = 2000;

/// Scale of an enemy's sprite, in thousandths.
pub const ENEMY_SCALE: u32 = 2000;

/// Where the player starts, on both axes, in pixels.
pub const PLAYER_START: u32 = 200;

/// The least velocity an enemy appears with, in thousandths of a pixel per
/// second.
pub const ENEMY_VELOCITY_FROM: u32 = 300_000;

/// The bound that every enemy's velocity stays below, in thousandths of a
/// pixel per second.
pub const ENEMY_VELOCITY_BELOW: u32 = 700_000;

/// The whole simulation.
pub struct State {
    /// Inner size of the window, in pixels.
    pub size: PhysicalSize,
    pub player: Player,
    pub enemies: Vec<Enemy>,
    pub bullets: Vec<Bullet>,
    /// Pixel size of the image that bullets are drawn with.
    pub bullet_sprite: PhysicalSize,
    /// Pixel size of the image that enemies are drawn with.
    pub enemy_sprite: PhysicalSize,
}

/// What a [`State`] stands for.
pub struct StateView {
    pub width: int,
    pub height: int,
    pub player: PlayerView,
    pub enemies: Seq<EnemyView>,
    pub bullets: Seq<BulletView>,
    pub bullet_sprite: PhysicalSize,
    pub enemy_sprite: PhysicalSize,
}

/// What each bullet of a collection stands for, in order.
pub open spec fn bullet_views(bullets: Seq<Bullet>) -> Seq<BulletView> {
    bullets.map_values(|bullet: Bullet| bullet@)
}

/// What each enemy of a collection stands for, in order.
pub open spec fn enemy_views(enemies: Seq<Enemy>) -> Seq<EnemyView> {
    enemies.map_values(|enemy: Enemy| enemy@)
}

/// The bullets still in flight, in the order they had.
pub open spec fn live_bullets(bullets: Seq<BulletView>) -> Seq<BulletView> {
    bullets.filter(|bullet: BulletView| bullet.alive)
}

/// The enemies still on their way, in the order they had.
pub open spec fn live_enemies(enemies: Seq<EnemyView>) -> Seq<EnemyView> {
    enemies.filter(|enemy: EnemyView| enemy.alive)
}

/// The bullets that a frame of `nanos` nanoseconds keeps: those in flight,
/// in order, each advanced by the frame.
pub open spec fn flown_bullets(bullets: Seq<BulletView>, nanos: int, screen_height: int) -> Seq<BulletView> {
    live_bullets(bullets).map_values(|bullet: BulletView| bullet.update(nanos, screen_height))
}

/// The enemies that a frame of `nanos` nanoseconds keeps: those on their
/// way, in order, each advanced by the frame.
pub open spec fn moved_enemies(
    enemies: Seq<EnemyView>,
    nanos: int,
    screen_height: int,
    screen_width: int,
) -> Seq<EnemyView> {
    live_enemies(enemies).map_values(
        |enemy: EnemyView| enemy.update(nanos, screen_height, screen_width),
    )
}

/// Enemies and bullets in the course of settling their collisions, and the
/// places of the bullets that enemies have taken so far.
pub struct Settled {
    pub enemies: Seq<EnemyView>,
    pub bullets: Seq<BulletView>,
    pub taken: Set<int>,
}

/// Whether the bullet at `place` stops an enemy whose bounding box is
/// `target`: the boxes overlap, and no enemy has taken the bullet earlier in
/// the same pass. Whether the bullet is still in flight does not count.
pub open spec fn hits(target: Rect, bullets: Seq<BulletView>, taken: Set<int>, place: int) -> bool {
    !taken.contains(place) && target.overlaps(bullets[place].collision)
}

/// The place among `bullets`, at or after `from`, of the first bullet that
/// hits `target`; the number of bullets if there is none.
pub open spec fn first_hit(target: Rect, bullets: Seq<BulletView>, taken: Set<int>, from: int) -> int
    decreases bullets.len() - from,
{
    if from >= bullets.len() {
        bullets.len() as int
    } else if hits(target, bullets, taken, from) {
        from
    } else {
        first_hit(target, bullets, taken, from + 1)
    }
}

/// Enemies and bullets after the collisions of the enemies from place `from`
/// on are settled, where the bullets at the places of `taken` were taken
/// before.
///
/// The enemies are taken in order. Each looks for the first bullet whose
/// box overlaps its own, among those that no enemy before it has taken;
/// where there is one, enemy and bullet are both gone and the bullet is
/// taken. So an enemy takes one bullet at most, and a bullet stops no second
/// enemy.
pub open spec fn resolve(
    enemies: Seq<EnemyView>,
    bullets: Seq<BulletView>,
    taken: Set<int>,
    from: int,
) -> Settled
    decreases enemies.len() - from,
{
    if from < 0 || from >= enemies.len() {
        Settled { enemies, bullets, taken }
    } else {
        let hit = first_hit(enemies[from].collision, bullets, taken, 0);
        if hit < bullets.len() {
            resolve(
                enemies.update(from, enemies[from].killed()),
                bullets.update(hit, bullets[hit].killed()),
                taken.insert(hit),
                from + 1,
            )
        } else {
            resolve(enemies, bullets, taken, from + 1)
        }
    }
}

/// The places that a list of flags marks.
pub open spec fn marked(flags: Seq<bool>) -> Set<int> {
    Set::new(|place: int| 0 <= place < flags.len() && flags[place])
}

impl StateView {
    /// The screen has room to move and to spawn in, and every bounding box
    /// sits on its actor.
    pub open spec fn wf(self) -> bool {
        &&& 0 < self.width <= u32::MAX
        &&& 0 < self.height
        &&& 2 * self.height <= u32::MAX
        &&& forall|i: int| 0 <= i < self.bullets.len() ==> (#[trigger] self.bullets[i]).wf()
        &&& forall|i: int| 0 <= i < self.enemies.len() ==> (#[trigger] self.enemies[i]).wf()
    }

    /// The first part of a frame of `nanos` nanoseconds.
    ///
    /// The player moves as its intents ask. Bullets and enemies that are gone
    /// are cleared away and the others advance. Then, if fewer than
    /// [`MAX_BULLETS`] bullets are left, one is fired from where the player
    /// now stands.
    pub open spec fn advance(self, nanos: int) -> StateView {
        let player = self.player.update(nanos, self.width, self.height);
        let flown = flown_bullets(self.bullets, nanos, self.height);
        let fired = BulletView::fresh(
            self.bullet_sprite.width as int,
            self.bullet_sprite.height as int,
            player.entity.x,
            player.entity.y,
            0,
            BULLET_SCALE as int,
        );
        StateView {
            width: self.width,
            height: self.height,
            player,
            enemies: moved_enemies(self.enemies, nanos, self.height, self.width),
            bullets: if flown.len() < MAX_BULLETS {
                flown.push(fired)
            } else {
                flown
            },
            bullet_sprite: self.bullet_sprite,
            enemy_sprite: self.enemy_sprite,
        }
    }

    /// Whether there is room for another enemy.
    pub open spec fn has_room(self) -> bool {
        self.enemies.len() < MAX_ENEMIES
    }

    /// Whether an enemy may appear at (`x`, `y`) with `velocity`: across the
    /// screen's width, within one screen's height beyond the screen, and with
    /// a velocity from [`ENEMY_VELOCITY_FROM`] to below
    /// [`ENEMY_VELOCITY_BELOW`].
    pub open spec fn may_spawn(self, x: int, y: int, velocity: int) -> bool {
        &&& 0 <= x < self.width
        &&& self.height <= y < 2 * self.height
        &&& ENEMY_VELOCITY_FROM <= velocity < ENEMY_VELOCITY_BELOW
    }

    /// The state with a new enemy at (`x`, `y`) after the others, if there is
    /// room for one; the state itself if there is none.
    pub open spec fn with_spawn(self, x: int, y: int, velocity: int) -> StateView {
        if self.has_room() {
            StateView {
                width: self.width,
                height: self.height,
                player: self.player,
                enemies: self.enemies.push(
                    EnemyView::fresh(
                        self.enemy_sprite.width as int,
                        self.enemy_sprite.height as int,
                        x,
                        y,
                        velocity,
                        0,
                        ENEMY_SCALE as int,
                    ),
                ),
                bullets: self.bullets,
                bullet_sprite: self.bullet_sprite,
                enemy_sprite: self.enemy_sprite,
            }
        } else {
            self
        }
    }

    /// The state after the collisions between its enemies and its bullets
    /// are settled, as [`resolve`] settles them from the first enemy on with
    /// no bullet taken yet.
    pub open spec fn resolved(self) -> StateView {
        let settled = resolve(self.enemies, self.bullets, Set::empty(), 0);
        StateView {
            width: self.width,
            height: self.height,
            player: self.player,
            enemies: settled.enemies,
            bullets: settled.bullets,
            bullet_sprite: self.bullet_sprite,
            enemy_sprite: self.enemy_sprite,
        }
    }

    /// The state a game starts in: the player at its starting place, no
    /// enemy, no bullet.
    pub open spec fn initial(
        size: PhysicalSize,
        player_sprite: PhysicalSize,
        bullet_sprite: PhysicalSize,
        enemy_sprite: PhysicalSize,
    ) -> StateView {
        StateView {
            width: size.width as int,
            height: size.height as int,
            player: PlayerView::fresh(
                player_sprite.width as int,
                player_sprite.height as int,
                PLAYER_START as int,
                PLAYER_START as int,
                0,
                PLAYER_SCALE as int,
            ),
            enemies: Seq::empty(),
            bullets: Seq::empty(),
            bullet_sprite,
            enemy_sprite,
        }
    }

    /// The state after a key event: an arrow key sets the intent of its
    /// name while it is down and clears it when it comes up.
    pub open spec fn with_key(self, key: VirtualKeyCode, pressed: bool) -> StateView {
        StateView {
            width: self.width,
            height: self.height,
            player: self.player.with_intent(key, pressed),
            enemies: self.enemies,
            bullets: self.bullets,
            bullet_sprite: self.bullet_sprite,
            enemy_sprite: self.enemy_sprite,
        }
    }

    /// What painting a frame takes, in the order it is painted: the bullets,
    /// then the enemies, each in their order, then the player on top.
    pub open spec fn draw_list(self) -> Seq<DrawCallView> {
        self.bullets.map_values(|bullet: BulletView| bullet.drawn())
            + self.enemies.map_values(|enemy: EnemyView| enemy.drawn())
            + seq![self.player.drawn()]
    }

    /// The state after a whole frame of `nanos` nanoseconds in which the
    /// enemy that appears, if one does, appears at (`x`, `y`) with
    /// `velocity`: the first part of the frame, the spawn, the collisions.
    pub open spec fn step(self, nanos: int, x: int, y: int, velocity: int) -> StateView {
        self.advance(nanos).with_spawn(x, y, velocity).resolved()
    }
}

impl View for State {
    type V = StateView;

    open spec fn view(&self) -> StateView {
        StateView {
            width: self.size.width as int,
            height: self.size.height as int,
            player: self.player@,
            enemies: enemy_views(self.enemies@),
            bullets: bullet_views(self.bullets@),
            bullet_sprite: self.bullet_sprite,
            enemy_sprite: self.enemy_sprite,
        }
    }
}

/// The place in `bullets` of the first bullet that hits a box, or the number
/// of bullets if none does. `taken` marks the bullets that are out of it.
fn find_first_hit(target: &Collision2D, bullets: &Vec<Bullet>, taken: &Vec<bool>) -> (hit: usize)
    requires
        taken.len() == bullets.len(),
    ensures
        hit == first_hit(target@, bullet_views(bullets@), marked(taken@), 0),
        hit <= bullets.len(),
{
    let mut j: usize = 0;
    while j < bullets.len()
        invariant
            j <= bullets.len(),
            taken.len() == bullets.len(),
            first_hit(target@, bullet_views(bullets@), marked(taken@), 0) == first_hit(
                target@,
                bullet_views(bullets@),
                marked(taken@),
                j as int,
            ),
        decreases bullets.len() - j,
    {
        if !taken[j] && target.check_collision(bullets[j].get_collision()) {
            return j;
        }
        j += 1;
    }
    j
}

proof fn lemma_flown_bullets_push(bullets: Seq<BulletView>, last: BulletView, nanos: int, screen_height: int)
    ensures
        flown_bullets(bullets.push(last), nanos, screen_height) == if last.alive {
            flown_bullets(bullets, nanos, screen_height).push(last.update(nanos, screen_height))
        } else {
            flown_bullets(bullets, nanos, screen_height)
        },
{
    broadcast use Seq::lemma_filter_push;

    let all = bullets.push(last);
    assert(live_bullets(all) == if last.alive {
        live_bullets(bullets).push(last)
    } else {
        live_bullets(bullets)
    });
    assert(flown_bullets(bullets.push(last), nanos, screen_height) =~= if last.alive {
        flown_bullets(bullets, nanos, screen_height).push(last.update(nanos, screen_height))
    } else {
        flown_bullets(bullets, nanos, screen_height)
    });
}

proof fn lemma_moved_enemies_push(
    enemies: Seq<EnemyView>,
    last: EnemyView,
    nanos: int,
    screen_height: int,
    screen_width: int,
)
    ensures
        moved_enemies(enemies.push(last), nanos, screen_height, screen_width) == if last.alive {
            moved_enemies(enemies, nanos, screen_height, screen_width).push(
                last.update(nanos, screen_height, screen_width),
            )
        } else {
            moved_enemies(enemies, nanos, screen_height, screen_width)
        },
{
    broadcast use Seq::lemma_filter_push;

    let all = enemies.push(last);
    assert(live_enemies(all) == if last.alive {
        live_enemies(enemies).push(last)
    } else {
        live_enemies(enemies)
    });
    assert(moved_enemies(enemies.push(last), nanos, screen_height, screen_width) =~= if last.alive {
        moved_enemies(enemies, nanos, screen_height, screen_width).push(
            last.update(nanos, screen_height, screen_width),
        )
    } else {
        moved_enemies(enemies, nanos, screen_height, screen_width)
    });
}

/// Clears away the bullets that are spent and advances the others by a
/// frame, keeping their order.
fn fly_bullets(bullets: &Vec<Bullet>, elapsed_nanos: u64, screen_height: u32) -> (flown: Vec<Bullet>)
    ensures
        bullet_views(flown@) == flown_bullets(
            bullet_views(bullets@),
            elapsed_nanos as int,
            screen_height as int,
        ),
{
    let mut flown: Vec<Bullet> = Vec::new();
    let mut i: usize = 0;
    assert(bullet_views(bullets@).take(0) =~= Seq::empty());
    assert(bullet_views(flown@) =~= Seq::empty());
    while i < bullets.len()
        invariant
            i <= bullets.len(),
            bullet_views(flown@) == flown_bullets(
                bullet_views(bullets@).take(i as int),
                elapsed_nanos as int,
                screen_height as int,
            ),
        decreases bullets.len() - i,
    {
        let ghost done = bullet_views(bullets@).take(i as int);
        let ghost kept = bullet_views(flown@);
        let mut bullet: Bullet = bullets[i];
        proof {
            lemma_flown_bullets_push(done, bullet@, elapsed_nanos as int, screen_height as int);
            assert(bullet_views(bullets@).take(i + 1) =~= done.push(bullet@));
        }
        if bullet.alive() {
            bullet.update(elapsed_nanos, screen_height);
            flown.push(bullet);
            assert(bullet_views(flown@) =~= kept.push(bullet@));
        }
        i += 1;
    }
    assert(bullet_views(bullets@).take(i as int) =~= bullet_views(bullets@));
    flown
}

/// Clears away the enemies that are gone and advances the others by a frame,
/// keeping their order.
fn move_enemies(enemies: &Vec<Enemy>, elapsed_nanos: u64, screen_height: u32, screen_width: u32) -> (moved: Vec<Enemy>)
    ensures
        enemy_views(moved@) == moved_enemies(
            enemy_views(enemies@),
            elapsed_nanos as int,
            screen_height as int,
            screen_width as int,
        ),
{
    let mut moved: Vec<Enemy> = Vec::new();
    let mut i: usize = 0;
    assert(enemy_views(enemies@).take(0) =~= Seq::empty());
    assert(enemy_views(moved@) =~= Seq::empty());
    while i < enemies.len()
        invariant
            i <= enemies.len(),
            enemy_views(moved@) == moved_enemies(
                enemy_views(enemies@).take(i as int),
                elapsed_nanos as int,
                screen_height as int,
                screen_width as int,
            ),
        decreases enemies.len() - i,
    {
        let ghost done = enemy_views(enemies@).take(i as int);
        let ghost kept = enemy_views(moved@);
        let mut enemy: Enemy = enemies[i];
        proof {
            lemma_moved_enemies_push(
                done,
                enemy@,
                elapsed_nanos as int,
                screen_height as int,
                screen_width as int,
            );
            assert(enemy_views(enemies@).take(i + 1) =~= done.push(enemy@));
        }
        if enemy.alive() {
            enemy.update(elapsed_nanos, screen_height, screen_width);
            moved.push(enemy);
            assert(enemy_views(moved@) =~= kept.push(enemy@));
        }
        i += 1;
    }
    assert(enemy_views(enemies@).take(i as int) =~= enemy_views(enemies@));
    moved
}

/// What each call of a list stands for, in order.
pub open spec fn draw_views(calls: Seq<DrawCall>) -> Seq<DrawCallView> {
    calls.map_values(|call: DrawCall| call@)
}

impl State {
    /// The state a game starts in, for a window of inner size `size` and the
    /// pixel sizes of the three sprite images.
    pub fn new(
        size: PhysicalSize,
        player_sprite: PhysicalSize,
        bullet_sprite: PhysicalSize,
        enemy_sprite: PhysicalSize,
    ) -> (state: State)
        ensures
            state@ == StateView::initial(size, player_sprite, bullet_sprite, enemy_sprite),
    {
        let state = State {
            size,
            player: Player::new(player_sprite, PLAYER_START, PLAYER_START, 0, PLAYER_SCALE),
            enemies: Vec::new(),
            bullets: Vec::new(),
            bullet_sprite,
            enemy_sprite,
        };
        assert(state@.enemies =~= Seq::empty());
        assert(state@.bullets =~= Seq::empty());
        state
    }

    /// Takes note of a new window size. Nothing changes: the screen that the
    /// simulation runs on is its `size`, which whoever runs it sets.
    pub fn resize(&mut self, new_size: PhysicalSize)
        ensures
            final(self)@ == old(self)@,
    {
    }

    /// Hands a window event to the simulation. An arrow key going down or
    /// coming up sets or clears the player's intent of that name, and the
    /// event is then dealt with: the result is `true`. Every other event is
    /// left to the caller: the result is `false` and nothing changes.
    pub fn input(&mut self, event: &WindowEvent) -> (handled: bool)
        ensures
            handled == Self::takes(*event),
            final(self)@ == Self::after_event(old(self)@, *event),
    {
        match event {
            WindowEvent::KeyboardInput { state, virtual_keycode: Some(keycode) } => {
                let pressed = match state {
                    ElementState::Pressed => true,
                    ElementState::Released => false,
                };
                match keycode {
                    VirtualKeyCode::Up => {
                        self.player.up = pressed;
                        true
                    },
                    VirtualKeyCode::Down => {
                        self.player.down = pressed;
                        true
                    },
                    VirtualKeyCode::Left => {
                        self.player.left = pressed;
                        true
                    },
                    VirtualKeyCode::Right => {
                        self.player.right = pressed;
                        true
                    },
                    _ => false,
                }
            },
            _ => false,
        }
    }

    /// Whether [`State::input`] deals with `event`: it is an arrow key going
    /// down or coming up.
    pub open spec fn takes(event: WindowEvent) -> bool {
        match event {
            WindowEvent::KeyboardInput { state, virtual_keycode: Some(keycode) } => {
                keycode == VirtualKeyCode::Up || keycode == VirtualKeyCode::Down || keycode
                    == VirtualKeyCode::Left || keycode == VirtualKeyCode::Right
            },
            _ => false,
        }
    }

    /// The state after [`State::input`] is handed `event`.
    pub open spec fn after_event(state: StateView, event: WindowEvent) -> StateView {
        match event {
            WindowEvent::KeyboardInput { state: key_state, virtual_keycode: Some(keycode) } => {
                state.with_key(keycode, key_state == ElementState::Pressed)
            },
            _ => state,
        }
    }

    /// The first part of a frame: the player moves, what is gone is cleared
    /// away, bullets and enemies advance, and a bullet is fired if none is
    /// left.
    fn advance(&mut self, elapsed_nanos: u64)
        ensures
            final(self)@ == old(self)@.advance(elapsed_nanos as int),
    {
        self.player.update(elapsed_nanos, self.size.width, self.size.height);
        self.enemies = move_enemies(&self.enemies, elapsed_nanos, self.size.height, self.size.width);
        self.bullets = fly_bullets(&self.bullets, elapsed_nanos, self.size.height);
        if self.bullets.len() < MAX_BULLETS {
            let ghost flown = bullet_views(self.bullets@);
            let fired = Bullet::new(self.bullet_sprite, self.player.x(), self.player.y(), 0, BULLET_SCALE);
            self.bullets.push(fired);
            assert(bullet_views(self.bullets@) =~= flown.push(fired@));
        }
    }

    /// Puts a new enemy at (`x`, `y`) behind the others if there is room for
    /// one.
    fn spawn(&mut self, x: u32, y: u32, velocity: u32)
        ensures
            final(self)@ == old(self)@.with_spawn(x as int, y as int, velocity as int),
    {
        if self.enemies.len() < MAX_ENEMIES {
            let ghost enemies = enemy_views(self.enemies@);
            let enemy = Enemy::new(self.enemy_sprite, x, y, velocity, 0, ENEMY_SCALE);
            self.enemies.push(enemy);
            assert(enemy_views(self.enemies@) =~= enemies.push(enemy@));
        }
    }

    /// Runs a frame of `elapsed_nanos` nanoseconds in which the enemy that
    /// appears, if there is room for one, appears at (`spawn_x`, `spawn_y`)
    /// with `spawn_velocity`.
    pub fn update_with_spawn(&mut self, elapsed_nanos: u64, spawn_x: u32, spawn_y: u32, spawn_velocity: u32)
        ensures
            final(self)@ == old(self)@.step(
                elapsed_nanos as int,
                spawn_x as int,
                spawn_y as int,
                spawn_velocity as int,
            ),
            old(self)@.wf() ==> final(self)@.wf(),
            live_bullets(old(self)@.bullets).len() <= MAX_BULLETS ==> final(self).bullets.len()
                <= MAX_BULLETS,
            live_enemies(old(self)@.enemies).len() <= MAX_ENEMIES ==> final(self).enemies.len()
                <= MAX_ENEMIES,
            old(self).bullets.len() <= MAX_BULLETS ==> final(self).bullets.len() <= MAX_BULLETS,
            old(self).enemies.len() <= MAX_ENEMIES ==> final(self).enemies.len() <= MAX_ENEMIES,
    {
        proof {
            if old(self)@.wf() {
                lemma_step_keeps_wf(
                    old(self)@,
                    elapsed_nanos as int,
                    spawn_x as int,
                    spawn_y as int,
                    spawn_velocity as int,
                );
            }
            lemma_step_keeps_population(
                old(self)@,
                elapsed_nanos as int,
                spawn_x as int,
                spawn_y as int,
                spawn_velocity as int,
            );
        }
        self.advance(elapsed_nanos);
        self.spawn(spawn_x, spawn_y, spawn_velocity);
        self.resolve_collisions();
    }

    /// Runs a frame of `elapsed_nanos` nanoseconds. Where there is room for
    /// another enemy, one appears at a place and with a velocity drawn at
    /// random from what [`StateView::may_spawn`] allows.
    pub fn update(&mut self, elapsed_nanos: u64)
        requires
            old(self)@.wf(),
        ensures
            exists|x: int, y: int, velocity: int|
                #![trigger old(self)@.step(elapsed_nanos as int, x, y, velocity)]
                old(self)@.may_spawn(x, y, velocity) && final(self)@ == old(self)@.step(
                    elapsed_nanos as int,
                    x,
                    y,
                    velocity,
                ),
            final(self)@.wf(),
            live_bullets(old(self)@.bullets).len() <= MAX_BULLETS ==> final(self).bullets.len()
                <= MAX_BULLETS,
            live_enemies(old(self)@.enemies).len() <= MAX_ENEMIES ==> final(self).enemies.len()
                <= MAX_ENEMIES,
            old(self).bullets.len() <= MAX_BULLETS ==> final(self).bullets.len() <= MAX_BULLETS,
            old(self).enemies.len() <= MAX_ENEMIES ==> final(self).enemies.len() <= MAX_ENEMIES,
    {
        let ghost before = self@;
        self.advance(elapsed_nanos);
        if self.enemies.len() < MAX_ENEMIES {
            let x: u32 = random_in_range(0, self.size.width);
            let y: u32 = random_in_range(self.size.height, self.size.height * 2);
            let velocity: u32 = random_in_range(ENEMY_VELOCITY_FROM, ENEMY_VELOCITY_BELOW);
            self.spawn(x, y, velocity);
            self.resolve_collisions();
            assert(before.may_spawn(x as int, y as int, velocity as int));
            assert(self@ == before.step(elapsed_nanos as int, x as int, y as int, velocity as int));
            proof {
                lemma_step_keeps_wf(before, elapsed_nanos as int, x as int, y as int, velocity as int);
                lemma_step_keeps_population(
                    before,
                    elapsed_nanos as int,
                    x as int,
                    y as int,
                    velocity as int,
                );
            }
        } else {
            self.resolve_collisions();
            assert(before.may_spawn(0, before.height, ENEMY_VELOCITY_FROM as int));
            assert(self@ == before.step(
                elapsed_nanos as int,
                0,
                before.height,
                ENEMY_VELOCITY_FROM as int,
            ));
            proof {
                lemma_step_keeps_wf(
                    before,
                    elapsed_nanos as int,
                    0,
                    before.height,
                    ENEMY_VELOCITY_FROM as int,
                );
                lemma_step_keeps_population(
                    before,
                    elapsed_nanos as int,
                    0,
                    before.height,
                    ENEMY_VELOCITY_FROM as int,
                );
            }
        }
    }

    /// What painting the frame takes, in the order it is painted: bullets
    /// first, then enemies, then the player on top.
    pub fn render(&self) -> (calls: Vec<DrawCall>)
        ensures
            draw_views(calls@) == self@.draw_list(),
    {
        let mut calls: Vec<DrawCall> = Vec::new();
        let ghost bullets = self@.bullets.map_values(|bullet: BulletView| bullet.drawn());
        let ghost enemies = self@.enemies.map_values(|enemy: EnemyView| enemy.drawn());
        let mut i: usize = 0;
        assert(draw_views(calls@) =~= bullets.take(0));
        while i < self.bullets.len()
            invariant
                i <= self.bullets.len(),
                bullets == self@.bullets.map_values(|bullet: BulletView| bullet.drawn()),
                draw_views(calls@) == bullets.take(i as int),
            decreases self.bullets.len() - i,
        {
            let ghost drawn = draw_views(calls@);
            let call = self.bullets[i].draw();
            calls.push(call);
            assert(draw_views(calls@) =~= drawn.push(call@));
            assert(bullets.take(i + 1) =~= bullets.take(i as int).push(call@));
            i += 1;
        }
        assert(bullets.take(i as int) =~= bullets);
        let mut j: usize = 0;
        assert(draw_views(calls@) =~= bullets + enemies.take(0));
        while j < self.enemies.len()
            invariant
                j <= self.enemies.len(),
                enemies == self@.enemies.map_values(|enemy: EnemyView| enemy.drawn()),
                draw_views(calls@) == bullets + enemies.take(j as int),
            decreases self.enemies.len() - j,
        {
            let ghost drawn = draw_views(calls@);
            let call = self.enemies[j].draw();
            calls.push(call);
            assert(draw_views(calls@) =~= drawn.push(call@));
            assert(enemies.take(j + 1) =~= enemies.take(j as int).push(call@));
            assert(bullets + enemies.take(j + 1) =~= (bullets + enemies.take(j as int)).push(call@));
            j += 1;
        }
        assert(enemies.take(j as int) =~= enemies);
        let ghost drawn = draw_views(calls@);
        let call = self.player.draw();
        calls.push(call);
        assert(draw_views(calls@) =~= drawn.push(call@));
        assert(draw_views(calls@) =~= self@.draw_list());
        calls
    }

    /// Settles the collisions between the enemies and the bullets: every
    /// enemy in turn is gone, with the first bullet that its box overlaps
    /// and that no enemy before it has taken, if there is such a bullet.
    pub fn resolve_collisions(&mut self)
        ensures
            final(self)@ == old(self)@.resolved(),
    {
        let ghost before = self@;
        let mut taken: Vec<bool> = vec![false; self.bullets.len()];
        assert(marked(taken@) =~= Set::<int>::empty());
        let mut i: usize = 0;
        while i < self.enemies.len()
            invariant
                i <= self.enemies.len(),
                taken.len() == self.bullets.len(),
                self@.width == before.width,
                self@.height == before.height,
                self@.player == before.player,
                self@.bullet_sprite == before.bullet_sprite,
                self@.enemy_sprite == before.enemy_sprite,
                resolve(before.enemies, before.bullets, Set::empty(), 0) == resolve(
                    self@.enemies,
                    self@.bullets,
                    marked(taken@),
                    i as int,
                ),
            decreases self.enemies.len() - i,
        {
            let ghost enemies = self@.enemies;
            let ghost bullets = self@.bullets;
            let ghost places = marked(taken@);
            let hit: usize = find_first_hit(self.enemies[i].get_collision(), &self.bullets, &taken);
            if hit < self.bullets.len() {
                self.bullets[hit].kill();
                self.enemies[i].kill();
                taken[hit] = true;
                assert(self@.enemies =~= enemies.update(i as int, enemies[i as int].killed()));
                assert(self@.bullets =~= bullets.update(hit as int, bullets[hit as int].killed()));
                assert(marked(taken@) =~= places.insert(hit as int));
            }
            i += 1;
        }
    }
}

/// Where the search for a hit ends: at a bullet that hits, with no bullet
/// that hits between `from` and it, or past the last bullet when none hits.
pub proof fn lemma_first_hit_is_first(target: Rect, bullets: Seq<BulletView>, taken: Set<int>, from: int)
    requires
        0 <= from <= bullets.len(),
    ensures
        from <= first_hit(target, bullets, taken, from) <= bullets.len(),
        first_hit(target, bullets, taken, from) < bullets.len() ==> hits(
            target,
            bullets,
            taken,
            first_hit(target, bullets, taken, from),
        ),
        forall|k: int|
            from <= k < first_hit(target, bullets, taken, from) ==> !#[trigger] hits(
                target,
                bullets,
                taken,
                k,
            ),
    decreases bullets.len() - from,
{
    if from < bullets.len() && !hits(target, bullets, taken, from) {
        lemma_first_hit_is_first(target, bullets, taken, from + 1);
    }
}

/// Settling collisions clears nothing away and moves nothing. Afterwards
/// every enemy is what it was, or what it was and gone, and those before
/// `from` are as they were. The bullets taken before are still taken; a
/// bullet taken in the pass is what it was and gone, and every other bullet
/// is as it was.
pub proof fn lemma_resolve_only_kills(
    enemies: Seq<EnemyView>,
    bullets: Seq<BulletView>,
    taken: Set<int>,
    from: int,
)
    requires
        0 <= from <= enemies.len(),
    ensures
        resolve(enemies, bullets, taken, from).enemies.len() == enemies.len(),
        resolve(enemies, bullets, taken, from).bullets.len() == bullets.len(),
        forall|i: int|
            0 <= i < enemies.len() ==> {
                ||| (#[trigger] resolve(enemies, bullets, taken, from).enemies[i]) == enemies[i]
                ||| resolve(enemies, bullets, taken, from).enemies[i] == enemies[i].killed()
            },
        forall|i: int|
            0 <= i < from ==> (#[trigger] resolve(enemies, bullets, taken, from).enemies[i])
                == enemies[i],
        forall|j: int|
            0 <= j < bullets.len() ==> (#[trigger] resolve(enemies, bullets, taken, from).bullets[j])
                == if resolve(enemies, bullets, taken, from).taken.contains(j) && !taken.contains(j) {
                bullets[j].killed()
            } else {
                bullets[j]
            },
        forall|j: int|
            taken.contains(j) ==> #[trigger] resolve(enemies, bullets, taken, from).taken.contains(j),
        forall|j: int| #[trigger]
            resolve(enemies, bullets, taken, from).taken.contains(j) ==> taken.contains(j) || 0 <= j
                < bullets.len(),
    decreases enemies.len() - from,
{
    if from < enemies.len() {
        let hit = first_hit(enemies[from].collision, bullets, taken, 0);
        lemma_first_hit_is_first(enemies[from].collision, bullets, taken, 0);
        if hit < bullets.len() {
            let shot = enemies.update(from, enemies[from].killed());
            let spent = bullets.update(hit, bullets[hit].killed());
            lemma_resolve_only_kills(shot, spent, taken.insert(hit), from + 1);
            let settled = resolve(enemies, bullets, taken, from);
            assert(settled == resolve(shot, spent, taken.insert(hit), from + 1));
            assert(settled.taken.contains(hit));
            assert forall|i: int| 0 <= i < enemies.len() implies {
                ||| (#[trigger] settled.enemies[i]) == enemies[i]
                ||| settled.enemies[i] == enemies[i].killed()
            } by {
                assert(settled.enemies[i] == shot[i] || settled.enemies[i] == shot[i].killed());
            }
            assert forall|j: int| 0 <= j < bullets.len() implies (#[trigger] settled.bullets[j])
                == if settled.taken.contains(j) && !taken.contains(j) {
                bullets[j].killed()
            } else {
                bullets[j]
            } by {
                assert(settled.bullets[j] == if settled.taken.contains(j) && !taken.insert(
                    hit,
                ).contains(j) {
                    spent[j].killed()
                } else {
                    spent[j]
                });
            }
        } else {
            lemma_resolve_only_kills(enemies, bullets, taken, from + 1);
        }
    }
}

/// Once collisions are settled from `from` on, no enemy from there on that
/// is still on its way overlaps a bullet that is still in flight, provided
/// the bullets taken before were gone.
pub proof fn lemma_resolve_leaves_no_hit(
    enemies: Seq<EnemyView>,
    bullets: Seq<BulletView>,
    taken: Set<int>,
    from: int,
)
    requires
        0 <= from <= enemies.len(),
        forall|j: int| 0 <= j < bullets.len() && taken.contains(j) ==> !(#[trigger] bullets[j]).alive,
    ensures
        forall|i: int, j: int|
            from <= i < enemies.len() && 0 <= j < bullets.len() ==> !({
                &&& (#[trigger] resolve(enemies, bullets, taken, from).enemies[i]).alive
                &&& (#[trigger] resolve(enemies, bullets, taken, from).bullets[j]).alive
                &&& resolve(enemies, bullets, taken, from).enemies[i].collision.overlaps(
                    resolve(enemies, bullets, taken, from).bullets[j].collision,
                )
            }),
    decreases enemies.len() - from,
{
    if from < enemies.len() {
        let target = enemies[from].collision;
        let hit = first_hit(target, bullets, taken, 0);
        lemma_first_hit_is_first(target, bullets, taken, 0);
        let settled = resolve(enemies, bullets, taken, from);
        if hit < bullets.len() {
            let shot = enemies.update(from, enemies[from].killed());
            let spent = bullets.update(hit, bullets[hit].killed());
            lemma_resolve_leaves_no_hit(shot, spent, taken.insert(hit), from + 1);
            lemma_resolve_only_kills(shot, spent, taken.insert(hit), from + 1);
            assert(settled == resolve(shot, spent, taken.insert(hit), from + 1));
            assert(settled.enemies[from] == shot[from]);
        } else {
            lemma_resolve_leaves_no_hit(enemies, bullets, taken, from + 1);
            lemma_resolve_only_kills(enemies, bullets, taken, from + 1);
            assert(settled == resolve(enemies, bullets, taken, from + 1));
            assert(settled.enemies[from] == enemies[from]);
            assert forall|j: int| 0 <= j < bullets.len() implies !({
                &&& (#[trigger] settled.bullets[j]).alive
                &&& target.overlaps(settled.bullets[j].collision)
            }) by {
                assert(!hits(target, bullets, taken, j));
                if target.overlaps(bullets[j].collision) {
                    assert(taken.contains(j));
                    assert(!bullets[j].alive);
                }
            }
        }
    }
}

proof fn lemma_killing_an_enemy_counts(enemies: Seq<EnemyView>, place: int)
    requires
        0 <= place < enemies.len(),
    ensures
        live_enemies(enemies.update(place, enemies[place].killed())).len() == live_enemies(
            enemies,
        ).len() - if enemies[place].alive {
            1int
        } else {
            0int
        },
    decreases enemies.len(),
{
    broadcast use Seq::lemma_filter_push;

    let front = enemies.drop_last();
    let killed = enemies[place].killed();
    assert(enemies =~= front.push(enemies.last()));
    if place == enemies.len() - 1 {
        assert(enemies.update(place, killed) =~= front.push(killed));
    } else {
        lemma_killing_an_enemy_counts(front, place);
        assert(enemies.update(place, killed) =~= front.update(place, killed).push(enemies.last()));
    }
}

/// Settling collisions takes a bullet for every enemy it shoots, a bullet
/// that was not taken before, and one bullet at most for each enemy it looks
/// at: no more live enemies are lost than bullets are newly taken, and no
/// more bullets are newly taken than there are enemies from `from` on.
pub proof fn lemma_resolve_takes_a_bullet_a_kill(
    enemies: Seq<EnemyView>,
    bullets: Seq<BulletView>,
    taken: Set<int>,
    from: int,
)
    requires
        0 <= from <= enemies.len(),
        taken.finite(),
    ensures
        resolve(enemies, bullets, taken, from).taken.finite(),
        live_enemies(enemies).len() - live_enemies(
            resolve(enemies, bullets, taken, from).enemies,
        ).len() <= resolve(enemies, bullets, taken, from).taken.len() - taken.len(),
        resolve(enemies, bullets, taken, from).taken.len() - taken.len() <= enemies.len() - from,
        live_enemies(resolve(enemies, bullets, taken, from).enemies).len() <= live_enemies(
            enemies,
        ).len(),
    decreases enemies.len() - from,
{
    if from < enemies.len() {
        let hit = first_hit(enemies[from].collision, bullets, taken, 0);
        lemma_first_hit_is_first(enemies[from].collision, bullets, taken, 0);
        if hit < bullets.len() {
            let shot = enemies.update(from, enemies[from].killed());
            let spent = bullets.update(hit, bullets[hit].killed());
            lemma_killing_an_enemy_counts(enemies, from);
            assert(!taken.contains(hit));
            lemma_resolve_takes_a_bullet_a_kill(shot, spent, taken.insert(hit), from + 1);
        } else {
            lemma_resolve_takes_a_bullet_a_kill(enemies, bullets, taken, from + 1);
        }
    }
}

/// One enemy and one bullet: if their boxes overlap both are gone once
/// collisions are settled, whether or not the bullet was still in flight; if
/// they do not, both are as they were.
pub proof fn lemma_lone_pair(enemy: EnemyView, bullet: BulletView)
    ensures
        resolve(seq![enemy], seq![bullet], Set::empty(), 0).enemies == if enemy.collision.overlaps(
            bullet.collision,
        ) {
            seq![enemy.killed()]
        } else {
            seq![enemy]
        },
        resolve(seq![enemy], seq![bullet], Set::empty(), 0).bullets == if enemy.collision.overlaps(
            bullet.collision,
        ) {
            seq![bullet.killed()]
        } else {
            seq![bullet]
        },
{
    let enemies = seq![enemy];
    let bullets = seq![bullet];
    let none = Set::<int>::empty();
    reveal_with_fuel(first_hit, 3);
    reveal_with_fuel(resolve, 3);
    assert(enemies[0] == enemy);
    assert(bullets[0] == bullet);
    if enemy.collision.overlaps(bullet.collision) {
        assert(first_hit(enemy.collision, bullets, none, 0) == 0);
        assert(enemies.update(0, enemy.killed()) =~= seq![enemy.killed()]);
        assert(bullets.update(0, bullet.killed()) =~= seq![bullet.killed()]);
    } else {
        assert(first_hit(enemy.collision, bullets, none, 0) == 1);
    }
}

/// Two enemies and one bullet: the bullet goes with the first enemy whose
/// box overlaps its own, and the other enemy is as it was, though its box
/// may overlap the bullet's too. If neither overlaps, all three are as they
/// were.
pub proof fn lemma_two_enemies_one_bullet(first: EnemyView, second: EnemyView, bullet: BulletView)
    ensures
        resolve(seq![first, second], seq![bullet], Set::empty(), 0).enemies
            == if first.collision.overlaps(bullet.collision) {
            seq![first.killed(), second]
        } else if second.collision.overlaps(bullet.collision) {
            seq![first, second.killed()]
        } else {
            seq![first, second]
        },
        resolve(seq![first, second], seq![bullet], Set::empty(), 0).bullets
            == if first.collision.overlaps(bullet.collision) || second.collision.overlaps(
            bullet.collision,
        ) {
            seq![bullet.killed()]
        } else {
            seq![bullet]
        },
{
    let enemies = seq![first, second];
    let bullets = seq![bullet];
    let none = Set::<int>::empty();
    reveal_with_fuel(first_hit, 3);
    reveal_with_fuel(resolve, 4);
    assert(enemies[0] == first && enemies[1] == second);
    assert(bullets[0] == bullet);
    if first.collision.overlaps(bullet.collision) {
        let shot = enemies.update(0, first.killed());
        let spent = bullets.update(0, bullet.killed());
        assert(first_hit(first.collision, bullets, none, 0) == 0);
        assert(shot =~= seq![first.killed(), second]);
        assert(spent =~= seq![bullet.killed()]);
        assert(none.insert(0).contains(0));
        assert(first_hit(second.collision, spent, none.insert(0), 0) == 1);
    } else {
        assert(first_hit(first.collision, bullets, none, 0) == 1);
        if second.collision.overlaps(bullet.collision) {
            assert(first_hit(second.collision, bullets, none, 0) == 0);
            assert(enemies.update(1, second.killed()) =~= seq![first, second.killed()]);
            assert(bullets.update(0, bullet.killed()) =~= seq![bullet.killed()]);
        } else {
            assert(first_hit(second.collision, bullets, none, 0) == 1);
        }
    }
}

/// A frame that comes to its collisions with one enemy and one bullet, as
/// it does where no enemy was on its way before: if their boxes then overlap
/// the frame leaves both gone, and if they do not it leaves both as they
/// then were.
pub proof fn lemma_step_settles_a_lone_pair(state: StateView, nanos: int, x: int, y: int, velocity: int)
    requires
        state.advance(nanos).with_spawn(x, y, velocity).enemies.len() == 1,
        state.advance(nanos).with_spawn(x, y, velocity).bullets.len() == 1,
    ensures
        ({
            let met = state.advance(nanos).with_spawn(x, y, velocity);
            let left = state.step(nanos, x, y, velocity);
            if met.enemies[0].collision.overlaps(met.bullets[0].collision) {
                &&& left.enemies == seq![met.enemies[0].killed()]
                &&& left.bullets == seq![met.bullets[0].killed()]
                &&& !left.enemies[0].alive
                &&& !left.bullets[0].alive
            } else {
                &&& left.enemies == met.enemies
                &&& left.bullets == met.bullets
            }
        }),
{
    let met = state.advance(nanos).with_spawn(x, y, velocity);
    lemma_lone_pair(met.enemies[0], met.bullets[0]);
    assert(met.enemies =~= seq![met.enemies[0]]);
    assert(met.bullets =~= seq![met.bullets[0]]);
}

/// A frame that comes to its collisions with two enemies and one bullet, as
/// it does where one enemy was on its way before and another has just
/// appeared. If the first enemy's box then overlaps the bullet's, the frame
/// leaves that enemy and the bullet gone and the second enemy as it was. If
/// only the second enemy's does, it leaves that one and the bullet gone. If
/// neither does, it leaves all three as they then were.
pub proof fn lemma_step_settles_a_pair_beside_another(
    state: StateView,
    nanos: int,
    x: int,
    y: int,
    velocity: int,
)
    requires
        state.advance(nanos).with_spawn(x, y, velocity).enemies.len() == 2,
        state.advance(nanos).with_spawn(x, y, velocity).bullets.len() == 1,
    ensures
        ({
            let met = state.advance(nanos).with_spawn(x, y, velocity);
            let left = state.step(nanos, x, y, velocity);
            if met.enemies[0].collision.overlaps(met.bullets[0].collision) {
                &&& left.enemies == seq![met.enemies[0].killed(), met.enemies[1]]
                &&& left.bullets == seq![met.bullets[0].killed()]
                &&& !left.enemies[0].alive
                &&& !left.bullets[0].alive
                &&& left.enemies[1].alive == met.enemies[1].alive
            } else if met.enemies[1].collision.overlaps(met.bullets[0].collision) {
                &&& left.enemies == seq![met.enemies[0], met.enemies[1].killed()]
                &&& left.bullets == seq![met.bullets[0].killed()]
            } else {
                &&& left.enemies == met.enemies
                &&& left.bullets == met.bullets
            }
        }),
{
    let met = state.advance(nanos).with_spawn(x, y, velocity);
    lemma_two_enemies_one_bullet(met.enemies[0], met.enemies[1], met.bullets[0]);
    assert(met.enemies =~= seq![met.enemies[0], met.enemies[1]]);
    assert(met.bullets =~= seq![met.bullets[0]]);
}

/// A frame never leaves more bullets or enemies than the greater of those
/// that were live and what the simulation keeps up. So a state with at most
/// [`MAX_BULLETS`] live bullets and [`MAX_ENEMIES`] live enemies, and all the
/// more one that holds no more than that in all, is followed by a state that
/// holds no more than that in all, live or not.
pub proof fn lemma_step_keeps_population(state: StateView, nanos: int, x: int, y: int, velocity: int)
    ensures
        state.step(nanos, x, y, velocity).bullets.len() <= vstd::math::max(
            live_bullets(state.bullets).len() as int,
            MAX_BULLETS as int,
        ),
        state.step(nanos, x, y, velocity).enemies.len() <= vstd::math::max(
            live_enemies(state.enemies).len() as int,
            MAX_ENEMIES as int,
        ),
        live_bullets(state.bullets).len() <= state.bullets.len(),
        live_enemies(state.enemies).len() <= state.enemies.len(),
        live_bullets(state.step(nanos, x, y, velocity).bullets).len() <= state.step(
            nanos,
            x,
            y,
            velocity,
        ).bullets.len(),
        live_enemies(state.step(nanos, x, y, velocity).enemies).len() <= state.step(
            nanos,
            x,
            y,
            velocity,
        ).enemies.len(),
{
    broadcast use Seq::lemma_filter_len;

    let advanced = state.advance(nanos);
    let spawned = advanced.with_spawn(x, y, velocity);
    assert(live_bullets(state.bullets).len() <= state.bullets.len());
    assert(live_enemies(state.enemies).len() <= state.enemies.len());
    lemma_resolve_only_kills(spawned.enemies, spawned.bullets, Set::empty(), 0);
}

proof fn lemma_live_bullet_was_there(bullets: Seq<BulletView>, i: int)
    requires
        0 <= i < live_bullets(bullets).len(),
    ensures
        bullets.contains(live_bullets(bullets)[i]),
{
    broadcast use Seq::lemma_filter_contains_rev;

    assert(live_bullets(bullets).contains(live_bullets(bullets)[i]));
}

proof fn lemma_live_enemy_was_there(enemies: Seq<EnemyView>, i: int)
    requires
        0 <= i < live_enemies(enemies).len(),
    ensures
        enemies.contains(live_enemies(enemies)[i]),
{
    broadcast use Seq::lemma_filter_contains_rev;

    assert(live_enemies(enemies).contains(live_enemies(enemies)[i]));
}

/// A frame keeps the screen as it is and every bounding box on its actor.
pub proof fn lemma_step_keeps_wf(state: StateView, nanos: int, x: int, y: int, velocity: int)
    requires
        state.wf(),
    ensures
        state.step(nanos, x, y, velocity).wf(),
        state.step(nanos, x, y, velocity).width == state.width,
        state.step(nanos, x, y, velocity).height == state.height,
{
    let advanced = state.advance(nanos);
    assert forall|i: int| 0 <= i < advanced.bullets.len() implies (#[trigger] advanced.bullets[i]).wf() by {
        let flown = flown_bullets(state.bullets, nanos, state.height);
        if i < flown.len() {
            lemma_live_bullet_was_there(state.bullets, i);
            let k = choose|k: int| 0 <= k < state.bullets.len() && state.bullets[k] == live_bullets(state.bullets)[i];
            assert(state.bullets[k].wf());
        }
    }
    assert forall|i: int| 0 <= i < advanced.enemies.len() implies (#[trigger] advanced.enemies[i]).wf() by {
        lemma_live_enemy_was_there(state.enemies, i);
        let k = choose|k: int| 0 <= k < state.enemies.len() && state.enemies[k] == live_enemies(state.enemies)[i];
        assert(state.enemies[k].wf());
    }
    let spawned = advanced.with_spawn(x, y, velocity);
    assert forall|i: int| 0 <= i < spawned.enemies.len() implies (#[trigger] spawned.enemies[i]).wf() by {
        if i < advanced.enemies.len() {
            assert(spawned.enemies[i] == advanced.enemies[i]);
        }
    }
    lemma_resolve_only_kills(spawned.enemies, spawned.bullets, Set::empty(), 0);
    let settled = spawned.resolved();
    assert forall|i: int| 0 <= i < settled.enemies.len() implies (#[trigger] settled.enemies[i]).wf() by {
        assert(spawned.enemies[i].wf());
    }
    assert forall|i: int| 0 <= i < settled.bullets.len() implies (#[trigger] settled.bullets[i]).wf() by {
        assert(spawned.bullets[i].wf());
    }
}

} // verus!
