use shmup::actors::bullet::Bullet;
use shmup::actors::enemy::Direction;
use shmup::actors::enemy::Enemy;
use shmup::engine::draw::Actor;
use shmup::engine::geometry::PhysicalSize;
use shmup::engine::geometry::Vector2;
use shmup::engine::process_window_event::window_event;
use shmup::engine::state::State;
use shmup::engine::state::BULLET_SCALE;
use shmup::engine::state::ENEMY_SCALE;
use shmup::engine::state::ENEMY_VELOCITY_BELOW;
use shmup::engine::state::ENEMY_VELOCITY_FROM;
use shmup::engine::state::MAX_BULLETS;
use shmup::engine::state::MAX_ENEMIES;
use shmup::engine::state::PLAYER_SCALE;
use shmup::engine::state::PLAYER_START;
use shmup::engine::window::ControlFlow;
use shmup::engine::window::ElementState;
use shmup::engine::window::VirtualKeyCode;
use shmup::engine::window::WindowEvent;
use shmup::Shmup;

const FRAME: u64 = 16_000_000;
const WIDTH: u32 = 562;
const HEIGHT: u32 = 1021;

fn sprite() -> PhysicalSize {
    PhysicalSize { width: 8, height: 8 }
}

fn game() -> State {
    State::new(PhysicalSize { width: WIDTH, height: HEIGHT }, sprite(), sprite(), sprite())
}

fn key(state: ElementState, code: VirtualKeyCode) -> WindowEvent {
    WindowEvent::KeyboardInput { state, virtual_keycode: Some(code) }
}

#[test]
fn rules_are_as_documented() {
    assert_eq!(MAX_BULLETS, 1);
    assert_eq!(MAX_ENEMIES, 15);
    assert_eq!(PLAYER_START, 200);
    assert_eq!(PLAYER_SCALE, 4000);
    assert_eq!(BULLET_SCALE, 2000);
    assert_eq!(ENEMY_SCALE, 2000);
    assert_eq!(ENEMY_VELOCITY_FROM, 300_000);
    assert_eq!(ENEMY_VELOCITY_BELOW, 700_000);
}

#[test]
fn game_handle_update_does_nothing() {
    Shmup::update();
}

#[test]
fn new_game_has_a_player_and_nothing_else() {
    let state = game();
    assert_eq!(state.size, PhysicalSize { width: WIDTH, height: HEIGHT });
    assert_eq!((state.player.x(), state.player.y()), (200, 200));
    assert_eq!(state.player.entity.scale(), 4000);
    assert_eq!(state.player.entity.rotation(), 0);
    assert!(state.enemies.is_empty());
    assert!(state.bullets.is_empty());
}

#[test]
fn first_frame_fires_a_bullet_and_spawns_an_enemy() {
    let mut state = game();
    state.update_with_spawn(FRAME, 10, 1500, 400_000);
    assert_eq!(state.bullets.len(), 1);
    assert_eq!(state.bullets[0].position(), Vector2 { x: 200, y: 200 });
    assert_eq!(state.bullets[0].get_collision().width(), 16_000);
    assert!(state.bullets[0].alive());
    assert_eq!(state.enemies.len(), 1);
    assert_eq!(state.enemies[0].position(), Vector2 { x: 10, y: 1500 });
    assert_eq!(state.enemies[0].velocity(), 400_000);
    assert_eq!(state.enemies[0].direction(), Direction::Left);
    assert!(state.enemies[0].alive());
}

#[test]
fn second_frame_moves_what_the_first_made() {
    let mut state = game();
    state.update_with_spawn(FRAME, 10, 1500, 400_000);
    state.update_with_spawn(FRAME, 300, 1100, 600_000);
    assert_eq!(state.bullets.len(), 1);
    assert_eq!(state.bullets[0].position(), Vector2 { x: 200, y: 264 });
    assert_eq!(state.enemies.len(), 2);
    // 10 - 4.26.. = 5.73.. and 1500 - 6.4 = 1493.6
    assert_eq!(state.enemies[0].position(), Vector2 { x: 5, y: 1493 });
    assert_eq!(state.enemies[1].position(), Vector2 { x: 300, y: 1100 });
    assert_eq!(state.enemies[1].velocity(), 600_000);
}

#[test]
fn bullet_is_fired_from_where_the_player_has_moved_to() {
    let mut state = game();
    state.player.right = true;
    state.player.up = true;
    state.update_with_spawn(FRAME, 10, 1500, 400_000);
    assert_eq!((state.player.x(), state.player.y()), (214, 220));
    assert_eq!(state.bullets[0].position(), Vector2 { x: 214, y: 220 });
}

#[test]
fn overlapping_enemy_and_bullet_are_both_killed() {
    let mut state = game();
    state.enemies.push(Enemy::new(sprite(), 100, 300, 400_000, 0, 2000));
    state.bullets.push(Bullet::new(sprite(), 100, 240, 0, 2000));
    state.update_with_spawn(FRAME, 500, 1500, 400_000);
    // The enemy is now at (95, 293), the bullet at (100, 304); both boxes are
    // 16 px a side.
    assert_eq!(state.enemies[0].position(), Vector2 { x: 95, y: 293 });
    assert_eq!(state.bullets[0].position(), Vector2 { x: 100, y: 304 });
    assert!(!state.enemies[0].alive());
    assert!(!state.bullets[0].alive());
    assert_eq!(state.enemies.len(), 2);
    assert!(state.enemies[1].alive());
}

#[test]
fn enemy_and_bullet_apart_both_stay_alive() {
    let mut state = game();
    state.enemies.push(Enemy::new(sprite(), 100, 300, 400_000, 0, 2000));
    state.bullets.push(Bullet::new(sprite(), 400, 240, 0, 2000));
    state.update_with_spawn(FRAME, 500, 1500, 400_000);
    assert!(state.enemies[0].alive());
    assert!(state.bullets[0].alive());
    assert!(state.enemies[1].alive());
}

#[test]
fn resolve_collisions_alone_kills_an_overlapping_pair() {
    let mut state = game();
    state.enemies.push(Enemy::new(sprite(), 100, 300, 400_000, 0, 2000));
    state.bullets.push(Bullet::new(sprite(), 110, 310, 0, 2000));
    state.resolve_collisions();
    assert!(!state.enemies[0].alive());
    assert!(!state.bullets[0].alive());
    assert_eq!(state.enemies[0].position(), Vector2 { x: 100, y: 300 });
    assert_eq!(state.bullets[0].position(), Vector2 { x: 110, y: 310 });
}

#[test]
fn resolve_collisions_leaves_a_touching_pair_alone() {
    let mut state = game();
    state.enemies.push(Enemy::new(sprite(), 100, 300, 400_000, 0, 2000));
    state.bullets.push(Bullet::new(sprite(), 116, 300, 0, 2000));
    state.resolve_collisions();
    assert!(state.enemies[0].alive());
    assert!(state.bullets[0].alive());
}

#[test]
fn a_bullet_kills_one_enemy_only() {
    let mut state = game();
    state.enemies.push(Enemy::new(sprite(), 100, 300, 400_000, 0, 2000));
    state.enemies.push(Enemy::new(sprite(), 104, 300, 400_000, 0, 2000));
    state.bullets.push(Bullet::new(sprite(), 102, 300, 0, 2000));
    state.resolve_collisions();
    assert!(!state.enemies[0].alive());
    assert!(state.enemies[1].alive());
    assert!(!state.bullets[0].alive());
}

#[test]
fn an_enemy_takes_the_first_bullet_that_hits_it() {
    let mut state = game();
    state.enemies.push(Enemy::new(sprite(), 100, 300, 400_000, 0, 2000));
    state.enemies.push(Enemy::new(sprite(), 104, 300, 400_000, 0, 2000));
    state.bullets.push(Bullet::new(sprite(), 400, 300, 0, 2000));
    state.bullets.push(Bullet::new(sprite(), 102, 300, 0, 2000));
    state.bullets.push(Bullet::new(sprite(), 103, 300, 0, 2000));
    state.resolve_collisions();
    assert!(!state.enemies[0].alive());
    assert!(!state.enemies[1].alive());
    assert!(state.bullets[0].alive());
    assert!(!state.bullets[1].alive());
    assert!(!state.bullets[2].alive());
}

#[test]
fn a_bullet_stops_the_first_of_two_enemies_in_a_frame() {
    let mut state = game();
    state.enemies.push(Enemy::new(sprite(), 100, 300, 400_000, 0, 2000));
    state.enemies.push(Enemy::new(sprite(), 104, 300, 400_000, 0, 2000));
    state.bullets.push(Bullet::new(sprite(), 100, 240, 0, 2000));
    state.update_with_spawn(FRAME, 500, 1500, 400_000);
    assert_eq!(state.enemies[0].position(), Vector2 { x: 95, y: 293 });
    assert_eq!(state.enemies[1].position(), Vector2 { x: 99, y: 293 });
    assert_eq!(state.bullets[0].position(), Vector2 { x: 100, y: 304 });
    assert!(!state.enemies[0].alive());
    assert!(state.enemies[1].alive());
    assert!(!state.bullets[0].alive());
    assert!(state.enemies[2].alive());
}

#[test]
fn a_bullet_past_the_screen_still_stops_an_enemy() {
    let mut state = State::new(PhysicalSize { width: 600, height: 800 }, sprite(), sprite(), sprite());
    let mut bullet = Bullet::new(sprite(), 100, 900, 0, 2000);
    bullet.update(FRAME, 800);
    assert!(!bullet.alive());
    assert_eq!(bullet.position(), Vector2 { x: 100, y: 900 });
    state.bullets.push(bullet);
    state.enemies.push(Enemy::new(sprite(), 100, 904, 400_000, 0, 2000));
    state.resolve_collisions();
    assert!(!state.enemies[0].alive());
    assert!(!state.bullets[0].alive());
}

#[test]
fn a_bullet_that_leaves_the_screen_in_a_frame_stops_an_enemy_in_it() {
    let mut state = State::new(PhysicalSize { width: 600, height: 800 }, sprite(), sprite(), sprite());
    state.bullets.push(Bullet::new(sprite(), 100, 900, 0, 2000));
    state.enemies.push(Enemy::new(sprite(), 100, 910, 400_000, 0, 2000));
    state.update_with_spawn(FRAME, 500, 1500, 400_000);
    // The bullet is spent where it stood; the enemy has come to (95, 903).
    assert_eq!(state.bullets[0].position(), Vector2 { x: 100, y: 900 });
    assert_eq!(state.enemies[0].position(), Vector2 { x: 95, y: 903 });
    assert!(!state.bullets[0].alive());
    assert!(!state.enemies[0].alive());
    assert!(state.enemies[1].alive());
}

#[test]
fn a_bullet_past_the_screen_stops_one_enemy_only() {
    let mut state = State::new(PhysicalSize { width: 600, height: 800 }, sprite(), sprite(), sprite());
    let mut bullet = Bullet::new(sprite(), 100, 900, 0, 2000);
    bullet.update(FRAME, 800);
    state.bullets.push(bullet);
    state.enemies.push(Enemy::new(sprite(), 100, 904, 400_000, 0, 2000));
    state.enemies.push(Enemy::new(sprite(), 102, 904, 400_000, 0, 2000));
    state.resolve_collisions();
    assert!(!state.enemies[0].alive());
    assert!(state.enemies[1].alive());
    assert!(!state.bullets[0].alive());
}

#[test]
fn an_enemy_that_is_gone_still_takes_a_bullet() {
    let mut state = game();
    let mut enemy = Enemy::new(sprite(), 100, 300, 400_000, 0, 2000);
    enemy.kill();
    state.enemies.push(enemy);
    state.enemies.push(Enemy::new(sprite(), 104, 300, 400_000, 0, 2000));
    state.bullets.push(Bullet::new(sprite(), 102, 300, 0, 2000));
    state.resolve_collisions();
    assert!(!state.enemies[0].alive());
    assert!(state.enemies[1].alive());
    assert!(!state.bullets[0].alive());
}

#[test]
fn the_dead_are_cleared_away_in_order() {
    let mut state = game();
    for x in [10, 20, 30, 40] {
        state.enemies.push(Enemy::new(sprite(), x, 2000, 300_000, 0, 2000));
    }
    state.enemies[1].kill();
    state.enemies[3].kill();
    state.update_with_spawn(0, 500, 1500, 400_000);
    assert_eq!(state.enemies.len(), 3);
    assert_eq!(state.enemies[0].position().x, 10);
    assert_eq!(state.enemies[1].position().x, 30);
    assert_eq!(state.enemies[2].position().x, 500);
}

#[test]
fn a_spent_bullet_is_replaced_the_frame_after() {
    let mut state = game();
    state.bullets.push(Bullet::new(sprite(), 50, HEIGHT + 1, 0, 2000));
    state.update_with_spawn(FRAME, 500, 1500, 400_000);
    assert_eq!(state.bullets.len(), 1);
    assert!(!state.bullets[0].alive());
    assert_eq!(state.bullets[0].position(), Vector2 { x: 50, y: HEIGHT + 1 });
    state.update_with_spawn(FRAME, 500, 1500, 400_000);
    assert_eq!(state.bullets.len(), 1);
    assert!(state.bullets[0].alive());
    assert_eq!(state.bullets[0].position(), Vector2 { x: 200, y: 200 });
}

#[test]
fn no_enemy_appears_when_there_are_fifteen() {
    let mut state = game();
    for i in 0..15 {
        state.enemies.push(Enemy::new(sprite(), 20 + i, 5000, 300_000, 0, 2000));
    }
    state.update_with_spawn(FRAME, 500, 1500, 400_000);
    assert_eq!(state.enemies.len(), 15);
    state.update(FRAME);
    assert_eq!(state.enemies.len(), 15);
}

#[test]
fn population_stays_within_bounds_over_many_frames() {
    let mut state = game();
    for frame in 0..600 {
        state.update(FRAME);
        assert!(state.bullets.len() <= 1);
        assert!(state.enemies.len() <= 15);
        assert!(state.bullets.iter().filter(|b| b.alive()).count() <= 1);
        assert!(state.enemies.iter().filter(|e| e.alive()).count() <= 15);
        assert_eq!(state.bullets.len(), 1);
        if frame >= 14 {
            assert!(state.enemies.len() >= 1);
        }
    }
}

#[test]
fn enemies_appear_at_random_within_the_spawn_band() {
    let mut state = game();
    let mut xs = Vec::new();
    let mut ys = Vec::new();
    let mut velocities = Vec::new();
    for frame in 0..15 {
        state.update(0);
        assert_eq!(state.enemies.len(), frame + 1);
        let spawned = state.enemies[frame];
        assert!(spawned.alive());
        assert_eq!(spawned.direction(), Direction::Left);
        assert!(spawned.position().x < WIDTH);
        assert!(spawned.position().y >= HEIGHT);
        assert!(spawned.position().y < 2 * HEIGHT);
        assert!(spawned.velocity() >= 300_000);
        assert!(spawned.velocity() < 700_000);
        assert_eq!(spawned.get_collision().width(), 16_000);
        xs.push(spawned.position().x);
        ys.push(spawned.position().y);
        velocities.push(spawned.velocity());
    }
    // Fifteen draws that all give the lower bound are no draws.
    assert!(xs.iter().any(|x| *x != 0));
    assert!(ys.iter().any(|y| *y != HEIGHT));
    assert!(velocities.iter().any(|v| *v != 300_000));
}

#[test]
fn frame_is_painted_bullets_then_enemies_then_player() {
    let mut state = game();
    state.bullets.push(Bullet::new(sprite(), 1, 1, 0, 2000));
    state.bullets.push(Bullet::new(sprite(), 2, 2, 0, 2000));
    state.enemies.push(Enemy::new(sprite(), 3, 3, 400_000, 0, 2000));
    state.enemies.push(Enemy::new(sprite(), 4, 4, 400_000, 0, 2000));
    state.enemies.push(Enemy::new(sprite(), 5, 5, 400_000, 0, 2000));
    state.enemies[1].kill();
    let calls = state.render();
    let painted: Vec<(Actor, u32)> = calls.iter().map(|c| (c.actor, c.entity.position_x())).collect();
    assert_eq!(
        painted,
        vec![
            (Actor::Bullet, 1),
            (Actor::Bullet, 2),
            (Actor::Enemy, 3),
            (Actor::Enemy, 4),
            (Actor::Enemy, 5),
            (Actor::Player, 200),
        ]
    );
    assert_eq!(calls[5].entity.scale(), 4000);
}

#[test]
fn empty_game_paints_the_player_alone() {
    let calls = game().render();
    assert_eq!(calls.len(), 1);
    assert_eq!(calls[0].actor, Actor::Player);
}

#[test]
fn arrow_keys_set_and_clear_intents() {
    let mut state = game();
    assert!(state.input(&key(ElementState::Pressed, VirtualKeyCode::Up)));
    assert!(state.player.up);
    assert!(state.input(&key(ElementState::Pressed, VirtualKeyCode::Left)));
    assert!(state.player.left && state.player.up);
    assert!(state.input(&key(ElementState::Released, VirtualKeyCode::Up)));
    assert!(!state.player.up && state.player.left);
    assert!(state.input(&key(ElementState::Pressed, VirtualKeyCode::Down)));
    assert!(state.input(&key(ElementState::Pressed, VirtualKeyCode::Right)));
    assert!(state.player.down && state.player.right && state.player.left);
    assert!(state.input(&key(ElementState::Released, VirtualKeyCode::Left)));
    assert!(state.input(&key(ElementState::Released, VirtualKeyCode::Down)));
    assert!(state.input(&key(ElementState::Released, VirtualKeyCode::Right)));
    assert!(!state.player.up && !state.player.down && !state.player.left && !state.player.right);
}

#[test]
fn other_events_are_not_taken() {
    let mut state = game();
    assert!(!state.input(&key(ElementState::Pressed, VirtualKeyCode::Escape)));
    assert!(!state.input(&key(ElementState::Pressed, VirtualKeyCode::Other)));
    assert!(!state.input(&WindowEvent::KeyboardInput {
        state: ElementState::Pressed,
        virtual_keycode: None,
    }));
    assert!(!state.input(&WindowEvent::CloseRequested));
    assert!(!state.input(&WindowEvent::Resized(PhysicalSize { width: 1, height: 1 })));
    assert!(!state.input(&WindowEvent::Other));
    assert!(!state.player.up && !state.player.down && !state.player.left && !state.player.right);
}

#[test]
fn resize_changes_nothing() {
    let mut state = game();
    state.resize(PhysicalSize { width: 10, height: 10 });
    assert_eq!(state.size, PhysicalSize { width: WIDTH, height: HEIGHT });
}

#[test]
fn close_and_escape_leave_the_loop() {
    let mut state = game();
    let mut flow = ControlFlow::Poll;
    window_event(&WindowEvent::CloseRequested, &mut flow, &mut state);
    assert_eq!(flow, ControlFlow::Exit);
    let mut flow = ControlFlow::Poll;
    window_event(&key(ElementState::Pressed, VirtualKeyCode::Escape), &mut flow, &mut state);
    assert_eq!(flow, ControlFlow::Exit);
}

#[test]
fn other_window_events_go_on() {
    let mut state = game();
    let mut flow = ControlFlow::Poll;
    window_event(&key(ElementState::Released, VirtualKeyCode::Escape), &mut flow, &mut state);
    assert_eq!(flow, ControlFlow::Poll);
    window_event(&key(ElementState::Pressed, VirtualKeyCode::Other), &mut flow, &mut state);
    assert_eq!(flow, ControlFlow::Poll);
    window_event(&WindowEvent::Resized(PhysicalSize { width: 9, height: 9 }), &mut flow, &mut state);
    assert_eq!(flow, ControlFlow::Poll);
    assert_eq!(state.size, PhysicalSize { width: WIDTH, height: HEIGHT });
    window_event(
        &WindowEvent::ScaleFactorChanged { new_inner_size: PhysicalSize { width: 9, height: 9 } },
        &mut flow,
        &mut state,
    );
    assert_eq!(flow, ControlFlow::Poll);
    window_event(&WindowEvent::Other, &mut flow, &mut state);
    assert_eq!(flow, ControlFlow::Poll);
    window_event(&key(ElementState::Pressed, VirtualKeyCode::Left), &mut flow, &mut state);
    assert_eq!(flow, ControlFlow::Poll);
    assert!(state.player.left);
}
