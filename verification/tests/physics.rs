use color_the_map::game::MiniGames;
use color_the_map::geom::Vec2;
use color_the_map::input::{
    bindings, gamepad_device_index, Buttons, ControlsType, InputType, Key, KeyboardControls,
};
use color_the_map::level::spawn_position;
use color_the_map::player::Player;

fn test_player() -> Player {
    Player::new(
        Vec2 { x: 600_000, y: 80_000 },
        0,
        300_000,
        color_the_map::color::background(),
        InputType::Keyboard(KeyboardControls::WASD),
        50_000,
        50_000,
        700_000,
        0,
    )
}

#[test]
fn gravity_accelerates_airborne_players() {
    let mut p = test_player();
    assert!(!p.is_on_ground);
    p.update(Buttons::released(), MiniGames::ColorTheMap, 1_000);
    // One full second of gravity in milliunits per second.
    assert_eq!(p.velocity.y, 980_800);
    // Integration uses the updated velocity: 980_800 mu/s over one second.
    assert_eq!(p.position.y, 80_000 + 980_800);
}

#[test]
fn grounded_players_feel_no_gravity() {
    let mut p = test_player();
    p.is_on_ground = true;
    p.update(Buttons::released(), MiniGames::ColorTheMap, 16);
    assert_eq!(p.velocity.y, 0);
}

#[test]
fn jump_starts_at_full_force() {
    let mut p = test_player();
    p.is_on_ground = true;
    let up = Buttons { up: true, ..Buttons::released() };
    p.update(up, MiniGames::ColorTheMap, 16);
    assert_eq!(p.velocity.y, -700_000);
    assert!(p.is_jumping);
    assert!(!p.is_on_ground);
    assert_eq!(p.jump_time, 0);
}

#[test]
fn held_jump_decays_linearly() {
    let mut p = test_player();
    p.is_on_ground = true;
    let up = Buttons { up: true, ..Buttons::released() };
    p.update(up, MiniGames::ColorTheMap, 16);
    p.update(up, MiniGames::ColorTheMap, 100);
    // jump_time is 100 of 400 ms: boost is 700_000 * 300 / 400.
    assert_eq!(p.jump_time, 100);
    assert_eq!(p.velocity.y, -525_000);
}

#[test]
fn released_jump_clamps_to_minimum() {
    let mut p = test_player();
    p.is_on_ground = true;
    let up = Buttons { up: true, ..Buttons::released() };
    p.update(up, MiniGames::ColorTheMap, 16);
    assert_eq!(p.velocity.y, -700_000);
    p.update(Buttons::released(), MiniGames::ColorTheMap, 10);
    // Rising at 690_192 after gravity, released early: cut to the minimum.
    assert_eq!(p.velocity.y, -200_000);
    assert!(!p.is_jumping);
}

#[test]
fn slow_ascents_keep_their_velocity_on_release() {
    let mut p = test_player();
    p.is_jumping = true;
    p.velocity.y = -150_000;
    p.update(Buttons::released(), MiniGames::ColorTheMap, 0);
    // Already below the minimum jump velocity: no clamp applies.
    assert_eq!(p.velocity.y, -150_000);
    assert!(!p.is_jumping);
}

#[test]
fn overlong_hold_ends_the_boost() {
    let mut p = test_player();
    p.is_on_ground = true;
    let up = Buttons { up: true, ..Buttons::released() };
    p.update(up, MiniGames::ColorTheMap, 16);
    p.update(up, MiniGames::ColorTheMap, 500);
    // 500 ms of hold exceeds the 400 ms limit: the jump ends and the
    // upward speed is cut to the minimum.
    assert!(!p.is_jumping);
    assert_eq!(p.velocity.y, -200_000);
}

#[test]
fn horizontal_drive_only_in_painting_rounds() {
    let mut p = test_player();
    let right = Buttons { right: true, ..Buttons::released() };
    p.update(right, MiniGames::ColorTheMap, 16);
    assert_eq!(p.velocity.x, 300_000);
    let mut q = test_player();
    q.update(right, MiniGames::Dodge, 16);
    assert_eq!(q.velocity.x, 0);
}

#[test]
fn opposite_directions_cancel() {
    let mut p = test_player();
    let both = Buttons { left: true, right: true, ..Buttons::released() };
    p.update(both, MiniGames::ColorTheMap, 16);
    assert_eq!(p.velocity.x, 0);
    let left = Buttons { left: true, ..Buttons::released() };
    p.update(left, MiniGames::ColorTheMap, 16);
    assert_eq!(p.velocity.x, -300_000);
}

#[test]
fn dead_players_do_not_move() {
    let mut p = test_player();
    p.dead = true;
    let before = p.position;
    p.update(Buttons { right: true, up: true, ..Buttons::released() }, MiniGames::ColorTheMap, 100);
    assert_eq!(p.position, before);
    assert_eq!(p.velocity, Vec2 { x: 0, y: 0 });
}

#[test]
fn collision_box_is_centered_on_position() {
    let p = test_player();
    let r = p.get_collision_rect();
    assert_eq!(r.x, 600_000 - 25_000);
    assert_eq!(r.y, 80_000 - 25_000);
    assert_eq!(r.width, 50_000);
    assert_eq!(r.height, 50_000);
}

#[test]
fn wasd_layout_binds_its_keys() {
    match bindings(InputType::Keyboard(KeyboardControls::WASD)) {
        ControlsType::Keyboard(k) => {
            assert_eq!(k.up, Key::W);
            assert_eq!(k.down, Key::S);
            assert_eq!(k.left, Key::A);
            assert_eq!(k.right, Key::D);
            assert_eq!(k.primary, Key::F);
            assert_eq!(k.secondary, Key::G);
        },
        _ => panic!("expected a keyboard binding"),
    }
}

#[test]
fn arrow_layout_binds_its_keys() {
    match bindings(InputType::Keyboard(KeyboardControls::ArrowKeys)) {
        ControlsType::Keyboard(k) => {
            assert_eq!(k.up, Key::Up);
            assert_eq!(k.primary, Key::H);
            assert_eq!(k.secondary, Key::J);
        },
        _ => panic!("expected a keyboard binding"),
    }
}

#[test]
fn controller_slots_map_down_by_two() {
    assert_eq!(gamepad_device_index(2), 0);
    assert_eq!(gamepad_device_index(3), 1);
}

#[test]
fn spawn_positions_step_by_a_hundred_units() {
    for n in 0..4u32 {
        let v = spawn_position(n);
        assert_eq!(v.x, 100_000 + 100_000 * n as i64);
        assert_eq!(v.y, 100_000);
    }
}
