use color_the_map::bullet::Bullet;
use color_the_map::color::{background, player_palette};
use color_the_map::game::{Game, GameMode, HeadMsg, MiniGames};
use color_the_map::geom::{Rect, Vec2};
use color_the_map::input::Buttons;

fn released_inputs() -> Vec<Buttons> {
    vec![Buttons::released(); 4]
}

/// Parks every player in open air so a frame moves nobody into geometry.
fn park_players(g: &mut Game) {
    for (i, p) in g.players.iter_mut().enumerate() {
        p.position = Vec2 { x: 400_000 + 60_000 * i as i64, y: 80_000 };
    }
}

#[test]
fn round_timer_expiry_scores_the_canvas() {
    let palette = player_palette();
    let mut g = Game::new();
    g.mode = GameMode::Game;
    park_players(&mut g);
    // Paint sixty percent of the canvas in player one's color and forty
    // percent in player two's.
    let total = g.map_image.pixels.len();
    let sixty = total * 6 / 10;
    for k in 0..total {
        g.map_image.pixels[k] = if k < sixty { palette[0] } else { palette[1] };
    }
    g.level_timer = 1;
    g.frame(&released_inputs(), 16);
    assert!(g.level_done);
    assert_eq!(g.players[0].points, 1);
    assert_eq!(g.players[1].points, 0);
    assert_eq!(g.head_msg, Some(HeadMsg::PlayerWon(0)));
    assert_eq!(g.territory_counts[0], sixty as u64);
    assert_eq!(g.territory_counts[1], (total - sixty) as u64);
    assert_eq!(g.territory_total, total as u64);
    let share = g.territory_counts[0] as f64 / g.territory_total as f64;
    assert!((share - 0.6).abs() < 1e-9);
    // One point is far from the win threshold: still playing.
    assert_eq!(g.mode, GameMode::Game);
}

#[test]
fn dodge_ends_at_once_with_one_survivor() {
    let mut g = Game::new();
    g.mode = GameMode::Game;
    g.game_type = MiniGames::Dodge;
    g.players_count = 4;
    park_players(&mut g);
    g.players[0].dead = true;
    g.players[1].dead = true;
    g.players[2].dead = true;
    g.frame(&released_inputs(), 16);
    // The round ends immediately, long before the timer runs out.
    assert!(g.level_timer > 0);
    assert!(g.level_done);
    assert_eq!(g.head_msg, Some(HeadMsg::PlayerWon(3)));
}

#[test]
fn grace_expiry_starts_the_next_round() {
    let mut g = Game::new();
    g.mode = GameMode::Game;
    g.game_type = MiniGames::Dodge;
    g.level_done = true;
    g.level_end_timer = 10;
    g.head_msg = Some(HeadMsg::Tie);
    for p in g.players.iter_mut() {
        p.dead = true;
        p.position = Vec2 { x: 999_000, y: 42_000 };
    }
    g.frame(&released_inputs(), 16);
    assert!(!g.level_done);
    assert_eq!(g.game_type, MiniGames::ColorTheMap);
    assert_eq!(g.head_msg, None);
    assert_eq!(g.level_timer, 15_000);
    assert_eq!(g.level_end_timer, 5_000);
    for (i, p) in g.players.iter().enumerate() {
        assert!(!p.dead);
        assert_eq!(p.position, Vec2 { x: 100_000 + 100_000 * i as i64, y: 100_000 });
    }
    // The toggle landed on the painting minigame: the canvas is wiped.
    assert!(g.map_image.pixels.iter().all(|px| *px == background()));
}

#[test]
fn grace_toggles_painting_to_dodge() {
    let mut g = Game::new();
    g.mode = GameMode::Game;
    g.level_done = true;
    g.level_end_timer = 10;
    park_players(&mut g);
    g.frame(&released_inputs(), 16);
    assert_eq!(g.game_type, MiniGames::Dodge);
    assert!(!g.level_done);
}

#[test]
fn dodge_spawns_its_volley() {
    let mut g = Game::new();
    g.mode = GameMode::Game;
    g.game_type = MiniGames::Dodge;
    g.spawn_timer = 0;
    park_players(&mut g);
    g.frame(&released_inputs(), 16);
    assert_eq!(g.bullets.len(), 6);
    assert!(g.bullets.iter().all(|b| b.rect.x == -20_000 && b.speed.x == 250_000));
    let lanes: Vec<i64> = g.bullets.iter().map(|b| b.rect.y).collect();
    assert_eq!(lanes, vec![50_000, 200_000, 350_000, 500_000, 650_000, 800_000]);
    assert_eq!(g.spawn_timer, 5_000 - 16);
}

#[test]
fn bullets_move_age_and_expire() {
    let mut g = Game::new();
    g.bullets.push(Bullet {
        rect: Rect { x: 0, y: 50_000, width: 15_000, height: 30_000 },
        color: player_palette()[3],
        speed: Vec2 { x: 250_000, y: 0 },
        time_to_live: 1_000,
    });
    g.bullets.push(Bullet {
        rect: Rect { x: 0, y: 200_000, width: 15_000, height: 30_000 },
        color: player_palette()[3],
        speed: Vec2 { x: 250_000, y: 0 },
        time_to_live: 10,
    });
    g.update_bullets(16);
    // The short-lived bullet expired; the other moved 250 mu/s over 16 ms.
    assert_eq!(g.bullets.len(), 1);
    assert_eq!(g.bullets[0].rect.x, 4_000);
    assert_eq!(g.bullets[0].time_to_live, 984);
}

#[test]
fn bullets_kill_participating_players() {
    let mut g = Game::new();
    park_players(&mut g);
    let target = g.players[1].position;
    g.bullets.push(Bullet {
        rect: Rect { x: target.x, y: target.y, width: 15_000, height: 30_000 },
        color: player_palette()[3],
        speed: Vec2 { x: 0, y: 0 },
        time_to_live: 5_000,
    });
    g.update_bullets(16);
    assert!(g.players[1].dead);
    assert!(!g.players[0].dead);
}

#[test]
fn bullets_spare_unconfigured_slots() {
    let mut g = Game::new();
    park_players(&mut g);
    // Two configured players: slot three takes part in nothing.
    let target = g.players[3].position;
    g.bullets.push(Bullet {
        rect: Rect { x: target.x, y: target.y, width: 15_000, height: 30_000 },
        color: player_palette()[3],
        speed: Vec2 { x: 0, y: 0 },
        time_to_live: 5_000,
    });
    g.update_bullets(16);
    assert!(!g.players[3].dead);
}

#[test]
fn transition_wipe_opens_the_game() {
    let mut g = Game::new();
    assert_eq!(g.mode, GameMode::MainMenu);
    g.press_play();
    assert!(g.transitioning);
    g.tick_transition(500);
    // Progress reached the top: the mode flips and the wipe reverses.
    assert_eq!(g.transition_progress, 1_000);
    assert_eq!(g.mode, GameMode::Game);
    assert!(g.reversing);
    // The pause holds the wipe in place before it recedes.
    g.tick_transition(100);
    assert_eq!(g.transition_progress, 1_000);
    g.tick_transition(100);
    assert_eq!(g.transition_progress, 800);
    g.tick_transition(500);
    assert!(!g.transitioning);
    assert_eq!(g.transition_progress, 0);
}

#[test]
fn player_count_stays_between_two_and_four() {
    let mut g = Game::new();
    assert_eq!(g.players_count, 2);
    g.decrement_players();
    assert_eq!(g.players_count, 2);
    g.increment_players();
    g.increment_players();
    g.increment_players();
    assert_eq!(g.players_count, 4);
    g.increment_players();
    assert_eq!(g.players_count, 4);
}

#[test]
fn fifth_round_win_opens_the_win_screen() {
    let palette = player_palette();
    let mut g = Game::new();
    g.mode = GameMode::Game;
    park_players(&mut g);
    g.players[0].points = 4;
    for k in 0..1000 {
        g.map_image.pixels[k] = palette[0];
    }
    g.level_timer = 1;
    g.frame(&released_inputs(), 16);
    assert_eq!(g.players[0].points, 5);
    assert_eq!(g.mode, GameMode::WinScreen);
    g.press_play_again();
    assert_eq!(g.mode, GameMode::Game);
    // Points carry over the win screen.
    assert_eq!(g.players[0].points, 5);
}

#[test]
fn dodge_timer_expiry_rewards_survivors() {
    let mut g = Game::new();
    g.mode = GameMode::Game;
    g.game_type = MiniGames::Dodge;
    g.players_count = 4;
    park_players(&mut g);
    g.players[0].dead = true;
    g.players[1].dead = true;
    g.level_timer = 1;
    g.frame(&released_inputs(), 16);
    // Two survivors: a tie, and each of them takes a point.
    assert_eq!(g.head_msg, Some(HeadMsg::Tie));
    assert_eq!(g.players[0].points, 0);
    assert_eq!(g.players[1].points, 0);
    assert_eq!(g.players[2].points, 1);
    assert_eq!(g.players[3].points, 1);
    assert!(g.level_done);
}

#[test]
fn blank_canvas_round_ends_in_a_tie() {
    // Nobody painted: the round still ends, but no point is awarded and
    // no winner is named, so no division by zero can ever arise.
    let mut g = Game::new();
    g.mode = GameMode::Game;
    park_players(&mut g);
    g.level_timer = 1;
    g.frame(&released_inputs(), 16);
    assert!(g.level_done);
    assert_eq!(g.head_msg, Some(HeadMsg::Tie));
    assert_eq!(g.players[0].points, 0);
    assert_eq!(g.players[1].points, 0);
    assert_eq!(g.territory_counts, vec![0, 0, 0, 0]);
    assert_eq!(g.territory_total, 0);
}

#[test]
fn bullet_kill_and_early_win_land_in_one_frame() {
    let mut g = Game::new();
    g.mode = GameMode::Game;
    g.game_type = MiniGames::Dodge;
    park_players(&mut g);
    // A bullet parked on player two: the bullet pass marks it dead, and
    // the early-win check of the same frame ends the round for player
    // one.
    let target = g.players[1].position;
    g.bullets.push(Bullet {
        rect: Rect { x: target.x, y: target.y, width: 15_000, height: 30_000 },
        color: player_palette()[3],
        speed: Vec2 { x: 0, y: 0 },
        time_to_live: 5_000,
    });
    g.frame(&released_inputs(), 16);
    assert!(g.players[1].dead);
    assert!(g.level_done);
    assert_eq!(g.head_msg, Some(HeadMsg::PlayerWon(0)));
}

#[test]
fn a_frame_on_a_platform_paints_the_canvas() {
    let palette = player_palette();
    let mut g = Game::new();
    g.mode = GameMode::Game;
    // Player one starts over the platform at (9, 119, 117, 30) units and
    // paints its overlap; player two hangs in open air and paints
    // nothing.
    g.players[1].position = Vec2 { x: 400_000, y: 80_000 };
    g.frame(&released_inputs(), 16);
    assert_eq!(g.map_image.get_color(75, 119), palette[0]);
    assert_eq!(g.map_image.get_color(300, 300), background());
    assert!(g.players[0].is_on_ground);
    assert!(!g.players[1].is_on_ground);
}

#[test]
fn menu_frames_leave_the_round_alone() {
    let mut g = Game::new();
    let before_timer = g.level_timer;
    let before_players: Vec<_> = g.players.iter().map(|p| p.position).collect();
    g.frame(&released_inputs(), 16);
    assert_eq!(g.level_timer, before_timer);
    let after: Vec<_> = g.players.iter().map(|p| p.position).collect();
    assert_eq!(before_players, after);
}
