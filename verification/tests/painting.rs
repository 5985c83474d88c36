use color_the_map::canvas::{calculate_winner, winner_index, Canvas};
use color_the_map::collision::gen_paint_points;
use color_the_map::color::{background, player_palette, Rgba};
use color_the_map::geom::{Rect, Vec2};
use color_the_map::input::{InputType, KeyboardControls};
use color_the_map::level::{level_obstacles, EnvItem};
use color_the_map::player::Player;

fn test_player(x: i64, y: i64) -> Player {
    Player::new(
        Vec2 { x, y },
        0,
        300_000,
        player_palette()[0],
        InputType::Keyboard(KeyboardControls::WASD),
        50_000,
        50_000,
        700_000,
        0,
    )
}

#[test]
fn overlapping_rectangles_intersect_exactly() {
    let a = Rect { x: 0, y: 0, width: 100_000, height: 50_000 };
    let b = Rect { x: 60_000, y: 30_000, width: 100_000, height: 50_000 };
    let o = a.get_collision_rec(&b).expect("rectangles overlap");
    assert_eq!(o, Rect { x: 60_000, y: 30_000, width: 40_000, height: 20_000 });
}

#[test]
fn touching_rectangles_do_not_intersect() {
    let a = Rect { x: 0, y: 0, width: 100_000, height: 50_000 };
    let b = Rect { x: 100_000, y: 0, width: 100_000, height: 50_000 };
    assert!(a.get_collision_rec(&b).is_none());
}

#[test]
fn paint_grid_covers_the_overlap() {
    // A 10 by 10 unit overlap with a 5 unit step: two columns, two rows.
    let c = Rect { x: 20_000, y: 30_000, width: 10_000, height: 10_000 };
    let pts = gen_paint_points(&c);
    assert_eq!(pts.len(), 4);
    assert_eq!(pts[0], Vec2 { x: 25_000, y: 35_000 });
    assert_eq!(pts[1], Vec2 { x: 25_000, y: 40_000 });
    assert_eq!(pts[2], Vec2 { x: 30_000, y: 35_000 });
    assert_eq!(pts[3], Vec2 { x: 30_000, y: 40_000 });
}

#[test]
fn tiny_overlaps_paint_once_at_their_center() {
    // Smaller than one step on both axes: a single mark at the overlap's
    // center, pushed one radius right and down.
    let c = Rect { x: 20_000, y: 30_000, width: 1_000, height: 1_000 };
    let pts = gen_paint_points(&c);
    assert_eq!(pts.len(), 1);
    assert_eq!(pts[0], Vec2 { x: 25_500, y: 35_500 });
}

#[test]
fn narrow_overlaps_still_use_the_grid() {
    // Only one axis is below the step: the grid applies, one column of
    // two rows anchored at the overlap's corner.
    let c = Rect { x: 20_000, y: 30_000, width: 1_000, height: 10_000 };
    let pts = gen_paint_points(&c);
    assert_eq!(pts.len(), 2);
    assert_eq!(pts[0], Vec2 { x: 25_000, y: 35_000 });
    assert_eq!(pts[1], Vec2 { x: 25_000, y: 40_000 });
}

#[test]
fn wide_overlap_counts_ceil_cells() {
    // 12 by 7 units: ceil(12/5) = 3 columns, ceil(7/5) = 2 rows.
    let c = Rect { x: 0, y: 0, width: 12_000, height: 7_000 };
    let pts = gen_paint_points(&c);
    assert_eq!(pts.len(), 6);
}

#[test]
fn painting_fills_a_disc() {
    let mut canvas = Canvas::new(20, 20);
    let color = player_palette()[0];
    let p = test_player(0, 0);
    // A mark at (10, 10) pixels: the paint call pulls the point back by
    // one radius, so hand it (10 + 5, 10 + 5) units in milliunits.
    p.paint(&mut canvas, Vec2 { x: 15_000, y: 15_000 });
    assert_eq!(canvas.get_color(10, 10), color);
    assert_eq!(canvas.get_color(10, 15), color);
    assert_eq!(canvas.get_color(13, 13), color);
    assert_eq!(canvas.get_color(14, 14), background());
    assert_eq!(canvas.get_color(0, 0), background());
}

#[test]
fn painting_off_canvas_changes_nothing() {
    let mut canvas = Canvas::new(20, 20);
    let p = test_player(0, 0);
    p.paint(&mut canvas, Vec2 { x: 900_000, y: 900_000 });
    for y in 0..20 {
        for x in 0..20 {
            assert_eq!(canvas.get_color(x, y), background());
        }
    }
}

#[test]
fn two_player_scores_count_exact_colors() {
    let palette = player_palette();
    let mut canvas = Canvas::new(10, 1);
    let p1 = test_player(0, 0);
    let mut p2 = test_player(0, 0);
    p2.color = palette[1];
    // Three pixels of player one, two of player two, five background.
    for x in 0..3 {
        canvas.pixels[x] = palette[0];
    }
    for x in 3..5 {
        canvas.pixels[x] = palette[1];
    }
    let counts = calculate_winner(&canvas, 2, &p1.color, &p2.color, &palette[2], &palette[3]);
    assert_eq!(counts, vec![3, 2, 0, 0]);
    let total: u64 = counts.iter().sum();
    assert_eq!(total, 5);
    let share1 = counts[0] as f32 / total as f32;
    let share2 = counts[1] as f32 / total as f32;
    assert!((share1 - 0.6).abs() < 1e-6);
    assert!((share2 - 0.4).abs() < 1e-6);
    assert!((share1 + share2 - 1.0).abs() < 1e-6);
}

#[test]
fn scores_count_exact_matches_for_every_player_count() {
    // Classification is by exact color match alone: with three or four
    // configured players, unmatched pixels — the background included —
    // still count for nobody.
    let palette = player_palette();
    let mut canvas = Canvas::new(10, 1);
    canvas.pixels[0] = palette[0];
    canvas.pixels[1] = palette[1];
    canvas.pixels[2] = palette[2];
    for n in 2..=4 {
        let counts =
            calculate_winner(&canvas, n, &palette[0], &palette[1], &palette[2], &palette[3]);
        assert_eq!(counts, vec![1, 1, 1, 0]);
    }
}

#[test]
fn winner_is_first_greatest_count() {
    assert_eq!(winner_index(&vec![3, 5, 5, 1]), 1);
    assert_eq!(winner_index(&vec![7, 5, 5, 1]), 0);
    assert_eq!(winner_index(&vec![1, 2, 3, 4]), 3);
}

#[test]
fn empty_canvas_scores_nobody_and_defaults_to_first() {
    let palette = player_palette();
    let canvas = Canvas::new(10, 10);
    let counts = calculate_winner(&canvas, 2, &palette[0], &palette[1], &palette[2], &palette[3]);
    assert_eq!(counts, vec![0, 0, 0, 0]);
    // The first-greatest index of an all-zero run is the first slot; the
    // round logic separately declines to award anything on a zero total.
    assert_eq!(winner_index(&counts), 0);
}

#[test]
fn clearing_resets_every_pixel() {
    let mut canvas = Canvas::new(8, 8);
    let p = test_player(0, 0);
    p.paint(&mut canvas, Vec2 { x: 9_000, y: 9_000 });
    canvas.clear();
    for y in 0..8 {
        for x in 0..8 {
            assert_eq!(canvas.get_color(x, y), background());
        }
    }
}

#[test]
fn resolution_leaves_separated_boxes_alone() {
    let mut p = test_player(600_000, 80_000);
    let ops = level_obstacles();
    let others: Vec<Player> = Vec::new();
    let records = p.handle_collision(&ops, &others);
    assert!(records.is_empty());
    assert_eq!(p.position, Vec2 { x: 600_000, y: 80_000 });
    assert_eq!(p.velocity, Vec2 { x: 0, y: 0 });
}

#[test]
fn resolution_pushes_out_along_least_penetration() {
    // Box 75..125 by 75..125 units over the platform at (9, 119, 117, 30):
    // the overlap is 50 wide and 6 tall, so the push is 6 units up.
    let mut p = test_player(100_000, 100_000);
    p.velocity = Vec2 { x: 40_000, y: 50_000 };
    let ops = vec![EnvItem {
        rect: Rect { x: 9_000, y: 119_000, width: 117_000, height: 30_000 },
        color: background(),
    }];
    let others: Vec<Player> = Vec::new();
    let records = p.handle_collision(&ops, &others);
    assert_eq!(records.len(), 1);
    assert_eq!(p.position, Vec2 { x: 100_000, y: 94_000 });
    assert!(p.is_on_ground);
    assert_eq!(p.velocity.y, 0);
    // The other axis's velocity is untouched.
    assert_eq!(p.velocity.x, 40_000);
    assert!(!records[0].1.is_empty());
}

#[test]
fn horizontal_push_zeroes_only_horizontal_velocity() {
    // Overlap 5 wide, 40 tall: the horizontal axis is corrected, and the
    // player sits left of the obstacle, so it moves further left.
    let mut p = test_player(100_000, 100_000);
    p.velocity = Vec2 { x: 30_000, y: -10_000 };
    let ops = vec![EnvItem {
        rect: Rect { x: 120_000, y: 80_000, width: 100_000, height: 40_000 },
        color: background(),
    }];
    let others: Vec<Player> = Vec::new();
    p.handle_collision(&ops, &others);
    assert_eq!(p.position, Vec2 { x: 95_000, y: 100_000 });
    assert_eq!(p.velocity.x, 0);
    assert_eq!(p.velocity.y, -10_000);
    assert!(!p.is_on_ground);
}

#[test]
fn player_collision_pushes_but_never_grounds() {
    let mut p = test_player(100_000, 100_000);
    let mut other = test_player(100_000, 130_000);
    other.number = 1;
    let ops: Vec<EnvItem> = Vec::new();
    let others = vec![other];
    let records = p.handle_collision(&ops, &others);
    // Other players paint nothing and never ground.
    assert!(records.is_empty());
    assert!(!p.is_on_ground);
    // Boxes 75..125 and 105..155 vertically: 20 units of overlap, 50
    // horizontally, so the push is 20 units up.
    assert_eq!(p.position.y, 80_000);
    assert_eq!(p.velocity.y, 0);
}

#[test]
fn level_has_its_twenty_two_pieces() {
    let ops = level_obstacles();
    assert_eq!(ops.len(), 22);
    assert_eq!(ops[0].rect, Rect { x: 0, y: 0, width: 1_200_000, height: 30_000 });
    assert_eq!(
        ops[21].rect,
        Rect { x: 10_000, y: 590_000, width: 1_180_000, height: 60_000 }
    );
}

#[test]
fn palette_colors_are_distinct() {
    let palette = player_palette();
    for i in 0..4 {
        for j in 0..4 {
            if i != j {
                assert_ne!(
                    (palette[i].r, palette[i].g, palette[i].b),
                    (palette[j].r, palette[j].g, palette[j].b)
                );
            }
        }
        let b = background();
        assert_ne!((palette[i].r, palette[i].g, palette[i].b), (b.r, b.g, b.b));
    }
}

#[test]
fn background_is_transparent_white() {
    assert_eq!(background(), Rgba { r: 255, g: 255, b: 255, a: 0 });
}
