//! The round and game state machine: menu, transition wipe, play, round
//! end, grace pause, next round or win screen. The whole per-frame step is
//! specified as a composition of pure functions over [`GameView`], the
//! mathematical view of the game state.

use vstd::prelude::*;
use crate::bullet::{moved_bullet, moved_live_bullets, volley, Bullet};
use crate::canvas::{class_count, painted_records_seq, Canvas};
use crate::collision::{env_rects, overlap_records, player_rects, resolved_all};
use crate::color::{background_color, palette_color, player_palette, Rgba};
use crate::geom::{rects_overlap, Vec2};
use crate::input::{Buttons, InputType, KeyboardControls};
use crate::level::{level_items, spawn_position_spec, EnvItem};
use crate::player::{update_spec, Player};
use crate::scalar::{sat_wide_coord, scale_down, SCALE};

verus! {

/// The minigames a round can host. Only the first two are ever scheduled;
/// the third is a reserved tag.
#[derive(Clone, Copy, PartialEq, Eq, Structural, Debug)]
pub enum MiniGames {
    ColorTheMap,
    Dodge,
    FloorIsLava,
}

/// The top-level mode the application is in.
#[derive(Clone, Copy, PartialEq, Eq, Structural, Debug)]
pub enum GameMode {
    MainMenu,
    Game,
    WinScreen,
}

/// The head-line shown after a round: which player (by slot number) won,
/// or a tie.
#[derive(Clone, Copy, PartialEq, Eq, Structural, Debug)]
pub enum HeadMsg {
    PlayerWon(u32),
    Tie,
}

/// The round timer a fresh session starts with, in milliseconds.
pub const FIRST_ROUND_MS: i64 = 60_000;

/// The round timer every following round starts with, in milliseconds.
pub const NEXT_ROUND_MS: i64 = 15_000;

/// The pause between a round's end and the next round, in milliseconds.
pub const GRACE_MS: i64 = 5_000;

/// How often the dodge minigame spawns a volley, in milliseconds.
pub const SPAWN_PERIOD_MS: i64 = 5_000;

/// The pause at the top of the transition wipe, in milliseconds.
pub const TRANSITION_PAUSE_MS: i64 = 150;

/// Round wins that take the session to the win screen.
pub const WIN_POINTS: u32 = 5;

/// The mathematical view of the whole game state.
#[verifier::ext_equal]
pub ghost struct GameView {
    pub mode: GameMode,
    pub game_type: MiniGames,
    pub players: Seq<Player>,
    pub players_count: int,
    pub bullets: Seq<Bullet>,
    pub ops: Seq<EnvItem>,
    pub pixels: Seq<Rgba>,
    pub canvas_width: int,
    pub canvas_height: int,
    pub level_timer: int,
    pub level_end_timer: int,
    pub spawn_timer: int,
    pub level_done: bool,
    pub head_msg: Option<HeadMsg>,
    pub transitioning: bool,
    pub reversing: bool,
    pub transition_progress: int,
    pub delay_timer: int,
    pub territory_counts: Seq<int>,
    pub territory_total: int,
}

/// The whole game: the four player slots, the level, the dodge bullets,
/// the territory canvas and the round state machine's scalars. Times are
/// in milliseconds; the transition progress runs from zero to one
/// thousand.
pub struct Game {
    pub mode: GameMode,
    pub game_type: MiniGames,
    pub players: Vec<Player>,
    pub players_count: usize,
    pub bullets: Vec<Bullet>,
    pub ops: Vec<EnvItem>,
    pub map_image: Canvas,
    pub level_timer: i64,
    pub level_end_timer: i64,
    pub spawn_timer: i64,
    pub level_done: bool,
    pub head_msg: Option<HeadMsg>,
    pub transitioning: bool,
    pub reversing: bool,
    pub transition_progress: i64,
    pub delay_timer: i64,
    pub territory_counts: Vec<u64>,
    pub territory_total: u64,
}

impl View for Game {
    type V = GameView;

    open spec fn view(&self) -> GameView {
        GameView {
            mode: self.mode,
            game_type: self.game_type,
            players: self.players@,
            players_count: self.players_count as int,
            bullets: self.bullets@,
            ops: self.ops@,
            pixels: self.map_image.pixels@,
            canvas_width: self.map_image.width as int,
            canvas_height: self.map_image.height as int,
            level_timer: self.level_timer as int,
            level_end_timer: self.level_end_timer as int,
            spawn_timer: self.spawn_timer as int,
            level_done: self.level_done,
            head_msg: self.head_msg,
            transitioning: self.transitioning,
            reversing: self.reversing,
            transition_progress: self.transition_progress as int,
            delay_timer: self.delay_timer as int,
            territory_counts: self.territory_counts@.map_values(|c: u64| c as int),
            territory_total: self.territory_total as int,
        }
    }
}

impl Game {
    /// The bounds every game state satisfies between frames.
    pub open spec fn wf(self) -> bool {
        &&& self.players@.len() == 4
        &&& (forall|i: int|
            0 <= i < 4 ==> (#[trigger] self.players@[i]).wf() && self.players@[i].number == i)
        &&& 2 <= self.players_count <= 4
        &&& (forall|i: int|
            0 <= i < self.bullets@.len() ==> (#[trigger] self.bullets@[i]).wf()
                && self.bullets@[i].time_to_live > 0)
        &&& (forall|i: int| 0 <= i < self.ops@.len() ==> (#[trigger] self.ops@[i]).rect.wf())
        &&& self.map_image.wf()
        &&& -2_000 <= self.level_timer <= 60_000
        &&& -2_000 <= self.level_end_timer <= 5_000
        &&& -100_000 <= self.spawn_timer <= 5_000
        &&& 0 <= self.transition_progress <= 1_000
        &&& 0 <= self.delay_timer <= 10_000
        &&& self.territory_counts@.len() == 4
    }
}

/// Between frames the round timers are settled: an expired round timer
/// has already ended the round, and the grace timer has already been
/// wound back up.
pub open spec fn settled(g: GameView) -> bool {
    &&& (g.level_timer <= 0 ==> g.level_done)
    &&& 0 < g.level_end_timer
}

/// The control source of player slot `i`: the two keyboard layouts, then
/// controller slots.
pub open spec fn default_controls(i: int) -> InputType {
    if i == 0 {
        InputType::Keyboard(KeyboardControls::WASD)
    } else if i == 1 {
        InputType::Keyboard(KeyboardControls::ArrowKeys)
    } else {
        InputType::Controller(i as usize)
    }
}

/// Player slot `i` as a fresh session creates it.
pub open spec fn default_player(i: int) -> Player {
    Player {
        position: spawn_position_spec(i),
        velocity: Vec2 { x: 0i64, y: 0i64 },
        rotation: 0i64,
        speed: 300_000i64,
        color: palette_color(i),
        controls: default_controls(i),
        is_on_ground: false,
        width: 50_000i64,
        height: 50_000i64,
        jump_force: 700_000i64,
        is_jumping: false,
        jump_time: 0i64,
        max_jump_time: 400i64,
        min_jump_velocity: 200_000i64,
        points: 0u32,
        number: i as u32,
        dead: false,
    }
}

/// One tick of the transition wipe: while running forward the progress
/// climbs at double speed and, on reaching the top, switches the mode to
/// play and starts the pause; while reversing, once the pause has
/// elapsed, the progress descends and the wipe ends at zero. The pause
/// clock saturates high above the threshold; only the threshold is ever
/// read.
pub open spec fn transition_ticked(g: GameView, dt: int) -> GameView {
    if !g.transitioning {
        g
    } else if !g.reversing {
        let p = g.transition_progress + 2 * dt;
        if p >= 1_000 {
            GameView {
                transition_progress: 1_000,
                mode: GameMode::Game,
                delay_timer: 0,
                reversing: true,
                ..g
            }
        } else {
            GameView { transition_progress: p, ..g }
        }
    } else {
        let d = if g.delay_timer + dt > 10_000 {
            10_000int
        } else {
            g.delay_timer + dt
        };
        if d >= TRANSITION_PAUSE_MS as int {
            let p = g.transition_progress - 2 * dt;
            if p <= 0 {
                GameView {
                    delay_timer: d,
                    transition_progress: 0,
                    transitioning: false,
                    reversing: false,
                    ..g
                }
            } else {
                GameView { delay_timer: d, transition_progress: p, ..g }
            }
        } else {
            GameView { delay_timer: d, ..g }
        }
    }
}

/// Whether any bullet of the run, after this frame's motion, overlaps the
/// player's box.
pub open spec fn hit_by_bullets(p: Player, bs: Seq<Bullet>, dt: int) -> bool {
    exists|j: int|
        0 <= j < bs.len() && rects_overlap(
            p.collision_rect_spec(),
            moved_bullet(bs[j], dt).rect,
        )
}

/// A player with its dead flag raised, or the player unchanged.
pub open spec fn dead_marked(p: Player, hit: bool) -> Player {
    if hit {
        Player { dead: true, ..p }
    } else {
        p
    }
}

/// One frame of the bullet pass: every bullet moves and ages, expired
/// bullets leave, and every participating player a moved bullet overlaps
/// is marked dead. Bullets persist through hits.
pub open spec fn bullets_updated(g: GameView, dt: int) -> GameView {
    GameView {
        players: Seq::new(
            g.players.len(),
            |i: int|
                dead_marked(
                    g.players[i],
                    i < g.players_count && hit_by_bullets(g.players[i], g.bullets, dt),
                ),
        ),
        bullets: moved_live_bullets(g.bullets, dt),
        ..g
    }
}

/// One player's step of the player pass: physics from this frame's
/// buttons, then collision resolution against the level and against the
/// frame-start snapshot of the other players, then the overlap paint
/// marks drawn in the player's color, and the grounded flag cleared when
/// no obstacle was touched.
pub open spec fn player_stepped(
    players: Seq<Player>,
    snap_list: Seq<Player>,
    ops: Seq<EnvItem>,
    pixels: Seq<Rgba>,
    width: int,
    game_type: MiniGames,
    input: Buttons,
    dt: int,
    i: int,
) -> (Seq<Player>, Seq<Rgba>) {
    let u = update_spec(players[i], input, game_type, dt);
    let prect = u.collision_rect_spec();
    let others = snap_list.remove(i);
    let resolved = resolved_all(
        resolved_all(u, prect, env_rects(ops), true),
        prect,
        player_rects(others),
        false,
    );
    let recs = overlap_records(prect, env_rects(ops));
    let stepped = if recs.len() == 0 {
        Player { is_on_ground: false, ..resolved }
    } else {
        resolved
    };
    (players.update(i, stepped), painted_records_seq(pixels, width, u.color, recs))
}

/// The first `upto` players stepped in slot order, each against the same
/// frame-start snapshot, threading the canvas through.
pub open spec fn players_passed(
    players: Seq<Player>,
    snap_list: Seq<Player>,
    ops: Seq<EnvItem>,
    pixels: Seq<Rgba>,
    width: int,
    game_type: MiniGames,
    inputs: Seq<Buttons>,
    dt: int,
    upto: int,
) -> (Seq<Player>, Seq<Rgba>)
    decreases upto,
{
    if upto <= 0 {
        (players, pixels)
    } else {
        let prev = players_passed(
            players,
            snap_list,
            ops,
            pixels,
            width,
            game_type,
            inputs,
            dt,
            upto - 1,
        );
        player_stepped(
            prev.0,
            snap_list,
            ops,
            prev.1,
            width,
            game_type,
            inputs[upto - 1],
            dt,
            upto - 1,
        )
    }
}

/// The player pass of one frame: only while playing and only while the
/// round is live; the participating players step in slot order against a
/// snapshot of all players taken before the pass.
pub open spec fn players_ran(g: GameView, inputs: Seq<Buttons>, dt: int) -> GameView {
    if g.mode == GameMode::Game && !g.level_done {
        let r = players_passed(
            g.players,
            g.players,
            g.ops,
            g.pixels,
            g.canvas_width,
            g.game_type,
            inputs,
            dt,
            g.players_count,
        );
        GameView { players: r.0, pixels: r.1, ..g }
    } else {
        g
    }
}

/// The round timer counts down while playing a live round; the grace
/// timer counts down while the round is over.
pub open spec fn timers_ticked(g: GameView, dt: int) -> GameView {
    GameView {
        level_timer: if g.mode == GameMode::Game && !g.level_done {
            g.level_timer - dt
        } else {
            g.level_timer
        },
        level_end_timer: if g.level_done {
            g.level_end_timer - dt
        } else {
            g.level_end_timer
        },
        ..g
    }
}

/// The next round's minigame: the two scheduled minigames alternate.
pub open spec fn toggled_minigame(t: MiniGames) -> MiniGames {
    match t {
        MiniGames::ColorTheMap => MiniGames::Dodge,
        MiniGames::Dodge => MiniGames::ColorTheMap,
        MiniGames::FloorIsLava => MiniGames::FloorIsLava,
    }
}

/// A player set back to its round start: alive, at its slot's spawn
/// position, everything else kept.
pub open spec fn respawned_player(p: Player) -> Player {
    Player { dead: false, position: spawn_position_spec(p.number as int), ..p }
}

/// The end of the grace pause: timers rewound, the head-line cleared, the
/// minigame toggled, every player respawned alive, the round reopened —
/// and, when the next round paints, the territory canvas wiped to the
/// background.
pub open spec fn grace_checked(g: GameView) -> GameView {
    if g.level_end_timer <= 0 {
        let next = toggled_minigame(g.game_type);
        GameView {
            level_end_timer: GRACE_MS as int,
            level_timer: NEXT_ROUND_MS as int,
            head_msg: None,
            game_type: next,
            players: Seq::new(g.players.len(), |i: int| respawned_player(g.players[i])),
            pixels: if next == MiniGames::ColorTheMap {
                Seq::new(g.pixels.len(), |k: int| background_color())
            } else {
                g.pixels
            },
            level_done: false,
            ..g
        }
    } else {
        g
    }
}

/// The dodge minigame's spawner: while the round is live and the spawn
/// timer has run out, a fixed volley joins the bullets and the timer
/// rewinds.
pub open spec fn spawn_checked(g: GameView) -> GameView {
    if g.game_type == MiniGames::Dodge && g.spawn_timer <= 0 && !g.level_done {
        GameView { bullets: g.bullets + volley(), spawn_timer: SPAWN_PERIOD_MS as int, ..g }
    } else {
        g
    }
}

/// The spawn timer counts down whenever the dodge minigame is active,
/// saturating far below zero; only its sign is ever read.
pub open spec fn spawn_ticked(g: GameView, dt: int) -> GameView {
    if g.game_type == MiniGames::Dodge {
        let t = g.spawn_timer - dt;
        GameView {
            spawn_timer: if t < -100_000 {
                -100_000int
            } else {
                t
            },
            ..g
        }
    } else {
        g
    }
}

/// Whether a player takes part in round logic and is still alive.
pub open spec fn participating_alive(p: Player, n: int) -> bool {
    !p.dead && p.number < n
}

/// How many of the first `upto` players are participating and alive.
pub open spec fn alive_count(ps: Seq<Player>, n: int, upto: int) -> int
    decreases upto,
{
    if upto <= 0 {
        0
    } else {
        alive_count(ps, n, upto - 1) + (
            if participating_alive(ps[upto - 1], n) {
                1int
            } else {
                0int
            }
        )
    }
}

/// The first participating, alive player at or after slot `i`; the run's
/// length when there is none.
pub open spec fn first_alive_from(ps: Seq<Player>, n: int, i: int) -> int
    decreases ps.len() - i,
{
    if i < 0 || i >= ps.len() {
        ps.len() as int
    } else if participating_alive(ps[i], n) {
        i
    } else {
        first_alive_from(ps, n, i + 1)
    }
}

/// The dodge minigame's early end: the moment exactly one participating
/// player is left alive, the round ends at once, naming the survivor.
pub open spec fn early_win_checked(g: GameView) -> GameView {
    if g.game_type == MiniGames::Dodge && !g.level_done && alive_count(
        g.players,
        g.players_count,
        g.players.len() as int,
    ) == 1 {
        let w = first_alive_from(g.players, g.players_count, 0);
        GameView {
            head_msg: Some(HeadMsg::PlayerWon(g.players[w].number)),
            level_done: true,
            level_end_timer: GRACE_MS as int,
            ..g
        }
    } else {
        g
    }
}

/// Whether any of the first `n` players has reached the win threshold.
pub open spec fn wins_reached(ps: Seq<Player>, n: int) -> bool {
    exists|i: int| 0 <= i < n && (#[trigger] ps[i]).points >= WIN_POINTS as int
}

/// One more round win, stopping at the counter's ceiling.
pub open spec fn inc_points(p: Player) -> Player {
    Player {
        points: if p.points < u32::MAX {
            (p.points + 1) as u32
        } else {
            p.points
        },
        ..p
    }
}

/// The four players' classified pixel counts over the current canvas.
pub open spec fn round_scores(g: GameView) -> Seq<int> {
    Seq::new(
        4,
        |who: int|
            class_count(
                g.pixels,
                g.players[0].color,
                g.players[1].color,
                g.players[2].color,
                g.players[3].color,
                who,
                g.pixels.len() as int,
            ),
    )
}

/// The first index of four holding the greatest value.
pub open spec fn argmax_first(c: Seq<int>) -> int {
    let m1 = if c[1] > c[0] {
        1int
    } else {
        0int
    };
    let m2 = if c[2] > c[m1] {
        2int
    } else {
        m1
    };
    if c[3] > c[m2] {
        3int
    } else {
        m2
    }
}

/// The round timer running out ends the round. Painting rounds are
/// scored: every canvas pixel is classified, the first player with the
/// greatest count wins the round and a point, the head-line names it, and
/// a participating player reaching the win threshold switches the session
/// to the win screen. A canvas with no classified pixel scores nobody:
/// the round ends in a tie and no point is awarded, so the territory
/// fractions never divide by zero. Dodge rounds name the lone survivor or
/// a tie and give every living participant a point.
pub open spec fn round_end_checked(g: GameView) -> GameView {
    if g.level_timer <= 0 && !g.level_done {
        match g.game_type {
            MiniGames::ColorTheMap => {
                let counts = round_scores(g);
                let total = counts[0] + counts[1] + counts[2] + counts[3];
                let w = argmax_first(counts);
                let ps = if total > 0 {
                    g.players.update(w, inc_points(g.players[w]))
                } else {
                    g.players
                };
                GameView {
                    players: ps,
                    head_msg: Some(
                        if total > 0 {
                            HeadMsg::PlayerWon(g.players[w].number)
                        } else {
                            HeadMsg::Tie
                        },
                    ),
                    mode: if wins_reached(ps, g.players_count) {
                        GameMode::WinScreen
                    } else {
                        g.mode
                    },
                    territory_counts: counts,
                    territory_total: total,
                    level_done: true,
                    level_end_timer: GRACE_MS as int,
                    ..g
                }
            },
            MiniGames::Dodge => {
                let survivors = alive_count(g.players, g.players_count, g.players.len() as int);
                let msg = if survivors == 1 {
                    HeadMsg::PlayerWon(
                        g.players[first_alive_from(g.players, g.players_count, 0)].number,
                    )
                } else {
                    HeadMsg::Tie
                };
                GameView {
                    players: Seq::new(
                        g.players.len(),
                        |i: int|
                            if participating_alive(g.players[i], g.players_count) {
                                inc_points(g.players[i])
                            } else {
                                g.players[i]
                            },
                    ),
                    head_msg: Some(msg),
                    level_done: true,
                    level_end_timer: GRACE_MS as int,
                    ..g
                }
            },
            MiniGames::FloorIsLava => GameView {
                level_done: true,
                level_end_timer: GRACE_MS as int,
                ..g
            },
        }
    } else {
        g
    }
}

/// Where nobody in the prefix participates alive, the count is zero.
pub proof fn lemma_alive_count_zero(ps: Seq<Player>, n: int, upto: int)
    requires
        forall|q: int| 0 <= q < upto ==> !participating_alive(#[trigger] ps[q], n),
    ensures
        alive_count(ps, n, upto) == 0,
    decreases upto,
{
    if upto > 0 {
        lemma_alive_count_zero(ps, n, upto - 1);
    }
}

/// A search for the first participating, alive player, started at slot
/// `j`, lands on slot `f` when `f` qualifies and nothing in between does.
pub proof fn lemma_first_alive_lands(ps: Seq<Player>, n: int, j: int, f: int)
    requires
        0 <= j <= f < ps.len(),
        participating_alive(ps[f], n),
        forall|q: int| j <= q < f ==> !participating_alive(#[trigger] ps[q], n),
    ensures
        first_alive_from(ps, n, j) == f,
    decreases f - j,
{
    if j < f {
        lemma_first_alive_lands(ps, n, j + 1, f);
    }
}

/// One whole frame of the simulation, in the order the steps run: the
/// transition wipe, the bullet pass, the player pass, the two round
/// timers, the grace expiry, the dodge spawner and its timer, the dodge
/// early end, and the round timer expiry.
pub open spec fn frame_spec(g: GameView, inputs: Seq<Buttons>, dt: int) -> GameView {
    round_end_checked(
        early_win_checked(
            spawn_ticked(
                spawn_checked(
                    grace_checked(
                        timers_ticked(
                            players_ran(bullets_updated(transition_ticked(g, dt), dt), inputs, dt),
                            dt,
                        ),
                    ),
                ),
                dt,
            ),
        ),
    )
}

impl Game {
    /// A fresh session: two configured players (of four slots), the
    /// painting minigame scheduled first, the menu showing, the level
    /// built, the canvas blank, every timer at its start value.
    pub fn new() -> (g: Game)
        ensures
            g.wf(),
            settled(g@),
            g@.mode == GameMode::MainMenu,
            g@.game_type == MiniGames::ColorTheMap,
            g@.players_count == 2,
            g@.players.len() == 4,
            forall|i: int| 0 <= i < 4 ==> g@.players[i] == default_player(i),
            g@.bullets.len() == 0,
            g@.ops == level_items(),
            g@.canvas_width == 1_200,
            g@.canvas_height == 650,
            forall|k: int| 0 <= k < g@.pixels.len() ==> g@.pixels[k] == background_color(),
            g@.pixels.len() == 1_200 * 650,
            g@.level_timer == FIRST_ROUND_MS as int,
            g@.level_end_timer == GRACE_MS as int,
            g@.spawn_timer == SPAWN_PERIOD_MS as int,
            !g@.level_done,
            g@.head_msg is None,
            !g@.transitioning,
            !g@.reversing,
            g@.transition_progress == 0,
            g@.delay_timer == 0,
            forall|i: int| 0 <= i < 4 ==> g@.territory_counts[i] == 0,
            g@.territory_counts.len() == 4,
            g@.territory_total == 0,
    {
        let palette = player_palette();
        let mut players: Vec<Player> = Vec::new();
        players.push(
            Player::new(
                crate::level::spawn_position(0),
                0,
                300_000,
                palette[0],
                InputType::Keyboard(KeyboardControls::WASD),
                50_000,
                50_000,
                700_000,
                0,
            ),
        );
        players.push(
            Player::new(
                crate::level::spawn_position(1),
                0,
                300_000,
                palette[1],
                InputType::Keyboard(KeyboardControls::ArrowKeys),
                50_000,
                50_000,
                700_000,
                1,
            ),
        );
        players.push(
            Player::new(
                crate::level::spawn_position(2),
                0,
                300_000,
                palette[2],
                InputType::Controller(2),
                50_000,
                50_000,
                700_000,
                2,
            ),
        );
        players.push(
            Player::new(
                crate::level::spawn_position(3),
                0,
                300_000,
                palette[3],
                InputType::Controller(3),
                50_000,
                50_000,
                700_000,
                3,
            ),
        );
        let mut territory_counts: Vec<u64> = Vec::new();
        territory_counts.push(0);
        territory_counts.push(0);
        territory_counts.push(0);
        territory_counts.push(0);
        let g = Game {
            mode: GameMode::MainMenu,
            game_type: MiniGames::ColorTheMap,
            players,
            players_count: 2,
            bullets: Vec::new(),
            ops: crate::level::level_obstacles(),
            map_image: Canvas::new(1_200, 650),
            level_timer: FIRST_ROUND_MS,
            level_end_timer: GRACE_MS,
            spawn_timer: SPAWN_PERIOD_MS,
            level_done: false,
            head_msg: None,
            transitioning: false,
            reversing: false,
            transition_progress: 0,
            delay_timer: 0,
            territory_counts,
            territory_total: 0,
        };
        proof {
            assert forall|i: int| 0 <= i < 4 implies g@.players[i] == default_player(i) by {
                assert(g@.players[i].position == spawn_position_spec(i));
            }
        }
        g
    }

    /// The menu's play button: starts the transition wipe, unless one is
    /// already running.
    pub fn press_play(&mut self)
        requires
            old(self).wf(),
        ensures
            final(self).wf(),
            final(self)@ == if !old(self)@.transitioning {
                GameView { transitioning: true, reversing: false, ..old(self)@ }
            } else {
                old(self)@
            },
    {
        if !self.transitioning {
            self.transitioning = true;
            self.reversing = false;
        }
    }

    /// The win screen's play-again button: straight back into play, with
    /// scores kept.
    pub fn press_play_again(&mut self)
        requires
            old(self).wf(),
        ensures
            final(self).wf(),
            final(self)@ == (GameView { mode: GameMode::Game, ..old(self)@ }),
    {
        self.mode = GameMode::Game;
    }

    /// The menu's plus button: one more configured player, up to four.
    pub fn increment_players(&mut self)
        requires
            old(self).wf(),
        ensures
            final(self).wf(),
            final(self)@ == (GameView {
                players_count: if old(self)@.players_count < 4 {
                    old(self)@.players_count + 1
                } else {
                    4int
                },
                ..old(self)@
            }),
    {
        if self.players_count < 4 {
            self.players_count = self.players_count + 1;
        }
    }

    /// The menu's minus button: one configured player fewer, down to two.
    pub fn decrement_players(&mut self)
        requires
            old(self).wf(),
        ensures
            final(self).wf(),
            final(self)@ == (GameView {
                players_count: if old(self)@.players_count > 2 {
                    old(self)@.players_count - 1
                } else {
                    2int
                },
                ..old(self)@
            }),
    {
        if self.players_count > 2 {
            self.players_count = self.players_count - 1;
        }
    }

    /// One frame of the bullet pass, exactly as [`bullets_updated`]
    /// states it: bullets move and age, the expired leave, and every
    /// participating player a moved bullet overlaps is marked dead.
    pub fn update_bullets(&mut self, dt: i64)
        requires
            old(self).wf(),
            0 <= dt <= 1_000,
        ensures
            final(self).wf(),
            final(self)@ == bullets_updated(old(self)@, dt as int),
    {
        let ghost g0 = old(self)@;
        let count = self.players_count;
        let n = self.bullets.len();
        let mut moved: Vec<Bullet> = Vec::new();
        let mut i: usize = 0;
        while i < n
            invariant
                0 <= i <= n,
                0 <= dt <= 1000,
                self.bullets@ == g0.bullets,
                g0.bullets.len() == n,
                forall|k: int|
                    0 <= k < n ==> (#[trigger] g0.bullets[k]).wf() && g0.bullets[k].time_to_live
                        > 0,
                moved@.len() == i,
                forall|k: int|
                    0 <= k < i ==> #[trigger] moved@[k] == moved_bullet(g0.bullets[k], dt as int),
            decreases n - i,
        {
            let mut b = self.bullets[i];
            proof {
                assert(-0x4000_0000_0000_0000 <= b.speed.x * dt <= 0x4000_0000_0000_0000
                    && -0x4000_0000_0000_0000 <= b.speed.y * dt <= 0x4000_0000_0000_0000)
                    by (nonlinear_arith)
                    requires
                        -1_000_000_000_000 <= b.speed.x <= 1_000_000_000_000,
                        -1_000_000_000_000 <= b.speed.y <= 1_000_000_000_000,
                        0 <= dt <= 1000,
                ;
            }
            b.rect.x = sat_wide_coord(b.rect.x + scale_down(b.speed.x * dt, SCALE));
            b.rect.y = sat_wide_coord(b.rect.y + scale_down(b.speed.y * dt, SCALE));
            b.time_to_live = b.time_to_live - dt;
            moved.push(b);
            i = i + 1;
        }
        let mut pi: usize = 0;
        while pi < count
            invariant
                0 <= pi <= count,
                0 <= dt <= 1000,
                count == g0.players_count,
                0 <= count <= 4,
                self.bullets@ == g0.bullets,
                g0.bullets.len() == n,
                forall|k: int|
                    0 <= k < n ==> (#[trigger] g0.bullets[k]).wf() && g0.bullets[k].time_to_live
                        > 0,
                moved@.len() == n,
                forall|k: int|
                    0 <= k < n ==> #[trigger] moved@[k] == moved_bullet(g0.bullets[k], dt as int),
                g0.players.len() == 4,
                forall|q: int| 0 <= q < 4 ==> (#[trigger] g0.players[q]).wf(),
                self.players@.len() == 4,
                forall|q: int|
                    0 <= q < 4 ==> #[trigger] self.players@[q] == dead_marked(
                        g0.players[q],
                        q < pi && q < count && hit_by_bullets(g0.players[q], g0.bullets, dt as int),
                    ),
                self.mode == old(self).mode,
                self.game_type == old(self).game_type,
                self.players_count == old(self).players_count,
                self.ops@ == g0.ops,
                self.map_image == old(self).map_image,
                self.level_timer == old(self).level_timer,
                self.level_end_timer == old(self).level_end_timer,
                self.spawn_timer == old(self).spawn_timer,
                self.level_done == old(self).level_done,
                self.head_msg == old(self).head_msg,
                self.transitioning == old(self).transitioning,
                self.reversing == old(self).reversing,
                self.transition_progress == old(self).transition_progress,
                self.delay_timer == old(self).delay_timer,
                self.territory_counts@ == old(self).territory_counts@,
                self.territory_total == old(self).territory_total,
                old(self).wf(),
            decreases count - pi,
        {
            let prect = self.players[pi].get_collision_rect();
            proof {
                assert(self.players@[pi as int] == g0.players[pi as int]);
                assert(prect == g0.players[pi as int].collision_rect_spec());
            }
            let mut hit = false;
            let mut j: usize = 0;
            while j < n
                invariant
                    0 <= j <= n,
                    0 <= dt <= 1000,
                    g0.bullets.len() == n,
                    forall|k: int|
                        0 <= k < n ==> (#[trigger] g0.bullets[k]).wf()
                            && g0.bullets[k].time_to_live > 0,
                    moved@.len() == n,
                    forall|k: int|
                        0 <= k < n ==> #[trigger] moved@[k] == moved_bullet(
                            g0.bullets[k],
                            dt as int,
                        ),
                    0 <= pi < 4,
                    g0.players.len() == 4,
                    g0.players[pi as int].wf(),
                    prect == g0.players[pi as int].collision_rect_spec(),
                    prect.wf(),
                    hit == hit_by_bullets(
                        g0.players[pi as int],
                        g0.bullets.take(j as int),
                        dt as int,
                    ),
                decreases n - j,
            {
                proof {
                    assert(moved@[j as int].rect.wf());
                    assert(g0.bullets.take(j as int + 1)[j as int] == g0.bullets[j as int]);
                    assert(forall|k: int|
                        0 <= k < j as int ==> #[trigger] g0.bullets.take(j as int + 1)[k]
                            == g0.bullets.take(j as int)[k]);
                }
                if prect.get_collision_rec(&moved[j].rect).is_some() {
                    hit = true;
                }
                proof {
                    if hit_by_bullets(g0.players[pi as int], g0.bullets.take(j as int), dt as int) {
                        let w = choose|w: int|
                            0 <= w < g0.bullets.take(j as int).len() && rects_overlap(
                                g0.players[pi as int].collision_rect_spec(),
                                moved_bullet(
                                    #[trigger] g0.bullets.take(j as int)[w],
                                    dt as int,
                                ).rect,
                            );
                        assert(g0.bullets.take(j as int + 1)[w] == g0.bullets.take(j as int)[w]);
                        assert(hit_by_bullets(
                            g0.players[pi as int],
                            g0.bullets.take(j as int + 1),
                            dt as int,
                        ));
                    }
                    if !hit {
                        assert(!hit_by_bullets(
                            g0.players[pi as int],
                            g0.bullets.take(j as int + 1),
                            dt as int,
                        )) by {
                            assert forall|w: int|
                                0 <= w < g0.bullets.take(j as int + 1).len() implies !rects_overlap(
                                g0.players[pi as int].collision_rect_spec(),
                                moved_bullet(
                                    #[trigger] g0.bullets.take(j as int + 1)[w],
                                    dt as int,
                                ).rect,
                            ) by {
                                if w < j as int {
                                    assert(g0.bullets.take(j as int + 1)[w] == g0.bullets.take(
                                        j as int,
                                    )[w]);
                                    assert(!hit_by_bullets(
                                        g0.players[pi as int],
                                        g0.bullets.take(j as int),
                                        dt as int,
                                    ));
                                }
                            }
                        }
                    }
                }
                j = j + 1;
            }
            proof {
                assert(g0.bullets.take(n as int) =~= g0.bullets);
            }
            if hit {
                let mut p = self.players[pi];
                p.dead = true;
                self.players.set(pi, p);
            }
            pi = pi + 1;
        }
        let mut new_bullets: Vec<Bullet> = Vec::new();
        let mut k: usize = 0;
        while k < n
            invariant
                0 <= k <= n,
                0 <= dt <= 1000,
                g0.bullets.len() == n,
                forall|q: int|
                    0 <= q < n ==> (#[trigger] g0.bullets[q]).wf() && g0.bullets[q].time_to_live
                        > 0,
                moved@.len() == n,
                forall|q: int|
                    0 <= q < n ==> #[trigger] moved@[q] == moved_bullet(g0.bullets[q], dt as int),
                new_bullets@ == moved_live_bullets(g0.bullets.take(k as int), dt as int),
                forall|q: int|
                    0 <= q < new_bullets@.len() ==> (#[trigger] new_bullets@[q]).wf()
                        && new_bullets@[q].time_to_live > 0,
            decreases n - k,
        {
            proof {
                assert(g0.bullets.take(k as int + 1).drop_last() =~= g0.bullets.take(k as int));
                assert(g0.bullets.take(k as int + 1).last() == g0.bullets[k as int]);
                assert(moved@[k as int].rect.wf());
            }
            if moved[k].time_to_live > 0 {
                new_bullets.push(moved[k]);
            }
            k = k + 1;
        }
        self.bullets = new_bullets;
        proof {
            assert(g0.bullets.take(n as int) =~= g0.bullets);
            assert(self.players@ =~= Seq::new(
                g0.players.len(),
                |q: int|
                    dead_marked(
                        g0.players[q],
                        q < g0.players_count && hit_by_bullets(g0.players[q], g0.bullets, dt as int),
                    ),
            ));
            assert(self@ =~= bullets_updated(g0, dt as int));
        }
    }


    /// The player pass of one frame, exactly as [`players_ran`] states
    /// it: while playing a live round, each participating player in slot
    /// order feels its physics, resolves its collisions against the level
    /// and a frame-start snapshot of the other players, paints its
    /// obstacle overlaps, and loses its grounded flag when it touched no
    /// obstacle.
    #[verifier::rlimit(100)]
    pub fn run_players(&mut self, inputs: &Vec<Buttons>, dt: i64)
        requires
            old(self).wf(),
            inputs@.len() == 4,
            0 <= dt <= 1_000,
        ensures
            final(self).wf(),
            final(self)@ == players_ran(old(self)@, inputs@, dt as int),
    {
        let ghost g0 = old(self)@;
        let is_menu = match self.mode {
            GameMode::Game => false,
            _ => true,
        };
        if is_menu || self.level_done {
            return ;
        }
        let mut snapshot: Vec<Player> = Vec::new();
        let mut j: usize = 0;
        while j < 4
            invariant
                0 <= j <= 4,
                self.players@ == g0.players,
                g0.players.len() == 4,
                snapshot@.len() == j,
                forall|q: int| 0 <= q < j ==> #[trigger] snapshot@[q] == g0.players[q],
            decreases 4 - j,
        {
            snapshot.push(self.players[j]);
            j = j + 1;
        }
        proof {
            assert(snapshot@ =~= g0.players);
        }
        let count = self.players_count;
        let gt = self.game_type;
        let width = self.map_image.width;
        let mut i: usize = 0;
        while i < count
            invariant
                0 <= i <= count,
                0 <= dt <= 1_000,
                inputs@.len() == 4,
                count == g0.players_count,
                2 <= count <= 4,
                gt == g0.game_type,
                snapshot@ == g0.players,
                g0.players.len() == 4,
                forall|q: int| 0 <= q < 4 ==> (#[trigger] g0.players[q]).wf(),
                self.ops@ == g0.ops,
                forall|q: int| 0 <= q < g0.ops.len() ==> (#[trigger] g0.ops[q]).rect.wf(),
                self.players@.len() == 4,
                forall|q: int|
                    0 <= q < 4 ==> (#[trigger] self.players@[q]).wf() && self.players@[q].number
                        == g0.players[q].number,
                g0.canvas_width == width,
                self.map_image.width == width,
                self.map_image.height == old(self).map_image.height,
                self.map_image.wf(),
                g0.pixels.len() == self.map_image.pixels@.len(),
                self.players@ == players_passed(
                    g0.players,
                    g0.players,
                    g0.ops,
                    g0.pixels,
                    width as int,
                    gt,
                    inputs@,
                    dt as int,
                    i as int,
                ).0,
                self.map_image.pixels@ == players_passed(
                    g0.players,
                    g0.players,
                    g0.ops,
                    g0.pixels,
                    width as int,
                    gt,
                    inputs@,
                    dt as int,
                    i as int,
                ).1,
                self.mode == old(self).mode,
                self.game_type == old(self).game_type,
                self.players_count == old(self).players_count,
                self.bullets@ == g0.bullets,
                self.level_timer == old(self).level_timer,
                self.level_end_timer == old(self).level_end_timer,
                self.spawn_timer == old(self).spawn_timer,
                self.level_done == old(self).level_done,
                self.head_msg == old(self).head_msg,
                self.transitioning == old(self).transitioning,
                self.reversing == old(self).reversing,
                self.transition_progress == old(self).transition_progress,
                self.delay_timer == old(self).delay_timer,
                self.territory_counts@ == old(self).territory_counts@,
                self.territory_total == old(self).territory_total,
                old(self).wf(),
            decreases count - i,
        {
            let ghost pre_players = self.players@;
            let ghost pre_pixels = self.map_image.pixels@;
            let mut others: Vec<Player> = Vec::new();
            let mut j2: usize = 0;
            while j2 < 4
                invariant
                    0 <= j2 <= 4,
                    0 <= i < 4,
                    snapshot@.len() == 4,
                    others@.len() == (if j2 <= i { j2 as int } else { j2 - 1 }),
                    forall|q: int|
                        0 <= q < others@.len() ==> #[trigger] others@[q] == (
                            if q < i as int {
                                snapshot@[q]
                            } else {
                                snapshot@[q + 1]
                            }
                        ),
                decreases 4 - j2,
            {
                if j2 != i {
                    others.push(snapshot[j2]);
                }
                j2 = j2 + 1;
            }
            proof {
                assert(others@ =~= snapshot@.remove(i as int));
            }
            let mut p = self.players[i];
            p.update(inputs[i], gt, dt);
            let ghost u = p;
            let collisions = p.handle_collision(&self.ops, &others);
            let got_any = collisions.len() > 0;
            let ghost prect = u.collision_rect_spec();
            let ghost recs = overlap_records(prect, env_rects(g0.ops));
            proof {
                crate::collision::lemma_overlap_records_wf(prect, env_rects(g0.ops));
                crate::collision::lemma_player_rects_wf(others@);
                crate::collision::lemma_resolved_all_frame(u, prect, env_rects(g0.ops), true);
                crate::collision::lemma_resolved_all_frame(
                    resolved_all(u, prect, env_rects(g0.ops), true),
                    prect,
                    player_rects(others@),
                    false,
                );
            }
            let mut k: usize = 0;
            while k < collisions.len()
                invariant
                    0 <= k <= collisions@.len(),
                    collisions@.len() == recs.len(),
                    forall|q: int|
                        0 <= q < collisions@.len() ==> (#[trigger] collisions@[q]).1@
                            == crate::collision::paint_points_spec(recs[q].1),
                    forall|q: int|
                        0 <= q < recs.len() ==> (#[trigger] recs[q]).0.wf() && recs[q].1.wf(),
                    self.map_image.width == width,
                    self.map_image.height == old(self).map_image.height,
                    self.map_image.wf(),
                    pre_pixels.len() == self.map_image.pixels@.len(),
                    self.map_image.pixels@ == painted_records_seq(
                        pre_pixels,
                        width as int,
                        u.color,
                        recs.take(k as int),
                    ),
                    p.color == u.color,
                    self.players@ == pre_players,
                    self.mode == old(self).mode,
                    self.game_type == old(self).game_type,
                    self.players_count == old(self).players_count,
                    self.bullets@ == g0.bullets,
                    self.ops@ == g0.ops,
                    self.level_timer == old(self).level_timer,
                    self.level_end_timer == old(self).level_end_timer,
                    self.spawn_timer == old(self).spawn_timer,
                    self.level_done == old(self).level_done,
                    self.head_msg == old(self).head_msg,
                    self.transitioning == old(self).transitioning,
                    self.reversing == old(self).reversing,
                    self.transition_progress == old(self).transition_progress,
                    self.delay_timer == old(self).delay_timer,
                    self.territory_counts@ == old(self).territory_counts@,
                    self.territory_total == old(self).territory_total,
                decreases collisions@.len() - k,
            {
                let ghost rec_pixels = self.map_image.pixels@;
                let ghost pts = crate::collision::paint_points_spec(recs[k as int].1);
                proof {
                    crate::collision::lemma_paint_points_bounded(recs[k as int].1);
                }
                let point_count = collisions[k].1.len();
                let mut t: usize = 0;
                while t < point_count
                    invariant
                        0 <= t <= point_count,
                        0 <= k < collisions@.len(),
                        collisions@[k as int].1@ == pts,
                        point_count == pts.len(),
                        forall|q: int|
                            0 <= q < pts.len() ==> -3_000_000_000_000 <= (#[trigger] pts[q]).x
                                <= 3_000_000_000_000 && -3_000_000_000_000 <= pts[q].y
                                <= 3_000_000_000_000,
                        self.map_image.width == width,
                        self.map_image.height == old(self).map_image.height,
                        self.map_image.wf(),
                        rec_pixels.len() == self.map_image.pixels@.len(),
                        self.map_image.pixels@ == crate::canvas::painted_points_seq(
                            rec_pixels,
                            width as int,
                            u.color,
                            pts.take(t as int),
                        ),
                        p.color == u.color,
                        self.players@ == pre_players,
                        self.mode == old(self).mode,
                        self.game_type == old(self).game_type,
                        self.players_count == old(self).players_count,
                        self.bullets@ == g0.bullets,
                        self.ops@ == g0.ops,
                        self.level_timer == old(self).level_timer,
                        self.level_end_timer == old(self).level_end_timer,
                        self.spawn_timer == old(self).spawn_timer,
                        self.level_done == old(self).level_done,
                        self.head_msg == old(self).head_msg,
                        self.transitioning == old(self).transitioning,
                        self.reversing == old(self).reversing,
                        self.transition_progress == old(self).transition_progress,
                        self.delay_timer == old(self).delay_timer,
                        self.territory_counts@ == old(self).territory_counts@,
                        self.territory_total == old(self).territory_total,
                    decreases point_count - t,
                {
                    proof {
                        assert(pts.take(t as int + 1).drop_last() =~= pts.take(t as int));
                        assert(pts.take(t as int + 1).last() == pts[t as int]);
                    }
                    let pt = collisions[k].1[t];
                    p.paint(&mut self.map_image, pt);
                    t = t + 1;
                }
                proof {
                    assert(pts.take(pts.len() as int) =~= pts);
                    assert(recs.take(k as int + 1).drop_last() =~= recs.take(k as int));
                    assert(recs.take(k as int + 1).last() == recs[k as int]);
                }
                k = k + 1;
            }
            proof {
                assert(recs.take(recs.len() as int) =~= recs);
            }
            if !got_any {
                p.is_on_ground = false;
            }
            self.players.set(i, p);
            proof {
                let stepped = player_stepped(
                    pre_players,
                    g0.players,
                    g0.ops,
                    pre_pixels,
                    width as int,
                    gt,
                    inputs@[i as int],
                    dt as int,
                    i as int,
                );
                assert(self.players@ =~= stepped.0);
                assert(self.map_image.pixels@ == stepped.1);
            }
            i = i + 1;
        }
        proof {
            assert(self@ =~= players_ran(g0, inputs@, dt as int));
        }
    }

    /// The round bookkeeping of one frame, in order: both timers tick, an
    /// expired grace pause starts the next round, the dodge spawner fires
    /// and its timer ticks, a lone dodge survivor ends the round at once,
    /// and an expired round timer ends and scores the round.
    #[verifier::rlimit(100)]
    pub fn advance_round(&mut self, dt: i64)
        requires
            old(self).wf(),
            settled(old(self)@),
            0 <= dt <= 1_000,
        ensures
            final(self).wf(),
            settled(final(self)@),
            final(self)@ == round_end_checked(
                early_win_checked(
                    spawn_ticked(
                        spawn_checked(grace_checked(timers_ticked(old(self)@, dt as int))),
                        dt as int,
                    ),
                ),
            ),
    {
        let ghost g0 = old(self)@;
        let is_game = match self.mode {
            GameMode::Game => true,
            _ => false,
        };
        if is_game && !self.level_done {
            self.level_timer = self.level_timer - dt;
        }
        if self.level_done {
            self.level_end_timer = self.level_end_timer - dt;
        }
        proof {
            assert(self@ =~= timers_ticked(g0, dt as int));
        }
        let ghost g1 = timers_ticked(g0, dt as int);
        if self.level_end_timer <= 0 {
            self.level_end_timer = GRACE_MS;
            self.level_timer = NEXT_ROUND_MS;
            self.head_msg = None;
            let next = match self.game_type {
                MiniGames::ColorTheMap => MiniGames::Dodge,
                MiniGames::Dodge => MiniGames::ColorTheMap,
                MiniGames::FloorIsLava => MiniGames::FloorIsLava,
            };
            self.game_type = next;
            let mut i: usize = 0;
            while i < 4
                invariant
                    0 <= i <= 4,
                    g1.players.len() == 4,
                    forall|q: int| 0 <= q < 4 ==> (#[trigger] g1.players[q]).wf(),
                    self.players@.len() == 4,
                    forall|q: int|
                        0 <= q < i ==> #[trigger] self.players@[q] == respawned_player(
                            g1.players[q],
                        ),
                    forall|q: int| i <= q < 4 ==> #[trigger] self.players@[q] == g1.players[q],
                    self.mode == g1.mode,
                    self.game_type == toggled_minigame(g1.game_type),
                    self.players_count as int == g1.players_count,
                    self.bullets@ == g1.bullets,
                    self.ops@ == g1.ops,
                    self.map_image.wf(),
                    self.map_image.pixels@ == g1.pixels,
                    self.map_image.width as int == g1.canvas_width,
                    self.map_image.height as int == g1.canvas_height,
                    self.level_timer == NEXT_ROUND_MS,
                    self.level_end_timer == GRACE_MS,
                    self.spawn_timer as int == g1.spawn_timer,
                    self.level_done == g1.level_done,
                    self.head_msg is None,
                    self.transitioning == g1.transitioning,
                    self.reversing == g1.reversing,
                    self.transition_progress as int == g1.transition_progress,
                    self.delay_timer as int == g1.delay_timer,
                    self.territory_counts@.map_values(|c: u64| c as int) == g1.territory_counts,
                    self.territory_total as int == g1.territory_total,
                decreases 4 - i,
            {
                let mut p = self.players[i];
                p.dead = false;
                p.position = crate::level::spawn_position(p.number);
                self.players.set(i, p);
                i = i + 1;
            }
            let clear_canvas = match next {
                MiniGames::ColorTheMap => true,
                _ => false,
            };
            if clear_canvas {
                self.map_image.clear();
                proof {
                    assert(self.map_image.pixels@ =~= Seq::new(
                        g1.pixels.len(),
                        |k: int| background_color(),
                    ));
                }
            }
            self.level_done = false;
            proof {
                assert(self.players@ =~= Seq::new(
                    g1.players.len(),
                    |q: int| respawned_player(g1.players[q]),
                ));
                assert(self@ =~= grace_checked(g1));
            }
        }
        let ghost g2 = grace_checked(g1);
        proof {
            assert(self@ =~= g2);
        }
        let is_dodge = match self.game_type {
            MiniGames::Dodge => true,
            _ => false,
        };
        if is_dodge && self.spawn_timer <= 0 && !self.level_done {
            self.bullets.push(crate::bullet::make_volley_bullet(50_000));
            self.bullets.push(crate::bullet::make_volley_bullet(200_000));
            self.bullets.push(crate::bullet::make_volley_bullet(350_000));
            self.bullets.push(crate::bullet::make_volley_bullet(500_000));
            self.bullets.push(crate::bullet::make_volley_bullet(650_000));
            self.bullets.push(crate::bullet::make_volley_bullet(800_000));
            self.spawn_timer = SPAWN_PERIOD_MS;
            proof {
                assert(self.bullets@ =~= g2.bullets + volley());
            }
        }
        proof {
            assert(self@ =~= spawn_checked(g2));
        }
        let ghost g3 = spawn_checked(g2);
        if is_dodge {
            let t = self.spawn_timer - dt;
            self.spawn_timer = if t < -100_000 {
                -100_000
            } else {
                t
            };
        }
        proof {
            assert(self@ =~= spawn_ticked(g3, dt as int));
        }
        let ghost g4 = spawn_ticked(g3, dt as int);
        let count = self.players_count;
        let mut alive: usize = 0;
        let mut first: usize = 4;
        let mut i: usize = 0;
        while i < 4
            invariant
                0 <= i <= 4,
                count == g4.players_count,
                count <= 4,
                self.players@ == g4.players,
                g4.players.len() == 4,
                alive == alive_count(g4.players, count as int, i as int),
                alive <= i,
                first == 4 || (0 <= first < i && participating_alive(
                    g4.players[first as int],
                    count as int,
                ) && (forall|q: int|
                    0 <= q < first ==> !participating_alive(
                        #[trigger] g4.players[q],
                        count as int,
                    ))),
                first == 4 ==> (forall|q: int|
                    0 <= q < i ==> !participating_alive(#[trigger] g4.players[q], count as int)),
            decreases 4 - i,
        {
            let p = self.players[i];
            if !p.dead && p.number < count as u32 {
                alive = alive + 1;
                if first == 4 {
                    first = i;
                }
            }
            i = i + 1;
        }
        if is_dodge && !self.level_done && alive == 1 {
            proof {
                if first == 4 {
                    lemma_alive_count_zero(g4.players, count as int, 4);
                }
                assert(first < 4);
                lemma_first_alive_lands(g4.players, count as int, 0, first as int);
            }
            let survivor = self.players[first];
            self.head_msg = Some(HeadMsg::PlayerWon(survivor.number));
            self.level_done = true;
            self.level_end_timer = GRACE_MS;
        }
        proof {
            assert(self@ =~= early_win_checked(g4));
        }
        let ghost g5 = early_win_checked(g4);
        if self.level_timer <= 0 && !self.level_done {
            let is_color = match self.game_type {
                MiniGames::ColorTheMap => true,
                _ => false,
            };
            if is_color {
                let c0 = self.players[0].color;
                let c1 = self.players[1].color;
                let c2 = self.players[2].color;
                let c3 = self.players[3].color;
                let counts = crate::canvas::calculate_winner(
                    &self.map_image,
                    self.players_count,
                    &c0,
                    &c1,
                    &c2,
                    &c3,
                );
                let w = crate::canvas::winner_index(&counts);
                proof {
                    let sc = round_scores(g5);
                    assert(sc.len() == 4);
                    assert forall|q: int| 0 <= q < 4 implies counts@[q] as int == sc[q] by {}
                    let aw = argmax_first(sc);
                    assert(0 <= aw < 4);
                    assert(forall|q: int| 0 <= q < 4 ==> sc[q] <= sc[aw]);
                    assert(forall|q: int| 0 <= q < aw ==> sc[q] < sc[aw]);
                    assert(w as int == aw);
                    assert(self.map_image.pixels@.len() <= 100_000_000) by (nonlinear_arith)
                        requires
                            self.map_image.pixels@.len() == self.map_image.width
                                * self.map_image.height,
                            0 < self.map_image.width <= 10_000,
                            0 < self.map_image.height <= 10_000,
                    ;
                }
                let total = counts[0] + counts[1] + counts[2] + counts[3];
                if total > 0 {
                    let mut pw = self.players[w];
                    pw.points = if pw.points < u32::MAX {
                        pw.points + 1
                    } else {
                        pw.points
                    };
                    self.players.set(w, pw);
                    self.head_msg = Some(HeadMsg::PlayerWon(self.players[w].number));
                } else {
                    self.head_msg = Some(HeadMsg::Tie);
                }
                self.territory_counts = counts;
                self.territory_total = total;
                let mut any_winner = false;
                let ghost mid_c = self@;
                let mut iw: usize = 0;
                while iw < self.players_count
                    invariant
                        0 <= iw <= self.players_count,
                        self.players_count <= 4,
                        self.players@.len() == 4,
                        self@ == mid_c,
                        any_winner == (exists|q: int|
                            0 <= q < iw && (#[trigger] self.players@[q]).points
                                >= WIN_POINTS as int),
                    decreases self.players_count - iw,
                {
                    if self.players[iw].points >= WIN_POINTS {
                        any_winner = true;
                    }
                    iw = iw + 1;
                }
                if any_winner {
                    self.mode = GameMode::WinScreen;
                }
                self.level_done = true;
                self.level_end_timer = GRACE_MS;
                proof {
                    assert(self.territory_counts@.map_values(|c: u64| c as int) =~= round_scores(
                        g5,
                    ));
                    let aw = argmax_first(round_scores(g5));
                    let spec_ps = if (total as int) > 0 {
                        g5.players.update(aw, inc_points(g5.players[aw]))
                    } else {
                        g5.players
                    };
                    if total > 0 {
                        assert(self.players@ =~= spec_ps);
                    }
                    assert(self.players@ == spec_ps);
                    let rc = round_end_checked(g5);
                    assert(any_winner == wins_reached(self.players@, g5.players_count)) by {
                        if any_winner {
                            let q0 = choose|q: int|
                                0 <= q < g5.players_count && (#[trigger] self.players@[q]).points
                                    >= WIN_POINTS as int;
                            assert((#[trigger] self.players@[q0]).points >= WIN_POINTS as int);
                        } else {
                            assert forall|i: int| 0 <= i < g5.players_count implies !((
                            #[trigger] self.players@[i]).points >= WIN_POINTS as int) by {}
                        }
                    }
                    assert(self@.mode == rc.mode);
                    assert(self@ =~= round_end_checked(g5));
                }
            } else {
                let is_dodge_end = match self.game_type {
                    MiniGames::Dodge => true,
                    _ => false,
                };
                if is_dodge_end {
                    if alive == 1 {
                        proof {
                            if first == 4 {
                                lemma_alive_count_zero(g5.players, count as int, 4);
                            }
                            assert(first < 4);
                            lemma_first_alive_lands(g5.players, count as int, 0, first as int);
                        }
                        let survivor = self.players[first];
                        self.head_msg = Some(HeadMsg::PlayerWon(survivor.number));
                    } else {
                        self.head_msg = Some(HeadMsg::Tie);
                    }
                    let ghost mid_d = self@;
                    let mut ip: usize = 0;
                    while ip < 4
                        invariant
                            0 <= ip <= 4,
                            count == g5.players_count,
                            count <= 4,
                            g5.players.len() == 4,
                            forall|q: int| 0 <= q < 4 ==> (#[trigger] g5.players[q]).wf(),
                            self@ == (GameView { players: self@.players, ..mid_d }),
                            self.players@.len() == 4,
                            forall|q: int|
                                0 <= q < ip ==> #[trigger] self.players@[q] == (
                                    if participating_alive(g5.players[q], count as int) {
                                        inc_points(g5.players[q])
                                    } else {
                                        g5.players[q]
                                    }
                                ),
                            forall|q: int|
                                ip <= q < 4 ==> #[trigger] self.players@[q] == g5.players[q],
                        decreases 4 - ip,
                    {
                        let p = self.players[ip];
                        if !p.dead && p.number < count as u32 {
                            let mut p2 = p;
                            p2.points = if p2.points < u32::MAX {
                                p2.points + 1
                            } else {
                                p2.points
                            };
                            self.players.set(ip, p2);
                        }
                        ip = ip + 1;
                    }
                    self.level_done = true;
                    self.level_end_timer = GRACE_MS;
                    proof {
                        assert(self.players@ =~= Seq::new(
                            g5.players.len(),
                            |q: int|
                                if participating_alive(g5.players[q], g5.players_count) {
                                    inc_points(g5.players[q])
                                } else {
                                    g5.players[q]
                                },
                        ));
                        assert(self@ =~= round_end_checked(g5));
                    }
                } else {
                    self.level_done = true;
                    self.level_end_timer = GRACE_MS;
                    proof {
                        assert(self@ =~= round_end_checked(g5));
                    }
                }
            }
        }
        proof {
            assert(self@ =~= round_end_checked(g5));
            assert(self@.territory_counts == self.territory_counts@.map_values(|c: u64| c as int));
        }
    }

    /// One whole frame of the simulation, exactly as [`frame_spec`]
    /// composes it: the transition wipe, the bullet pass, the player
    /// pass, and the round bookkeeping, in that order. `inputs` holds the
    /// four players' buttons as the back-end read them this frame; `dt`
    /// is the frame duration in milliseconds.
    pub fn frame(&mut self, inputs: &Vec<Buttons>, dt: i64)
        requires
            old(self).wf(),
            settled(old(self)@),
            inputs@.len() == 4,
            0 <= dt <= 1_000,
        ensures
            final(self).wf(),
            settled(final(self)@),
            final(self)@ == frame_spec(old(self)@, inputs@, dt as int),
    {
        self.tick_transition(dt);
        self.update_bullets(dt);
        self.run_players(inputs, dt);
        self.advance_round(dt);
    }

    /// One tick of the transition wipe, exactly as [`transition_ticked`]
    /// states it.
    pub fn tick_transition(&mut self, dt: i64)
        requires
            old(self).wf(),
            0 <= dt <= 1_000,
        ensures
            final(self).wf(),
            final(self)@ == transition_ticked(old(self)@, dt as int),
    {
        if self.transitioning {
            if !self.reversing {
                let p = self.transition_progress + 2 * dt;
                if p >= 1_000 {
                    self.transition_progress = 1_000;
                    self.mode = GameMode::Game;
                    self.delay_timer = 0;
                    self.reversing = true;
                } else {
                    self.transition_progress = p;
                }
            } else {
                let d = if self.delay_timer + dt > 10_000 {
                    10_000
                } else {
                    self.delay_timer + dt
                };
                self.delay_timer = d;
                if d >= TRANSITION_PAUSE_MS {
                    let p = self.transition_progress - 2 * dt;
                    if p <= 0 {
                        self.transition_progress = 0;
                        self.transitioning = false;
                        self.reversing = false;
                    } else {
                        self.transition_progress = p;
                    }
                }
            }
        }
    }
}

} // verus!
