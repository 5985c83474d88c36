//! Player entities and their per-frame physics: gravity, the
//! variable-height jump state machine, horizontal drive, and semi-implicit
//! Euler integration. Positions and velocities are in milliunits and
//! milliunits per second, durations in milliseconds.

use vstd::prelude::*;
use crate::color::Rgba;
use crate::game::MiniGames;
use crate::geom::{Rect, Vec2};
use crate::input::{Buttons, InputType};
use crate::scalar::{
    sat, sat_coord, scale_down, tdiv, COORD_LIMIT, DT_LIMIT, HOLD_LIMIT, SCALE, TUNING_LIMIT,
};

verus! {

/// Downward acceleration applied to airborne players, in milliunits per
/// second per second.
pub const GRAVITY: i64 = 980_800;

/// How long holding the jump button keeps boosting, in milliseconds.
pub const MAX_JUMP_TIME_MS: i64 = 400;

/// The upward speed a released jump is cut down to, in milliunits per
/// second.
pub const MIN_JUMP_VELOCITY: i64 = 200_000;

/// One player: identity, transform, movement tuning, and the mutable
/// physics and round state. The box the player occupies is centered on
/// `position` and sized `width` by `height`.
#[derive(Clone, Copy, PartialEq, Eq, Structural, Debug)]
pub struct Player {
    pub position: Vec2,
    pub velocity: Vec2,
    /// Sprite rotation in millidegrees; carried for the renderer, never
    /// read by the physics.
    pub rotation: i64,
    /// Horizontal drive, in milliunits per second.
    pub speed: i64,
    pub color: Rgba,
    pub controls: InputType,
    pub is_on_ground: bool,
    pub width: i64,
    pub height: i64,
    /// Upward speed at the instant a jump starts, in milliunits per second.
    pub jump_force: i64,
    pub is_jumping: bool,
    /// How long the current jump has been held, in milliseconds.
    pub jump_time: i64,
    pub max_jump_time: i64,
    pub min_jump_velocity: i64,
    /// Round wins accumulated across the session.
    pub points: u32,
    /// Stable slot index, 0 through 3.
    pub number: u32,
    pub dead: bool,
}

impl Player {
    /// The bounds every player satisfies at rest and between frames.
    pub open spec fn wf(self) -> bool {
        &&& -(COORD_LIMIT as int) <= self.position.x <= COORD_LIMIT as int
        &&& -(COORD_LIMIT as int) <= self.position.y <= COORD_LIMIT as int
        &&& -(COORD_LIMIT as int) <= self.velocity.x <= COORD_LIMIT as int
        &&& -(COORD_LIMIT as int) <= self.velocity.y <= COORD_LIMIT as int
        &&& 0 <= self.speed <= TUNING_LIMIT as int
        &&& 0 < self.width <= TUNING_LIMIT as int
        &&& 0 < self.height <= TUNING_LIMIT as int
        &&& 0 <= self.jump_force <= TUNING_LIMIT as int
        &&& 0 < self.max_jump_time <= HOLD_LIMIT as int
        &&& 0 <= self.min_jump_velocity <= TUNING_LIMIT as int
        &&& 0 <= self.jump_time <= HOLD_LIMIT as int + DT_LIMIT as int
        &&& (self.is_jumping ==> self.jump_time < self.max_jump_time)
        &&& self.number < 4
    }

    /// The axis-aligned box the player occupies: centered on `position`.
    pub open spec fn collision_rect_spec(self) -> Rect {
        Rect {
            x: (self.position.x - self.width / 2) as i64,
            y: (self.position.y - self.height / 2) as i64,
            width: self.width,
            height: self.height,
        }
    }

    /// A player in its starting state: at rest, grounded flags clear, no
    /// points, alive, with the fixed jump tuning.
    pub fn new(
        position: Vec2,
        rotation: i64,
        speed: i64,
        color: Rgba,
        controls: InputType,
        width: i64,
        height: i64,
        jump_force: i64,
        number: u32,
    ) -> (p: Player)
        requires
            -(COORD_LIMIT as int) <= position.x <= COORD_LIMIT as int,
            -(COORD_LIMIT as int) <= position.y <= COORD_LIMIT as int,
            0 <= speed <= TUNING_LIMIT as int,
            0 < width <= TUNING_LIMIT as int,
            0 < height <= TUNING_LIMIT as int,
            0 <= jump_force <= TUNING_LIMIT as int,
            number < 4,
        ensures
            p.wf(),
            p == (Player {
                position,
                velocity: Vec2 { x: 0, y: 0 },
                rotation,
                speed,
                color,
                controls,
                is_on_ground: false,
                width,
                height,
                jump_force,
                is_jumping: false,
                jump_time: 0,
                max_jump_time: MAX_JUMP_TIME_MS as i64,
                min_jump_velocity: MIN_JUMP_VELOCITY as i64,
                points: 0,
                number,
                dead: false,
            }),
    {
        Player {
            position,
            velocity: Vec2 { x: 0, y: 0 },
            rotation,
            speed,
            color,
            controls,
            is_on_ground: false,
            width,
            height,
            jump_force,
            is_jumping: false,
            jump_time: 0,
            max_jump_time: MAX_JUMP_TIME_MS,
            min_jump_velocity: MIN_JUMP_VELOCITY,
            points: 0,
            number,
            dead: false,
        }
    }

    /// The executable form of [`Player::collision_rect_spec`].
    pub fn get_collision_rect(&self) -> (r: Rect)
        requires
            self.wf(),
        ensures
            r == self.collision_rect_spec(),
            r.wf(),
    {
        Rect {
            x: self.position.x - self.width / 2,
            y: self.position.y - self.height / 2,
            width: self.width,
            height: self.height,
        }
    }
}

/// Gravity applied to an airborne player's vertical velocity, before any
/// input is read, so a frame that just landed still feels gravity next
/// frame.
pub open spec fn gravity_applied(p: Player, dt: int) -> Player {
    if p.is_on_ground {
        p
    } else {
        Player {
            velocity: Vec2 {
                x: p.velocity.x,
                y: sat(p.velocity.y + (GRAVITY as int) * dt / (SCALE as int)) as i64,
            },
            ..p
        }
    }
}

/// The upward speed a held jump decays to once it has been held `jt` of
/// the allowed `t` milliseconds: the starting force scaled linearly down
/// to zero at the hold limit.
pub open spec fn decayed_jump_velocity(jump_force: int, t: int, jt: int) -> int {
    jump_force * (t - jt) / t
}

/// Releasing a jump (or running out of hold time) cuts an upward speed
/// above the minimum jump velocity down to exactly that minimum; slower
/// ascents and descents keep their velocity.
pub open spec fn release_clamped(vy: int, min_jump_velocity: int) -> int {
    if vy < -min_jump_velocity {
        -min_jump_velocity
    } else {
        vy
    }
}

/// The jump state machine, one frame: starting on the ground, boosting
/// while held within the hold limit, and clamping on release or when the
/// hold limit runs out.
pub open spec fn jump_applied(p: Player, up: bool, dt: int) -> Player {
    if up && p.is_on_ground && !p.is_jumping {
        Player {
            velocity: Vec2 { x: p.velocity.x, y: (-p.jump_force) as i64 },
            is_jumping: true,
            jump_time: 0,
            is_on_ground: false,
            ..p
        }
    } else if up && p.is_jumping {
        let jt = p.jump_time + dt;
        if jt < p.max_jump_time {
            Player {
                velocity: Vec2 {
                    x: p.velocity.x,
                    y: (-decayed_jump_velocity(
                        p.jump_force as int,
                        p.max_jump_time as int,
                        jt,
                    )) as i64,
                },
                jump_time: jt as i64,
                ..p
            }
        } else {
            Player {
                velocity: Vec2 {
                    x: p.velocity.x,
                    y: release_clamped(p.velocity.y as int, p.min_jump_velocity as int) as i64,
                },
                jump_time: jt as i64,
                is_jumping: false,
                ..p
            }
        }
    } else if p.is_jumping {
        Player {
            velocity: Vec2 {
                x: p.velocity.x,
                y: release_clamped(p.velocity.y as int, p.min_jump_velocity as int) as i64,
            },
            is_jumping: false,
            ..p
        }
    } else {
        p
    }
}

/// Horizontal velocity recomputed from held input, but only while the
/// active minigame is the painting platformer; other minigames leave the
/// horizontal velocity alone.
pub open spec fn horizontal_applied(p: Player, left: bool, right: bool, game: MiniGames) -> Player {
    let h: int = (if right { 1int } else { 0int }) - (if left { 1int } else { 0int });
    match game {
        MiniGames::ColorTheMap => Player {
            velocity: Vec2 { x: (h * p.speed) as i64, y: p.velocity.y },
            ..p
        },
        _ => p,
    }
}

/// Semi-implicit Euler integration: the position moves by the (already
/// updated) velocity times the frame duration.
pub open spec fn integrated(p: Player, dt: int) -> Player {
    Player {
        position: Vec2 {
            x: sat(p.position.x + tdiv(p.velocity.x * dt, SCALE as int)) as i64,
            y: sat(p.position.y + tdiv(p.velocity.y * dt, SCALE as int)) as i64,
        },
        ..p
    }
}

/// One whole physics frame for one player: nothing for the dead, else
/// gravity, then the jump state machine, then horizontal drive, then
/// integration.
pub open spec fn update_spec(p: Player, b: Buttons, game: MiniGames, dt: int) -> Player {
    if p.dead {
        p
    } else {
        integrated(horizontal_applied(jump_applied(gravity_applied(p, dt), b.up, dt), b.left, b.right, game), dt)
    }
}

/// The decayed jump velocity lies between zero and the starting force.
pub proof fn lemma_decay_bounds(jump_force: int, t: int, jt: int)
    requires
        0 <= jump_force,
        0 < t,
        0 <= jt <= t,
    ensures
        0 <= decayed_jump_velocity(jump_force, t, jt) <= jump_force,
{
    let d = t - jt;
    vstd::arithmetic::div_mod::lemma_div_pos_is_pos(jump_force * d, t);
    vstd::arithmetic::mul::lemma_mul_inequality(d, t, jump_force);
    vstd::arithmetic::div_mod::lemma_div_is_ordered(jump_force * d, jump_force * t, t);
    vstd::arithmetic::div_mod::lemma_div_multiples_vanish(jump_force, t);
}

impl Player {
    /// One physics frame, exactly as [`update_spec`] states it: dead
    /// players do not move; the living feel gravity while airborne, run
    /// the jump state machine on the up button, recompute horizontal
    /// velocity from held input in the painting minigame, and integrate.
    pub fn update(&mut self, buttons: Buttons, game: MiniGames, dt: i64)
        requires
            old(self).wf(),
            0 <= dt <= DT_LIMIT as int,
        ensures
            final(self).wf(),
            *final(self) == update_spec(*old(self), buttons, game, dt as int),
    {
        if self.dead {
            return;
        }
        let ghost g0 = *old(self);
        if !self.is_on_ground {
            let dv = (GRAVITY * dt) / SCALE;
            self.velocity.y = sat_coord(self.velocity.y + dv);
        }
        proof {
            assert(*self == gravity_applied(g0, dt as int));
        }
        let ghost g1 = gravity_applied(g0, dt as int);
        if buttons.up && self.is_on_ground && !self.is_jumping {
            self.velocity.y = -self.jump_force;
            self.is_jumping = true;
            self.jump_time = 0;
            self.is_on_ground = false;
        } else if buttons.up && self.is_jumping {
            self.jump_time = self.jump_time + dt;
            if self.jump_time < self.max_jump_time {
                proof {
                    lemma_decay_bounds(
                        self.jump_force as int,
                        self.max_jump_time as int,
                        self.jump_time as int,
                    );
                }
                let remaining = self.max_jump_time - self.jump_time;
                proof {
                    assert(0 <= self.jump_force * remaining <= 10_000_000_000_000) by (nonlinear_arith)
                        requires
                            0 <= self.jump_force <= 1_000_000_000,
                            0 <= remaining <= 10_000,
                    ;
                }
                self.velocity.y = -((self.jump_force * remaining) / self.max_jump_time);
            } else {
                self.is_jumping = false;
                if self.velocity.y < -self.min_jump_velocity {
                    self.velocity.y = -self.min_jump_velocity;
                }
            }
        } else if self.is_jumping {
            self.is_jumping = false;
            if self.velocity.y < -self.min_jump_velocity {
                self.velocity.y = -self.min_jump_velocity;
            }
        }
        proof {
            assert(*self == jump_applied(g1, buttons.up, dt as int));
        }
        let ghost g2 = jump_applied(g1, buttons.up, dt as int);
        match game {
            MiniGames::ColorTheMap => {
                let hv: i64 = if buttons.right && !buttons.left {
                    self.speed
                } else if buttons.left && !buttons.right {
                    -self.speed
                } else {
                    0
                };
                self.velocity.x = hv;
            },
            _ => {},
        }
        proof {
            let h: int = (if buttons.right { 1int } else { 0int }) - (if buttons.left { 1int } else { 0int });
            assert(1int * g2.speed == g2.speed) by (nonlinear_arith);
            assert((-1int) * g2.speed == -(g2.speed as int)) by (nonlinear_arith);
            assert(0int * g2.speed == 0int) by (nonlinear_arith);
            assert(*self == horizontal_applied(g2, buttons.left, buttons.right, game));
        }
        proof {
            assert(-0x4000_0000_0000_0000 <= self.velocity.x * dt <= 0x4000_0000_0000_0000
                && -0x4000_0000_0000_0000 <= self.velocity.y * dt <= 0x4000_0000_0000_0000)
                by (nonlinear_arith)
                requires
                    -1_000_000_000_000 <= self.velocity.x <= 1_000_000_000_000,
                    -1_000_000_000_000 <= self.velocity.y <= 1_000_000_000_000,
                    0 <= dt <= 1000,
            ;
        }
        self.position.x = sat_coord(self.position.x + scale_down(self.velocity.x * dt, SCALE));
        self.position.y = sat_coord(self.position.y + scale_down(self.velocity.y * dt, SCALE));
    }
}

} // verus!
