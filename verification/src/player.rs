//! The kinematic actor and the per-frame movement and resolution
//! algorithm.
//!
//! Units are fixed throughout: positions are whole pixels, velocities are
//! thousandths of a pixel per second ("milli-pixels/s"), and time steps are
//! milliseconds.  Each update applies the variable-height jump, gravity,
//! friction, run acceleration and the jump decision (with coyote time and
//! jump buffering) to the velocity, then sweeps the actor through the grid
//! in one-pixel sub-steps — horizontal axis first, then vertical — so that
//! the actor never ends a frame with a corner inside a `Solid` cell.  The
//! sub-pixel remainder of each axis' motion carries over between frames in
//! an accumulator (micro-pixels: velocity times milliseconds).
//!
//! Convention for friction: the decay is multiplicative per update (one
//! factor while grounded, a gentler one airborne), not exponentiated by the
//! time step; callers that want frame-rate independence should drive the
//! simulation at a fixed `dt`.
//!
//! Slope policy: slope cells never block the horizontal sweep (an actor may
//! transiently enter a slope's footprint and is lifted back to the surface
//! by the vertical clamp the same frame); the downward sweep stops exactly
//! at a slope's surface line.

use crate::tilemap::TILE_SIZE;
use crate::tilemap::TileMap;
use crate::tilemap::TileType;
use crate::tilemap::lemma_box_clear_in_bounds;
use vstd::arithmetic::div_mod::lemma_div_is_ordered;
use vstd::arithmetic::div_mod::lemma_div_multiples_vanish;
use vstd::arithmetic::div_mod::lemma_div_pos_is_pos;
use vstd::prelude::*;

verus! {

/// Micro-pixels per whole pixel in the sub-step accumulators.
pub const STEP_MICRO: i64 = 1_000_000;

/// Velocity gained per millisecond of free fall, in milli-pixels/s.
pub const GRAVITY_PER_MS: i64 = 36;

/// Velocity gained per millisecond of held run input, in milli-pixels/s.
pub const ACCEL_PER_MS: i64 = 420;

/// Factor on run acceleration and on the horizontal speed cap while
/// sprinting.
pub const SPRINT_MULTIPLIER: i64 = 2;

/// Vertical velocity set by a jump, in milli-pixels/s (negative is up).
pub const JUMP_VELOCITY: i64 = -300_000;

/// Horizontal speed cap without sprinting, in milli-pixels/s.
pub const MAX_SPEED_X: i64 = 120_000;

/// Horizontal speed cap while sprinting, in milli-pixels/s.
pub const MAX_SPRINT_SPEED_X: i64 = MAX_SPEED_X * SPRINT_MULTIPLIER;

/// Vertical speed cap, in milli-pixels/s.
pub const MAX_SPEED_Y: i64 = 600_000;

/// Friction numerator; the horizontal velocity is scaled by
/// `FRICTION_NUM / FRICTION_DEN_GROUND` (or `_AIR`) once per update.
pub const FRICTION_NUM: i64 = 100;

pub const FRICTION_DEN_GROUND: i64 = 115;

pub const FRICTION_DEN_AIR: i64 = 103;

/// Velocity magnitudes strictly below this are zeroed after each update to
/// prevent drift, in milli-pixels/s.  It sits well below one
/// millisecond's worth of gravity, so it can never swallow the start of a
/// fall.
pub const VEL_EPSILON: i64 = 10;

/// Grace period after leaving the ground during which a jump request is
/// still honored, in milliseconds.
pub const COYOTE_MS: u64 = 100;

/// Window during which an early jump request is remembered and executed on
/// landing, in milliseconds.
pub const JUMP_BUFFER_MS: u64 = 100;

/// Longest time the jump button keeps re-applying the jump velocity, in
/// milliseconds.
pub const JUMP_HOLD_MS: u64 = 100;

/// Largest accepted time step, in milliseconds.
pub const MAX_DT_MS: u64 = 1_000;

/// Farthest upward search of the step-up when the horizontal sweep is
/// blocked: half a cell, in pixels.
pub const STEP_UP_LIMIT: i64 = 8;

/// Farthest lift of the vertical clamp out of slope material: one cell, in
/// pixels.
pub const SNAP_UP_LIMIT: i64 = 16;

/// Cap kept on the time-since-airborne counter, in milliseconds.
pub const AIR_TIME_CAP: u64 = 1_000_000;

/// The boolean input signals of one frame.  Edge signals (`jump_pressed`,
/// `jump_released`) are true only on the frame of the transition; level
/// signals hold while the key is down.
#[derive(Clone, Copy, Debug, PartialEq, Eq, Structural)]
pub struct InputFlags {
    pub move_left: bool,
    pub move_right: bool,
    pub jump_pressed: bool,
    pub jump_released: bool,
    pub jump_held: bool,
    pub sprint: bool,
}

impl InputFlags {
    /// A frame with no input at all.
    pub fn none() -> (f: InputFlags)
        ensures
            f == (InputFlags {
                move_left: false,
                move_right: false,
                jump_pressed: false,
                jump_released: false,
                jump_held: false,
                sprint: false,
            }),
    {
        InputFlags {
            move_left: false,
            move_right: false,
            jump_pressed: false,
            jump_released: false,
            jump_held: false,
            sprint: false,
        }
    }
}

/// Which contacts were observed at the end of the most recent update.
/// Purely observational (debug overlay material), recomputed wholesale
/// every frame and never an input to the physics.
#[derive(Clone, Copy, Debug, PartialEq, Eq, Structural)]
pub struct CollisionFlags {
    pub left_wall: bool,
    pub right_wall: bool,
    pub top_wall: bool,
    pub bottom_wall: bool,
    pub left_slope: bool,
    pub right_slope: bool,
}

impl CollisionFlags {
    /// All flags cleared.
    pub fn none() -> (f: CollisionFlags)
        ensures
            f == (CollisionFlags {
                left_wall: false,
                right_wall: false,
                top_wall: false,
                bottom_wall: false,
                left_slope: false,
                right_slope: false,
            }),
    {
        CollisionFlags {
            left_wall: false,
            right_wall: false,
            top_wall: false,
            bottom_wall: false,
            left_slope: false,
            right_slope: false,
        }
    }
}

/// The kinematic state of one actor: a `size_x` x `size_y` pixel bounding
/// box whose top-left pixel is `(pos_x, pos_y)`, its velocity, the
/// sub-pixel motion accumulators, the grounded flag and the three jump
/// timers.
#[derive(Clone, Copy, Debug, PartialEq, Eq, Structural)]
pub struct Player {
    pub pos_x: i64,
    pub pos_y: i64,
    pub vel_x: i64,
    pub vel_y: i64,
    pub temp_vel_x: i64,
    pub temp_vel_y: i64,
    pub size_x: i64,
    pub size_y: i64,
    pub on_ground: bool,
    pub facing_right: bool,
    pub air_time_ms: u64,
    pub jump_buffer_ms: u64,
    pub jump_hold_ms: u64,
    pub flags: CollisionFlags,
}

/// The direction sign of a velocity component.
pub open spec fn spec_dir(v: int) -> int {
    if v > 0 {
        1
    } else if v < 0 {
        -1
    } else {
        0
    }
}

/// A value clamped into `[lo, hi]`.
pub open spec fn spec_clamp_val(v: int, lo: int, hi: int) -> int {
    if v < lo {
        lo
    } else if v > hi {
        hi
    } else {
        v
    }
}

/// Magnitude of a velocity component.
pub open spec fn spec_abs(v: int) -> int {
    if v < 0 {
        -v
    } else {
        v
    }
}

/// One multiplicative friction application on a signed velocity: the
/// magnitude is scaled by `FRICTION_NUM / den` (rounding toward zero), the
/// sign is kept.
pub open spec fn spec_friction_val(v: int, den: int) -> int {
    if v >= 0 {
        v * (FRICTION_NUM as int) / den
    } else {
        -((-v) * (FRICTION_NUM as int) / den)
    }
}

impl Player {
    /// State invariant: positive bounded size, velocities inside the caps,
    /// sub-pixel accumulators strictly below one pixel, timers inside
    /// their windows, position far from the integer limits.
    pub open spec fn wf(self) -> bool {
        &&& 0 < self.size_x <= 1024
        &&& 0 < self.size_y <= 1024
        &&& -1_000_000_000 <= self.pos_x <= 1_000_000_000
        &&& -1_000_000_000 <= self.pos_y <= 1_000_000_000
        &&& -(MAX_SPRINT_SPEED_X as int) <= self.vel_x <= MAX_SPRINT_SPEED_X
        &&& -(MAX_SPEED_Y as int) <= self.vel_y <= MAX_SPEED_Y
        &&& 0 <= self.temp_vel_x < STEP_MICRO
        &&& 0 <= self.temp_vel_y < STEP_MICRO
        &&& self.jump_buffer_ms <= JUMP_BUFFER_MS
        &&& self.jump_hold_ms <= JUMP_HOLD_MS
        &&& self.air_time_ms <= AIR_TIME_CAP
    }

    /// True when the actor's bounding box placed at `(x, y)` has a corner
    /// in a `Solid` cell of `m`.
    pub open spec fn spec_hits_solid_at(self, m: TileMap, x: int, y: int) -> bool {
        m.spec_box_hits_solid(x, y, self.size_x as int, self.size_y as int)
    }

    /// The no-interpenetration invariant at the actor's current position.
    pub open spec fn spec_clear(self, m: TileMap) -> bool {
        !self.spec_hits_solid_at(m, self.pos_x as int, self.pos_y as int)
    }

    /// Ground probe: one pixel directly below either bottom corner lies in
    /// terrain material (a `Solid` cell, or slope material at or below the
    /// surface line).
    pub open spec fn spec_probe_ground(self, m: TileMap) -> bool {
        ||| m.spec_point_blocked(self.pos_x as int, self.pos_y as int + self.size_y as int)
        ||| m.spec_point_blocked(
            self.pos_x as int + self.size_x as int - 1,
            self.pos_y as int + self.size_y as int,
        )
    }

    /// True when, with the box placed at `(x, y)`, either bottom corner
    /// pixel itself lies in terrain material.
    pub open spec fn spec_bottom_in_material(self, m: TileMap, x: int, y: int) -> bool {
        ||| m.spec_point_blocked(x, y + self.size_y as int - 1)
        ||| m.spec_point_blocked(x + self.size_x as int - 1, y + self.size_y as int - 1)
    }

    /// Like `wf`, but with the horizontal velocity cap widened by one
    /// frame's worth of run acceleration: the state `move_horizontal`
    /// leaves behind before `update` clamps it again.
    pub open spec fn wf_pre(self) -> bool {
        &&& 0 < self.size_x <= 1024
        &&& 0 < self.size_y <= 1024
        &&& -1_000_000_000 <= self.pos_x <= 1_000_000_000
        &&& -1_000_000_000 <= self.pos_y <= 1_000_000_000
        &&& -(MAX_SPRINT_SPEED_X as int) - (ACCEL_PER_MS as int) * (SPRINT_MULTIPLIER as int) * (
        MAX_DT_MS as int) <= self.vel_x <= (MAX_SPRINT_SPEED_X as int) + (ACCEL_PER_MS as int) * (
        SPRINT_MULTIPLIER as int) * (MAX_DT_MS as int)
        &&& -(MAX_SPEED_Y as int) <= self.vel_y <= MAX_SPEED_Y
        &&& 0 <= self.temp_vel_x < STEP_MICRO
        &&& 0 <= self.temp_vel_y < STEP_MICRO
        &&& self.jump_buffer_ms <= JUMP_BUFFER_MS
        &&& self.jump_hold_ms <= JUMP_HOLD_MS
        &&& self.air_time_ms <= AIR_TIME_CAP
    }

    /// Ground detection: the grounded flag set from the probe.
    pub open spec fn spec_with_ground(self, m: TileMap) -> Player {
        Player { on_ground: self.spec_probe_ground(m), ..self }
    }

    /// Variable-height jumping: while the jump button stays held and the
    /// hold window has time left, the jump velocity is re-applied and the
    /// window shrinks by `dt`; otherwise the window closes.
    pub open spec fn spec_hold_jump(self, inp: InputFlags, dt: u64) -> Player {
        if inp.jump_held && self.jump_hold_ms > 0 {
            Player {
                vel_y: JUMP_VELOCITY,
                jump_hold_ms: if self.jump_hold_ms >= dt {
                    (self.jump_hold_ms - dt) as u64
                } else {
                    0u64
                },
                ..self
            }
        } else {
            Player { jump_hold_ms: 0u64, ..self }
        }
    }

    /// Gravity: vertical acceleration, skipped while grounded.
    pub open spec fn spec_gravity(self, dt: u64) -> Player {
        if self.on_ground {
            self
        } else {
            Player {
                vel_y: (self.vel_y as int + (GRAVITY_PER_MS as int) * (dt as int)) as i64,
                ..self
            }
        }
    }

    /// Friction: one multiplicative decay of the horizontal velocity, with
    /// the ground factor while grounded and the gentler air-resistance
    /// factor otherwise.
    pub open spec fn spec_friction(self) -> Player {
        let den: int = if self.on_ground {
            FRICTION_DEN_GROUND as int
        } else {
            FRICTION_DEN_AIR as int
        };
        Player { vel_x: spec_friction_val(self.vel_x as int, den) as i64, ..self }
    }

    /// Run input: one frame of horizontal acceleration (doubled while
    /// sprinting); left wins over right, matching the original controls.
    pub open spec fn spec_accel(self, left: bool, right: bool, sprint: bool, dt: u64) -> Player {
        let a: int = (if sprint {
            (ACCEL_PER_MS as int) * (SPRINT_MULTIPLIER as int)
        } else {
            ACCEL_PER_MS as int
        }) * (dt as int);
        if left {
            Player { vel_x: (self.vel_x as int - a) as i64, facing_right: false, ..self }
        } else if right {
            Player { vel_x: (self.vel_x as int + a) as i64, facing_right: true, ..self }
        } else {
            self
        }
    }

    /// The state change of an executed jump: the jump velocity, the hold
    /// window opened, airborne, the coyote window spent and the buffer
    /// cleared.
    pub open spec fn spec_do_jump(self) -> Player {
        Player {
            vel_y: JUMP_VELOCITY,
            on_ground: false,
            jump_hold_ms: JUMP_HOLD_MS,
            air_time_ms: (COYOTE_MS + 1) as u64,
            jump_buffer_ms: 0u64,
            ..self
        }
    }

    /// The jump decision on a pressed frame: grounded actors jump, and so
    /// do airborne actors still within the coyote window after losing
    /// ground contact; any other press is remembered in the jump buffer.
    pub open spec fn spec_jump_input(self, inp: InputFlags) -> Player {
        if inp.jump_pressed {
            if self.on_ground || self.air_time_ms <= COYOTE_MS {
                self.spec_do_jump()
            } else {
                Player { jump_buffer_ms: JUMP_BUFFER_MS, ..self }
            }
        } else {
            self
        }
    }

    /// Jump cancel on release: remaining upward velocity is halved
    /// (rounding toward zero) and the hold window closes.
    pub open spec fn spec_cancel_jump(self) -> Player {
        Player {
            vel_y: if self.vel_y < 0 {
                (-((-(self.vel_y as int)) / 2)) as i64
            } else {
                self.vel_y
            },
            jump_hold_ms: 0u64,
            ..self
        }
    }

    /// The cancel phase of a frame: applied only on a release edge.
    pub open spec fn spec_cancel_jump_if(self, released: bool) -> Player {
        if released {
            self.spec_cancel_jump()
        } else {
            self
        }
    }

    /// Speed caps: the vertical velocity is clamped to `MAX_SPEED_Y`; the
    /// horizontal velocity is left alone while within `MAX_SPEED_X` and
    /// otherwise clamped to the sprint cap.
    pub open spec fn spec_clamp(self) -> Player {
        let lim_x: int = if spec_abs(self.vel_x as int) > MAX_SPEED_X {
            MAX_SPRINT_SPEED_X as int
        } else {
            MAX_SPEED_X as int
        };
        Player {
            vel_x: spec_clamp_val(self.vel_x as int, -lim_x, lim_x) as i64,
            vel_y: spec_clamp_val(
                self.vel_y as int,
                -(MAX_SPEED_Y as int),
                MAX_SPEED_Y as int,
            ) as i64,
            ..self
        }
    }

    /// Drift control: a velocity component of magnitude strictly below
    /// `VEL_EPSILON` is zeroed.
    pub open spec fn spec_epsilon(self) -> Player {
        Player {
            vel_x: if spec_abs(self.vel_x as int) < VEL_EPSILON {
                0i64
            } else {
                self.vel_x
            },
            vel_y: if spec_abs(self.vel_y as int) < VEL_EPSILON {
                0i64
            } else {
                self.vel_y
            },
            ..self
        }
    }

    /// End-of-frame grounding: the grounded flag is re-probed at the
    /// resolved position, and a buffered jump request is consumed the
    /// instant the actor becomes grounded while not moving upward.
    pub open spec fn spec_land_buffer(self, m: TileMap) -> Player {
        let g = self.spec_probe_ground(m);
        let p = Player { on_ground: g, ..self };
        if g && self.jump_buffer_ms > 0 && self.vel_y >= 0 {
            p.spec_do_jump()
        } else {
            p
        }
    }

    /// Timer advance at the end of a frame: the time-since-airborne
    /// counter resets while grounded and otherwise grows by `dt` (capped),
    /// and the jump buffer drains by `dt`.
    pub open spec fn spec_timers(self, dt: u64) -> Player {
        Player {
            air_time_ms: if self.on_ground {
                0u64
            } else if self.air_time_ms as int + dt as int > AIR_TIME_CAP as int {
                AIR_TIME_CAP
            } else {
                (self.air_time_ms + dt) as u64
            },
            jump_buffer_ms: if self.jump_buffer_ms >= dt {
                (self.jump_buffer_ms - dt) as u64
            } else {
                0u64
            },
            ..self
        }
    }

    /// The observational contact flags at the current position: a wall
    /// flag for each side the box cannot shift one pixel toward without a
    /// corner entering a `Solid` cell, and a slope flag for each slope
    /// orientation found directly below a bottom corner.
    pub open spec fn spec_compute_flags(self, m: TileMap) -> CollisionFlags {
        let x = self.pos_x as int;
        let y = self.pos_y as int;
        let w = self.size_x as int;
        let h = self.size_y as int;
        CollisionFlags {
            left_wall: m.spec_box_hits_solid(x - 1, y, w, h),
            right_wall: m.spec_box_hits_solid(x + 1, y, w, h),
            top_wall: m.spec_box_hits_solid(x, y - 1, w, h),
            bottom_wall: m.spec_box_hits_solid(x, y + 1, w, h),
            left_slope: m.spec_classify(x, y + h) == TileType::SlopeUpLeft || m.spec_classify(
                x + w - 1,
                y + h,
            ) == TileType::SlopeUpLeft,
            right_slope: m.spec_classify(x, y + h) == TileType::SlopeUpRight || m.spec_classify(
                x + w - 1,
                y + h,
            ) == TileType::SlopeUpRight,
        }
    }

    /// Size sanity alone: what the sweep helpers need of the actor
    /// besides clearance.
    pub open spec fn wf_box(self) -> bool {
        &&& 0 < self.size_x <= 1024
        &&& 0 < self.size_y <= 1024
    }

    /// What blocks a one-pixel downward step to `new_y`: a corner in a
    /// `Solid` cell, or a bottom corner pixel at or below a slope's
    /// surface line (the vertical clamp).
    pub open spec fn spec_down_blocked(self, m: TileMap, new_y: int) -> bool {
        ||| self.spec_hits_solid_at(m, self.pos_x as int, new_y)
        ||| self.spec_bottom_in_material(m, self.pos_x as int, new_y)
    }

    /// One vertical sub-step: a blocked step (Solid for upward motion,
    /// Solid or slope surface for downward motion) stops the vertical
    /// velocity and leaves the position; a free step commits it.
    pub open spec fn spec_move_y_step(self, m: TileMap, dir: int) -> Player {
        if dir == 0 {
            self
        } else {
            let new_y = self.pos_y as int + dir;
            if dir > 0 {
                if self.spec_down_blocked(m, new_y) {
                    Player { vel_y: 0i64, ..self }
                } else {
                    Player { pos_y: new_y as i64, ..self }
                }
            } else {
                if self.spec_hits_solid_at(m, self.pos_x as int, new_y) {
                    Player { vel_y: 0i64, ..self }
                } else {
                    Player { pos_y: new_y as i64, ..self }
                }
            }
        }
    }

    /// The step-up search: the smallest lift `s` within half a cell at
    /// which the box, shifted to `new_x`, clears both `Solid` cells and
    /// slope material under its bottom corners; `None` when every lift up
    /// to the limit stays blocked.
    pub open spec fn spec_step_up_search(self, m: TileMap, new_x: int, s: int) -> Option<int>
        decreases (STEP_UP_LIMIT as int) + 1 - s,
    {
        if s > STEP_UP_LIMIT as int {
            Option::None
        } else if !m.spec_box_hits_solid(
            new_x,
            self.pos_y as int - s,
            self.size_x as int,
            self.size_y as int,
        ) && !self.spec_bottom_in_material(m, new_x, self.pos_y as int - s) {
            Option::Some(s)
        } else {
            self.spec_step_up_search(m, new_x, s + 1)
        }
    }

    /// How far the vertical clamp lifts the actor out of slope material:
    /// one pixel at a time while a bottom corner pixel is inside material
    /// and the row above is free of `Solid`, at most `fuel` pixels.
    pub open spec fn spec_snap_amount(self, m: TileMap, fuel: int) -> int
        decreases fuel,
    {
        if fuel <= 0 {
            0
        } else if self.spec_bottom_in_material(m, self.pos_x as int, self.pos_y as int)
            && !self.spec_hits_solid_at(m, self.pos_x as int, self.pos_y as int - 1) {
            1 + (Player { pos_y: (self.pos_y - 1) as i64, ..self }).spec_snap_amount(m, fuel - 1)
        } else {
            0
        }
    }

    /// The vertical clamp applied at the current position: the actor
    /// lifted clear of slope material, by at most one cell.
    pub open spec fn spec_snap_result(self, m: TileMap) -> Player {
        Player {
            pos_y: (self.pos_y - self.spec_snap_amount(m, SNAP_UP_LIMIT as int)) as i64,
            ..self
        }
    }

    /// The outcome of the step-up attempt at the blocked destination
    /// `pos_x + dir`: on success the shifted, lifted state and `true`;
    /// otherwise the state unchanged and `false`.
    pub open spec fn spec_try_step_up(self, m: TileMap, dir: int) -> (Player, bool) {
        match self.spec_step_up_search(m, self.pos_x as int + dir, 1) {
            Option::Some(s) => (
                Player {
                    pos_x: (self.pos_x as int + dir) as i64,
                    pos_y: (self.pos_y - s) as i64,
                    ..self
                },
                true,
            ),
            Option::None => (self, false),
        }
    }

    /// One horizontal sub-step.  Slope material never blocks it: if the
    /// destination's corners clear all `Solid` cells the step commits and
    /// the vertical clamp lifts the actor out of any slope material it
    /// walked into; a `Solid` destination triggers the step-up search, and
    /// only when that fails does the step count as a wall hit, discarding
    /// the horizontal velocity and its sub-pixel remainder.
    pub open spec fn spec_move_x_step(self, m: TileMap, dir: int) -> (Player, bool) {
        let new_x = self.pos_x as int + dir;
        if !m.spec_box_hits_solid(new_x, self.pos_y as int, self.size_x as int, self.size_y as int) {
            let moved = Player { pos_x: new_x as i64, ..self };
            (moved.spec_snap_result(m), true)
        } else {
            let attempt = self.spec_try_step_up(m, dir);
            if attempt.1 {
                attempt
            } else {
                (Player { vel_x: 0i64, temp_vel_x: 0i64, ..self }, false)
            }
        }
    }

    /// The horizontal sub-step loop: whole pixels are peeled off the
    /// accumulator one step at a time until less than a pixel remains or a
    /// wall hit discards the remainder.
    pub open spec fn spec_run_x(self, m: TileMap, dir: int) -> Player
        decreases self.temp_vel_x,
    {
        if self.temp_vel_x >= STEP_MICRO && dir != 0 {
            let r = self.spec_move_x_step(m, dir);
            if r.1 {
                let stepped = Player { temp_vel_x: (r.0.temp_vel_x - STEP_MICRO) as i64, ..r.0 };
                stepped.spec_run_x(m, dir)
            } else {
                r.0
            }
        } else {
            self
        }
    }

    /// The vertical sub-step loop: every whole pixel in the accumulator is
    /// consumed, whether the step commits or stops against terrain.
    pub open spec fn spec_run_y(self, m: TileMap, dir: int) -> Player
        decreases self.temp_vel_y,
    {
        if self.temp_vel_y >= STEP_MICRO && dir != 0 {
            let p2 = self.spec_move_y_step(m, dir);
            let stepped = Player { temp_vel_y: (p2.temp_vel_y - STEP_MICRO) as i64, ..p2 };
            stepped.spec_run_y(m, dir)
        } else {
            self
        }
    }

    /// One frame of motion: the frame's displacement (velocity times
    /// `dt`) joins the sub-pixel accumulators, then the horizontal axis is
    /// resolved first and the vertical axis second, in one-pixel
    /// sub-steps.
    pub open spec fn spec_move_object(self, m: TileMap, dt: u64) -> Player {
        let p1 = Player {
            temp_vel_x: (self.temp_vel_x + spec_abs(self.vel_x as int) * (dt as int)) as i64,
            temp_vel_y: (self.temp_vel_y + spec_abs(self.vel_y as int) * (dt as int)) as i64,
            ..self
        };
        let p2 = p1.spec_run_x(m, spec_dir(self.vel_x as int));
        p2.spec_run_y(m, spec_dir(self.vel_y as int))
    }

    /// How far the actor settles straight down before meeting terrain:
    /// the largest drop within one cell whose every intermediate position
    /// is free.
    pub open spec fn spec_settle_amount(self, m: TileMap, s: int) -> int
        decreases (SNAP_UP_LIMIT as int) + 1 - s,
    {
        if s > SNAP_UP_LIMIT as int {
            SNAP_UP_LIMIT as int
        } else if self.spec_down_blocked(m, self.pos_y as int + s) {
            s - 1
        } else {
            self.spec_settle_amount(m, s + 1)
        }
    }

    /// The complete per-frame transition: ground detection, the jump
    /// phases, gravity, friction, run acceleration, the speed caps, the
    /// axis-separated sweep, drift control, landing (with buffered jump
    /// consumption), the timers, and the recomputed contact flags — in
    /// that order.
    pub open spec fn spec_update(self, m: TileMap, dt: u64, inp: InputFlags) -> Player {
        let p1 = self.spec_with_ground(m);
        let p2 = p1.spec_hold_jump(inp, dt);
        let p3 = p2.spec_gravity(dt);
        let p4 = p3.spec_friction();
        let p5 = p4.spec_accel(inp.move_left, inp.move_right, inp.sprint, dt);
        let p6 = p5.spec_jump_input(inp);
        let p7 = p6.spec_cancel_jump_if(inp.jump_released);
        let p8 = p7.spec_clamp();
        let p9 = p8.spec_move_object(m, dt);
        let p10 = p9.spec_epsilon();
        let p11 = p10.spec_land_buffer(m);
        let p12 = p11.spec_timers(dt);
        Player { flags: p12.spec_compute_flags(m), ..p12 }
    }

    /// A fresh actor: placed at `(x, y)` with the given size, at rest,
    /// airborne (the first update resolves contact), all timers expired.
    pub fn new(x: i64, y: i64, size_x: i64, size_y: i64) -> (p: Player)
        requires
            0 < size_x <= 1024,
            0 < size_y <= 1024,
            -1_000_000_000 <= x <= 1_000_000_000,
            -1_000_000_000 <= y <= 1_000_000_000,
        ensures
            p.wf(),
            p == (Player {
                pos_x: x,
                pos_y: y,
                vel_x: 0,
                vel_y: 0,
                temp_vel_x: 0,
                temp_vel_y: 0,
                size_x: size_x,
                size_y: size_y,
                on_ground: false,
                facing_right: true,
                air_time_ms: (COYOTE_MS + 1) as u64,
                jump_buffer_ms: 0,
                jump_hold_ms: 0,
                flags: p.flags,
            }),
            p.flags == (CollisionFlags {
                left_wall: false,
                right_wall: false,
                top_wall: false,
                bottom_wall: false,
                left_slope: false,
                right_slope: false,
            }),
    {
        Player {
            pos_x: x,
            pos_y: y,
            vel_x: 0,
            vel_y: 0,
            temp_vel_x: 0,
            temp_vel_y: 0,
            size_x: size_x,
            size_y: size_y,
            on_ground: false,
            facing_right: true,
            air_time_ms: COYOTE_MS + 1,
            jump_buffer_ms: 0,
            jump_hold_ms: 0,
            flags: CollisionFlags::none(),
        }
    }

    /// True when the actor's bounding box, placed at `(x, y)`, has a
    /// corner inside a `Solid` cell.  Slope material deliberately does not
    /// count (the sweep treats slopes as transparent).
    pub fn collide(&self, tilemap: &TileMap, x: i64, y: i64) -> (b: bool)
        requires
            tilemap.wf(),
            0 < self.size_x <= 1024,
            0 < self.size_y <= 1024,
            -1_100_000_000 <= x <= 1_100_000_000,
            -1_100_000_000 <= y <= 1_100_000_000,
        ensures
            b == self.spec_hits_solid_at(*tilemap, x as int, y as int),
    {
        let right: i64 = x + self.size_x - 1;
        let bottom: i64 = y + self.size_y - 1;
        tilemap.get_tile_type(x, y) == TileType::Solid || tilemap.get_tile_type(right, y)
            == TileType::Solid || tilemap.get_tile_type(x, bottom) == TileType::Solid
            || tilemap.get_tile_type(right, bottom) == TileType::Solid
    }

    /// Ground detection: sets the grounded flag from a probe one pixel
    /// below the two bottom corners.
    pub fn collision_bottom(&mut self, tilemap: &TileMap)
        requires
            tilemap.wf(),
            old(self).wf_box(),
            -1_000_000_000 <= old(self).pos_x <= 1_000_000_000,
            -1_000_000_000 <= old(self).pos_y <= 1_000_000_000,
        ensures
            *final(self) == old(self).spec_with_ground(*tilemap),
            *final(self) == (Player { on_ground: final(self).on_ground, ..*old(self) }),
    {
        let feet_y: i64 = self.pos_y + self.size_y;
        self.on_ground = tilemap.is_pixel_solid(self.pos_x, feet_y) || tilemap.is_pixel_solid(
            self.pos_x + self.size_x - 1,
            feet_y,
        );
    }

    /// One frame of horizontal run acceleration from the directional
    /// input; sprint doubles it.  Called at most once per frame, before
    /// `update` clamps the speed again.
    pub fn move_horizontal(&mut self, left: bool, right: bool, sprint: bool, dt: u64)
        requires
            -2_000_000 <= old(self).vel_x <= 2_000_000,
            dt <= MAX_DT_MS,
        ensures
            *final(self) == old(self).spec_accel(left, right, sprint, dt),
            *final(self) == (Player {
                vel_x: final(self).vel_x,
                facing_right: final(self).facing_right,
                ..*old(self)
            }),
            old(self).vel_x - 840_000 <= final(self).vel_x <= old(self).vel_x + 840_000,
    {
        let acceleration: i64 = if sprint {
            ACCEL_PER_MS * SPRINT_MULTIPLIER
        } else {
            ACCEL_PER_MS
        };
        let dtl: i64 = dt as i64;
        proof {
            assert(0 <= acceleration * dtl <= 840_000) by (nonlinear_arith)
                requires
                    0 < acceleration <= 840 && 0 <= dtl <= 1000,
            ;
        }
        let dv: i64 = acceleration * dtl;
        if left {
            self.vel_x = self.vel_x - dv;
            self.facing_right = false;
        } else if right {
            self.vel_x = self.vel_x + dv;
            self.facing_right = true;
        }
    }

    /// A direct jump request: honored only while grounded (the in-frame
    /// decision with coyote time and buffering lives in `update`).
    pub fn jump(&mut self)
        requires
            old(self).wf_pre(),
        ensures
            *final(self) == (if old(self).on_ground {
                old(self).spec_do_jump()
            } else {
                *old(self)
            }),
            final(self).wf_pre(),
    {
        if self.on_ground {
            self.vel_y = JUMP_VELOCITY;
            self.jump_hold_ms = JUMP_HOLD_MS;
            self.on_ground = false;
            self.air_time_ms = COYOTE_MS + 1;
            self.jump_buffer_ms = 0;
        }
    }

    /// Cancels a jump in flight: remaining upward velocity is halved and
    /// the hold window closes, so releasing the button early shortens the
    /// jump.
    pub fn cancel_jump(&mut self)
        requires
            -4_000_000 <= old(self).vel_y <= 4_000_000,
        ensures
            *final(self) == old(self).spec_cancel_jump(),
            *final(self) == (Player {
                vel_y: final(self).vel_y,
                jump_hold_ms: final(self).jump_hold_ms,
                ..*old(self)
            }),
            spec_abs(final(self).vel_y as int) <= spec_abs(old(self).vel_y as int),
            final(self).jump_hold_ms == 0,
    {
        if self.vel_y < 0 {
            let mag: i64 = -self.vel_y;
            self.vel_y = -(mag / 2);
        }
        self.jump_hold_ms = 0;
    }

    /// Clamps both velocity components to their caps.
    pub fn clamp_speed(&mut self)
        requires
            -4_000_000 <= old(self).vel_x <= 4_000_000,
            -4_000_000 <= old(self).vel_y <= 4_000_000,
        ensures
            *final(self) == old(self).spec_clamp(),
            *final(self) == (Player {
                vel_x: final(self).vel_x,
                vel_y: final(self).vel_y,
                ..*old(self)
            }),
            -(MAX_SPRINT_SPEED_X as int) <= final(self).vel_x <= MAX_SPRINT_SPEED_X,
            -(MAX_SPEED_Y as int) <= final(self).vel_y <= MAX_SPEED_Y,
    {
        let mag_x: i64 = if self.vel_x >= 0 {
            self.vel_x
        } else {
            -self.vel_x
        };
        let lim_x: i64 = if mag_x > MAX_SPEED_X {
            MAX_SPRINT_SPEED_X
        } else {
            MAX_SPEED_X
        };
        if self.vel_x < -lim_x {
            self.vel_x = -lim_x;
        } else if self.vel_x > lim_x {
            self.vel_x = lim_x;
        }
        if self.vel_y < -MAX_SPEED_Y {
            self.vel_y = -MAX_SPEED_Y;
        } else if self.vel_y > MAX_SPEED_Y {
            self.vel_y = MAX_SPEED_Y;
        }
    }

    /// A hard horizontal stop: the velocity and its sub-pixel remainder
    /// are discarded together.
    pub fn hit_wall(&mut self)
        ensures
            *final(self) == (Player { vel_x: 0i64, temp_vel_x: 0i64, ..*old(self) }),
    {
        self.temp_vel_x = 0;
        self.vel_x = 0;
    }

    /// Friction application (private phase of `update`).
    pub(crate) fn apply_friction(&mut self)
        requires
            -2_000_000 <= old(self).vel_x <= 2_000_000,
        ensures
            *final(self) == old(self).spec_friction(),
            *final(self) == (Player { vel_x: final(self).vel_x, ..*old(self) }),
            spec_abs(final(self).vel_x as int) <= spec_abs(old(self).vel_x as int),
    {
        let den: i64 = if self.on_ground {
            FRICTION_DEN_GROUND
        } else {
            FRICTION_DEN_AIR
        };
        let mag: i64 = if self.vel_x >= 0 {
            self.vel_x
        } else {
            -self.vel_x
        };
        proof {
            lemma_friction_bound(mag as int, den as int);
        }
        let newmag: i64 = mag * FRICTION_NUM / den;
        self.vel_x = if self.vel_x >= 0 {
            newmag
        } else {
            -newmag
        };
    }

    /// True when, with the box at `(x, y)`, a bottom corner pixel lies in
    /// terrain material.
    fn bottom_in_material(&self, tilemap: &TileMap, x: i64, y: i64) -> (b: bool)
        requires
            tilemap.wf(),
            self.wf_box(),
            -1_100_000_000 <= x <= 1_100_000_000,
            -1_100_000_000 <= y <= 1_100_000_000,
        ensures
            b == self.spec_bottom_in_material(*tilemap, x as int, y as int),
    {
        let bottom: i64 = y + self.size_y - 1;
        tilemap.is_pixel_solid(x, bottom) || tilemap.is_pixel_solid(x + self.size_x - 1, bottom)
    }

    /// Attempts the step-up search toward `pos_x + dir`: commits the
    /// smallest lift within half a cell that clears both `Solid` cells and
    /// slope material, and reports whether one was found.
    pub fn try_step_up_slope(&mut self, tilemap: &TileMap, dir: i64) -> (moved: bool)
        requires
            tilemap.wf(),
            old(self).wf_box(),
            old(self).spec_clear(*tilemap),
            dir == 1 || dir == -1,
        ensures
            *final(self) == old(self).spec_try_step_up(*tilemap, dir as int).0,
            moved == old(self).spec_try_step_up(*tilemap, dir as int).1,
            final(self).wf_box(),
            final(self).spec_clear(*tilemap),
    {
        proof {
            lemma_box_clear_in_bounds(
                *tilemap,
                self.pos_x as int,
                self.pos_y as int,
                self.size_x as int,
                self.size_y as int,
            );
        }
        let new_x: i64 = self.pos_x + dir;
        let mut s: i64 = 1;
        while s <= STEP_UP_LIMIT
            invariant
                tilemap.wf(),
                self.wf_box(),
                self.spec_clear(*tilemap),
                *self == *old(self),
                1 <= s <= STEP_UP_LIMIT + 1,
                new_x == self.pos_x + dir,
                dir == 1 || dir == -1,
                0 <= self.pos_x <= 1_000_000_000,
                0 <= self.pos_y <= 1_000_000_000,
                self.spec_step_up_search(*tilemap, new_x as int, 1) == self.spec_step_up_search(
                    *tilemap,
                    new_x as int,
                    s as int,
                ),
            decreases STEP_UP_LIMIT + 1 - s,
        {
            let target_y: i64 = self.pos_y - s;
            if !self.collide(tilemap, new_x, target_y) && !self.bottom_in_material(
                tilemap,
                new_x,
                target_y,
            ) {
                self.pos_x = new_x;
                self.pos_y = target_y;
                return true;
            }
            s = s + 1;
        }
        false
    }

    /// The vertical clamp: lifts the actor straight up, one pixel at a
    /// time, until its bottom corners are clear of slope material, at most
    /// one cell and never into a `Solid` cell.
    fn snap_up(&mut self, tilemap: &TileMap)
        requires
            tilemap.wf(),
            old(self).wf_box(),
            old(self).spec_clear(*tilemap),
        ensures
            *final(self) == old(self).spec_snap_result(*tilemap),
            final(self).wf_box(),
            final(self).spec_clear(*tilemap),
    {
        proof {
            lemma_box_clear_in_bounds(
                *tilemap,
                self.pos_x as int,
                self.pos_y as int,
                self.size_x as int,
                self.size_y as int,
            );
        }
        let mut fuel: i64 = SNAP_UP_LIMIT;
        let mut go: bool = self.bottom_in_material(tilemap, self.pos_x, self.pos_y)
            && !self.collide(tilemap, self.pos_x, self.pos_y - 1);
        while go && fuel > 0
            invariant
                tilemap.wf(),
                self.wf_box(),
                self.spec_clear(*tilemap),
                0 <= fuel <= SNAP_UP_LIMIT,
                self.pos_y == old(self).pos_y - (SNAP_UP_LIMIT - fuel),
                0 <= old(self).pos_y <= 1_000_000_000,
                0 <= self.pos_x <= 1_000_000_000,
                -16 <= self.pos_y <= 1_000_000_000,
                *self == (Player { pos_y: self.pos_y, ..*old(self) }),
                go == (self.spec_bottom_in_material(
                    *tilemap,
                    self.pos_x as int,
                    self.pos_y as int,
                ) && !self.spec_hits_solid_at(*tilemap, self.pos_x as int, self.pos_y as int - 1)),
                old(self).spec_snap_amount(*tilemap, SNAP_UP_LIMIT as int) == old(self).pos_y
                    - self.pos_y + self.spec_snap_amount(*tilemap, fuel as int),
            decreases fuel,
        {
            self.pos_y = self.pos_y - 1;
            fuel = fuel - 1;
            go = self.bottom_in_material(tilemap, self.pos_x, self.pos_y) && !self.collide(
                tilemap,
                self.pos_x,
                self.pos_y - 1,
            );
        }
    }

    /// One horizontal sub-step of one pixel in direction `dir`; returns
    /// false exactly on a wall hit.
    pub fn move_x(&mut self, tilemap: &TileMap, dir: i64) -> (moved: bool)
        requires
            tilemap.wf(),
            old(self).wf_box(),
            old(self).spec_clear(*tilemap),
            dir == 1 || dir == -1,
        ensures
            *final(self) == old(self).spec_move_x_step(*tilemap, dir as int).0,
            moved == old(self).spec_move_x_step(*tilemap, dir as int).1,
            final(self).wf_box(),
            final(self).spec_clear(*tilemap),
    {
        proof {
            lemma_box_clear_in_bounds(
                *tilemap,
                self.pos_x as int,
                self.pos_y as int,
                self.size_x as int,
                self.size_y as int,
            );
        }
        let new_x: i64 = self.pos_x + dir;
        if !self.collide(tilemap, new_x, self.pos_y) {
            self.pos_x = new_x;
            self.snap_up(tilemap);
            true
        } else if self.try_step_up_slope(tilemap, dir) {
            true
        } else {
            self.hit_wall();
            false
        }
    }

    /// One vertical sub-step of one pixel in direction `dir` (1 down, -1
    /// up); a blocked step stops the vertical velocity instead of moving.
    pub fn move_y(&mut self, tilemap: &TileMap, dir: i64)
        requires
            tilemap.wf(),
            old(self).wf_box(),
            old(self).spec_clear(*tilemap),
            dir == 1 || dir == -1,
        ensures
            *final(self) == old(self).spec_move_y_step(*tilemap, dir as int),
            final(self).wf_box(),
            final(self).spec_clear(*tilemap),
    {
        proof {
            lemma_box_clear_in_bounds(
                *tilemap,
                self.pos_x as int,
                self.pos_y as int,
                self.size_x as int,
                self.size_y as int,
            );
        }
        let new_y: i64 = self.pos_y + dir;
        if dir > 0 {
            if self.collide(tilemap, self.pos_x, new_y) || self.bottom_in_material(
                tilemap,
                self.pos_x,
                new_y,
            ) {
                self.vel_y = 0;
            } else {
                self.pos_y = new_y;
            }
        } else {
            if self.collide(tilemap, self.pos_x, new_y) {
                self.vel_y = 0;
            } else {
                self.pos_y = new_y;
            }
        }
    }

    /// Settles the actor straight down onto the nearest surface within
    /// one cell: it drops by the largest amount whose every intermediate
    /// position is free of terrain.  The per-frame sweep already stops
    /// exactly at surfaces, so this is a placement aid for level setup,
    /// not part of `update`.
    pub fn try_step_down_slope(&mut self, tilemap: &TileMap)
        requires
            tilemap.wf(),
            old(self).wf_box(),
            old(self).spec_clear(*tilemap),
        ensures
            *final(self) == (Player {
                pos_y: (old(self).pos_y + old(self).spec_settle_amount(*tilemap, 1)) as i64,
                ..*old(self)
            }),
            final(self).wf_box(),
            final(self).spec_clear(*tilemap),
    {
        proof {
            lemma_box_clear_in_bounds(
                *tilemap,
                self.pos_x as int,
                self.pos_y as int,
                self.size_x as int,
                self.size_y as int,
            );
        }
        let mut step: i64 = 1;
        while step <= SNAP_UP_LIMIT && !(self.collide(tilemap, self.pos_x, self.pos_y + step)
            || self.bottom_in_material(tilemap, self.pos_x, self.pos_y + step))
            invariant
                tilemap.wf(),
                self.wf_box(),
                self.spec_clear(*tilemap),
                *self == *old(self),
                1 <= step <= SNAP_UP_LIMIT + 1,
                0 <= self.pos_x <= 1_000_000_000,
                0 <= self.pos_y <= 1_000_000_000,
                self.spec_settle_amount(*tilemap, 1) == self.spec_settle_amount(
                    *tilemap,
                    step as int,
                ),
                forall|k: int|
                    1 <= k < step ==> !#[trigger] self.spec_down_blocked(*tilemap, self.pos_y + k),
            decreases SNAP_UP_LIMIT + 1 - step,
        {
            step = step + 1;
        }
        proof {
            if step <= SNAP_UP_LIMIT {
                assert(self.spec_down_blocked(*tilemap, self.pos_y + step));
                assert(self.spec_settle_amount(*tilemap, step as int) == step - 1);
            } else {
                assert(self.spec_settle_amount(*tilemap, step as int) == SNAP_UP_LIMIT);
            }
            if step > 1 {
                assert(!self.spec_down_blocked(*tilemap, self.pos_y + (step - 1)));
            }
        }
        if step > 1 {
            self.pos_y = self.pos_y + (step - 1);
        }
    }

    /// One frame of motion: accumulates this frame's displacement and
    /// resolves the horizontal axis, then the vertical axis, in one-pixel
    /// sub-steps.
    pub fn move_object(&mut self, tilemap: &TileMap, dt: u64)
        requires
            tilemap.wf(),
            old(self).wf(),
            old(self).spec_clear(*tilemap),
            dt <= MAX_DT_MS,
        ensures
            *final(self) == old(self).spec_move_object(*tilemap, dt),
            final(self).wf_box(),
            final(self).spec_clear(*tilemap),
            0 <= final(self).temp_vel_x < STEP_MICRO,
            0 <= final(self).temp_vel_y < STEP_MICRO,
            final(self).size_x == old(self).size_x,
            final(self).size_y == old(self).size_y,
            spec_abs(final(self).vel_x as int) <= spec_abs(old(self).vel_x as int),
            spec_abs(final(self).vel_y as int) <= spec_abs(old(self).vel_y as int),
            final(self).air_time_ms == old(self).air_time_ms,
            final(self).jump_buffer_ms == old(self).jump_buffer_ms,
            final(self).jump_hold_ms == old(self).jump_hold_ms,
            final(self).on_ground == old(self).on_ground,
    {
        let ghost m = *tilemap;
        let mag_x: i64 = if self.vel_x >= 0 {
            self.vel_x
        } else {
            -self.vel_x
        };
        let mag_y: i64 = if self.vel_y >= 0 {
            self.vel_y
        } else {
            -self.vel_y
        };
        let dtl: i64 = dt as i64;
        proof {
            assert(0 <= mag_x * dtl <= 240_000_000) by (nonlinear_arith)
                requires
                    0 <= mag_x <= 240_000 && 0 <= dtl <= 1000,
            ;
            assert(0 <= mag_y * dtl <= 600_000_000) by (nonlinear_arith)
                requires
                    0 <= mag_y <= 600_000 && 0 <= dtl <= 1000,
            ;
        }
        let dir_x: i64 = if self.vel_x > 0 {
            1
        } else if self.vel_x < 0 {
            -1
        } else {
            0
        };
        let dir_y: i64 = if self.vel_y > 0 {
            1
        } else if self.vel_y < 0 {
            -1
        } else {
            0
        };
        self.temp_vel_x = self.temp_vel_x + mag_x * dtl;
        self.temp_vel_y = self.temp_vel_y + mag_y * dtl;
        let ghost p1 = *self;
        if dir_x != 0 {
            while self.temp_vel_x >= STEP_MICRO
                invariant
                    m == *tilemap,
                    tilemap.wf(),
                    self.wf_box(),
                    self.spec_clear(m),
                    dir_x == 1 || dir_x == -1,
                    0 <= self.temp_vel_x,
                    self.temp_vel_y == p1.temp_vel_y,
                    self.size_x == p1.size_x,
                    self.size_y == p1.size_y,
                    spec_abs(self.vel_x as int) <= spec_abs(p1.vel_x as int),
                    self.vel_y == p1.vel_y,
                    self.air_time_ms == p1.air_time_ms,
                    self.jump_buffer_ms == p1.jump_buffer_ms,
                    self.jump_hold_ms == p1.jump_hold_ms,
                    self.on_ground == p1.on_ground,
                    p1.spec_run_x(m, dir_x as int) == self.spec_run_x(m, dir_x as int),
                decreases self.temp_vel_x,
            {
                let moved = self.move_x(tilemap, dir_x);
                if moved {
                    self.temp_vel_x = self.temp_vel_x - STEP_MICRO;
                }
            }
        }
        assert(*self == p1.spec_run_x(m, dir_x as int));
        proof {
            if dir_x == 0 {
                assert(mag_x == 0);
                assert(mag_x * dtl == 0) by (nonlinear_arith)
                    requires
                        mag_x == 0,
                ;
            }
            assert(0 <= self.temp_vel_x < STEP_MICRO);
        }
        let ghost p2 = *self;
        if dir_y != 0 {
            while self.temp_vel_y >= STEP_MICRO
                invariant
                    m == *tilemap,
                    tilemap.wf(),
                    self.wf_box(),
                    self.spec_clear(m),
                    dir_y == 1 || dir_y == -1,
                    0 <= self.temp_vel_y,
                    0 <= self.temp_vel_x < STEP_MICRO,
                    self.size_x == p2.size_x,
                    self.size_y == p2.size_y,
                    self.vel_x == p2.vel_x,
                    spec_abs(self.vel_y as int) <= spec_abs(p2.vel_y as int),
                    self.air_time_ms == p2.air_time_ms,
                    self.jump_buffer_ms == p2.jump_buffer_ms,
                    self.jump_hold_ms == p2.jump_hold_ms,
                    self.on_ground == p2.on_ground,
                    p2.spec_run_y(m, dir_y as int) == self.spec_run_y(m, dir_y as int),
                decreases self.temp_vel_y,
            {
                self.move_y(tilemap, dir_y);
                self.temp_vel_y = self.temp_vel_y - STEP_MICRO;
            }
        }
        assert(*self == p2.spec_run_y(m, dir_y as int));
        proof {
            if dir_y == 0 {
                assert(mag_y == 0);
                assert(mag_y * dtl == 0) by (nonlinear_arith)
                    requires
                        mag_y == 0,
                ;
            }
            assert(0 <= self.temp_vel_y < STEP_MICRO);
        }
    }

    /// Phase helper: variable-height jumping.
    pub(crate) fn apply_hold_jump(&mut self, input: InputFlags, dt: u64)
        requires
            old(self).jump_hold_ms <= JUMP_HOLD_MS,
            dt <= MAX_DT_MS,
        ensures
            *final(self) == old(self).spec_hold_jump(input, dt),
            *final(self) == (Player {
                vel_y: final(self).vel_y,
                jump_hold_ms: final(self).jump_hold_ms,
                ..*old(self)
            }),
            final(self).vel_y == old(self).vel_y || final(self).vel_y == JUMP_VELOCITY,
            final(self).jump_hold_ms <= JUMP_HOLD_MS,
    {
        if input.jump_held && self.jump_hold_ms > 0 {
            self.vel_y = JUMP_VELOCITY;
            self.jump_hold_ms = if self.jump_hold_ms >= dt {
                self.jump_hold_ms - dt
            } else {
                0
            };
        } else {
            self.jump_hold_ms = 0;
        }
    }

    /// Phase helper: gravity.
    pub(crate) fn apply_gravity(&mut self, dt: u64)
        requires
            -1_000_000 <= old(self).vel_y <= 1_000_000,
            dt <= MAX_DT_MS,
        ensures
            *final(self) == old(self).spec_gravity(dt),
            *final(self) == (Player { vel_y: final(self).vel_y, ..*old(self) }),
            old(self).vel_y <= final(self).vel_y <= old(self).vel_y + 36_000,
    {
        if !self.on_ground {
            self.vel_y = self.vel_y + GRAVITY_PER_MS * (dt as i64);
        }
    }

    /// Phase helper: the jump decision with coyote time and buffering.
    pub(crate) fn apply_jump_input(&mut self, input: InputFlags)
        requires
            old(self).jump_buffer_ms <= JUMP_BUFFER_MS,
            old(self).jump_hold_ms <= JUMP_HOLD_MS,
            old(self).air_time_ms <= AIR_TIME_CAP,
        ensures
            *final(self) == old(self).spec_jump_input(input),
            *final(self) == (Player {
                vel_y: final(self).vel_y,
                on_ground: final(self).on_ground,
                jump_hold_ms: final(self).jump_hold_ms,
                air_time_ms: final(self).air_time_ms,
                jump_buffer_ms: final(self).jump_buffer_ms,
                ..*old(self)
            }),
            final(self).vel_y == old(self).vel_y || final(self).vel_y == JUMP_VELOCITY,
            final(self).jump_hold_ms <= JUMP_HOLD_MS,
            final(self).jump_buffer_ms <= JUMP_BUFFER_MS,
            final(self).air_time_ms <= AIR_TIME_CAP,
    {
        if input.jump_pressed {
            if self.on_ground || self.air_time_ms <= COYOTE_MS {
                self.vel_y = JUMP_VELOCITY;
                self.on_ground = false;
                self.jump_hold_ms = JUMP_HOLD_MS;
                self.air_time_ms = COYOTE_MS + 1;
                self.jump_buffer_ms = 0;
            } else {
                self.jump_buffer_ms = JUMP_BUFFER_MS;
            }
        }
    }

    /// Phase helper: drift control.
    pub(crate) fn apply_epsilon(&mut self)
        ensures
            *final(self) == old(self).spec_epsilon(),
            *final(self) == (Player {
                vel_x: final(self).vel_x,
                vel_y: final(self).vel_y,
                ..*old(self)
            }),
            final(self).vel_x == old(self).vel_x || final(self).vel_x == 0,
            final(self).vel_y == old(self).vel_y || final(self).vel_y == 0,
    {
        if -VEL_EPSILON < self.vel_x && self.vel_x < VEL_EPSILON {
            self.vel_x = 0;
        }
        if -VEL_EPSILON < self.vel_y && self.vel_y < VEL_EPSILON {
            self.vel_y = 0;
        }
    }

    /// Phase helper: the landing re-probe and buffered-jump consumption.
    fn apply_land_buffer(&mut self, tilemap: &TileMap)
        requires
            tilemap.wf(),
            old(self).wf_box(),
            -1_000_000_000 <= old(self).pos_x <= 1_000_000_000,
            -1_000_000_000 <= old(self).pos_y <= 1_000_000_000,
            old(self).jump_buffer_ms <= JUMP_BUFFER_MS,
            old(self).air_time_ms <= AIR_TIME_CAP,
        ensures
            *final(self) == old(self).spec_land_buffer(*tilemap),
            *final(self) == (Player {
                vel_y: final(self).vel_y,
                on_ground: final(self).on_ground,
                jump_hold_ms: final(self).jump_hold_ms,
                air_time_ms: final(self).air_time_ms,
                jump_buffer_ms: final(self).jump_buffer_ms,
                ..*old(self)
            }),
            final(self).vel_y == old(self).vel_y || final(self).vel_y == JUMP_VELOCITY,
            final(self).jump_hold_ms == old(self).jump_hold_ms || final(self).jump_hold_ms
                == JUMP_HOLD_MS,
            final(self).jump_buffer_ms <= old(self).jump_buffer_ms,
            final(self).air_time_ms <= AIR_TIME_CAP,
    {
        self.collision_bottom(tilemap);
        if self.on_ground && self.jump_buffer_ms > 0 && self.vel_y >= 0 {
            self.vel_y = JUMP_VELOCITY;
            self.on_ground = false;
            self.jump_hold_ms = JUMP_HOLD_MS;
            self.air_time_ms = COYOTE_MS + 1;
            self.jump_buffer_ms = 0;
        }
    }

    /// Phase helper: the end-of-frame timers.
    pub(crate) fn apply_timers(&mut self, dt: u64)
        requires
            old(self).air_time_ms <= AIR_TIME_CAP,
            dt <= MAX_DT_MS,
        ensures
            *final(self) == old(self).spec_timers(dt),
            *final(self) == (Player {
                air_time_ms: final(self).air_time_ms,
                jump_buffer_ms: final(self).jump_buffer_ms,
                ..*old(self)
            }),
            final(self).air_time_ms <= AIR_TIME_CAP,
            final(self).jump_buffer_ms <= old(self).jump_buffer_ms,
    {
        if self.on_ground {
            self.air_time_ms = 0;
        } else {
            self.air_time_ms = if self.air_time_ms > AIR_TIME_CAP - dt {
                AIR_TIME_CAP
            } else {
                self.air_time_ms + dt
            };
        }
        self.jump_buffer_ms = if self.jump_buffer_ms >= dt {
            self.jump_buffer_ms - dt
        } else {
            0
        };
    }

    /// Phase helper: the observational contact flags, recomputed
    /// wholesale.
    #[verifier::rlimit(50)]
    fn apply_flags(&mut self, tilemap: &TileMap)
        requires
            tilemap.wf(),
            old(self).wf_box(),
            -1_000_000_000 <= old(self).pos_x <= 1_000_000_000,
            -1_000_000_000 <= old(self).pos_y <= 1_000_000_000,
        ensures
            *final(self) == (Player {
                flags: old(self).spec_compute_flags(*tilemap),
                ..*old(self)
            }),
    {
        self.flags = CollisionFlags {
            left_wall: self.collide(tilemap, self.pos_x - 1, self.pos_y),
            right_wall: self.collide(tilemap, self.pos_x + 1, self.pos_y),
            top_wall: self.collide(tilemap, self.pos_x, self.pos_y - 1),
            bottom_wall: self.collide(tilemap, self.pos_x, self.pos_y + 1),
            left_slope: tilemap.get_tile_type(self.pos_x, self.pos_y + self.size_y)
                == TileType::SlopeUpLeft || tilemap.get_tile_type(
                self.pos_x + self.size_x - 1,
                self.pos_y + self.size_y,
            ) == TileType::SlopeUpLeft,
            right_slope: tilemap.get_tile_type(self.pos_x, self.pos_y + self.size_y)
                == TileType::SlopeUpRight || tilemap.get_tile_type(
                self.pos_x + self.size_x - 1,
                self.pos_y + self.size_y,
            ) == TileType::SlopeUpRight,
        };
    }

    /// Every velocity phase of one frame, in order: ground detection,
    /// variable-height jumping, gravity, friction, this frame's run
    /// input, the jump decision (coyote time and buffering), jump cancel,
    /// and the speed caps.  The position is untouched.
    #[verifier::rlimit(50)]
    fn pre_move_phases(&mut self, tilemap: &TileMap, dt: u64, input: InputFlags)
        requires
            tilemap.wf(),
            old(self).wf_pre(),
            dt <= MAX_DT_MS,
        ensures
            *final(self) == old(self).spec_with_ground(*tilemap).spec_hold_jump(
                input,
                dt,
            ).spec_gravity(dt).spec_friction().spec_accel(
                input.move_left,
                input.move_right,
                input.sprint,
                dt,
            ).spec_jump_input(input).spec_cancel_jump_if(input.jump_released).spec_clamp(),
            final(self).wf(),
            final(self).pos_x == old(self).pos_x,
            final(self).pos_y == old(self).pos_y,
            final(self).size_x == old(self).size_x,
            final(self).size_y == old(self).size_y,
    {
        let ghost m = *tilemap;
        self.collision_bottom(tilemap);
        self.apply_hold_jump(input, dt);
        self.apply_gravity(dt);
        self.apply_friction();
        self.move_horizontal(input.move_left, input.move_right, input.sprint, dt);
        self.apply_jump_input(input);
        let ghost p6 = *self;
        if input.jump_released {
            self.cancel_jump();
        }
        assert(*self == p6.spec_cancel_jump_if(input.jump_released));
        self.clamp_speed();
    }

    /// Everything after the sweep: drift control, the landing re-probe
    /// with buffered-jump consumption, the timers, and the recomputed
    /// contact flags.
    #[verifier::rlimit(50)]
    fn post_move_phases(&mut self, tilemap: &TileMap, dt: u64)
        requires
            tilemap.wf(),
            old(self).wf(),
            old(self).spec_clear(*tilemap),
            dt <= MAX_DT_MS,
        ensures
            *final(self) == ({
                let q = old(self).spec_epsilon().spec_land_buffer(*tilemap).spec_timers(dt);
                Player { flags: q.spec_compute_flags(*tilemap), ..q }
            }),
            final(self).wf(),
            final(self).spec_clear(*tilemap),
            final(self).pos_x == old(self).pos_x,
            final(self).pos_y == old(self).pos_y,
            final(self).size_x == old(self).size_x,
            final(self).size_y == old(self).size_y,
    {
        let ghost m = *tilemap;
        self.apply_epsilon();
        self.apply_land_buffer(tilemap);
        self.apply_timers(dt);
        self.apply_flags(tilemap);
    }

    /// Advances the actor by `dt` milliseconds against the terrain,
    /// resolving all contact, consuming the frame's input signals and
    /// leaving the state exactly as `spec_update` describes.  An actor
    /// whose box is clear of `Solid` cells stays clear — and therefore,
    /// since everything beyond the grid's edge is `Solid`, stays inside
    /// the grid — whatever the input and however fast it moves.
    #[verifier::rlimit(50)]
    pub fn update(&mut self, tilemap: &TileMap, dt: u64, input: InputFlags)
        requires
            tilemap.wf(),
            old(self).wf_pre(),
            old(self).spec_clear(*tilemap),
            dt <= MAX_DT_MS,
        ensures
            *final(self) == old(self).spec_update(*tilemap, dt, input),
            final(self).wf(),
            final(self).spec_clear(*tilemap),
            final(self).size_x == old(self).size_x,
            final(self).size_y == old(self).size_y,
    {
        let ghost m = *tilemap;
        self.pre_move_phases(tilemap, dt, input);
        self.move_object(tilemap, dt);
        self.post_move_phases(tilemap, dt);
        assert(*self == old(self).spec_update(m, dt, input));
    }
}

/// One friction step shrinks the magnitude: for `0 <= mag` and
/// `FRICTION_NUM <= den`, `mag * FRICTION_NUM / den` stays within
/// `[0, mag]`.
proof fn lemma_friction_bound(mag: int, den: int)
    requires
        0 <= mag,
        FRICTION_NUM as int <= den,
    ensures
        0 <= mag * (FRICTION_NUM as int) / den <= mag,
{
    assert(0 <= mag * (FRICTION_NUM as int)) by (nonlinear_arith)
        requires
            0 <= mag,
    ;
    assert(mag * (FRICTION_NUM as int) <= mag * den) by (nonlinear_arith)
        requires
            0 <= mag && (FRICTION_NUM as int) <= den,
    ;
    lemma_div_pos_is_pos(mag * (FRICTION_NUM as int), den);
    lemma_div_is_ordered(mag * (FRICTION_NUM as int), mag * den, den);
    lemma_div_multiples_vanish(mag, den);
    assert(mag * den == den * mag) by (nonlinear_arith);
}

/// The horizontal sub-step loop touches only the horizontal state: the
/// vertical velocity and accumulator, the sizes, the grounded flag and
/// every timer come out unchanged.
proof fn lemma_run_x_preserves(p: Player, m: TileMap, dir: int)
    ensures
        ({
            let q = p.spec_run_x(m, dir);
            &&& q.vel_y == p.vel_y
            &&& q.temp_vel_y == p.temp_vel_y
            &&& q.size_x == p.size_x
            &&& q.size_y == p.size_y
            &&& q.on_ground == p.on_ground
            &&& q.air_time_ms == p.air_time_ms
            &&& q.jump_buffer_ms == p.jump_buffer_ms
            &&& q.jump_hold_ms == p.jump_hold_ms
            &&& q.facing_right == p.facing_right
            &&& q.flags == p.flags
        }),
    decreases p.temp_vel_x,
{
    if p.temp_vel_x >= STEP_MICRO && dir != 0 {
        let r = p.spec_move_x_step(m, dir);
        if r.1 {
            lemma_run_x_preserves(
                Player { temp_vel_x: (r.0.temp_vel_x - STEP_MICRO) as i64, ..r.0 },
                m,
                dir,
            );
        }
    }
}

/// Solid-stop invariant: an actor no larger than one cell plus a pixel on
/// each edge whose position is clear shares not even one pixel with any
/// `Solid` cell.  Together with `Player::update`'s guarantee that
/// clearance is preserved — at any speed, thanks to the one-pixel
/// sub-stepping — no update can leave such an actor overlapping solid
/// terrain.
pub proof fn lemma_no_tunneling(m: TileMap, p: Player)
    requires
        m.wf(),
        p.wf_box(),
        p.size_x <= TILE_SIZE as int + 1,
        p.size_y <= TILE_SIZE as int + 1,
        p.spec_clear(m),
    ensures
        forall|c: int, r: int|
            m.tile_at(c, r) == TileType::Solid ==> !#[trigger] crate::tilemap::spec_cell_meets_box(
                c,
                r,
                p.pos_x as int,
                p.pos_y as int,
                p.size_x as int,
                p.size_y as int,
            ),
{
    crate::tilemap::lemma_box_clear_no_solid_overlap(
        m,
        p.pos_x as int,
        p.pos_y as int,
        p.size_x as int,
        p.size_y as int,
    );
}

/// Coyote-time window: an airborne jump press within `COYOTE_MS` of
/// losing ground contact executes the jump (the vertical velocity is set
/// to the jump force); a press after the window only stores a buffered
/// request and leaves the velocity alone.
pub proof fn lemma_coyote_window(p: Player, inp: InputFlags)
    requires
        !p.on_ground,
        inp.jump_pressed,
    ensures
        p.air_time_ms <= COYOTE_MS ==> p.spec_jump_input(inp) == p.spec_do_jump()
            && p.spec_jump_input(inp).vel_y == JUMP_VELOCITY,
        p.air_time_ms > COYOTE_MS ==> p.spec_jump_input(inp) == (Player {
            jump_buffer_ms: JUMP_BUFFER_MS,
            ..p
        }),
{
}

/// Jump buffer: an actor that lands (the ground probe holds and it is
/// not moving upward) while a buffered jump request is still pending
/// executes the jump on that very frame; without a pending request the
/// landing only sets the grounded flag.
pub proof fn lemma_buffered_jump_on_landing(m: TileMap, p: Player)
    requires
        p.spec_probe_ground(m),
        p.vel_y >= 0,
    ensures
        p.jump_buffer_ms > 0 ==> p.spec_land_buffer(m).vel_y == JUMP_VELOCITY
            && !p.spec_land_buffer(m).on_ground && p.spec_land_buffer(m).jump_buffer_ms == 0,
        p.jump_buffer_ms == 0 ==> p.spec_land_buffer(m) == (Player { on_ground: true, ..p }),
{
}

/// Grounded rest, the vertical half: an actor standing on terrain with no
/// vertical velocity, no pending buffered jump and no jump input ends the
/// frame with its vertical velocity still exactly zero and the buffer
/// still empty, whatever its horizontal motion — gravity is skipped while
/// grounded and nothing else touches the vertical axis.
pub proof fn lemma_grounded_rest(m: TileMap, p: Player, dt: u64, inp: InputFlags)
    requires
        m.wf(),
        p.wf(),
        p.spec_probe_ground(m),
        p.vel_y == 0,
        p.jump_buffer_ms == 0,
        !inp.jump_pressed,
        !inp.jump_held,
        1 <= dt <= MAX_DT_MS,
    ensures
        p.spec_update(m, dt, inp).vel_y == 0,
        p.spec_update(m, dt, inp).jump_buffer_ms == 0,
{
    let p1 = p.spec_with_ground(m);
    let p2 = p1.spec_hold_jump(inp, dt);
    let p3 = p2.spec_gravity(dt);
    let p4 = p3.spec_friction();
    let p5 = p4.spec_accel(inp.move_left, inp.move_right, inp.sprint, dt);
    let p6 = p5.spec_jump_input(inp);
    let p7 = p6.spec_cancel_jump_if(inp.jump_released);
    let p8 = p7.spec_clamp();
    assert(p8.vel_y == 0 && p8.jump_buffer_ms == 0 && p8.temp_vel_y == p.temp_vel_y);
    assert(spec_abs(p8.vel_y as int) * (dt as int) == 0) by (nonlinear_arith)
        requires
            p8.vel_y == 0,
    ;
    let pa = Player {
        temp_vel_x: (p8.temp_vel_x + spec_abs(p8.vel_x as int) * (dt as int)) as i64,
        temp_vel_y: (p8.temp_vel_y + spec_abs(p8.vel_y as int) * (dt as int)) as i64,
        ..p8
    };
    let pb = pa.spec_run_x(m, spec_dir(p8.vel_x as int));
    lemma_run_x_preserves(pa, m, spec_dir(p8.vel_x as int));
    assert(pb.vel_y == 0 && pb.jump_buffer_ms == 0 && pb.temp_vel_y == pa.temp_vel_y);
    assert(spec_dir(p8.vel_y as int) == 0);
    let p9 = p8.spec_move_object(m, dt);
    assert(p9 == pb);
    let p10 = p9.spec_epsilon();
    let p11 = p10.spec_land_buffer(m);
    assert(p11.vel_y == 0 && p11.jump_buffer_ms == 0);
    let p12 = p11.spec_timers(dt);
    assert(p12.vel_y == 0 && p12.jump_buffer_ms == 0);
}

/// Full rest: an actor standing on terrain at zero velocity with no input
/// and empty timers does not move at all — the frame returns the same
/// position and zero velocity with the grounded flag set, so a landed
/// actor stays put forever.
pub proof fn lemma_rest_stationary(m: TileMap, p: Player, dt: u64, inp: InputFlags)
    requires
        m.wf(),
        p.wf(),
        p.spec_probe_ground(m),
        p.vel_x == 0,
        p.vel_y == 0,
        p.jump_buffer_ms == 0,
        !inp.jump_pressed,
        !inp.jump_held,
        !inp.move_left,
        !inp.move_right,
        1 <= dt <= MAX_DT_MS,
    ensures
        ({
            let q = p.spec_update(m, dt, inp);
            &&& q.pos_x == p.pos_x
            &&& q.pos_y == p.pos_y
            &&& q.vel_x == 0
            &&& q.vel_y == 0
            &&& q.on_ground
            &&& q.air_time_ms == 0
            &&& q.jump_buffer_ms == 0
        }),
{
    let p1 = p.spec_with_ground(m);
    let p2 = p1.spec_hold_jump(inp, dt);
    let p3 = p2.spec_gravity(dt);
    let p4 = p3.spec_friction();
    assert(p4.vel_x == 0) by {
        vstd::arithmetic::div_mod::lemma_div_of0(
            if p3.on_ground {
                FRICTION_DEN_GROUND as int
            } else {
                FRICTION_DEN_AIR as int
            },
        );
        assert(0int * (FRICTION_NUM as int) == 0) by (nonlinear_arith);
    };
    let p5 = p4.spec_accel(inp.move_left, inp.move_right, inp.sprint, dt);
    let p6 = p5.spec_jump_input(inp);
    let p7 = p6.spec_cancel_jump_if(inp.jump_released);
    let p8 = p7.spec_clamp();
    assert(p8.vel_x == 0 && p8.vel_y == 0 && p8.pos_x == p.pos_x && p8.pos_y == p.pos_y
        && p8.jump_buffer_ms == 0 && p8.temp_vel_x == p.temp_vel_x && p8.temp_vel_y
        == p.temp_vel_y);
    assert(spec_abs(0int) * (dt as int) == 0) by (nonlinear_arith);
    let p9 = p8.spec_move_object(m, dt);
    assert(spec_dir(p8.vel_x as int) == 0 && spec_dir(p8.vel_y as int) == 0);
    assert(p9.pos_x == p.pos_x && p9.pos_y == p.pos_y && p9.vel_x == 0 && p9.vel_y == 0
        && p9.jump_buffer_ms == 0);
    let p10 = p9.spec_epsilon();
    assert(p10.spec_probe_ground(m) == p.spec_probe_ground(m));
    let p11 = p10.spec_land_buffer(m);
    assert(p11.on_ground && p11.vel_y == 0 && p11.vel_x == 0 && p11.jump_buffer_ms == 0);
    let p12 = p11.spec_timers(dt);
    assert(p12.air_time_ms == 0 && p12.jump_buffer_ms == 0);
}

/// While every position on the upward path is clear of `Solid` cells, the
/// vertical sub-step loop moving upward commits every step and the
/// vertical velocity survives untouched.
proof fn lemma_run_y_up_clear(p: Player, m: TileMap, lo: int)
    requires
        p.temp_vel_y >= 0,
        lo <= p.pos_y - (p.temp_vel_y as int) / (STEP_MICRO as int),
        forall|yy: int|
            lo - 1 <= yy <= p.pos_y ==> !#[trigger] m.spec_box_hits_solid(
                p.pos_x as int,
                yy,
                p.size_x as int,
                p.size_y as int,
            ),
    ensures
        p.spec_run_y(m, -1).vel_y == p.vel_y,
    decreases p.temp_vel_y,
{
    if p.temp_vel_y >= STEP_MICRO {
        assert((p.temp_vel_y as int) / (STEP_MICRO as int) >= 1) by {
            vstd::arithmetic::div_mod::lemma_div_is_ordered(
                STEP_MICRO as int,
                p.temp_vel_y as int,
                STEP_MICRO as int,
            );
            vstd::arithmetic::div_mod::lemma_div_multiples_vanish(1, STEP_MICRO as int);
        };
        assert(p.pos_y - 1 >= lo - 1);
        assert(!m.spec_box_hits_solid(
            p.pos_x as int,
            p.pos_y - 1,
            p.size_x as int,
            p.size_y as int,
        ));
        let p2 = p.spec_move_y_step(m, -1);
        assert(p2 == (Player { pos_y: (p.pos_y - 1) as i64, ..p }));
        let stepped = Player { temp_vel_y: (p2.temp_vel_y - STEP_MICRO) as i64, ..p2 };
        assert((stepped.temp_vel_y as int) / (STEP_MICRO as int) == (p.temp_vel_y as int) / (STEP_MICRO as int)
            - 1) by {
            vstd::arithmetic::div_mod::lemma_div_minus_one(
                p.temp_vel_y as int,
                STEP_MICRO as int,
            );
        };
        lemma_run_y_up_clear(stepped, m, lo);
    }
}

/// Coyote time through the whole frame: an actor that has left the ground
/// within the coyote window, is not running sideways, and presses jump
/// with clear air above it ends the frame with its vertical velocity at
/// exactly the jump force — the press is honored as if it were still
/// grounded.
pub proof fn lemma_coyote_jump_executes(m: TileMap, p: Player, dt: u64, inp: InputFlags)
    requires
        m.wf(),
        p.wf(),
        !p.spec_probe_ground(m),
        p.air_time_ms <= COYOTE_MS,
        inp.jump_pressed,
        !inp.jump_released,
        !inp.move_left,
        !inp.move_right,
        p.vel_x == 0,
        1 <= dt <= MAX_DT_MS,
        // clear sky: nothing solid within the frame's possible rise
        forall|yy: int|
            p.pos_y - 302 <= yy <= p.pos_y ==> !#[trigger] m.spec_box_hits_solid(
                p.pos_x as int,
                yy,
                p.size_x as int,
                p.size_y as int,
            ),
    ensures
        p.spec_update(m, dt, inp).vel_y == JUMP_VELOCITY,
{
    let p1 = p.spec_with_ground(m);
    let p2 = p1.spec_hold_jump(inp, dt);
    let p3 = p2.spec_gravity(dt);
    let p4 = p3.spec_friction();
    assert(p4.vel_x == 0) by {
        vstd::arithmetic::div_mod::lemma_div_of0(
            if p3.on_ground {
                FRICTION_DEN_GROUND as int
            } else {
                FRICTION_DEN_AIR as int
            },
        );
        assert(0int * (FRICTION_NUM as int) == 0) by (nonlinear_arith);
    };
    let p5 = p4.spec_accel(inp.move_left, inp.move_right, inp.sprint, dt);
    let p6 = p5.spec_jump_input(inp);
    assert(p6.vel_y == JUMP_VELOCITY && !p6.on_ground);
    let p7 = p6.spec_cancel_jump_if(inp.jump_released);
    let p8 = p7.spec_clamp();
    assert(p8.vel_y == JUMP_VELOCITY && p8.vel_x == 0 && p8.pos_x == p.pos_x && p8.pos_y
        == p.pos_y && p8.temp_vel_y == p.temp_vel_y && p8.size_x == p.size_x && p8.size_y
        == p.size_y);
    // the sweep: no horizontal motion, and the rise is through clear air
    assert(spec_abs(p8.vel_x as int) * (dt as int) == 0) by (nonlinear_arith)
        requires
            p8.vel_x == 0,
    ;
    let pa = Player {
        temp_vel_x: (p8.temp_vel_x + spec_abs(p8.vel_x as int) * (dt as int)) as i64,
        temp_vel_y: (p8.temp_vel_y + spec_abs(p8.vel_y as int) * (dt as int)) as i64,
        ..p8
    };
    assert(spec_abs(p8.vel_y as int) * (dt as int) <= 300_000_000) by (nonlinear_arith)
        requires
            spec_abs(p8.vel_y as int) == 300_000 && 1 <= dt <= 1000,
    ;
    assert(spec_dir(p8.vel_x as int) == 0 && spec_dir(p8.vel_y as int) == -1);
    let pb = pa.spec_run_x(m, 0);
    assert(pb == pa);
    assert((pa.temp_vel_y as int) / (STEP_MICRO as int) <= 301) by {
        vstd::arithmetic::div_mod::lemma_div_is_ordered(
            pa.temp_vel_y as int,
            301_000_000,
            STEP_MICRO as int,
        );
        vstd::arithmetic::div_mod::lemma_div_multiples_vanish(301, STEP_MICRO as int);
    };
    lemma_run_y_up_clear(pa, m, p.pos_y - 301);
    let p9 = p8.spec_move_object(m, dt);
    assert(p9.vel_y == JUMP_VELOCITY);
    let p10 = p9.spec_epsilon();
    assert(p10.vel_y == JUMP_VELOCITY);
    let p11 = p10.spec_land_buffer(m);
    assert(p11.vel_y == JUMP_VELOCITY);
    let p12 = p11.spec_timers(dt);
    assert(p12.vel_y == JUMP_VELOCITY);
}

/// The vertical sub-step loop touches only the vertical state: the
/// horizontal position and velocity, the sizes, the grounded flag and
/// every timer come out unchanged.
proof fn lemma_run_y_preserves(p: Player, m: TileMap, dir: int)
    ensures
        ({
            let q = p.spec_run_y(m, dir);
            &&& q.pos_x == p.pos_x
            &&& q.vel_x == p.vel_x
            &&& q.temp_vel_x == p.temp_vel_x
            &&& q.size_x == p.size_x
            &&& q.size_y == p.size_y
            &&& q.on_ground == p.on_ground
            &&& q.air_time_ms == p.air_time_ms
            &&& q.jump_buffer_ms == p.jump_buffer_ms
            &&& q.jump_hold_ms == p.jump_hold_ms
            &&& q.facing_right == p.facing_right
            &&& q.flags == p.flags
        }),
    decreases p.temp_vel_y,
{
    if p.temp_vel_y >= STEP_MICRO && dir != 0 {
        let p2 = p.spec_move_y_step(m, dir);
        lemma_run_y_preserves(
            Player { temp_vel_y: (p2.temp_vel_y - STEP_MICRO) as i64, ..p2 },
            m,
            dir,
        );
    }
}

/// Once the next pixel down is blocked, the downward sub-step loop goes
/// nowhere: the position holds, and any remaining budget only stops the
/// vertical velocity.
proof fn lemma_run_y_down_blocked_stays(p: Player, m: TileMap)
    requires
        p.spec_down_blocked(m, p.pos_y + 1),
    ensures
        p.spec_run_y(m, 1).pos_y == p.pos_y,
        p.temp_vel_y >= STEP_MICRO ==> p.spec_run_y(m, 1).vel_y == 0,
        p.temp_vel_y < STEP_MICRO ==> p.spec_run_y(m, 1) == p,
    decreases p.temp_vel_y,
{
    if p.temp_vel_y >= STEP_MICRO {
        let p2 = p.spec_move_y_step(m, 1);
        let stepped = Player { temp_vel_y: (p2.temp_vel_y - STEP_MICRO) as i64, ..p2 };
        lemma_run_y_down_blocked_stays(stepped, m);
    }
}

/// A landing in full: with the next `d - 1` pixels below free, the pixel
/// after them blocked, and at least `d` whole pixels of budget in the
/// accumulator, the downward sub-step loop carries the actor exactly onto
/// the surface and stops its vertical velocity.
proof fn lemma_run_y_down_lands(p: Player, m: TileMap, d: int)
    requires
        1 <= d,
        -9_000_000_000_000 <= p.pos_y,
        p.pos_y + d <= 9_000_000_000_000,
        p.temp_vel_y >= d * (STEP_MICRO as int),
        forall|k: int| 1 <= k < d ==> !#[trigger] p.spec_down_blocked(m, p.pos_y + k),
        p.spec_down_blocked(m, p.pos_y + d),
    ensures
        p.spec_run_y(m, 1).pos_y == p.pos_y + d - 1,
        p.spec_run_y(m, 1).vel_y == 0,
    decreases p.temp_vel_y,
{
    let p2 = p.spec_move_y_step(m, 1);
    if d == 1 {
        assert(p2 == (Player { vel_y: 0i64, ..p }));
        let stepped = Player { temp_vel_y: (p2.temp_vel_y - STEP_MICRO) as i64, ..p2 };
        assert(stepped.spec_down_blocked(m, stepped.pos_y + 1));
        lemma_run_y_down_blocked_stays(stepped, m);
    } else {
        assert(!p.spec_down_blocked(m, p.pos_y + 1));
        assert(p2 == (Player { pos_y: (p.pos_y + 1) as i64, ..p }));
        let stepped = Player { temp_vel_y: (p2.temp_vel_y - STEP_MICRO) as i64, ..p2 };
        assert(stepped.temp_vel_y >= (d - 1) * (STEP_MICRO as int)) by (nonlinear_arith)
            requires
                stepped.temp_vel_y == p.temp_vel_y - STEP_MICRO && p.temp_vel_y >= d * (
                STEP_MICRO as int),
        ;
        assert forall|k: int| 1 <= k < d - 1 implies !#[trigger] stepped.spec_down_blocked(
            m,
            stepped.pos_y + k,
        ) by {
            assert(!p.spec_down_blocked(m, p.pos_y + (k + 1)));
        };
        assert(stepped.spec_down_blocked(m, stepped.pos_y + (d - 1)));
        lemma_run_y_down_lands(stepped, m, d - 1);
    }
}

/// Jump buffer through the whole frame: an airborne actor falling at the
/// vertical speed cap with a pending buffered request, whose rest
/// position lies `d - 1` free pixels below and on the ground, reaches
/// that position this frame and leaves it with the jump velocity — the
/// buffered request fires exactly on the landing frame.
pub proof fn lemma_buffered_jump_executes_on_landing(
    m: TileMap,
    p: Player,
    dt: u64,
    inp: InputFlags,
    d: int,
)
    requires
        m.wf(),
        p.wf(),
        !p.spec_probe_ground(m),
        p.jump_buffer_ms > 0,
        p.vel_y == MAX_SPEED_Y,
        p.vel_x == 0,
        inp == (InputFlags {
            move_left: false,
            move_right: false,
            jump_pressed: false,
            jump_released: false,
            jump_held: false,
            sprint: false,
        }),
        1 <= dt <= MAX_DT_MS,
        // the floor: d - 1 free pixels below, then terrain, with enough
        // fall budget in this frame to cover them
        1 <= d,
        d * (STEP_MICRO as int) <= p.temp_vel_y + (MAX_SPEED_Y as int) * (dt as int),
        forall|k: int| 1 <= k < d ==> !#[trigger] p.spec_down_blocked(m, p.pos_y + k),
        p.spec_down_blocked(m, p.pos_y + d),
        // the rest position sits on the ground
        (Player { pos_y: (p.pos_y + d - 1) as i64, ..p }).spec_probe_ground(m),
    ensures
        p.spec_update(m, dt, inp).vel_y == JUMP_VELOCITY,
        p.spec_update(m, dt, inp).pos_y == p.pos_y + d - 1,
        !p.spec_update(m, dt, inp).on_ground,
{
    let p1 = p.spec_with_ground(m);
    let p2 = p1.spec_hold_jump(inp, dt);
    let p3 = p2.spec_gravity(dt);
    assert(p3.vel_y == (MAX_SPEED_Y as int) + (GRAVITY_PER_MS as int) * (dt as int));
    let p4 = p3.spec_friction();
    assert(p4.vel_x == 0) by {
        vstd::arithmetic::div_mod::lemma_div_of0(
            if p3.on_ground {
                FRICTION_DEN_GROUND as int
            } else {
                FRICTION_DEN_AIR as int
            },
        );
        assert(0int * (FRICTION_NUM as int) == 0) by (nonlinear_arith);
    };
    let p5 = p4.spec_accel(inp.move_left, inp.move_right, inp.sprint, dt);
    let p6 = p5.spec_jump_input(inp);
    let p7 = p6.spec_cancel_jump_if(inp.jump_released);
    let p8 = p7.spec_clamp();
    assert(p8.vel_y == MAX_SPEED_Y && p8.vel_x == 0 && p8.pos_x == p.pos_x && p8.pos_y == p.pos_y
        && p8.temp_vel_y == p.temp_vel_y && p8.jump_buffer_ms == p.jump_buffer_ms && p8.size_x
        == p.size_x && p8.size_y == p.size_y);
    assert(spec_abs(p8.vel_x as int) * (dt as int) == 0) by (nonlinear_arith)
        requires
            p8.vel_x == 0,
    ;
    let pa = Player {
        temp_vel_x: (p8.temp_vel_x + spec_abs(p8.vel_x as int) * (dt as int)) as i64,
        temp_vel_y: (p8.temp_vel_y + spec_abs(p8.vel_y as int) * (dt as int)) as i64,
        ..p8
    };
    assert(spec_abs(p8.vel_y as int) * (dt as int) == (MAX_SPEED_Y as int) * (dt as int));
    assert(0 <= (MAX_SPEED_Y as int) * (dt as int) <= 600_000_000) by (nonlinear_arith)
        requires
            1 <= dt <= 1000,
    ;
    assert(spec_dir(p8.vel_x as int) == 0 && spec_dir(p8.vel_y as int) == 1);
    let pb = pa.spec_run_x(m, 0);
    assert(pb == pa);
    assert forall|k: int| 1 <= k < d implies !#[trigger] pa.spec_down_blocked(
        m,
        pa.pos_y + k,
    ) by {
        assert(!p.spec_down_blocked(m, p.pos_y + k));
    };
    assert(pa.spec_down_blocked(m, pa.pos_y + d));
    assert(d <= 701) by (nonlinear_arith)
        requires
            d * 1_000_000 <= pa.temp_vel_y && pa.temp_vel_y <= 700_000_000,
    ;
    lemma_run_y_down_lands(pa, m, d);
    lemma_run_y_preserves(pa, m, 1);
    let p9 = p8.spec_move_object(m, dt);
    assert(p9.pos_y == p.pos_y + d - 1 && p9.vel_y == 0 && p9.vel_x == 0 && p9.pos_x == p.pos_x
        && p9.jump_buffer_ms == p.jump_buffer_ms);
    let p10 = p9.spec_epsilon();
    assert(p10.spec_probe_ground(m) == (Player {
        pos_y: (p.pos_y + d - 1) as i64,
        ..p
    }).spec_probe_ground(m));
    let p11 = p10.spec_land_buffer(m);
    assert(p11.vel_y == JUMP_VELOCITY && !p11.on_ground && p11.pos_y == p.pos_y + d - 1);
    let p12 = p11.spec_timers(dt);
    assert(p12.vel_y == JUMP_VELOCITY && !p12.on_ground && p12.pos_y == p.pos_y + d - 1);
}

} // verus!
