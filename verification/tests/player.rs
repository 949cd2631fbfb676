use faba::player::{InputFlags, Player, JUMP_VELOCITY};
use faba::tilemap::{TileMap, TileType};

fn flat_floor_level() -> TileMap {
    // the example level: a 320x240 screen of 16-pixel cells with a ground row
    let mut m = TileMap::new(20, 15);
    for x in 0..20 {
        m.set_tile(x, 14, TileType::Solid);
    }
    m
}

fn press_jump() -> InputFlags {
    InputFlags {
        jump_pressed: true,
        ..InputFlags::none()
    }
}

// Scenario: grid 20x15, cell 16, ground row 14 all Solid, actor of size
// (10, 20) starting at (50, 80) under gravity alone converges to
// pos_y == 14 * 16 - 20 == 204 with grounded set and velocity (0, 0).
#[test]
fn drop_converges_onto_floor() {
    let m = flat_floor_level();
    let mut p = Player::new(50, 80, 10, 20);
    for _ in 0..1000 {
        p.update(&m, 16, InputFlags::none());
    }
    assert_eq!(p.pos_x, 50);
    assert_eq!(p.pos_y, 204);
    assert!(p.on_ground);
    assert_eq!(p.vel_x, 0);
    assert_eq!(p.vel_y, 0);
    assert!(p.flags.bottom_wall);
}

// Grounded round-trip: the dropped actor reaches grounded within a bounded
// number of frames, and from then on its vertical velocity is zero on
// every frame while no jump input occurs.
#[test]
fn grounded_within_bound_and_vertical_velocity_stays_zero() {
    let m = flat_floor_level();
    let mut p = Player::new(50, 80, 10, 20);
    let mut frames_to_ground = 0;
    while !p.on_ground {
        p.update(&m, 16, InputFlags::none());
        frames_to_ground += 1;
        assert!(frames_to_ground < 500, "actor never landed");
    }
    for _ in 0..100 {
        p.update(&m, 16, InputFlags::none());
        assert_eq!(p.vel_y, 0);
        assert!(p.on_ground);
    }
}

// Solid stop invariant: an actor fast enough to cross many cells in one
// frame is still stopped exactly at the wall by the one-pixel sub-steps.
#[test]
fn high_speed_run_stops_at_wall_without_tunneling() {
    let mut m = flat_floor_level();
    for y in 0..15 {
        m.set_tile(10, y, TileType::Solid);
    }
    let mut p = Player::new(50, 216, 8, 8);
    p.vel_x = 1_000_000;
    p.update(&m, 1000, InputFlags::none());
    // the wall column starts at pixel 160; the 8-wide box stops at 152
    assert_eq!(p.pos_x, 152);
    assert_eq!(p.vel_x, 0);
    assert_eq!(p.temp_vel_x, 0);
    assert!(p.flags.right_wall);
    assert!(p.on_ground);
}

// Out-of-bounds closure: the grid edge is solid, so an actor can never
// leave the level however long and hard it pushes.
#[test]
fn actor_cannot_leave_grid() {
    let m = flat_floor_level();
    let mut p = Player::new(50, 216, 8, 8);
    p.vel_x = -1_000_000;
    p.update(&m, 1000, InputFlags::none());
    assert_eq!(p.pos_x, 0);
    assert_eq!(p.vel_x, 0);
    assert!(p.flags.left_wall);
    for _ in 0..50 {
        let sprint_left = InputFlags {
            move_left: true,
            sprint: true,
            ..InputFlags::none()
        };
        p.update(&m, 16, sprint_left);
        assert!(p.pos_x >= 0);
        assert!(p.pos_y >= 0);
        assert!(p.pos_x + p.size_x <= 20 * 16);
        assert!(p.pos_y + p.size_y <= 15 * 16);
    }
    assert_eq!(p.pos_x, 0);
}

fn walk_off_platform() -> (TileMap, Player) {
    // a platform on row 10, columns 2..7, as in the example level
    let mut m = TileMap::new(20, 15);
    for x in 2..7 {
        m.set_tile(x, 10, TileType::Solid);
    }
    let mut p = Player::new(96, 152, 8, 8);
    // settle onto the platform first
    for _ in 0..10 {
        p.update(&m, 10, InputFlags::none());
    }
    assert!(p.on_ground);
    // walk right until ground contact is lost
    let walk = InputFlags {
        move_right: true,
        ..InputFlags::none()
    };
    let mut frames = 0;
    while p.on_ground {
        p.update(&m, 10, walk);
        frames += 1;
        assert!(frames < 500, "actor never walked off the platform");
    }
    assert_eq!(p.air_time_ms, 10);
    (m, p)
}

// Coyote time, honored side: a jump issued exactly 0.1 s after walking
// off a ledge still executes, setting the vertical velocity to the jump
// force.
#[test]
fn coyote_jump_within_window() {
    let (m, mut p) = walk_off_platform();
    for _ in 0..9 {
        p.update(&m, 10, InputFlags::none());
    }
    assert_eq!(p.air_time_ms, 100);
    p.update(&m, 10, press_jump());
    assert_eq!(p.vel_y, JUMP_VELOCITY);
    assert!(!p.on_ground);
}

// Coyote time, expired side: a jump issued 0.11 s after losing contact
// does not execute; the request is only buffered.
#[test]
fn coyote_jump_after_window_does_not_fire() {
    let (m, mut p) = walk_off_platform();
    for _ in 0..10 {
        p.update(&m, 10, InputFlags::none());
    }
    assert_eq!(p.air_time_ms, 110);
    p.update(&m, 10, press_jump());
    assert!(p.vel_y >= 0);
    // the press went into the jump buffer (already drained by one frame)
    assert_eq!(p.jump_buffer_ms, 90);
}

// Jump buffer: a request issued 0.04 s before touching down (inside the
// 0.1 s window) executes the jump exactly on the landing frame.
#[test]
fn buffered_jump_fires_on_landing_frame() {
    let m = flat_floor_level();
    let mut p = Player::new(50, 186, 8, 8);
    p.vel_y = 600_000;
    // airborne press, out of coyote range: buffered
    p.update(&m, 10, press_jump());
    assert_eq!(p.pos_y, 192);
    assert!(p.vel_y > 0);
    assert_eq!(p.jump_buffer_ms, 90);
    // three more frames of falling: 198, 204, 210
    for _ in 0..3 {
        p.update(&m, 10, InputFlags::none());
    }
    assert_eq!(p.pos_y, 210);
    assert!(p.vel_y > 0);
    // the landing frame: the actor reaches its rest height and the
    // buffered request fires the jump that same frame
    p.update(&m, 10, InputFlags::none());
    assert_eq!(p.pos_y, 216);
    assert_eq!(p.vel_y, JUMP_VELOCITY);
    assert!(!p.on_ground);
    assert_eq!(p.jump_buffer_ms, 0);
}

// An expired buffer does not fire: landing later than the window leaves
// the actor simply grounded.
#[test]
fn expired_buffer_does_not_fire() {
    let m = flat_floor_level();
    let mut p = Player::new(50, 100, 8, 8);
    // slow fall from high up: the press is long forgotten by touchdown
    p.update(&m, 10, press_jump());
    let mut frames = 0;
    while !p.on_ground {
        p.update(&m, 16, InputFlags::none());
        frames += 1;
        assert!(frames < 2000, "actor never landed");
    }
    assert_eq!(p.pos_y, 216);
    // the long-expired buffer stays quiet: the actor just sits there
    for _ in 0..50 {
        p.update(&m, 16, InputFlags::none());
        assert_eq!(p.vel_y, 0);
        assert_eq!(p.pos_y, 216);
        assert!(p.on_ground);
    }
}

// Variable jump height: releasing the button halves the remaining upward
// velocity.
#[test]
fn jump_cancel_halves_upward_velocity() {
    let mut p = Player::new(0, 0, 8, 8);
    p.vel_y = -200_000;
    p.jump_hold_ms = 50;
    p.cancel_jump();
    assert_eq!(p.vel_y, -100_000);
    assert_eq!(p.jump_hold_ms, 0);
    // a downward velocity is untouched
    let mut q = Player::new(0, 0, 8, 8);
    q.vel_y = 40_000;
    q.cancel_jump();
    assert_eq!(q.vel_y, 40_000);
}

// Direct grounded jump through the public API.
#[test]
fn grounded_jump_sets_jump_velocity() {
    let m = flat_floor_level();
    let mut p = Player::new(50, 80, 10, 20);
    for _ in 0..1000 {
        p.update(&m, 16, InputFlags::none());
    }
    assert!(p.on_ground);
    p.jump();
    assert_eq!(p.vel_y, JUMP_VELOCITY);
    assert!(!p.on_ground);
    // airborne, the same call does nothing
    let before = p.vel_y;
    p.jump();
    assert_eq!(p.vel_y, before);
}

// Friction: with no input, horizontal velocity decays multiplicatively to
// zero on the ground.
#[test]
fn friction_decays_run_to_rest() {
    let m = flat_floor_level();
    let mut p = Player::new(50, 216, 8, 8);
    p.vel_x = 115_000;
    p.update(&m, 10, InputFlags::none());
    assert_eq!(p.vel_x, 100_000);
    for _ in 0..200 {
        p.update(&m, 10, InputFlags::none());
    }
    assert_eq!(p.vel_x, 0);
}

// Slopes are caught by the vertical clamp: a falling actor comes to rest
// exactly on the slope's surface line and counts as grounded.
#[test]
fn falling_actor_rests_on_slope_surface() {
    let mut m = TileMap::new(20, 15);
    for x in 0..20 {
        m.set_tile(x, 14, TileType::Solid);
    }
    m.set_tile(5, 13, TileType::SlopeUpRight);
    let mut p = Player::new(80, 150, 8, 8);
    for _ in 0..1000 {
        p.update(&m, 16, InputFlags::none());
    }
    // the left bottom corner sits one pixel above the surface at local 0
    assert_eq!(p.pos_y, 200);
    assert!(p.on_ground);
    assert_eq!(p.vel_y, 0);
    assert!(p.flags.right_slope);
}

// Walking into a slope's footprint lifts the actor to the surface rather
// than stopping it: slopes never block the horizontal sweep.
#[test]
fn walking_up_a_slope_climbs_it() {
    let mut m = TileMap::new(20, 15);
    for x in 0..20 {
        m.set_tile(x, 14, TileType::Solid);
    }
    m.set_tile(5, 13, TileType::SlopeUpRight);
    let mut p = Player::new(112, 216, 8, 8);
    let walk = InputFlags {
        move_left: true,
        sprint: true,
        ..InputFlags::none()
    };
    let mut frames = 0;
    while p.pos_x > 84 {
        p.update(&m, 10, walk);
        frames += 1;
        assert!(frames < 2000, "actor never reached the slope");
    }
    // at x = 84 the surface under the left bottom corner is at local
    // offset 4, so the box rests with its bottom one pixel above it
    assert_eq!(p.pos_x, 84);
    assert_eq!(p.pos_y, 204);
    assert!(p.on_ground);
    assert!(p.flags.right_slope);
}

// The settle helper drops a hovering actor straight onto the nearest
// surface within one cell.
#[test]
fn step_down_settles_onto_floor() {
    let m = flat_floor_level();
    let mut p = Player::new(50, 210, 8, 8);
    p.try_step_down_slope(&m);
    assert_eq!(p.pos_y, 216);
    // from a full cell above, the search is capped at one cell
    let mut q = Player::new(50, 200, 8, 8);
    q.try_step_down_slope(&m);
    assert_eq!(q.pos_y, 216);
    // an actor already resting does not move
    let mut r = Player::new(50, 216, 8, 8);
    r.try_step_down_slope(&m);
    assert_eq!(r.pos_y, 216);
}

// The step-up search succeeds when the blocking solid pokes at most half
// a cell into the box: the actor is lifted onto it in one sub-step.
#[test]
fn step_up_clears_shallow_ledge() {
    let mut m = TileMap::new(20, 15);
    m.set_tile(5, 13, TileType::Solid);
    // one pixel of the box's bottom overlaps the ledge cell's top
    let mut p = Player::new(96, 201, 8, 8);
    let moved = p.try_step_up_slope(&m, -1);
    assert!(moved);
    assert_eq!(p.pos_x, 95);
    assert_eq!(p.pos_y, 200);
}

// A full-height solid cell exceeds the half-cell step-up budget: walking
// into it is a wall hit, not a climb.
#[test]
fn full_height_ledge_blocks_walk() {
    let mut m = TileMap::new(20, 15);
    for x in 0..20 {
        m.set_tile(x, 14, TileType::Solid);
    }
    // a knee-high ledge: one solid cell on the ground at column 7
    m.set_tile(7, 13, TileType::Solid);
    let mut p = Player::new(104, 216, 8, 8);
    // walking right is blocked by the ledge cell (16 high: beyond the
    // step-up search), so the actor stops against it
    let walk = InputFlags {
        move_right: true,
        sprint: true,
        ..InputFlags::none()
    };
    for _ in 0..200 {
        p.update(&m, 10, walk);
    }
    assert_eq!(p.pos_x, 112 - 8);
    assert!(p.flags.right_wall);
}
