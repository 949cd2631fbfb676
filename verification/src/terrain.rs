//! One polymorphic terrain capability over the two terrain
//! representations: the tile grid and the precomputed convex polygon
//! soup.  A level picks its variant at load time; the per-frame actor
//! contract is the same either way, so the two resolvers are one API
//! rather than duplicated types.
//!
//! The polygon variant runs the identical velocity phases (variable
//! jump, gravity, friction, run input, the jump decision, cancel, caps)
//! and then resolves motion with the separating-axis narrow phase
//! instead of the grid sweep; its ground probe is the grounded answer of
//! that resolution, carried in the actor's flag from frame to frame.

use crate::player::{InputFlags, CollisionFlags, Player, JUMP_HOLD_MS, COYOTE_MS,
    JUMP_VELOCITY, MAX_DT_MS};
use crate::polygon::{resolve, spec_resolve, PolyPoint, Polygon};
use crate::tilemap::TileMap;
use vstd::prelude::*;

verus! {

/// The terrain of a level: a tile grid, or a list of convex polygons
/// derived once at load time.
pub enum Terrain {
    Grid(TileMap),
    Polygons(Vec<Polygon>),
}

/// True when `a` is exactly the actor's bounding box as a polygon: the
/// four corners in ring order, positioned by the offset.
pub open spec fn spec_box_poly(p: Player, a: Polygon) -> bool {
    &&& a.off_x == p.pos_x
    &&& a.off_y == p.pos_y
    &&& a.verts@.len() == 4
    &&& a.verts@[0] == (PolyPoint { x: 0i64, y: 0i64 })
    &&& a.verts@[1] == (PolyPoint { x: p.size_x, y: 0i64 })
    &&& a.verts@[2] == (PolyPoint { x: p.size_x, y: p.size_y })
    &&& a.verts@[3] == (PolyPoint { x: 0i64, y: p.size_y })
}

/// The complete per-frame transition against polygon terrain: the same
/// velocity phases as the grid pipeline, the separating-axis resolution
/// in place of the grid sweep, then drift control, buffered-jump
/// consumption on grounding, the timers, and the contact flag the
/// narrow phase can observe (the ground contact).
pub open spec fn spec_update_polygons(
    p: Player,
    a: Polygon,
    terrain: Seq<Polygon>,
    dt: u64,
    inp: InputFlags,
) -> Player {
    let p2 = p.spec_hold_jump(inp, dt);
    let p3 = p2.spec_gravity(dt);
    let p4 = p3.spec_friction();
    let p5 = p4.spec_accel(inp.move_left, inp.move_right, inp.sprint, dt);
    let p6 = p5.spec_jump_input(inp);
    let p7 = p6.spec_cancel_jump_if(inp.jump_released);
    let p8 = p7.spec_clamp();
    let r = spec_resolve(a, p8.vel_x as int, p8.vel_y as int, terrain, dt);
    let p9 = Player {
        pos_x: (p8.pos_x + r.0) as i64,
        pos_y: (p8.pos_y + r.1) as i64,
        vel_x: r.2 as i64,
        vel_y: r.3 as i64,
        on_ground: r.4,
        ..p8
    };
    let p10 = p9.spec_epsilon();
    let p11 = if r.4 && p10.jump_buffer_ms > 0 && p10.vel_y >= 0 {
        p10.spec_do_jump()
    } else {
        p10
    };
    let p12 = p11.spec_timers(dt);
    Player {
        flags: (CollisionFlags {
            left_wall: false,
            right_wall: false,
            top_wall: false,
            bottom_wall: r.4,
            left_slope: false,
            right_slope: false,
        }),
        ..p12
    }
}

/// Advances the actor by `dt` milliseconds against polygon terrain.
/// `actor_shape` must be the actor's bounding box as a polygon at its
/// current position (`Polygon::from_rect` builds exactly that); the
/// caller rebuilds it each frame as the position moves.
#[verifier::rlimit(50)]
pub fn update_with_polygons(
    player: &mut Player,
    actor_shape: &Polygon,
    terrain: &Vec<Polygon>,
    dt: u64,
    input: InputFlags,
)
    requires
        old(player).wf_pre(),
        actor_shape.wf(),
        spec_box_poly(*old(player), *actor_shape),
        forall|i: int| 0 <= i < terrain@.len() ==> (#[trigger] terrain@[i]).wf(),
        terrain@.len() <= 1000,
        dt <= MAX_DT_MS,
    ensures
        *final(player) == spec_update_polygons(
            *old(player),
            *actor_shape,
            terrain@,
            dt,
            input,
        ),
        final(player).size_x == old(player).size_x,
        final(player).size_y == old(player).size_y,
{
    let ghost ts = terrain@;
    player.apply_hold_jump(input, dt);
    player.apply_gravity(dt);
    player.apply_friction();
    player.move_horizontal(input.move_left, input.move_right, input.sprint, dt);
    player.apply_jump_input(input);
    let ghost p6 = *player;
    if input.jump_released {
        player.cancel_jump();
    }
    assert(*player == p6.spec_cancel_jump_if(input.jump_released));
    player.clamp_speed();
    let ghost p8 = *player;
    let r = resolve(actor_shape, player.vel_x, player.vel_y, terrain, dt);
    player.pos_x = player.pos_x + r.0;
    player.pos_y = player.pos_y + r.1;
    player.vel_x = r.2;
    player.vel_y = r.3;
    player.on_ground = r.4;
    let ghost p9 = *player;
    assert(p9 == (Player {
        pos_x: (p8.pos_x + spec_resolve(*actor_shape, p8.vel_x as int, p8.vel_y as int, ts, dt).0) as i64,
        pos_y: (p8.pos_y + spec_resolve(*actor_shape, p8.vel_x as int, p8.vel_y as int, ts, dt).1) as i64,
        vel_x: spec_resolve(*actor_shape, p8.vel_x as int, p8.vel_y as int, ts, dt).2 as i64,
        vel_y: spec_resolve(*actor_shape, p8.vel_x as int, p8.vel_y as int, ts, dt).3 as i64,
        on_ground: spec_resolve(*actor_shape, p8.vel_x as int, p8.vel_y as int, ts, dt).4,
        ..p8
    }));
    player.apply_epsilon();
    if player.on_ground && player.jump_buffer_ms > 0 && player.vel_y >= 0 {
        player.vel_y = JUMP_VELOCITY;
        player.on_ground = false;
        player.jump_hold_ms = JUMP_HOLD_MS;
        player.air_time_ms = COYOTE_MS + 1;
        player.jump_buffer_ms = 0;
    }
    player.apply_timers(dt);
    player.flags = CollisionFlags {
        left_wall: false,
        right_wall: false,
        top_wall: false,
        bottom_wall: r.4,
        left_slope: false,
        right_slope: false,
    };
}

impl Terrain {
    /// Well-formedness of the chosen representation.
    pub open spec fn wf(self) -> bool {
        match self {
            Terrain::Grid(m) => m.wf(),
            Terrain::Polygons(ps) => ps@.len() <= 1000 && forall|i: int|
                0 <= i < ps@.len() ==> (#[trigger] ps@[i]).wf(),
        }
    }

    /// Advances the actor one frame against whichever terrain this level
    /// carries: the grid sweep for `Grid`, the separating-axis narrow
    /// phase for `Polygons`.
    pub fn advance(&self, player: &mut Player, dt: u64, input: InputFlags)
        requires
            self.wf(),
            old(player).wf_pre(),
            dt <= MAX_DT_MS,
            self matches Terrain::Grid(m) ==> old(player).spec_clear(*m),
            self matches Terrain::Polygons(ps) ==> -1_000_000 <= old(player).pos_x <= 1_000_000
                && -1_000_000 <= old(player).pos_y <= 1_000_000,
        ensures
            self matches Terrain::Grid(m) ==> *final(player) == old(player).spec_update(
                *m,
                dt,
                input,
            ) && final(player).wf() && final(player).spec_clear(*m),
            self matches Terrain::Polygons(ps) ==> exists|a: Polygon|
                #[trigger] spec_box_poly(*old(player), a) && a.wf() && *final(player)
                    == spec_update_polygons(*old(player), a, ps@, dt, input),
    {
        match self {
            Terrain::Grid(tilemap) => {
                player.update(tilemap, dt, input);
            },
            Terrain::Polygons(polys) => {
                let shape = Polygon::from_rect(
                    player.pos_x,
                    player.pos_y,
                    player.size_x,
                    player.size_y,
                );
                let ghost a = shape;
                update_with_polygons(player, &shape, polys, dt, input);
                assert(spec_box_poly(*old(player), a));
            },
        }
    }
}

} // verus!
