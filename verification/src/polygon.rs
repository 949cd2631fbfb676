//! The polygon narrow-phase variant of the terrain contract: contact
//! against a list of convex polygons resolved by separating-axis testing
//! and per-axis push-out, instead of grid stepping.
//!
//! A polygon is an ordered ring of integer vertices plus a world-space
//! offset; terrain polygons are built once at load time and immutable.
//! Each frame the actor's position is integrated on the X axis alone and
//! tested against every terrain polygon: an overlap (no separating axis
//! among the edge normals of either polygon) is resolved by the smaller of
//! the two X push-outs, zeroing the X velocity when the push opposes the
//! motion.  The Y axis is then resolved the same way; an upward push sets
//! the grounded flag and stops downward motion, a downward push stops
//! upward motion.  Pushes apply cumulatively in polygon iteration order.
//!
//! Cost is linear in the number of terrain polygons per axis per frame;
//! broad-phase culling is a deliberate extension point, not part of this
//! core.

use vstd::prelude::*;

verus! {

/// One polygon vertex, in pixels relative to the polygon's offset.
#[derive(Clone, Copy, Debug, PartialEq, Eq, Structural)]
pub struct PolyPoint {
    pub x: i64,
    pub y: i64,
}

/// A convex polygon: an ordered vertex ring and a world-space offset.
pub struct Polygon {
    pub verts: Vec<PolyPoint>,
    pub off_x: i64,
    pub off_y: i64,
}

/// The dot product of a translated vertex with an axis.
pub open spec fn spec_dot(px: int, py: int, ax: int, ay: int) -> int {
    px * ax + py * ay
}

impl Polygon {
    /// Structural invariant: at least three vertices (anything smaller is
    /// degenerate and rejected at build time), and coordinates small
    /// enough that every projection below stays far from overflow.
    pub open spec fn wf(self) -> bool {
        &&& 3 <= self.verts@.len() <= 10_000
        &&& -1_000_000 <= self.off_x <= 1_000_000
        &&& -1_000_000 <= self.off_y <= 1_000_000
        &&& forall|i: int|
            0 <= i < self.verts@.len() ==> -1_000_000 <= (#[trigger] self.verts@[i]).x
                <= 1_000_000 && -1_000_000 <= self.verts@[i].y <= 1_000_000
    }

    /// World-space x of vertex `i`, with the polygon shifted by `dx`.
    pub open spec fn spec_wx(self, dx: int, i: int) -> int {
        self.verts@[i].x + self.off_x + dx
    }

    /// World-space y of vertex `i`, with the polygon shifted by `dy`.
    pub open spec fn spec_wy(self, dy: int, i: int) -> int {
        self.verts@[i].y + self.off_y + dy
    }

    /// Smallest dot product of the first `n` vertices (shifted by
    /// `(dx, dy)`) with the axis.
    pub open spec fn spec_min_proj(self, dx: int, dy: int, ax: int, ay: int, n: int) -> int
        decreases n,
    {
        if n <= 1 {
            spec_dot(self.spec_wx(dx, 0), self.spec_wy(dy, 0), ax, ay)
        } else {
            let prev = self.spec_min_proj(dx, dy, ax, ay, n - 1);
            let cur = spec_dot(self.spec_wx(dx, n - 1), self.spec_wy(dy, n - 1), ax, ay);
            if cur < prev {
                cur
            } else {
                prev
            }
        }
    }

    /// Largest dot product of the first `n` vertices (shifted by
    /// `(dx, dy)`) with the axis.
    pub open spec fn spec_max_proj(self, dx: int, dy: int, ax: int, ay: int, n: int) -> int
        decreases n,
    {
        if n <= 1 {
            spec_dot(self.spec_wx(dx, 0), self.spec_wy(dy, 0), ax, ay)
        } else {
            let prev = self.spec_max_proj(dx, dy, ax, ay, n - 1);
            let cur = spec_dot(self.spec_wx(dx, n - 1), self.spec_wy(dy, n - 1), ax, ay);
            if cur > prev {
                cur
            } else {
                prev
            }
        }
    }

    /// The index after `i` around the vertex ring.
    pub open spec fn spec_next(self, i: int) -> int {
        if i + 1 == self.verts@.len() {
            0
        } else {
            i + 1
        }
    }

    /// X component of the outward-facing normal of edge `i` (the edge
    /// from vertex `i` to the next vertex); offsets cancel, so it is
    /// computed from the relative vertices alone.
    pub open spec fn spec_normal_x(self, i: int) -> int {
        -(self.verts@[self.spec_next(i)].y - self.verts@[i].y)
    }

    /// Y component of the normal of edge `i`.
    pub open spec fn spec_normal_y(self, i: int) -> int {
        self.verts@[self.spec_next(i)].x - self.verts@[i].x
    }

    /// Builds a polygon from a vertex ring and a world offset, rejecting
    /// a degenerate ring of fewer than three vertices.
    pub fn new(verts: Vec<PolyPoint>, off_x: i64, off_y: i64) -> (r: Option<Polygon>)
        requires
            verts@.len() <= 10_000,
            -1_000_000 <= off_x <= 1_000_000,
            -1_000_000 <= off_y <= 1_000_000,
            forall|i: int|
                0 <= i < verts@.len() ==> -1_000_000 <= (#[trigger] verts@[i]).x <= 1_000_000
                    && -1_000_000 <= verts@[i].y <= 1_000_000,
        ensures
            verts@.len() >= 3 ==> r == Some(Polygon { verts, off_x, off_y }) && r.unwrap().wf(),
            verts@.len() < 3 ==> r is None,
    {
        if verts.len() < 3 {
            None
        } else {
            Some(Polygon { verts, off_x, off_y })
        }
    }

    /// The axis-aligned rectangle with top-left corner `(x, y)` as a
    /// polygon: its four corners in clockwise ring order, with the
    /// world position carried by the offset.
    pub fn from_rect(x: i64, y: i64, w: i64, h: i64) -> (r: Polygon)
        requires
            0 < w <= 1_000_000,
            0 < h <= 1_000_000,
            -1_000_000 <= x <= 1_000_000,
            -1_000_000 <= y <= 1_000_000,
        ensures
            r.wf(),
            r.verts@.len() == 4,
            r.off_x == x,
            r.off_y == y,
            r.verts@[0] == (PolyPoint { x: 0i64, y: 0i64 }),
            r.verts@[1] == (PolyPoint { x: w, y: 0i64 }),
            r.verts@[2] == (PolyPoint { x: w, y: h }),
            r.verts@[3] == (PolyPoint { x: 0i64, y: h }),
    {
        let mut verts: Vec<PolyPoint> = Vec::new();
        verts.push(PolyPoint { x: 0, y: 0 });
        verts.push(PolyPoint { x: w, y: 0 });
        verts.push(PolyPoint { x: w, y: h });
        verts.push(PolyPoint { x: 0, y: h });
        Polygon { verts, off_x: x, off_y: y }
    }

    /// The projection interval of the whole polygon, shifted by
    /// `(dx, dy)`, onto an axis.
    pub fn project(&self, dx: i64, dy: i64, ax: i64, ay: i64) -> (r: (i64, i64))
        requires
            self.wf(),
            -100_000_000_000 <= dx <= 100_000_000_000,
            -100_000_000_000 <= dy <= 100_000_000_000,
            -4_000_000 <= ax <= 4_000_000,
            -4_000_000 <= ay <= 4_000_000,
        ensures
            r.0 == self.spec_min_proj(dx as int, dy as int, ax as int, ay as int, self.verts@.len() as int),
            r.1 == self.spec_max_proj(dx as int, dy as int, ax as int, ay as int, self.verts@.len() as int),
    {
        let v0 = self.verts[0];
        proof {
            lemma_dot_bound(
                v0.x as int + self.off_x as int + dx as int,
                v0.y as int + self.off_y as int + dy as int,
                ax as int,
                ay as int,
            );
        }
        let mut lo: i64 = (v0.x + self.off_x + dx) * ax + (v0.y + self.off_y + dy) * ay;
        let mut hi: i64 = lo;
        let mut i: usize = 1;
        while i < self.verts.len()
            invariant
                self.wf(),
                1 <= i <= self.verts@.len(),
                -100_000_000_000 <= dx <= 100_000_000_000,
                -100_000_000_000 <= dy <= 100_000_000_000,
                -4_000_000 <= ax <= 4_000_000,
                -4_000_000 <= ay <= 4_000_000,
                lo == self.spec_min_proj(dx as int, dy as int, ax as int, ay as int, i as int),
                hi == self.spec_max_proj(dx as int, dy as int, ax as int, ay as int, i as int),
            decreases self.verts@.len() - i,
        {
            let v = self.verts[i];
            proof {
                lemma_dot_bound(
                    v.x as int + self.off_x as int + dx as int,
                    v.y as int + self.off_y as int + dy as int,
                    ax as int,
                    ay as int,
                );
            }
            let d: i64 = (v.x + self.off_x + dx) * ax + (v.y + self.off_y + dy) * ay;
            if d < lo {
                lo = d;
            }
            if d > hi {
                hi = d;
            }
            i = i + 1;
        }
        (lo, hi)
    }

    /// The normal of edge `i`, from the relative vertices.
    pub fn edge_normal(&self, i: usize) -> (n: (i64, i64))
        requires
            self.wf(),
            i < self.verts@.len(),
        ensures
            n.0 == self.spec_normal_x(i as int),
            n.1 == self.spec_normal_y(i as int),
            -2_000_000 <= n.0 <= 2_000_000,
            -2_000_000 <= n.1 <= 2_000_000,
    {
        let j: usize = if i + 1 == self.verts.len() {
            0
        } else {
            i + 1
        };
        let a = self.verts[i];
        let b = self.verts[j];
        (-(b.y - a.y), b.x - a.x)
    }
}

/// A dot product of a bounded point with a bounded axis stays well inside
/// the 64-bit range.
proof fn lemma_dot_bound(px: int, py: int, ax: int, ay: int)
    requires
        -200_000_000_000 <= px <= 200_000_000_000,
        -200_000_000_000 <= py <= 200_000_000_000,
        -4_000_000 <= ax <= 4_000_000,
        -4_000_000 <= ay <= 4_000_000,
    ensures
        -1_600_000_000_000_000_000 <= spec_dot(px, py, ax, ay) <= 1_600_000_000_000_000_000,
        -800_000_000_000_000_000 <= px * ax <= 800_000_000_000_000_000,
        -800_000_000_000_000_000 <= py * ay <= 800_000_000_000_000_000,
{
    assert(-800_000_000_000_000_000 <= px * ax <= 800_000_000_000_000_000) by (nonlinear_arith)
        requires
            -200_000_000_000 <= px <= 200_000_000_000 && -4_000_000 <= ax <= 4_000_000,
    ;
    assert(-800_000_000_000_000_000 <= py * ay <= 800_000_000_000_000_000) by (nonlinear_arith)
        requires
            -200_000_000_000 <= py <= 200_000_000_000 && -4_000_000 <= ay <= 4_000_000,
    ;
}

/// Whether the projections of `a` (shifted by `(adx, ady)`) and `b` onto
/// the given axis are strictly apart.
pub open spec fn spec_axis_separates(
    a: Polygon,
    adx: int,
    ady: int,
    b: Polygon,
    ax: int,
    ay: int,
) -> bool {
    let an = a.verts@.len() as int;
    let bn = b.verts@.len() as int;
    ||| a.spec_max_proj(adx, ady, ax, ay, an) < b.spec_min_proj(0, 0, ax, ay, bn)
    ||| b.spec_max_proj(0, 0, ax, ay, bn) < a.spec_min_proj(adx, ady, ax, ay, an)
}

/// The separating-axis test: some edge normal of either polygon strictly
/// separates the two projection intervals.
pub open spec fn spec_has_separating_axis(a: Polygon, adx: int, ady: int, b: Polygon) -> bool {
    ||| exists|i: int|
        0 <= i < a.verts@.len() && #[trigger] spec_axis_separates(
            a,
            adx,
            ady,
            b,
            a.spec_normal_x(i),
            a.spec_normal_y(i),
        )
    ||| exists|i: int|
        0 <= i < b.verts@.len() && #[trigger] spec_axis_separates(
            a,
            adx,
            ady,
            b,
            b.spec_normal_x(i),
            b.spec_normal_y(i),
        )
}

/// Overlap as the separating-axis test reports it: no edge normal of
/// either polygon separates the two (touching intervals count as
/// contact).
pub open spec fn spec_overlap(a: Polygon, adx: int, ady: int, b: Polygon) -> bool {
    !spec_has_separating_axis(a, adx, ady, b)
}

/// Runs the separating-axis test on `a` (shifted by `(adx, ady)`) and
/// `b`.
pub fn polygons_overlap(a: &Polygon, adx: i64, ady: i64, b: &Polygon) -> (r: bool)
    requires
        a.wf(),
        b.wf(),
        -100_000_000_000 <= adx <= 100_000_000_000,
        -100_000_000_000 <= ady <= 100_000_000_000,
    ensures
        r == spec_overlap(*a, adx as int, ady as int, *b),
{
    let mut i: usize = 0;
    while i < a.verts.len()
        invariant
            a.wf(),
            b.wf(),
            -100_000_000_000 <= adx <= 100_000_000_000,
            -100_000_000_000 <= ady <= 100_000_000_000,
            i <= a.verts@.len(),
            forall|k: int|
                0 <= k < i ==> !#[trigger] spec_axis_separates(
                    *a,
                    adx as int,
                    ady as int,
                    *b,
                    a.spec_normal_x(k),
                    a.spec_normal_y(k),
                ),
        decreases a.verts@.len() - i,
    {
        let n = a.edge_normal(i);
        let pa = a.project(adx, ady, n.0, n.1);
        let pb = b.project(0, 0, n.0, n.1);
        if pa.1 < pb.0 || pb.1 < pa.0 {
            assert(spec_axis_separates(
                *a,
                adx as int,
                ady as int,
                *b,
                a.spec_normal_x(i as int),
                a.spec_normal_y(i as int),
            ));
            return false;
        }
        i = i + 1;
    }
    let mut j: usize = 0;
    while j < b.verts.len()
        invariant
            a.wf(),
            b.wf(),
            -100_000_000_000 <= adx <= 100_000_000_000,
            -100_000_000_000 <= ady <= 100_000_000_000,
            j <= b.verts@.len(),
            forall|k: int|
                0 <= k < a.verts@.len() ==> !#[trigger] spec_axis_separates(
                    *a,
                    adx as int,
                    ady as int,
                    *b,
                    a.spec_normal_x(k),
                    a.spec_normal_y(k),
                ),
            forall|k: int|
                0 <= k < j ==> !#[trigger] spec_axis_separates(
                    *a,
                    adx as int,
                    ady as int,
                    *b,
                    b.spec_normal_x(k),
                    b.spec_normal_y(k),
                ),
        decreases b.verts@.len() - j,
    {
        let n = b.edge_normal(j);
        let pa = a.project(adx, ady, n.0, n.1);
        let pb = b.project(0, 0, n.0, n.1);
        if pa.1 < pb.0 || pb.1 < pa.0 {
            assert(spec_axis_separates(
                *a,
                adx as int,
                ady as int,
                *b,
                b.spec_normal_x(j as int),
                b.spec_normal_y(j as int),
            ));
            return false;
        }
        j = j + 1;
    }
    true
}

/// Translation equivariance of the coordinate-axis projections: shifting
/// the polygon shifts its X-axis projection by exactly the shift (and
/// likewise on Y), which is what makes a push-out exact.
proof fn lemma_proj_shift_x(p: Polygon, dx1: int, dx2: int, dy1: int, dy2: int, n: int)
    requires
        1 <= n <= p.verts@.len(),
    ensures
        p.spec_min_proj(dx1, dy1, 1, 0, n) == p.spec_min_proj(dx2, dy2, 1, 0, n) + dx1 - dx2,
        p.spec_max_proj(dx1, dy1, 1, 0, n) == p.spec_max_proj(dx2, dy2, 1, 0, n) + dx1 - dx2,
    decreases n,
{
    if n > 1 {
        lemma_proj_shift_x(p, dx1, dx2, dy1, dy2, n - 1);
    }
}

proof fn lemma_proj_shift_y(p: Polygon, dx1: int, dx2: int, dy1: int, dy2: int, n: int)
    requires
        1 <= n <= p.verts@.len(),
    ensures
        p.spec_min_proj(dx1, dy1, 0, 1, n) == p.spec_min_proj(dx2, dy2, 0, 1, n) + dy1 - dy2,
        p.spec_max_proj(dx1, dy1, 0, 1, n) == p.spec_max_proj(dx2, dy2, 0, 1, n) + dy1 - dy2,
    decreases n,
{
    if n > 1 {
        lemma_proj_shift_y(p, dx1, dx2, dy1, dy2, n - 1);
    }
}

/// The X-axis projection of a well-formed polygon shifted by `dx` spans
/// at most `[dx - 2_000_000, dx + 2_000_000]`; likewise on Y.
proof fn lemma_proj_bounds_x(p: Polygon, dx: int, dy: int, n: int)
    requires
        p.wf(),
        1 <= n <= p.verts@.len(),
    ensures
        dx - 2_000_000 <= p.spec_min_proj(dx, dy, 1, 0, n) <= p.spec_max_proj(dx, dy, 1, 0, n)
            <= dx + 2_000_000,
    decreases n,
{
    if n > 1 {
        lemma_proj_bounds_x(p, dx, dy, n - 1);
    }
}

proof fn lemma_proj_bounds_y(p: Polygon, dx: int, dy: int, n: int)
    requires
        p.wf(),
        1 <= n <= p.verts@.len(),
    ensures
        dy - 2_000_000 <= p.spec_min_proj(dx, dy, 0, 1, n) <= p.spec_max_proj(dx, dy, 0, 1, n)
            <= dy + 2_000_000,
    decreases n,
{
    if n > 1 {
        lemma_proj_bounds_y(p, dx, dy, n - 1);
    }
}

/// Penetration depth of the two X projection intervals: the smaller of
/// the leftward and rightward slides that would bring them to touching
/// (negative when they are already apart).
pub open spec fn spec_depth_x(a: Polygon, adx: int, ady: int, b: Polygon) -> (int, int) {
    let an = a.verts@.len() as int;
    let bn = b.verts@.len() as int;
    let push_left = a.spec_max_proj(adx, ady, 1, 0, an) - b.spec_min_proj(0, 0, 1, 0, bn);
    let push_right = b.spec_max_proj(0, 0, 1, 0, bn) - a.spec_min_proj(adx, ady, 1, 0, an);
    (push_left, push_right)
}

/// Penetration depths of the two Y projection intervals.
pub open spec fn spec_depth_y(a: Polygon, adx: int, ady: int, b: Polygon) -> (int, int) {
    let an = a.verts@.len() as int;
    let bn = b.verts@.len() as int;
    let push_up = a.spec_max_proj(adx, ady, 0, 1, an) - b.spec_min_proj(0, 0, 0, 1, bn);
    let push_down = b.spec_max_proj(0, 0, 0, 1, bn) - a.spec_min_proj(adx, ady, 0, 1, an);
    (push_up, push_down)
}

/// The smaller of a depth pair.
pub open spec fn spec_min2(d: (int, int)) -> int {
    if d.0 <= d.1 {
        d.0
    } else {
        d.1
    }
}

/// The X component of the minimum translation: when the X axis carries
/// the smaller penetration the actor slides the shorter way out along X,
/// and when the Y axis does the translation is Y-directed and its X
/// component is zero.  The translation the exact diagonal MTV of a
/// sloped edge would give is approximated by its dominant coordinate
/// axis.  The cap of eight million pixels can only bind when the
/// intervals were already apart (two overlapping well-formed polygons
/// span at most four million pixels), so it never distorts a real
/// resolution.
pub open spec fn spec_x_push(a: Polygon, adx: int, ady: int, b: Polygon) -> int {
    let dx = spec_depth_x(a, adx, ady, b);
    let dy = spec_depth_y(a, adx, ady, b);
    if spec_min2(dx) <= spec_min2(dy) {
        let raw = if dx.0 <= dx.1 {
            -dx.0
        } else {
            dx.1
        };
        crate::player::spec_clamp_val(raw, -8_000_000, 8_000_000)
    } else {
        0
    }
}

/// The Y component of the minimum translation, the mirror of
/// `spec_x_push`.
pub open spec fn spec_y_push(a: Polygon, adx: int, ady: int, b: Polygon) -> int {
    let dx = spec_depth_x(a, adx, ady, b);
    let dy = spec_depth_y(a, adx, ady, b);
    if spec_min2(dy) <= spec_min2(dx) {
        let raw = if dy.0 <= dy.1 {
            -dy.0
        } else {
            dy.1
        };
        crate::player::spec_clamp_val(raw, -8_000_000, 8_000_000)
    } else {
        0
    }
}

/// The X pass over the terrain list from index `i` on: each polygon the
/// actor overlaps pushes it out along X, cumulatively in iteration
/// order, and a push opposing the X velocity zeroes that velocity.
pub open spec fn spec_resolve_x(
    a: Polygon,
    adx: int,
    ady: int,
    vx: int,
    terrain: Seq<Polygon>,
    i: int,
) -> (int, int)
    decreases terrain.len() - i,
{
    if i < 0 || i >= terrain.len() {
        (adx, vx)
    } else {
        if spec_overlap(a, adx, ady, terrain[i]) {
            let push = spec_x_push(a, adx, ady, terrain[i]);
            let vx2 = if (push < 0 && vx > 0) || (push > 0 && vx < 0) {
                0
            } else {
                vx
            };
            spec_resolve_x(a, adx + push, ady, vx2, terrain, i + 1)
        } else {
            spec_resolve_x(a, adx, ady, vx, terrain, i + 1)
        }
    }
}

/// The Y pass over the terrain list from index `i` on: an upward push
/// (negative Y) grounds the actor and stops downward motion; a downward
/// push stops upward motion.
pub open spec fn spec_resolve_y(
    a: Polygon,
    adx: int,
    ady: int,
    vy: int,
    grounded: bool,
    terrain: Seq<Polygon>,
    i: int,
) -> (int, int, bool)
    decreases terrain.len() - i,
{
    if i < 0 || i >= terrain.len() {
        (ady, vy, grounded)
    } else {
        if spec_overlap(a, adx, ady, terrain[i]) {
            let push = spec_y_push(a, adx, ady, terrain[i]);
            let vy2 = if push < 0 && vy > 0 {
                0
            } else if push > 0 && vy < 0 {
                0
            } else {
                vy
            };
            spec_resolve_y(a, adx, ady + push, vy2, grounded || push < 0, terrain, i + 1)
        } else {
            spec_resolve_y(a, adx, ady, vy, grounded, terrain, i + 1)
        }
    }
}

/// The whole narrow-phase frame: the X displacement (velocity times
/// `dt`, in whole pixels, rounded toward zero) is integrated and
/// resolved against every terrain polygon, then the Y axis likewise; the
/// result is the resolved offset deltas, the surviving velocity and the
/// grounded flag.
pub open spec fn spec_resolve(
    a: Polygon,
    vx: int,
    vy: int,
    terrain: Seq<Polygon>,
    dt: u64,
) -> (int, int, int, int, bool) {
    let mx = crate::player::spec_abs(vx) * (dt as int) / 1_000_000;
    let my = crate::player::spec_abs(vy) * (dt as int) / 1_000_000;
    let dx0 = if vx >= 0 {
        mx
    } else {
        -mx
    };
    let dy0 = if vy >= 0 {
        my
    } else {
        -my
    };
    let rx = spec_resolve_x(a, dx0, 0, vx, terrain, 0);
    let ry = spec_resolve_y(a, rx.0, dy0, vy, false, terrain, 0);
    (rx.0, ry.0, rx.1, ry.1, ry.2)
}

/// Resolves one frame of actor motion against polygon terrain.  Returns
/// `(dx, dy, vel, grounded)` re-packed as
/// `(offset delta x, offset delta y, new vel_x, new vel_y, grounded)`:
/// the caller translates its actor polygon by the two deltas.
pub fn resolve(actor: &Polygon, vel_x: i64, vel_y: i64, terrain: &Vec<Polygon>, dt: u64) -> (r: (
    i64,
    i64,
    i64,
    i64,
    bool,
))
    requires
        actor.wf(),
        forall|i: int| 0 <= i < terrain@.len() ==> (#[trigger] terrain@[i]).wf(),
        terrain@.len() <= 1000,
        -600_000 <= vel_x <= 600_000,
        -600_000 <= vel_y <= 600_000,
        dt <= 1000,
    ensures
        ({
            let s = spec_resolve(*actor, vel_x as int, vel_y as int, terrain@, dt);
            &&& r.0 == s.0
            &&& r.1 == s.1
            &&& r.2 == s.2
            &&& r.3 == s.3
            &&& r.4 == s.4
        }),
        -8_100_000_000 <= r.0 <= 8_100_000_000,
        -8_100_000_000 <= r.1 <= 8_100_000_000,
        -600_000 <= r.2 <= 600_000,
        -600_000 <= r.3 <= 600_000,
{
    let dtl: i64 = dt as i64;
    let mag_x: i64 = if vel_x >= 0 {
        vel_x
    } else {
        -vel_x
    };
    let mag_y: i64 = if vel_y >= 0 {
        vel_y
    } else {
        -vel_y
    };
    proof {
        assert(0 <= mag_x * dtl <= 600_000_000) by (nonlinear_arith)
            requires
                0 <= mag_x <= 600_000 && 0 <= dtl <= 1000,
        ;
        assert(0 <= mag_y * dtl <= 600_000_000) by (nonlinear_arith)
            requires
                0 <= mag_y <= 600_000 && 0 <= dtl <= 1000,
        ;
    }
    let disp_x: i64 = mag_x * dtl / 1_000_000;
    let disp_y: i64 = mag_y * dtl / 1_000_000;
    proof {
        vstd::arithmetic::div_mod::lemma_div_pos_is_pos(mag_x * dtl, 1_000_000);
        vstd::arithmetic::div_mod::lemma_div_is_ordered(mag_x * dtl, 600_000_000, 1_000_000);
        vstd::arithmetic::div_mod::lemma_div_pos_is_pos(mag_y * dtl, 1_000_000);
        vstd::arithmetic::div_mod::lemma_div_is_ordered(mag_y * dtl, 600_000_000, 1_000_000);
    }
    let mut adx: i64 = if vel_x >= 0 {
        disp_x
    } else {
        -disp_x
    };
    let ghost adx0 = adx as int;
    let mut vx: i64 = vel_x;
    let mut i: usize = 0;
    while i < terrain.len()
        invariant
            actor.wf(),
            forall|k: int| 0 <= k < terrain@.len() ==> (#[trigger] terrain@[k]).wf(),
            terrain@.len() <= 1000,
            i <= terrain@.len(),
            -600_000 <= vx <= 600_000,
            -1_000 - 8_000_000 * (i as int) <= adx <= 1_000 + 8_000_000 * (i as int),
            spec_resolve_x(*actor, adx0, 0, vel_x as int, terrain@, 0) == spec_resolve_x(
                *actor,
                adx as int,
                0,
                vx as int,
                terrain@,
                i as int,
            ),
        decreases terrain@.len() - i,
    {
        let b = &terrain[i];
        if polygons_overlap(actor, adx, 0, b) {
            let pa = actor.project(adx, 0, 1, 0);
            let pb = b.project(0, 0, 1, 0);
            let qa = actor.project(adx, 0, 0, 1);
            let qb = b.project(0, 0, 0, 1);
            proof {
                lemma_proj_bounds_x(*actor, adx as int, 0, actor.verts@.len() as int);
                lemma_proj_bounds_x(*b, 0, 0, b.verts@.len() as int);
                lemma_proj_bounds_y(*actor, adx as int, 0, actor.verts@.len() as int);
                lemma_proj_bounds_y(*b, 0, 0, b.verts@.len() as int);
            }
            let push_left: i64 = pa.1 - pb.0;
            let push_right: i64 = pb.1 - pa.0;
            let push_up: i64 = qa.1 - qb.0;
            let push_down: i64 = qb.1 - qa.0;
            let depth_x: i64 = if push_left <= push_right {
                push_left
            } else {
                push_right
            };
            let depth_y: i64 = if push_up <= push_down {
                push_up
            } else {
                push_down
            };
            if depth_x <= depth_y {
                let raw: i64 = if push_left <= push_right {
                    -push_left
                } else {
                    push_right
                };
                let push: i64 = if raw < -8_000_000 {
                    -8_000_000
                } else if raw > 8_000_000 {
                    8_000_000
                } else {
                    raw
                };
                if (push < 0 && vx > 0) || (push > 0 && vx < 0) {
                    vx = 0;
                }
                adx = adx + push;
            }
        }
        i = i + 1;
    }
    let mut ady: i64 = if vel_y >= 0 {
        disp_y
    } else {
        -disp_y
    };
    let ghost ady0 = ady as int;
    let mut vy: i64 = vel_y;
    let mut grounded: bool = false;
    let mut j: usize = 0;
    while j < terrain.len()
        invariant
            actor.wf(),
            forall|k: int| 0 <= k < terrain@.len() ==> (#[trigger] terrain@[k]).wf(),
            terrain@.len() <= 1000,
            j <= terrain@.len(),
            -600_000 <= vy <= 600_000,
            -8_100_000_000 <= adx <= 8_100_000_000,
            -1_000 - 8_000_000 * (j as int) <= ady <= 1_000 + 8_000_000 * (j as int),
            spec_resolve_y(*actor, adx as int, ady0, vel_y as int, false, terrain@, 0)
                == spec_resolve_y(
                *actor,
                adx as int,
                ady as int,
                vy as int,
                grounded,
                terrain@,
                j as int,
            ),
        decreases terrain@.len() - j,
    {
        let b = &terrain[j];
        if polygons_overlap(actor, adx, ady, b) {
            let pa = actor.project(adx, ady, 1, 0);
            let pb = b.project(0, 0, 1, 0);
            let qa = actor.project(adx, ady, 0, 1);
            let qb = b.project(0, 0, 0, 1);
            proof {
                lemma_proj_bounds_x(*actor, adx as int, ady as int, actor.verts@.len() as int);
                lemma_proj_bounds_x(*b, 0, 0, b.verts@.len() as int);
                lemma_proj_bounds_y(*actor, adx as int, ady as int, actor.verts@.len() as int);
                lemma_proj_bounds_y(*b, 0, 0, b.verts@.len() as int);
            }
            let push_left: i64 = pa.1 - pb.0;
            let push_right: i64 = pb.1 - pa.0;
            let push_up: i64 = qa.1 - qb.0;
            let push_down: i64 = qb.1 - qa.0;
            let depth_x: i64 = if push_left <= push_right {
                push_left
            } else {
                push_right
            };
            let depth_y: i64 = if push_up <= push_down {
                push_up
            } else {
                push_down
            };
            if depth_y <= depth_x {
                let raw: i64 = if push_up <= push_down {
                    -push_up
                } else {
                    push_down
                };
                let push: i64 = if raw < -8_000_000 {
                    -8_000_000
                } else if raw > 8_000_000 {
                    8_000_000
                } else {
                    raw
                };
                if push < 0 && vy > 0 {
                    vy = 0;
                } else if push > 0 && vy < 0 {
                    vy = 0;
                }
                if push < 0 {
                    grounded = true;
                }
                ady = ady + push;
            }
        }
        j = j + 1;
    }
    (adx, ady, vx, vy, grounded)
}

/// Exactness of one X push-out: when the cap does not bind, sliding the
/// actor by `spec_x_push` leaves the two X projection intervals touching
/// or apart — the overlap along X is fully resolved by that one
/// translation.
pub proof fn lemma_x_push_resolves(a: Polygon, adx: int, ady: int, b: Polygon)
    requires
        a.wf(),
        b.wf(),
        spec_min2(spec_depth_x(a, adx, ady, b)) <= spec_min2(spec_depth_y(a, adx, ady, b)),
        -8_000_000 <= spec_min2(spec_depth_x(a, adx, ady, b)),
        spec_min2(spec_depth_x(a, adx, ady, b)) <= 8_000_000,
    ensures
        ({
            let adx2 = adx + spec_x_push(a, adx, ady, b);
            let an = a.verts@.len() as int;
            let bn = b.verts@.len() as int;
            a.spec_max_proj(adx2, ady, 1, 0, an) <= b.spec_min_proj(0, 0, 1, 0, bn)
                || b.spec_max_proj(0, 0, 1, 0, bn) <= a.spec_min_proj(adx2, ady, 1, 0, an)
        }),
{
    let adx2 = adx + spec_x_push(a, adx, ady, b);
    lemma_proj_shift_x(a, adx2, adx, ady, ady, a.verts@.len() as int);
}

/// The Y mirror of `lemma_x_push_resolves`: when the Y axis carries the
/// smaller penetration and the cap does not bind, sliding the actor by
/// `spec_y_push` leaves the two Y projection intervals touching or apart,
/// so a floor push lands the actor exactly on the surface.
pub proof fn lemma_y_push_resolves(a: Polygon, adx: int, ady: int, b: Polygon)
    requires
        a.wf(),
        b.wf(),
        spec_min2(spec_depth_y(a, adx, ady, b)) <= spec_min2(spec_depth_x(a, adx, ady, b)),
        -8_000_000 <= spec_min2(spec_depth_y(a, adx, ady, b)),
        spec_min2(spec_depth_y(a, adx, ady, b)) <= 8_000_000,
    ensures
        ({
            let ady2 = ady + spec_y_push(a, adx, ady, b);
            let an = a.verts@.len() as int;
            let bn = b.verts@.len() as int;
            a.spec_max_proj(adx, ady2, 0, 1, an) <= b.spec_min_proj(0, 0, 0, 1, bn)
                || b.spec_max_proj(0, 0, 0, 1, bn) <= a.spec_min_proj(adx, ady2, 0, 1, an)
        }),
{
    let ady2 = ady + spec_y_push(a, adx, ady, b);
    lemma_proj_shift_y(a, adx, adx, ady2, ady, a.verts@.len() as int);
}

/// The X pass never invents speed: the outgoing X velocity is the
/// incoming one or zero.
pub proof fn lemma_resolve_x_velocity(
    a: Polygon,
    adx: int,
    ady: int,
    vx: int,
    terrain: Seq<Polygon>,
    i: int,
)
    ensures
        spec_resolve_x(a, adx, ady, vx, terrain, i).1 == vx || spec_resolve_x(
            a,
            adx,
            ady,
            vx,
            terrain,
            i,
        ).1 == 0,
    decreases terrain.len() - i,
{
    if 0 <= i < terrain.len() {
        if spec_overlap(a, adx, ady, terrain[i]) {
            let push = spec_x_push(a, adx, ady, terrain[i]);
            let vx2 = if (push < 0 && vx > 0) || (push > 0 && vx < 0) {
                0
            } else {
                vx
            };
            lemma_resolve_x_velocity(a, adx + push, ady, vx2, terrain, i + 1);
        } else {
            lemma_resolve_x_velocity(a, adx, ady, vx, terrain, i + 1);
        }
    }
}

/// The Y pass never invents speed either, and grounding is monotone: a
/// pass that starts grounded stays grounded, and one that reports
/// grounded really was pushed up by some polygon along the way.
pub proof fn lemma_resolve_y_velocity(
    a: Polygon,
    adx: int,
    ady: int,
    vy: int,
    grounded: bool,
    terrain: Seq<Polygon>,
    i: int,
)
    ensures
        ({
            let r = spec_resolve_y(a, adx, ady, vy, grounded, terrain, i);
            &&& (r.1 == vy || r.1 == 0)
            &&& (grounded ==> r.2)
        }),
    decreases terrain.len() - i,
{
    if 0 <= i < terrain.len() {
        if spec_overlap(a, adx, ady, terrain[i]) {
            let push = spec_y_push(a, adx, ady, terrain[i]);
            let vy2 = if push < 0 && vy > 0 {
                0
            } else if push > 0 && vy < 0 {
                0
            } else {
                vy
            };
            lemma_resolve_y_velocity(a, adx, ady + push, vy2, grounded || push < 0, terrain, i + 1);
        } else {
            lemma_resolve_y_velocity(a, adx, ady, vy, grounded, terrain, i + 1);
        }
    }
}

/// Over empty terrain, a frame of the narrow phase is pure integration:
/// the displacement is the velocity times `dt` in whole pixels, the
/// velocity survives, and nothing grounds the actor.
pub proof fn lemma_resolve_free_flight(a: Polygon, vx: int, vy: int, dt: u64)
    ensures
        ({
            let r = spec_resolve(a, vx, vy, Seq::<Polygon>::empty(), dt);
            let mx = crate::player::spec_abs(vx) * (dt as int) / 1_000_000;
            let my = crate::player::spec_abs(vy) * (dt as int) / 1_000_000;
            &&& r.0 == (if vx >= 0 {
                mx
            } else {
                -mx
            })
            &&& r.1 == (if vy >= 0 {
                my
            } else {
                -my
            })
            &&& r.2 == vx
            &&& r.3 == vy
            &&& !r.4
        }),
{
}

} // verus!
