//! The static tile grid and the terrain collision queries made against it.
//!
//! World coordinates are whole pixels.  A cell is `TILE_SIZE` pixels on each
//! edge; a world point maps to a cell by floor division.  Every coordinate
//! outside the grid classifies as `Solid` (closed-world boundary), so an
//! actor can never escape the level through its edges.

use vstd::arithmetic::div_mod::lemma_fundamental_div_mod;
use vstd::prelude::*;

verus! {

/// Edge length of one grid cell, in pixels.
pub const TILE_SIZE: i64 = 16;

/// Classification of one grid cell.
///
/// A slope tile's walkable surface rises linearly across its width:
/// `SlopeUpRight` descends from the cell's top edge at the left border to its
/// bottom edge at the right border, and `SlopeUpLeft` is the mirror image.
#[derive(Clone, Copy, Debug, PartialEq, Eq, Structural)]
pub enum TileType {
    Empty,
    Solid,
    SlopeUpRight,
    SlopeUpLeft,
}

/// A rectangular grid of tiles, created once at level setup and read-only
/// during simulation.
pub struct TileMap {
    pub tiles: Vec<Vec<TileType>>,
    pub width: usize,
    pub height: usize,
}

impl TileMap {
    /// Structural invariant: the row and column counts match the declared
    /// dimensions, and the dimensions are small enough that every pixel
    /// coordinate arithmetic below stays far from overflow.
    pub open spec fn wf(self) -> bool {
        &&& self.tiles@.len() == self.height
        &&& forall|r: int|
            0 <= r < self.height ==> (#[trigger] self.tiles@[r])@.len() == self.width
        &&& self.width <= 30_000
        &&& self.height <= 30_000
    }

    /// The tile stored at cell `(col, row)`; any cell outside the grid is
    /// `Solid`.
    pub open spec fn tile_at(self, col: int, row: int) -> TileType {
        if 0 <= col < self.width && 0 <= row < self.height {
            self.tiles@[row]@[col]
        } else {
            TileType::Solid
        }
    }

    /// Classification of the world-space point `(x, y)`: the tile of the
    /// cell containing the point, `Solid` outside the grid.
    pub open spec fn spec_classify(self, x: int, y: int) -> TileType {
        if x < 0 || y < 0 {
            TileType::Solid
        } else {
            self.tile_at(x / (TILE_SIZE as int), y / (TILE_SIZE as int))
        }
    }

    /// Creates a grid of `width` x `height` cells, all `Empty`.
    pub fn new(width: usize, height: usize) -> (m: TileMap)
        requires
            width <= 30_000,
            height <= 30_000,
        ensures
            m.wf(),
            m.width == width,
            m.height == height,
            forall|c: int, r: int| m.tile_at(c, r) == (if 0 <= c < width && 0 <= r < height {
                TileType::Empty
            } else {
                TileType::Solid
            }),
    {
        let mut tiles: Vec<Vec<TileType>> = Vec::new();
        let mut r: usize = 0;
        while r < height
            invariant
                r <= height,
                tiles@.len() == r,
                forall|i: int| 0 <= i < r ==> (#[trigger] tiles@[i])@.len() == width,
                forall|i: int, j: int|
                    0 <= i < r && 0 <= j < width ==> #[trigger] (tiles@[i])@[j]
                        == TileType::Empty,
            decreases height - r,
        {
            let row: Vec<TileType> = vec![TileType::Empty; width];
            assert(forall|j: int| 0 <= j < width ==> row@[j] == TileType::Empty);
            tiles.push(row);
            r = r + 1;
        }
        TileMap { tiles, width, height }
    }

    /// Replaces the tile at cell `(x, y)`; a cell outside the grid is left
    /// untouched.  Authoring-time mutation only, never called during a
    /// simulation step.
    pub fn set_tile(&mut self, x: usize, y: usize, tile_type: TileType)
        requires
            old(self).wf(),
        ensures
            final(self).wf(),
            final(self).width == old(self).width,
            final(self).height == old(self).height,
            forall|c: int, r: int| final(self).tile_at(c, r) == (if c == x && r == y && x
                < old(self).width && y < old(self).height {
                tile_type
            } else {
                old(self).tile_at(c, r)
            }),
    {
        if x < self.width && y < self.height {
            self.tiles[y][x] = tile_type;
        }
    }

    /// Returns the classification of the world-space point `(x, y)`.
    pub fn get_tile_type(&self, x: i64, y: i64) -> (t: TileType)
        requires
            self.wf(),
        ensures
            t == self.spec_classify(x as int, y as int),
    {
        if x < 0 || y < 0 {
            return TileType::Solid;
        }
        let col: i64 = x / TILE_SIZE;
        let row: i64 = y / TILE_SIZE;
        if col < self.width as i64 && row < self.height as i64 {
            self.tiles[row as usize][col as usize]
        } else {
            TileType::Solid
        }
    }

    /// True when the world-space point `(x, y)` lies inside terrain
    /// material: a `Solid` cell (including everything outside the grid), or
    /// the part of a slope cell at or below its surface line.
    pub open spec fn spec_point_blocked(self, x: int, y: int) -> bool {
        match self.spec_classify(x, y) {
            TileType::Empty => false,
            TileType::Solid => true,
            TileType::SlopeUpRight => y % (TILE_SIZE as int) >= x % (TILE_SIZE as int),
            TileType::SlopeUpLeft => y % (TILE_SIZE as int) >= (TILE_SIZE as int) - x % (
            TILE_SIZE as int),
        }
    }

    /// True when any of the four corners of the `w` x `h` pixel box whose
    /// top-left pixel is `(x, y)` lies in a `Solid` cell.  This is the
    /// query the horizontal and vertical sweeps block on; slope material is
    /// deliberately not counted here (slopes are transparent to the sweep
    /// and are handled by the vertical clamp).
    pub open spec fn spec_box_hits_solid(self, x: int, y: int, w: int, h: int) -> bool {
        ||| self.spec_classify(x, y) == TileType::Solid
        ||| self.spec_classify(x + w - 1, y) == TileType::Solid
        ||| self.spec_classify(x, y + h - 1) == TileType::Solid
        ||| self.spec_classify(x + w - 1, y + h - 1) == TileType::Solid
    }

    /// True when the point `(x, y)` lies inside terrain material.
    pub fn is_pixel_solid(&self, x: i64, y: i64) -> (b: bool)
        requires
            self.wf(),
        ensures
            b == self.spec_point_blocked(x as int, y as int),
    {
        match self.get_tile_type(x, y) {
            TileType::Empty => false,
            TileType::Solid => true,
            TileType::SlopeUpRight => y % TILE_SIZE >= x % TILE_SIZE,
            TileType::SlopeUpLeft => y % TILE_SIZE >= TILE_SIZE - x % TILE_SIZE,
        }
    }

    /// True when the point `(x, y)` lies inside the grid and its cell holds
    /// exactly `tile_type`; false for any point outside the grid.
    pub fn is_tile_type(&self, x: i64, y: i64, tile_type: TileType) -> (b: bool)
        requires
            self.wf(),
        ensures
            b == (0 <= x && 0 <= y && (x as int) / (TILE_SIZE as int) < self.width && (
            y as int) / (TILE_SIZE as int) < self.height && self.tile_at(
                (x as int) / (TILE_SIZE as int),
                (y as int) / (TILE_SIZE as int),
            ) == tile_type),
    {
        if x < 0 || y < 0 {
            return false;
        }
        let col: i64 = x / TILE_SIZE;
        let row: i64 = y / TILE_SIZE;
        if col < self.width as i64 && row < self.height as i64 {
            self.tiles[row as usize][col as usize] == tile_type
        } else {
            false
        }
    }
}

/// The world-space `y` of a slope's surface line at horizontal offset
/// `local_x` (pixels from the cell's left edge) within the cell at row
/// `tile_y`.  For `SlopeUpRight` the surface descends linearly from the
/// cell's top edge at `local_x == 0` to its bottom edge at
/// `local_x == TILE_SIZE`; `SlopeUpLeft` is the mirror.  For any other tile
/// the value is the cell's top edge (never consulted).
pub open spec fn spec_slope_surface(orientation: TileType, tile_y: int, local_x: int) -> int {
    match orientation {
        TileType::SlopeUpRight => tile_y * (TILE_SIZE as int) + local_x,
        TileType::SlopeUpLeft => tile_y * (TILE_SIZE as int) + (TILE_SIZE as int) - local_x,
        _ => tile_y * (TILE_SIZE as int),
    }
}

/// Exact surface height of a slope tile: the world-space `y` of the
/// walkable surface at offset `local_x` within the slope cell at
/// `(tile_x, tile_y)`.
pub fn slope_height(tile_x: i64, tile_y: i64, orientation: TileType, local_x: i64) -> (world_y:
    i64)
    requires
        orientation == TileType::SlopeUpRight || orientation == TileType::SlopeUpLeft,
        0 <= local_x <= TILE_SIZE,
        -30_000 <= tile_y <= 30_000,
        -30_000 <= tile_x <= 30_000,
    ensures
        world_y == spec_slope_surface(orientation, tile_y as int, local_x as int),
{
    match orientation {
        TileType::SlopeUpRight => tile_y * TILE_SIZE + local_x,
        _ => tile_y * TILE_SIZE + TILE_SIZE - local_x,
    }
}

/// Slope surfaces are exact at the cell corners and strictly linear in
/// between: over a whole cell a `SlopeUpRight` surface runs from the cell's
/// top edge down to its bottom edge, one pixel of height per pixel of
/// width, and `SlopeUpLeft` runs the mirror way.
pub proof fn lemma_slope_surface_linear(tile_y: int, a: int, b: int)
    requires
        0 <= a <= b <= TILE_SIZE as int,
    ensures
        spec_slope_surface(TileType::SlopeUpRight, tile_y, 0) == tile_y * (TILE_SIZE as int),
        spec_slope_surface(TileType::SlopeUpRight, tile_y, TILE_SIZE as int) == (tile_y + 1) * (
        TILE_SIZE as int),
        spec_slope_surface(TileType::SlopeUpLeft, tile_y, 0) == (tile_y + 1) * (TILE_SIZE as int),
        spec_slope_surface(TileType::SlopeUpLeft, tile_y, TILE_SIZE as int) == tile_y * (
        TILE_SIZE as int),
        spec_slope_surface(TileType::SlopeUpRight, tile_y, b) - spec_slope_surface(
            TileType::SlopeUpRight,
            tile_y,
            a,
        ) == b - a,
        spec_slope_surface(TileType::SlopeUpLeft, tile_y, a) - spec_slope_surface(
            TileType::SlopeUpLeft,
            tile_y,
            b,
        ) == b - a,
{
}

/// Division and remainder facts for the cell size, shared by the geometry
/// lemmas below.
proof fn lemma_div16(a: int)
    requires
        a >= 0,
    ensures
        a == 16 * (a / 16) + a % 16,
        0 <= a % 16 < 16,
        a / 16 >= 0,
{
    lemma_fundamental_div_mod(a, 16);
}

/// A box whose four corners all avoid `Solid` cells lies entirely inside
/// the grid: everything beyond the grid's edge classifies as `Solid`, so
/// clearance of the corners pins the whole box within
/// `[0, width * TILE_SIZE) x [0, height * TILE_SIZE)`.
pub proof fn lemma_box_clear_in_bounds(m: TileMap, x: int, y: int, w: int, h: int)
    requires
        m.wf(),
        w >= 1,
        h >= 1,
        !m.spec_box_hits_solid(x, y, w, h),
    ensures
        0 <= x,
        0 <= y,
        x + w <= m.width * (TILE_SIZE as int),
        y + h <= m.height * (TILE_SIZE as int),
{
    lemma_div16(x + w - 1);
    lemma_div16(y + h - 1);
}

/// Closed-world boundary: every point outside the grid's pixel area
/// classifies as `Solid`.
pub proof fn lemma_classify_out_of_bounds(m: TileMap, x: int, y: int)
    requires
        m.wf(),
        !(0 <= x < m.width * (TILE_SIZE as int) && 0 <= y < m.height * (TILE_SIZE as int)),
    ensures
        m.spec_classify(x, y) == TileType::Solid,
{
    if x >= 0 && y >= 0 {
        lemma_div16(x);
        lemma_div16(y);
        if x >= m.width * (TILE_SIZE as int) {
            vstd::arithmetic::div_mod::lemma_div_is_ordered(m.width * 16, x, 16);
            vstd::arithmetic::div_mod::lemma_div_multiples_vanish(m.width as int, 16);
            assert(m.width * 16 == 16 * m.width) by (nonlinear_arith);
        } else {
            vstd::arithmetic::div_mod::lemma_div_is_ordered(m.height * 16, y, 16);
            vstd::arithmetic::div_mod::lemma_div_multiples_vanish(m.height as int, 16);
            assert(m.height * 16 == 16 * m.height) by (nonlinear_arith);
        }
    }
}

/// True when the cell `(c, r)` and the `w` x `h` box at `(x, y)` cover at
/// least one pixel in common.
pub open spec fn spec_cell_meets_box(c: int, r: int, x: int, y: int, w: int, h: int) -> bool {
    &&& 16 * c < x + w
    &&& x <= 16 * c + 15
    &&& 16 * r < y + h
    &&& y <= 16 * r + 15
}

/// Any cell whose area meets the area of a box no larger than
/// `TILE_SIZE + 1` on each edge is one of the cells under the box's four
/// corners.  Together with corner clearance this rules out any overlap
/// between the box and a `Solid` cell.
pub proof fn lemma_box_corner_cover(m: TileMap, x: int, y: int, w: int, h: int, c: int, r: int)
    requires
        m.wf(),
        1 <= w <= TILE_SIZE as int + 1,
        1 <= h <= TILE_SIZE as int + 1,
        !m.spec_box_hits_solid(x, y, w, h),
        spec_cell_meets_box(c, r, x, y, w, h),
    ensures
        m.tile_at(c, r) != TileType::Solid,
{
    lemma_box_clear_in_bounds(m, x, y, w, h);
    lemma_div16(x);
    lemma_div16(y);
    lemma_div16(x + w - 1);
    lemma_div16(y + h - 1);
    assert(x / 16 <= c <= (x + w - 1) / 16) by {
        lemma_fundamental_div_mod(x, 16);
        lemma_fundamental_div_mod(x + w - 1, 16);
    };
    assert(y / 16 <= r <= (y + h - 1) / 16) by {
        lemma_fundamental_div_mod(y, 16);
        lemma_fundamental_div_mod(y + h - 1, 16);
    };
    assert((x + w - 1) / 16 <= x / 16 + 1) by {
        lemma_fundamental_div_mod(x + w - 1, 16);
    };
    assert((y + h - 1) / 16 <= y / 16 + 1) by {
        lemma_fundamental_div_mod(y + h - 1, 16);
    };
}

/// The solid-stop invariant in full: a box no larger than one cell plus a
/// pixel whose four corners avoid `Solid` cells shares not even one pixel
/// with any `Solid` cell — corner clearance rules out every overlap.
pub proof fn lemma_box_clear_no_solid_overlap(m: TileMap, x: int, y: int, w: int, h: int)
    requires
        m.wf(),
        1 <= w <= TILE_SIZE as int + 1,
        1 <= h <= TILE_SIZE as int + 1,
        !m.spec_box_hits_solid(x, y, w, h),
    ensures
        forall|c: int, r: int|
            m.tile_at(c, r) == TileType::Solid ==> !#[trigger] spec_cell_meets_box(
                c,
                r,
                x,
                y,
                w,
                h,
            ),
{
    assert forall|c: int, r: int|
        m.tile_at(c, r) == TileType::Solid implies !#[trigger] spec_cell_meets_box(
        c,
        r,
        x,
        y,
        w,
        h,
    ) by {
        if spec_cell_meets_box(c, r, x, y, w, h) {
            lemma_box_corner_cover(m, x, y, w, h, c, r);
        }
    };
}

} // verus!
