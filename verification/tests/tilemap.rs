use faba::tilemap::{slope_height, TileMap, TileType, TILE_SIZE};

#[test]
fn new_grid_is_empty() {
    let m = TileMap::new(20, 15);
    assert_eq!(m.width, 20);
    assert_eq!(m.height, 15);
    for y in 0..15 {
        for x in 0..20 {
            assert!(m.get_tile_type((x * 16) as i64, (y * 16) as i64) == TileType::Empty);
        }
    }
}

#[test]
fn set_tile_roundtrip() {
    let mut m = TileMap::new(20, 15);
    m.set_tile(3, 4, TileType::Solid);
    m.set_tile(5, 6, TileType::SlopeUpRight);
    assert!(m.get_tile_type(3 * 16 + 7, 4 * 16 + 9) == TileType::Solid);
    assert!(m.get_tile_type(5 * 16, 6 * 16) == TileType::SlopeUpRight);
    assert!(m.get_tile_type(0, 0) == TileType::Empty);
}

#[test]
fn set_tile_out_of_bounds_is_ignored() {
    let mut m = TileMap::new(4, 4);
    m.set_tile(4, 0, TileType::Solid);
    m.set_tile(0, 4, TileType::Solid);
    for y in 0..4 {
        for x in 0..4 {
            assert!(m.get_tile_type((x * 16) as i64, (y * 16) as i64) == TileType::Empty);
        }
    }
}

// Out-of-bounds closure: every coordinate outside the grid's pixel area
// classifies as Solid.
#[test]
fn classify_out_of_bounds_is_solid() {
    let m = TileMap::new(20, 15);
    assert!(m.get_tile_type(-1, 5) == TileType::Solid);
    assert!(m.get_tile_type(5, -1) == TileType::Solid);
    assert!(m.get_tile_type(20 * 16, 10) == TileType::Solid);
    assert!(m.get_tile_type(10, 15 * 16) == TileType::Solid);
    assert!(m.get_tile_type(1_000_000, 1_000_000) == TileType::Solid);
    assert!(m.get_tile_type(20 * 16 - 1, 15 * 16 - 1) == TileType::Empty);
}

#[test]
fn is_tile_type_matches_cell_and_rejects_outside() {
    let mut m = TileMap::new(8, 8);
    m.set_tile(2, 2, TileType::SlopeUpLeft);
    assert!(m.is_tile_type(2 * 16 + 3, 2 * 16 + 3, TileType::SlopeUpLeft));
    assert!(!m.is_tile_type(0, 0, TileType::SlopeUpLeft));
    // outside the grid the answer is false for every tile type
    assert!(!m.is_tile_type(-1, 0, TileType::Solid));
    assert!(!m.is_tile_type(8 * 16, 0, TileType::Solid));
}

// Slope height at the corners: for a cell-size-16 SlopeUpRight tile the
// surface equals the tile's top edge at local_x = 0 and its bottom edge at
// local_x = 16, and the mirror holds for SlopeUpLeft.
#[test]
fn slope_height_corner_cases() {
    let top = 3 * 16;
    let bottom = 4 * 16;
    assert_eq!(slope_height(2, 3, TileType::SlopeUpRight, 0), top);
    assert_eq!(slope_height(2, 3, TileType::SlopeUpRight, TILE_SIZE), bottom);
    assert_eq!(slope_height(2, 3, TileType::SlopeUpLeft, 0), bottom);
    assert_eq!(slope_height(2, 3, TileType::SlopeUpLeft, TILE_SIZE), top);
}

// Slope height is linear (one pixel of height per pixel of width), hence
// monotone across the cell.
#[test]
fn slope_height_linear_between_corners() {
    for lx in 0..=16 {
        assert_eq!(slope_height(0, 0, TileType::SlopeUpRight, lx), lx);
        assert_eq!(slope_height(0, 0, TileType::SlopeUpLeft, lx), 16 - lx);
    }
    for lx in 0..16 {
        let a = slope_height(5, 7, TileType::SlopeUpRight, lx);
        let b = slope_height(5, 7, TileType::SlopeUpRight, lx + 1);
        assert_eq!(b - a, 1);
    }
}

#[test]
fn pixel_solid_inside_slope_material() {
    let mut m = TileMap::new(8, 8);
    m.set_tile(5, 5, TileType::SlopeUpRight);
    // local (5, 2) lies above the surface line y = top + local_x
    assert!(!m.is_pixel_solid(5 * 16 + 5, 5 * 16 + 2));
    // local (5, 6) lies below it
    assert!(m.is_pixel_solid(5 * 16 + 5, 5 * 16 + 6));
    // a Solid cell is material everywhere, and out of bounds counts solid
    m.set_tile(1, 1, TileType::Solid);
    assert!(m.is_pixel_solid(16 + 15, 16));
    assert!(m.is_pixel_solid(-3, -3));
}
