use faba::player::{InputFlags, Player, JUMP_VELOCITY};
use faba::polygon::Polygon;
use faba::terrain::{update_with_polygons, Terrain};
use faba::tilemap::{TileMap, TileType};

fn grid_level() -> TileMap {
    let mut m = TileMap::new(20, 15);
    for x in 0..20 {
        m.set_tile(x, 14, TileType::Solid);
    }
    m
}

// The Terrain facade dispatches to the grid sweep: the drop scenario
// behaves exactly as calling the grid update directly.
#[test]
fn terrain_grid_advance_matches_grid_update() {
    let level = Terrain::Grid(grid_level());
    let mut p = Player::new(50, 80, 10, 20);
    for _ in 0..1000 {
        level.advance(&mut p, 16, InputFlags::none());
    }
    assert_eq!(p.pos_y, 204);
    assert!(p.on_ground);
    assert_eq!(p.vel_y, 0);
}

// The Terrain facade dispatches to the polygon narrow phase: a fall onto
// a polygon floor grounds the actor on its surface.
#[test]
fn terrain_polygons_advance_grounds_on_polygon_floor() {
    let level = Terrain::Polygons(vec![Polygon::from_rect(0, 224, 320, 16)]);
    let mut p = Player::new(50, 150, 8, 8);
    // the narrow phase reports ground contact on the frames where it
    // pushed the actor up out of the floor, so step until one
    let mut frames = 0;
    while !p.on_ground {
        level.advance(&mut p, 16, InputFlags::none());
        frames += 1;
        assert!(frames < 3000, "actor never grounded");
    }
    // resting with its bottom on the floor's top edge
    assert_eq!(p.pos_y, 216);
    assert_eq!(p.vel_y, 0);
    assert!(p.flags.bottom_wall);
}

// The polygon pipeline honors the jump decision exactly like the grid
// one: a grounded press sets the jump velocity.
#[test]
fn polygon_grounded_jump() {
    let terrain = vec![Polygon::from_rect(0, 224, 320, 16)];
    let mut p = Player::new(50, 150, 8, 8);
    let mut frames = 0;
    while !p.on_ground {
        let shape = Polygon::from_rect(p.pos_x, p.pos_y, p.size_x, p.size_y);
        update_with_polygons(&mut p, &shape, &terrain, 16, InputFlags::none());
        frames += 1;
        assert!(frames < 3000, "actor never grounded");
    }
    let press = InputFlags {
        jump_pressed: true,
        ..InputFlags::none()
    };
    let shape = Polygon::from_rect(p.pos_x, p.pos_y, p.size_x, p.size_y);
    update_with_polygons(&mut p, &shape, &terrain, 16, press);
    assert_eq!(p.vel_y, JUMP_VELOCITY);
    assert!(!p.on_ground);
}
