use faba::polygon::{polygons_overlap, resolve, PolyPoint, Polygon};

fn tri(ox: i64, oy: i64) -> Polygon {
    let verts = vec![
        PolyPoint { x: 0, y: 16 },
        PolyPoint { x: 16, y: 16 },
        PolyPoint { x: 16, y: 0 },
    ];
    Polygon::new(verts, ox, oy).unwrap()
}

#[test]
fn degenerate_ring_is_rejected_at_build_time() {
    let two = vec![PolyPoint { x: 0, y: 0 }, PolyPoint { x: 4, y: 4 }];
    assert!(Polygon::new(two, 0, 0).is_none());
    let three = vec![
        PolyPoint { x: 0, y: 0 },
        PolyPoint { x: 4, y: 0 },
        PolyPoint { x: 0, y: 4 },
    ];
    assert!(Polygon::new(three, 0, 0).is_some());
}

#[test]
fn rect_vertices_are_its_corners() {
    let r = Polygon::from_rect(10, 20, 8, 6);
    assert_eq!(r.verts.len(), 4);
    assert_eq!(r.off_x, 10);
    assert_eq!(r.off_y, 20);
    assert_eq!((r.verts[2].x, r.verts[2].y), (8, 6));
}

#[test]
fn separated_rects_do_not_overlap() {
    let a = Polygon::from_rect(0, 0, 10, 10);
    let b = Polygon::from_rect(20, 0, 10, 10);
    assert!(!polygons_overlap(&a, 0, 0, &b));
    // shifting a to meet b makes them contact
    assert!(polygons_overlap(&a, 15, 0, &b));
}

#[test]
fn intersecting_rects_overlap() {
    let a = Polygon::from_rect(0, 0, 10, 10);
    let b = Polygon::from_rect(5, 5, 10, 10);
    assert!(polygons_overlap(&a, 0, 0, &b));
}

#[test]
fn diagonal_edge_separates_triangle_from_rect() {
    // the triangle occupies the lower-right half of its cell; a small box
    // beyond its hypotenuse overlaps the cell but not the triangle
    let t = tri(0, 0);
    let probe = Polygon::from_rect(1, 1, 4, 4);
    assert!(!polygons_overlap(&probe, 0, 0, &t));
    // a box straddling the hypotenuse does overlap
    let probe2 = Polygon::from_rect(8, 8, 8, 8);
    assert!(polygons_overlap(&probe2, 0, 0, &t));
}

// A falling actor is pushed up out of the floor: the push is the minimum
// translation's Y component, grounded is set and downward motion stops.
#[test]
fn floor_contact_grounds_and_stops_fall() {
    let actor = Polygon::from_rect(100, 92, 8, 8);
    let terrain = vec![Polygon::from_rect(0, 100, 200, 20)];
    // 500 milli-pixels/ms for 10 ms integrates to 5 pixels of fall
    let r = resolve(&actor, 0, 500_000, &terrain, 10);
    assert_eq!(r, (0, 0, 0, 0, true));
}

// A rising actor is pushed back down out of a ceiling and its upward
// motion stops, without being grounded.
#[test]
fn ceiling_contact_stops_rise() {
    let actor = Polygon::from_rect(100, 102, 8, 8);
    let terrain = vec![Polygon::from_rect(0, 80, 200, 20)];
    let r = resolve(&actor, 0, -500_000, &terrain, 10);
    assert_eq!(r, (0, -2, 0, 0, false));
}

// A sideways overlap resolves along X (the smaller penetration) and
// zeroes the opposing horizontal velocity; no grounding.
#[test]
fn wall_contact_pushes_back_along_x() {
    let actor = Polygon::from_rect(94, 200, 8, 8);
    let terrain = vec![Polygon::from_rect(100, 180, 20, 60)];
    let r = resolve(&actor, 300_000, 0, &terrain, 0);
    assert_eq!(r, (-2, 0, 0, 0, false));
}

// With nothing in the way, resolve is pure integration: the displacement
// is velocity times dt and the velocity survives.
#[test]
fn free_flight_is_pure_integration() {
    let actor = Polygon::from_rect(0, 0, 8, 8);
    let terrain = vec![Polygon::from_rect(500_000, 500_000, 10, 10)];
    let r = resolve(&actor, 250_000, -125_000, &terrain, 100);
    assert_eq!(r, (25, -12, 250_000, -125_000, false));
}

// Pushes apply cumulatively in polygon iteration order.
#[test]
fn stacked_floors_resolve_cumulatively() {
    let actor = Polygon::from_rect(100, 93, 8, 8);
    let terrain = vec![
        Polygon::from_rect(0, 100, 200, 20),
        Polygon::from_rect(0, 98, 200, 20),
    ];
    // after the first floor pushes the actor up to y = 92 (bottom 100),
    // the second, higher floor still overlaps and pushes up to bottom 98
    let r = resolve(&actor, 0, 100_000, &terrain, 10);
    assert_eq!(r, (0, -3, 0, 0, true));
}
