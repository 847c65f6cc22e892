use voxel_camera::world::{Block, GridCoord, Orientation, World};

fn coord(x: i32, y: i32, z: i32) -> GridCoord {
    GridCoord { x, y, z }
}

#[test]
fn place_then_contains_then_destroy() {
    let mut w = World::new(0);
    let c = coord(4, -7, 19);
    assert!(!w.contains(c));
    w.place(c);
    assert!(w.contains(c));
    w.destroy(c);
    assert!(!w.contains(c));
}

#[test]
fn destroy_absent_is_noop() {
    let mut w = World::new(3);
    let before = w.len();
    assert!(!w.contains(coord(5, 5, 5)));
    w.destroy(coord(5, 5, 5));
    assert_eq!(w.len(), before);
    assert!(w.contains(coord(0, 0, 0)));
    assert!(w.contains(coord(4, 0, 4)));
    assert!(!w.contains(coord(5, 5, 5)));
}

#[test]
fn place_occupied_keeps_size_and_overwrites() {
    let mut w = World::new(0);
    w.place(coord(1, 2, 3));
    let before = w.len();
    w.place(coord(1, 2, 3));
    assert_eq!(w.len(), before);
    let blocks = w.blocks();
    let entry = blocks.iter().find(|e| e.0 == coord(1, 2, 3)).unwrap();
    assert_eq!(
        entry.1,
        Block { px: 1, py: 2, pz: 3, orientation: Orientation::Identity }
    );
}

#[test]
fn ground_plane_hundred_by_hundred() {
    let w = World::new(100);
    assert_eq!(w.len(), 10_000);
    assert!(w.contains(coord(0, 0, 0)));
    assert!(w.contains(coord(198, 0, 198)));
    assert!(!w.contains(coord(1, 0, 0)));
}

#[test]
fn ground_plane_edges() {
    let w = World::new(100);
    assert!(!w.contains(coord(200, 0, 0)));
    assert!(!w.contains(coord(0, 1, 0)));
    assert!(!w.contains(coord(-2, 0, 0)));
    assert!(w.contains(coord(198, 0, 0)));
    assert!(w.contains(coord(2, 0, 196)));
}

#[test]
fn empty_ground_plane() {
    let w = World::new(0);
    assert_eq!(w.len(), 0);
    assert!(!w.contains(coord(0, 0, 0)));
}

#[test]
fn blocks_snapshot_matches_registry() {
    let mut w = World::new(2);
    w.place(coord(-3, 8, 2));
    let blocks = w.blocks();
    assert_eq!(blocks.len(), w.len());
    for e in blocks.iter() {
        assert!(w.contains(e.0));
        assert_eq!(e.1.px, e.0.x as i64);
        assert_eq!(e.1.py, e.0.y as i64);
        assert_eq!(e.1.pz, e.0.z as i64);
    }
}

#[test]
fn ground_plane_largest_extent() {
    let w = World::new(1000);
    assert_eq!(w.len(), 1_000_000);
    assert!(w.contains(coord(1998, 0, 1998)));
    assert!(!w.contains(coord(2000, 0, 0)));
}
