use hexgrid::{CubePos, Data, GridError, GridShape, TileMap};

fn default_data() -> Data {
    Data { traversable: false, water: false, elevation_bits: 0, terrain: 0 }
}

#[test]
fn flat_rectangle_has_sixty_default_tiles() {
    let map = TileMap::new(GridShape::Rectangle, 10, 6).unwrap();
    assert_eq!(map.len(), 60);
    assert_eq!(map.dimensions(), (10, 6));
    assert_eq!(map.shape(), GridShape::Rectangle);
    let ps = map.positions();
    assert_eq!(ps.len(), 60);
    for p in &ps {
        assert!(p.is_valid());
        assert!(0 <= p.q && p.q < 10);
        assert!(-(p.q / 2) <= p.r && p.r < 6 - p.q / 2);
    }
    for i in 0..ps.len() {
        for j in (i + 1)..ps.len() {
            assert_ne!(ps[i], ps[j]);
        }
    }
    assert_eq!(Data::default(), default_data());
}

#[test]
fn pointy_rectangle_staggers_rows() {
    let map = TileMap::new(GridShape::RectanglePointy, 4, 3).unwrap();
    assert_eq!(map.len(), 12);
    let ps = map.positions();
    assert!(ps.contains(&CubePos { q: -1, r: 2, s: -1 }));
    assert!(!ps.contains(&CubePos { q: 3, r: 2, s: -5 }));
    assert!(ps.contains(&CubePos { q: 3, r: 1, s: -4 }));
}

#[test]
fn out_of_bounds_access_fails() {
    let map = TileMap::new(GridShape::Rectangle, 10, 6).unwrap();
    assert_eq!(map.get(CubePos { q: 10, r: 0, s: -10 }), Err(GridError::OutOfBounds));
    assert_eq!(map.get(CubePos { q: -1, r: 1, s: 0 }), Err(GridError::OutOfBounds));
    assert_eq!(map.get(CubePos { q: 0, r: 6, s: -6 }), Err(GridError::OutOfBounds));
    assert_eq!(map.get(CubePos { q: 4, r: -2, s: -2 }), Err(GridError::OutOfBounds));
    assert_eq!(map.get(CubePos { q: 0, r: 0, s: 0 }), Ok(Some(default_data())));
    assert_eq!(map.get(CubePos { q: 9, r: 5, s: -14 }), Ok(None));
}

#[test]
fn unimplemented_shapes_fail() {
    assert!(matches!(TileMap::new(GridShape::Hexagon, 10, 6), Err(GridError::NotImplemented)));
    assert!(matches!(TileMap::new(GridShape::Rhombus, 3, 3), Err(GridError::NotImplemented)));
    assert_eq!(GridShape::default(), GridShape::Rectangle);
}

#[test]
fn empty_dimensions_give_empty_map() {
    assert_eq!(TileMap::new(GridShape::Rectangle, 0, 6).unwrap().len(), 0);
    assert_eq!(TileMap::new(GridShape::RectanglePointy, 5, -2).unwrap().len(), 0);
}

#[test]
fn set_replaces_tile_data() {
    let mut map = TileMap::new(GridShape::Rectangle, 10, 6).unwrap();
    let d = Data { traversable: true, water: true, elevation_bits: 1.5f64.to_bits(), terrain: 3 };
    let pos = CubePos { q: 2, r: 3, s: -5 };
    assert_eq!(map.set(pos, d), Ok(Some(default_data())));
    assert_eq!(map.get(pos), Ok(Some(d)));
    assert_eq!(f64::from_bits(map.get(pos).unwrap().unwrap().elevation_bits), 1.5);
    assert_eq!(map.set(CubePos { q: 9, r: 5, s: -14 }, d), Ok(None));
    assert_eq!(map.get(CubePos { q: 9, r: 5, s: -14 }), Ok(None));
    assert_eq!(map.set(CubePos { q: 11, r: 0, s: -11 }, d), Err(GridError::OutOfBounds));
    assert_eq!(map.len(), 60);
}
