use hexgrid::hex_pos::{
    axial_dir, axial_neighbor, cube_diag_neighbor, cube_diagonal_dir, cube_dir, cube_neighbor,
};
use hexgrid::{AxialPos, Axis, CubePos, Directions, GridError};

const ALL_DIRS: [Directions; 6] = [
    Directions::North,
    Directions::NorthEast,
    Directions::SouthEast,
    Directions::South,
    Directions::SouthWest,
    Directions::NorthWest,
];

fn distance(a: CubePos, b: CubePos) -> i64 {
    ((a.q - b.q).abs() + (a.r - b.r).abs() + (a.s - b.s).abs()) / 2
}

#[test]
fn cube_equality() {
    let a = CubePos::new(1, 1, -2).unwrap();
    let b = CubePos::new(1, 1, -2).unwrap();
    let c = CubePos::default();

    assert_eq!(a, b);
    assert_ne!(a, c);
}

#[test]
fn cube_addition() {
    let a = CubePos::new(1, 1, -2).unwrap();
    let b = CubePos::new(1, 2, -3).unwrap();
    let c = CubePos::new(2, 3, -5).unwrap();
    assert_eq!(a.add(b), c);
}

#[test]
fn cube_subtraction() {
    let a = CubePos::new(1, 1, -2).unwrap();
    let b = CubePos::new(1, 2, -3).unwrap();
    let c = CubePos::new(0, -1, 1).unwrap();
    assert_eq!(a.sub(b), c);
}

#[test]
fn cube_add_assign() {
    let mut a = CubePos::new(1, 1, -2).unwrap();
    let b = CubePos::new(0, -1, 1).unwrap();
    let c = CubePos::new(1, 0, -1).unwrap();
    a.add_assign(b);
    assert_eq!(a, c);
}

#[test]
fn cube_sub_assign() {
    let mut a = CubePos::new(1, 1, -2).unwrap();
    let b = CubePos::new(0, -1, 1).unwrap();
    let c = CubePos::new(1, 2, -3).unwrap();
    a.sub_assign(b);
    assert_eq!(a, c);
}

#[test]
fn cube_to_axial() {
    let a = CubePos::new(1, 1, -2).unwrap();
    let b: AxialPos = a.into();
    let c = AxialPos::new(1, 1);
    assert_eq!(b, c);
}

#[test]
fn axial_to_cube() {
    let a = AxialPos::new(1, 1);
    let b = CubePos::new(1, 1, -2).unwrap();
    let c: CubePos = a.to_cube();
    assert_eq!(b, c);
}

#[test]
fn axial_addition() {
    let a = AxialPos::new(10, 10);
    let b = AxialPos::new(-5, 5);
    let c = a.add(b);
    assert_eq!(c, AxialPos { q: 5, r: 15 });
}

#[test]
fn axial_subtraction() {
    let a = AxialPos::new(10, 10);
    let b = AxialPos::new(-5, 5);
    let c = a.sub(b);
    assert_eq!(c, AxialPos { q: 15, r: 5 });
}

#[test]
fn cube_new_rejects_nonzero_sum() {
    assert_eq!(CubePos::new(1, 1, 1), Err(GridError::InvalidCoordinate));
    assert_eq!(CubePos::new(0, 0, 1), Err(GridError::InvalidCoordinate));
    assert_eq!(CubePos::new(i64::MAX, i64::MAX, 2), Err(GridError::InvalidCoordinate));
    assert_eq!(CubePos::new(i64::MIN, i64::MAX, 1), Ok(CubePos { q: i64::MIN, r: i64::MAX, s: 1 }));
}

#[test]
fn cube_is_valid() {
    assert!(CubePos { q: 3, r: -1, s: -2 }.is_valid());
    assert!(!CubePos { q: 1, r: 1, s: 1 }.is_valid());
}

#[test]
fn cube_add_then_sub_gives_back() {
    let a = CubePos::new(7, -3, -4).unwrap();
    let b = CubePos::new(-2, 9, -7).unwrap();
    assert_eq!(a.add(b).sub(b), a);
}

#[test]
fn cube_axial_round_trips() {
    let a = CubePos::new(-4, 11, -7).unwrap();
    assert_eq!(a.to_axial().to_cube(), a);
    let b = AxialPos::new(-8, 3);
    assert_eq!(b.to_cube().to_axial(), b);
    assert_eq!(b.to_cube(), CubePos { q: -8, r: 3, s: 5 });
}

#[test]
fn axial_add_assign() {
    let mut a = AxialPos::new(2, -3);
    a.add_assign(AxialPos::new(4, 1));
    assert_eq!(a, AxialPos { q: 6, r: -2 });
}

#[test]
fn principal_dirs_sum_to_zero() {
    let mut sum = CubePos::default();
    for d in ALL_DIRS {
        sum.add_assign(cube_dir(d));
    }
    assert_eq!(sum, CubePos { q: 0, r: 0, s: 0 });
}

#[test]
fn neighbors_distinct_and_adjacent() {
    let origin = CubePos::default();
    let ns: Vec<CubePos> = ALL_DIRS.iter().map(|d| cube_neighbor(origin, *d)).collect();
    for i in 0..6 {
        assert!(ns[i].is_valid());
        assert_eq!(distance(origin, ns[i]), 1);
        for j in 0..6 {
            if i != j {
                assert_ne!(ns[i], ns[j]);
            }
        }
    }
    assert_eq!(cube_neighbor(CubePos { q: 2, r: -1, s: -1 }, Directions::North), CubePos {
        q: 2,
        r: -2,
        s: 0
    });
}

#[test]
fn diagonals_are_sums_of_adjacent_dirs() {
    for i in 0..6 {
        let d = ALL_DIRS[i];
        let next = ALL_DIRS[(i + 1) % 6];
        assert_eq!(cube_diagonal_dir(d), cube_dir(d).add(cube_dir(next)));
        assert_eq!(distance(CubePos::default(), cube_diagonal_dir(d)), 2);
    }
    assert_eq!(cube_diagonal_dir(Directions::South), CubePos { q: -1, r: 2, s: -1 });
    assert_eq!(cube_diag_neighbor(CubePos::default(), Directions::NorthEast), CubePos {
        q: 2,
        r: -1,
        s: -1
    });
}

#[test]
fn axial_dirs_drop_s() {
    for d in ALL_DIRS {
        assert_eq!(axial_dir(d), cube_dir(d).to_axial());
    }
    assert_eq!(axial_dir(Directions::South), AxialPos { q: 0, r: 1 });
    assert_eq!(axial_neighbor(AxialPos::new(3, 3), Directions::SouthWest), AxialPos { q: 2, r: 4 });
}

#[test]
fn snap_recomputes_dropped_axis() {
    assert_eq!(CubePos::from_rounded(1, 2, -4, Axis::S), CubePos { q: 1, r: 2, s: -3 });
    assert_eq!(CubePos::from_rounded(1, 2, -4, Axis::Q), CubePos { q: 2, r: 2, s: -4 });
    assert_eq!(CubePos::from_rounded(1, 2, -4, Axis::R), CubePos { q: 1, r: 3, s: -4 });
}
