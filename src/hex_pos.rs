use vstd::prelude::*;

use crate::error::GridError;

verus! {

/// Marker for the coordinate representations of a position on the grid.
pub trait Pos {}

/// A position in axial form: the cube form with its third axis left out.
#[derive(Clone, Copy, Debug, PartialEq, Eq, Structural, Hash)]
pub struct AxialPos {
    pub q: i64,
    pub r: i64,
}

/// A position in cube form. A well-formed value has `q + r + s == 0`.
#[derive(Clone, Copy, Debug, PartialEq, Eq, Structural, Hash)]
pub struct CubePos {
    pub q: i64,
    pub r: i64,
    pub s: i64,
}

impl Pos for AxialPos {}

impl Pos for CubePos {}

/// Whether `x` is a value of `i64`.
pub open spec fn fits_i64(x: int) -> bool {
    i64::MIN <= x <= i64::MAX
}

impl CubePos {
    /// The lattice constraint of cube coordinates.
    pub open spec fn wf(self) -> bool {
        self.q + self.r + self.s == 0
    }

    /// Whether the component-wise sum of `self` and `o` is representable.
    pub open spec fn can_add(self, o: CubePos) -> bool {
        fits_i64(self.q + o.q) && fits_i64(self.r + o.r) && fits_i64(self.s + o.s)
    }

    /// Whether the component-wise difference of `self` and `o` is representable.
    pub open spec fn can_sub(self, o: CubePos) -> bool {
        fits_i64(self.q - o.q) && fits_i64(self.r - o.r) && fits_i64(self.s - o.s)
    }

    pub open spec fn add_spec(self, o: CubePos) -> CubePos {
        CubePos {
            q: (self.q + o.q) as i64,
            r: (self.r + o.r) as i64,
            s: (self.s + o.s) as i64,
        }
    }

    pub open spec fn sub_spec(self, o: CubePos) -> CubePos {
        CubePos {
            q: (self.q - o.q) as i64,
            r: (self.r - o.r) as i64,
            s: (self.s - o.s) as i64,
        }
    }

    /// The axial form of this position: `s` is dropped.
    pub open spec fn to_axial_spec(self) -> AxialPos {
        AxialPos { q: self.q, r: self.r }
    }

    /// Builds a cube position, refusing components that do not sum to zero.
    pub fn new(q: i64, r: i64, s: i64) -> (res: Result<CubePos, GridError>)
        ensures
            q + r + s == 0 ==> res == Ok::<CubePos, GridError>(CubePos { q, r, s }),
            q + r + s != 0 ==> res == Err::<CubePos, GridError>(GridError::InvalidCoordinate),
    {
        if q_r_s_sum(q, r, s) == 0 {
            Ok(CubePos { q, r, s })
        } else {
            Err(GridError::InvalidCoordinate)
        }
    }

    /// Whether the components sum to zero.
    pub fn is_valid(&self) -> (res: bool)
        ensures
            res == self.wf(),
    {
        q_r_s_sum(self.q, self.r, self.s) == 0
    }

    /// Component-wise sum.
    pub fn add(self, o: CubePos) -> (res: CubePos)
        requires
            self.can_add(o),
        ensures
            res == self.add_spec(o),
            self.wf() && o.wf() ==> res.wf(),
    {
        CubePos { q: self.q + o.q, r: self.r + o.r, s: self.s + o.s }
    }

    /// Component-wise difference.
    pub fn sub(self, o: CubePos) -> (res: CubePos)
        requires
            self.can_sub(o),
        ensures
            res == self.sub_spec(o),
            self.wf() && o.wf() ==> res.wf(),
    {
        CubePos { q: self.q - o.q, r: self.r - o.r, s: self.s - o.s }
    }

    /// Adds `o` to `self` in place.
    pub fn add_assign(&mut self, o: CubePos)
        requires
            old(self).can_add(o),
        ensures
            *final(self) == old(self).add_spec(o),
    {
        *self = self.add(o);
    }

    /// Subtracts `o` from `self` in place.
    pub fn sub_assign(&mut self, o: CubePos)
        requires
            old(self).can_sub(o),
        ensures
            *final(self) == old(self).sub_spec(o),
    {
        *self = self.sub(o);
    }

    /// The axial form of this position.
    pub fn to_axial(self) -> (res: AxialPos)
        ensures
            res == self.to_axial_spec(),
    {
        AxialPos { q: self.q, r: self.r }
    }
}

/// One of the three axes of cube coordinates.
#[derive(Clone, Copy, Debug, PartialEq, Eq, Structural, Hash)]
pub enum Axis {
    Q,
    R,
    S,
}

impl CubePos {
    /// Whether the component on `drop` can be recomputed from the other two.
    pub open spec fn can_snap(q: i64, r: i64, s: i64, drop: Axis) -> bool {
        match drop {
            Axis::Q => fits_i64(-r - s),
            Axis::R => fits_i64(-q - s),
            Axis::S => fits_i64(-q - r),
        }
    }

    /// The last step of rounding a fractional position to the nearest hex:
    /// given its three components rounded each on its own, the one on `drop`
    /// (the one that was rounded the most) is recomputed from the other two.
    pub fn from_rounded(q: i64, r: i64, s: i64, drop: Axis) -> (res: CubePos)
        requires
            CubePos::can_snap(q, r, s, drop),
        ensures
            res.wf(),
            drop != Axis::Q ==> res.q == q,
            drop != Axis::R ==> res.r == r,
            drop != Axis::S ==> res.s == s,
    {
        match drop {
            Axis::Q => CubePos { q: (0i128 - r as i128 - s as i128) as i64, r, s },
            Axis::R => CubePos { q, r: (0i128 - q as i128 - s as i128) as i64, s },
            Axis::S => CubePos { q, r, s: (0i128 - q as i128 - r as i128) as i64 },
        }
    }
}

impl Default for CubePos {
    /// The origin `(0, 0, 0)`.
    fn default() -> (res: CubePos)
        ensures
            res == (CubePos { q: 0, r: 0, s: 0 }),
    {
        CubePos { q: 0, r: 0, s: 0 }
    }
}

impl AxialPos {
    /// Whether the cube form of this position is representable.
    pub open spec fn can_cube(self) -> bool {
        fits_i64(-self.q - self.r)
    }

    /// The cube form of this position: `s` is recomputed as `-q - r`.
    pub open spec fn to_cube_spec(self) -> CubePos {
        CubePos { q: self.q, r: self.r, s: (-self.q - self.r) as i64 }
    }

    pub open spec fn can_add(self, o: AxialPos) -> bool {
        fits_i64(self.q + o.q) && fits_i64(self.r + o.r)
    }

    pub open spec fn can_sub(self, o: AxialPos) -> bool {
        fits_i64(self.q - o.q) && fits_i64(self.r - o.r)
    }

    pub open spec fn add_spec(self, o: AxialPos) -> AxialPos {
        AxialPos { q: (self.q + o.q) as i64, r: (self.r + o.r) as i64 }
    }

    pub open spec fn sub_spec(self, o: AxialPos) -> AxialPos {
        AxialPos { q: (self.q - o.q) as i64, r: (self.r - o.r) as i64 }
    }

    pub fn new(q: i64, r: i64) -> (res: AxialPos)
        ensures
            res == (AxialPos { q, r }),
    {
        AxialPos { q, r }
    }

    /// Component-wise sum.
    pub fn add(self, o: AxialPos) -> (res: AxialPos)
        requires
            self.can_add(o),
        ensures
            res == self.add_spec(o),
    {
        AxialPos { q: self.q + o.q, r: self.r + o.r }
    }

    /// Component-wise difference.
    pub fn sub(self, o: AxialPos) -> (res: AxialPos)
        requires
            self.can_sub(o),
        ensures
            res == self.sub_spec(o),
    {
        AxialPos { q: self.q - o.q, r: self.r - o.r }
    }

    /// Adds `o` to `self` in place.
    pub fn add_assign(&mut self, o: AxialPos)
        requires
            old(self).can_add(o),
        ensures
            *final(self) == old(self).add_spec(o),
    {
        *self = self.add(o);
    }

    /// The cube form of this position, always well-formed.
    pub fn to_cube(self) -> (res: CubePos)
        requires
            self.can_cube(),
        ensures
            res == self.to_cube_spec(),
            res.wf(),
    {
        let s = (0i128 - self.q as i128 - self.r as i128) as i64;
        CubePos { q: self.q, r: self.r, s }
    }
}

impl Default for AxialPos {
    /// The origin `(0, 0)`.
    fn default() -> (res: AxialPos)
        ensures
            res == (AxialPos { q: 0, r: 0 }),
    {
        AxialPos { q: 0, r: 0 }
    }
}

impl From<CubePos> for AxialPos {
    fn from(c: CubePos) -> (res: AxialPos)
        ensures
            res == c.to_axial_spec(),
    {
        c.to_axial()
    }
}

impl vstd::std_specs::convert::FromSpecImpl<CubePos> for AxialPos {
    open spec fn obeys_from_spec() -> bool {
        true
    }

    open spec fn from_spec(c: CubePos) -> AxialPos {
        c.to_axial_spec()
    }
}

/// The six edges of a hexagon, in clockwise order.
#[derive(Clone, Copy, Debug, PartialEq, Eq, Structural, Hash)]
pub enum Directions {
    North,
    NorthEast,
    SouthEast,
    South,
    SouthWest,
    NorthWest,
}

impl Directions {
    /// The direction that follows `self` clockwise.
    pub open spec fn next(self) -> Directions {
        match self {
            Directions::North => Directions::NorthEast,
            Directions::NorthEast => Directions::SouthEast,
            Directions::SouthEast => Directions::South,
            Directions::South => Directions::SouthWest,
            Directions::SouthWest => Directions::NorthWest,
            Directions::NorthWest => Directions::North,
        }
    }
}

/// The unit vector towards the neighbour across the edge `d`.
pub open spec fn cube_dir_spec(d: Directions) -> CubePos {
    match d {
        Directions::North => CubePos { q: 0, r: -1i64, s: 1 },
        Directions::NorthEast => CubePos { q: 1, r: -1i64, s: 0 },
        Directions::SouthEast => CubePos { q: 1, r: 0, s: -1i64 },
        Directions::South => CubePos { q: 0, r: 1, s: -1i64 },
        Directions::SouthWest => CubePos { q: -1i64, r: 1, s: 0 },
        Directions::NorthWest => CubePos { q: -1i64, r: 0, s: 1 },
    }
}

/// The vector towards the diagonal neighbour between the edges `d` and `d.next()`.
pub open spec fn cube_diagonal_dir_spec(d: Directions) -> CubePos {
    match d {
        Directions::North => CubePos { q: 1, r: -2i64, s: 1 },
        Directions::NorthEast => CubePos { q: 2, r: -1i64, s: -1i64 },
        Directions::SouthEast => CubePos { q: 1, r: 1, s: -2i64 },
        Directions::South => CubePos { q: -1i64, r: 2, s: -1i64 },
        Directions::SouthWest => CubePos { q: -2i64, r: 1, s: 1 },
        Directions::NorthWest => CubePos { q: -1i64, r: -1i64, s: 2 },
    }
}

/// The number of steps between two cube positions.
pub open spec fn cube_distance(a: CubePos, b: CubePos) -> int {
    (abs(a.q - b.q) + abs(a.r - b.r) + abs(a.s - b.s)) / 2
}

pub open spec fn abs(x: int) -> int {
    if x < 0 {
        -x
    } else {
        x
    }
}

/// The principal unit vector of `dir`.
pub fn cube_dir(dir: Directions) -> (res: CubePos)
    ensures
        res == cube_dir_spec(dir),
        res.wf(),
{
    match dir {
        Directions::North => CubePos { q: 0, r: -1i64, s: 1 },
        Directions::NorthEast => CubePos { q: 1, r: -1i64, s: 0 },
        Directions::SouthEast => CubePos { q: 1, r: 0, s: -1i64 },
        Directions::South => CubePos { q: 0, r: 1, s: -1i64 },
        Directions::SouthWest => CubePos { q: -1i64, r: 1, s: 0 },
        Directions::NorthWest => CubePos { q: -1i64, r: 0, s: 1 },
    }
}

/// The diagonal vector of `dir`.
pub fn cube_diagonal_dir(dir: Directions) -> (res: CubePos)
    ensures
        res == cube_diagonal_dir_spec(dir),
        res.wf(),
{
    match dir {
        Directions::North => CubePos { q: 1, r: -2i64, s: 1 },
        Directions::NorthEast => CubePos { q: 2, r: -1i64, s: -1i64 },
        Directions::SouthEast => CubePos { q: 1, r: 1, s: -2i64 },
        Directions::South => CubePos { q: -1i64, r: 2, s: -1i64 },
        Directions::SouthWest => CubePos { q: -2i64, r: 1, s: 1 },
        Directions::NorthWest => CubePos { q: -1i64, r: -1i64, s: 2 },
    }
}

/// The neighbour of `orig` across the edge `dir`.
pub fn cube_neighbor(orig: CubePos, dir: Directions) -> (res: CubePos)
    requires
        orig.can_add(cube_dir_spec(dir)),
    ensures
        res == orig.add_spec(cube_dir_spec(dir)),
        orig.wf() ==> res.wf(),
{
    orig.add(cube_dir(dir))
}

/// The diagonal neighbour of `orig` in the direction `dir`.
pub fn cube_diag_neighbor(orig: CubePos, dir: Directions) -> (res: CubePos)
    requires
        orig.can_add(cube_diagonal_dir_spec(dir)),
    ensures
        res == orig.add_spec(cube_diagonal_dir_spec(dir)),
        orig.wf() ==> res.wf(),
{
    orig.add(cube_diagonal_dir(dir))
}

/// The principal unit vector of `dir` in axial form.
pub fn axial_dir(dir: Directions) -> (res: AxialPos)
    ensures
        res == cube_dir_spec(dir).to_axial_spec(),
{
    match dir {
        Directions::North => AxialPos::new(0, -1),
        Directions::NorthEast => AxialPos::new(1, -1),
        Directions::SouthEast => AxialPos::new(1, 0),
        Directions::South => AxialPos::new(0, 1),
        Directions::SouthWest => AxialPos::new(-1, 1),
        Directions::NorthWest => AxialPos::new(-1, 0),
    }
}

/// The neighbour of `orig` across the edge `dir`, in axial form.
pub fn axial_neighbor(orig: AxialPos, dir: Directions) -> (res: AxialPos)
    requires
        orig.can_add(cube_dir_spec(dir).to_axial_spec()),
    ensures
        res == orig.add_spec(cube_dir_spec(dir).to_axial_spec()),
{
    orig.add(axial_dir(dir))
}

/// Adding `b` and then subtracting it again gives back `a`.
pub proof fn lemma_add_sub_inverse(a: CubePos, b: CubePos)
    requires
        a.wf(),
        b.wf(),
        a.can_add(b),
    ensures
        a.add_spec(b).can_sub(b),
        a.add_spec(b).sub_spec(b) == a,
{
}

/// A well-formed cube position survives the trip through axial form.
pub proof fn lemma_cube_axial_round_trip(a: CubePos)
    requires
        a.wf(),
    ensures
        a.to_axial_spec().can_cube(),
        a.to_axial_spec().to_cube_spec() == a,
{
}

/// Every axial position whose cube form is representable survives the trip
/// through cube form.
pub proof fn lemma_axial_cube_round_trip(a: AxialPos)
    requires
        a.can_cube(),
    ensures
        a.to_cube_spec().wf(),
        a.to_cube_spec().to_axial_spec() == a,
{
}

/// The six principal vectors sum to the zero vector.
pub proof fn lemma_principal_dirs_sum_zero()
    ensures
        cube_dir_spec(Directions::North).add_spec(cube_dir_spec(Directions::NorthEast)).add_spec(
            cube_dir_spec(Directions::SouthEast),
        ).add_spec(cube_dir_spec(Directions::South)).add_spec(
            cube_dir_spec(Directions::SouthWest),
        ).add_spec(cube_dir_spec(Directions::NorthWest)) == (CubePos { q: 0, r: 0, s: 0 }),
{
}

/// Each diagonal vector is the sum of the principal vectors of two adjacent
/// directions.
pub proof fn lemma_diagonal_is_adjacent_sum(d: Directions)
    ensures
        cube_diagonal_dir_spec(d) == cube_dir_spec(d).add_spec(cube_dir_spec(d.next())),
{
}

/// The neighbours of a position in two different directions differ, and each
/// lies one step away from it.
pub proof fn lemma_neighbors_distinct_unit(orig: CubePos, d1: Directions, d2: Directions)
    requires
        orig.wf(),
        orig.can_add(cube_dir_spec(d1)),
        orig.can_add(cube_dir_spec(d2)),
    ensures
        d1 != d2 ==> orig.add_spec(cube_dir_spec(d1)) != orig.add_spec(cube_dir_spec(d2)),
        cube_distance(orig, orig.add_spec(cube_dir_spec(d1))) == 1,
{
}

/// The sum of three components, computed without overflow.
fn q_r_s_sum(q: i64, r: i64, s: i64) -> (res: i128)
    ensures
        res == q + r + s,
{
    q as i128 + r as i128 + s as i128
}

} // verus!
