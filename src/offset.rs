use vstd::prelude::*;

use crate::hex_pos::{fits_i64, AxialPos};

verus! {

/// Whether hexagons stand on a corner (pointy top) or on an edge (flat top).
#[derive(Clone, Copy, Debug, PartialEq, Eq, Structural, Hash)]
pub enum HexOrientation {
    Pointy,
    Flat,
}

/// A column and row on a staggered grid.
#[derive(Clone, Copy, Debug, PartialEq, Eq, Structural, Hash)]
pub struct OffsetPos {
    pub x: i64,
    pub y: i64,
}

/// Which rows (or columns) are shoved by half a hexagon: the odd or the even ones.
#[derive(Clone, Copy, Debug, PartialEq, Eq, Structural, Hash)]
pub enum Offset {
    Odd(OffsetPos),
    Even(OffsetPos),
}

/// An offset position under its layout: pointy-top hexagons stagger rows,
/// flat-top hexagons stagger columns.
#[derive(Clone, Copy, Debug, PartialEq, Eq, Structural, Hash)]
pub enum OffsetCoord {
    Pointy(Offset),
    Flat(Offset),
}

/// `x / 2` rounded down.
pub open spec fn floor_half(x: int) -> int {
    x / 2
}

/// `x / 2` rounded up.
pub open spec fn ceil_half(x: int) -> int {
    (x + 1) / 2
}

impl Offset {
    pub open spec fn pos(self) -> OffsetPos {
        match self {
            Offset::Odd(p) => p,
            Offset::Even(p) => p,
        }
    }

    /// The same parity with another position.
    pub open spec fn with_pos(self, p: OffsetPos) -> Offset {
        match self {
            Offset::Odd(_) => Offset::Odd(p),
            Offset::Even(_) => Offset::Even(p),
        }
    }

    /// How far the line numbered `n` is shoved back against its neighbours.
    pub open spec fn shift(self, n: int) -> int {
        match self {
            Offset::Odd(_) => floor_half(n),
            Offset::Even(_) => ceil_half(n),
        }
    }
}

impl OffsetCoord {
    pub open spec fn offset(self) -> Offset {
        match self {
            OffsetCoord::Pointy(o) => o,
            OffsetCoord::Flat(o) => o,
        }
    }

    pub open spec fn pos(self) -> OffsetPos {
        self.offset().pos()
    }

    /// The same layout with another position.
    pub open spec fn with_pos(self, p: OffsetPos) -> OffsetCoord {
        match self {
            OffsetCoord::Pointy(o) => OffsetCoord::Pointy(o.with_pos(p)),
            OffsetCoord::Flat(o) => OffsetCoord::Flat(o.with_pos(p)),
        }
    }

    /// The axial `(q, r)` of this offset position, as integers.
    pub open spec fn axial_ints(self) -> (int, int) {
        let p = self.pos();
        match self {
            OffsetCoord::Pointy(o) => (p.x - o.shift(p.y as int), p.y as int),
            OffsetCoord::Flat(o) => (p.x as int, p.y - o.shift(p.x as int)),
        }
    }

    /// Whether the axial form of this position is representable.
    pub open spec fn can_axial(self) -> bool {
        fits_i64(self.axial_ints().0) && fits_i64(self.axial_ints().1)
    }

    pub open spec fn to_axial_spec(self) -> AxialPos {
        AxialPos { q: self.axial_ints().0 as i64, r: self.axial_ints().1 as i64 }
    }

    /// The offset `(x, y)` of `a` under this layout, as integers.
    pub open spec fn offset_ints(self, a: AxialPos) -> (int, int) {
        match self {
            OffsetCoord::Pointy(o) => (a.q + o.shift(a.r as int), a.r as int),
            OffsetCoord::Flat(o) => (a.q as int, a.r + o.shift(a.q as int)),
        }
    }

    /// Whether the offset form of `a` under this layout is representable.
    pub open spec fn can_offset(self, a: AxialPos) -> bool {
        fits_i64(self.offset_ints(a).0) && fits_i64(self.offset_ints(a).1)
    }

    /// `a` in this layout.
    pub open spec fn from_axial_spec(self, a: AxialPos) -> OffsetCoord {
        self.with_pos(
            OffsetPos { x: self.offset_ints(a).0 as i64, y: self.offset_ints(a).1 as i64 },
        )
    }
}

/// `x / 2` rounded down.
fn half_down(x: i64) -> (res: i64)
    ensures
        res == floor_half(x as int),
{
    if x >= 0 {
        x / 2
    } else {
        let y: i64 = -(x + 1);
        -(y / 2) - 1
    }
}

/// `x / 2` rounded up.
fn half_up(x: i64) -> (res: i64)
    ensures
        res == ceil_half(x as int),
{
    x - half_down(x)
}

/// The shift of the line numbered `n` under the parity of `o`.
fn shift_of(o: &Offset, n: i64) -> (res: i64)
    ensures
        res == o.shift(n as int),
{
    match o {
        Offset::Odd(_) => half_down(n),
        Offset::Even(_) => half_up(n),
    }
}

/// The axial position of an offset position under its layout.
pub fn axial_from_offset(val: OffsetCoord) -> (res: AxialPos)
    requires
        val.can_axial(),
    ensures
        res == val.to_axial_spec(),
{
    match val {
        OffsetCoord::Pointy(o) => {
            let p = match o {
                Offset::Odd(p) => p,
                Offset::Even(p) => p,
            };
            AxialPos::new(p.x - shift_of(&o, p.y), p.y)
        },
        OffsetCoord::Flat(o) => {
            let p = match o {
                Offset::Odd(p) => p,
                Offset::Even(p) => p,
            };
            AxialPos::new(p.x, p.y - shift_of(&o, p.x))
        },
    }
}

/// The offset position of `pos` under the layout of `val`; the position that
/// `val` holds is not read.
pub fn axial_to_offset(pos: AxialPos, val: OffsetCoord) -> (res: OffsetCoord)
    requires
        val.can_offset(pos),
    ensures
        res == val.from_axial_spec(pos),
{
    match val {
        OffsetCoord::Pointy(o) => {
            let p = OffsetPos { x: pos.q + shift_of(&o, pos.r), y: pos.r };
            match o {
                Offset::Odd(_) => OffsetCoord::Pointy(Offset::Odd(p)),
                Offset::Even(_) => OffsetCoord::Pointy(Offset::Even(p)),
            }
        },
        OffsetCoord::Flat(o) => {
            let p = OffsetPos { x: pos.q, y: pos.r + shift_of(&o, pos.q) };
            match o {
                Offset::Odd(_) => OffsetCoord::Flat(Offset::Odd(p)),
                Offset::Even(_) => OffsetCoord::Flat(Offset::Even(p)),
            }
        },
    }
}

/// Converting an offset position to axial form and back under the same layout
/// gives it back unchanged.
pub proof fn lemma_offset_round_trip(val: OffsetCoord)
    requires
        val.can_axial(),
    ensures
        val.can_offset(val.to_axial_spec()),
        val.from_axial_spec(val.to_axial_spec()) == val,
{
}

/// Converting an axial position to offset form and back under the same layout
/// gives it back unchanged.
pub proof fn lemma_axial_offset_round_trip(a: AxialPos, layout: OffsetCoord)
    requires
        layout.can_offset(a),
    ensures
        layout.from_axial_spec(a).can_axial(),
        layout.from_axial_spec(a).to_axial_spec() == a,
{
}

} // verus!
