use vstd::prelude::*;

use crate::error::GridError;
use crate::hex_pos::CubePos;
use crate::offset::floor_half;

verus! {

/// What a tile holds.
#[derive(Clone, Copy, Debug, PartialEq, Eq, Structural, Hash)]
pub struct Data {
    /// Whether the tile can be moved onto.
    pub traversable: bool,
    /// Whether the tile has water.
    pub water: bool,
    /// Elevation, as the bit pattern of an IEEE 754 double; `0` is `+0.0`.
    pub elevation_bits: u64,
    /// Terrain cost for path finding.
    pub terrain: i32,
}

/// Not traversable, no water, zero elevation, zero cost.
pub open spec fn default_data() -> Data {
    Data { traversable: false, water: false, elevation_bits: 0, terrain: 0 }
}

impl Default for Data {
    fn default() -> (res: Data)
        ensures
            res == default_data(),
    {
        Data { traversable: false, water: false, elevation_bits: 0, terrain: 0 }
    }
}

/// The outline of a map.
#[derive(Clone, Copy, Debug, PartialEq, Eq, Structural, Hash)]
pub enum GridShape {
    /// A rectangle of flat-top hexagons: columns are staggered.
    Rectangle,
    /// A rectangle of pointy-top hexagons: rows are staggered.
    RectanglePointy,
    Hexagon,
    Rhombus,
}

impl Default for GridShape {
    fn default() -> (res: GridShape)
        ensures
            res == GridShape::Rectangle,
    {
        GridShape::Rectangle
    }
}

/// Whether `p` is a tile of the `w` by `h` rectangle of flat-top hexagons:
/// column `q` holds the rows shifted back by half of `q`.
pub open spec fn in_flat_rect(p: CubePos, w: int, h: int) -> bool {
    &&& p.wf()
    &&& 0 <= p.q < w
    &&& -floor_half(p.q as int) <= p.r < h - floor_half(p.q as int)
}

/// Whether `p` is a tile of the `w` by `h` rectangle of pointy-top hexagons:
/// row `r` holds the columns shifted back by half of `r`.
pub open spec fn in_pointy_rect(p: CubePos, w: int, h: int) -> bool {
    &&& p.wf()
    &&& 0 <= p.r < h
    &&& -floor_half(p.r as int) <= p.q < w - floor_half(p.r as int)
}

/// Whether `p` lies in `[0, w) x [0, h)` on its `q` and `r` axes.
pub open spec fn in_bounds(p: CubePos, dims: (i64, i64)) -> bool {
    0 <= p.q < dims.0 && 0 <= p.r < dims.1
}

/// The number of tiles of a `w` by `h` rectangle.
pub open spec fn rect_count(w: int, h: int) -> int {
    if w > 0 && h > 0 {
        w * h
    } else {
        0
    }
}

/// Whether every tile of a `w` by `h` rectangle has representable coordinates.
pub open spec fn rect_fits(w: int, h: int) -> bool {
    w <= 0 || h <= 0 || w + h <= i64::MAX
}

/// The positions of a sequence of tiles.
pub open spec fn keys_of(s: Seq<(CubePos, Data)>) -> Seq<CubePos> {
    s.map_values(|e: (CubePos, Data)| e.0)
}

/// Appending a tile at a new position keeps the positions distinct, and the
/// positions held afterwards are those held before and the new one.
proof fn lemma_push_key(s: Seq<(CubePos, Data)>, e: (CubePos, Data))
    requires
        keys_of(s).no_duplicates(),
        !keys_of(s).contains(e.0),
    ensures
        keys_of(s.push(e)) == keys_of(s).push(e.0),
        keys_of(s.push(e)).no_duplicates(),
        forall|p: CubePos| keys_of(s.push(e)).contains(p) <==> (keys_of(s).contains(p) || p == e.0),
{
    let ks = keys_of(s);
    assert(keys_of(s.push(e)) =~= ks.push(e.0));
    assert forall|p: CubePos| ks.push(e.0).contains(p) implies (ks.contains(p) || p == e.0) by {
        let i = choose|i: int| 0 <= i < ks.push(e.0).len() && ks.push(e.0)[i] == p;
        if i < ks.len() {
            assert(ks[i] == p);
        }
    }
    assert forall|p: CubePos| ks.contains(p) implies ks.push(e.0).contains(p) by {
        let i = choose|i: int| 0 <= i < ks.len() && ks[i] == p;
        assert(ks.push(e.0)[i] == p);
    }
    assert(ks.push(e.0)[ks.len() as int] == e.0);
}

/// Fills `tiles` with the `w` by `h` rectangle of flat-top hexagons, column
/// by column.
fn init_flat_rect(tiles: &mut Vec<(CubePos, Data)>, w: i64, h: i64)
    requires
        old(tiles)@.len() == 0,
        w > 0,
        h > 0,
        w + h <= i64::MAX,
    ensures
        final(tiles)@.len() == w * h,
        keys_of(final(tiles)@).no_duplicates(),
        forall|p: CubePos| keys_of(final(tiles)@).contains(p) <==> in_flat_rect(p, w as int, h as int),
        forall|i: int| 0 <= i < final(tiles)@.len() ==> (#[trigger] final(tiles)@[i]).1 == default_data(),
{
    let mut q: i64 = 0;
    while q < w
        invariant
            0 <= q <= w,
            h > 0,
            w + h <= i64::MAX,
            tiles@.len() == q * h,
            keys_of(tiles@).no_duplicates(),
            forall|p: CubePos| keys_of(tiles@).contains(p) <==> (in_flat_rect(p, w as int, h as int) && p.q < q),
            forall|i: int| 0 <= i < tiles@.len() ==> (#[trigger] tiles@[i]).1 == default_data(),
        decreases w - q,
    {
        let shift: i64 = q / 2;
        let start: i64 = 0 - shift;
        let end: i64 = h - shift;
        let mut r: i64 = start;
        while r < end
            invariant
                0 <= q < w,
                h > 0,
                w + h <= i64::MAX,
                shift == floor_half(q as int),
                start == -shift,
                end == h - shift,
                start <= r <= end,
                tiles@.len() == q * h + (r - start),
                keys_of(tiles@).no_duplicates(),
                forall|p: CubePos| keys_of(tiles@).contains(p) <==> (in_flat_rect(p, w as int, h as int) && (p.q < q || (p.q == q && p.r < r))),
                forall|i: int| 0 <= i < tiles@.len() ==> (#[trigger] tiles@[i]).1 == default_data(),
            decreases end - r,
        {
            let pos = CubePos { q, r, s: 0 - q - r };
            proof {
                if keys_of(tiles@).contains(pos) {
                    assert(in_flat_rect(pos, w as int, h as int) && (pos.q < q || (pos.q == q && pos.r < r)));
                }
                lemma_push_key(tiles@, (pos, default_data()));
            }
            tiles.push((pos, Data::default()));
            r = r + 1;
        }
        proof {
            assert((q + 1) * h == q * h + h) by (nonlinear_arith);
        }
        q = q + 1;
    }
}

/// Fills `tiles` with the `w` by `h` rectangle of pointy-top hexagons, row
/// by row.
fn init_pointy_rect(tiles: &mut Vec<(CubePos, Data)>, w: i64, h: i64)
    requires
        old(tiles)@.len() == 0,
        w > 0,
        h > 0,
        w + h <= i64::MAX,
    ensures
        final(tiles)@.len() == w * h,
        keys_of(final(tiles)@).no_duplicates(),
        forall|p: CubePos| keys_of(final(tiles)@).contains(p) <==> in_pointy_rect(p, w as int, h as int),
        forall|i: int| 0 <= i < final(tiles)@.len() ==> (#[trigger] final(tiles)@[i]).1 == default_data(),
{
    let mut r: i64 = 0;
    while r < h
        invariant
            0 <= r <= h,
            w > 0,
            w + h <= i64::MAX,
            tiles@.len() == r * w,
            keys_of(tiles@).no_duplicates(),
            forall|p: CubePos| keys_of(tiles@).contains(p) <==> (in_pointy_rect(p, w as int, h as int) && p.r < r),
            forall|i: int| 0 <= i < tiles@.len() ==> (#[trigger] tiles@[i]).1 == default_data(),
        decreases h - r,
    {
        let shift: i64 = r / 2;
        let start: i64 = 0 - shift;
        let end: i64 = w - shift;
        let mut q: i64 = start;
        while q < end
            invariant
                0 <= r < h,
                w > 0,
                w + h <= i64::MAX,
                shift == floor_half(r as int),
                start == -shift,
                end == w - shift,
                start <= q <= end,
                tiles@.len() == r * w + (q - start),
                keys_of(tiles@).no_duplicates(),
                forall|p: CubePos| keys_of(tiles@).contains(p) <==> (in_pointy_rect(p, w as int, h as int) && (p.r < r || (p.r == r && p.q < q))),
                forall|i: int| 0 <= i < tiles@.len() ==> (#[trigger] tiles@[i]).1 == default_data(),
            decreases end - q,
        {
            let pos = CubePos { q, r, s: 0 - q - r };
            proof {
                if keys_of(tiles@).contains(pos) {
                    assert(in_pointy_rect(pos, w as int, h as int) && (pos.r < r || (pos.r == r && pos.q < q)));
                }
                lemma_push_key(tiles@, (pos, default_data()));
            }
            tiles.push((pos, Data::default()));
            q = q + 1;
        }
        proof {
            assert((r + 1) * w == r * w + w) by (nonlinear_arith);
        }
        r = r + 1;
    }
    proof {
        assert(h * w == w * h) by (nonlinear_arith);
    }
}

/// A bounded map of tiles keyed by cube position.
pub struct TileMap {
    shape: GridShape,
    tiles: Vec<(CubePos, Data)>,
    dimensions: (i64, i64),
}

impl TileMap {
    /// No two tiles share a position.
    pub closed spec fn wf(&self) -> bool {
        keys_of(self.tiles@).no_duplicates()
    }

    pub closed spec fn shape_spec(&self) -> GridShape {
        self.shape
    }

    pub closed spec fn dimensions_spec(&self) -> (i64, i64) {
        self.dimensions
    }

    /// The number of tiles.
    pub closed spec fn len_spec(&self) -> nat {
        self.tiles@.len()
    }

    /// The tiles, keyed by position.
    pub closed spec fn view(&self) -> Map<CubePos, Data> {
        let ks = keys_of(self.tiles@);
        Map::new(|p: CubePos| ks.contains(p), |p: CubePos| self.tiles@[ks.index_of(p)].1)
    }

    /// Makes the map of the given shape and dimensions, every tile holding
    /// the default data. Only the two rectangles can be generated.
    pub fn new(shape: GridShape, width: i64, height: i64) -> (res: Result<TileMap, GridError>)
        requires
            rect_fits(width as int, height as int),
        ensures
            (shape == GridShape::Hexagon || shape == GridShape::Rhombus) ==> res
                == Err::<TileMap, GridError>(GridError::NotImplemented),
            (shape == GridShape::Rectangle || shape == GridShape::RectanglePointy) ==> res is Ok,
            res matches Ok(m) ==> {
                &&& m.wf()
                &&& m.shape_spec() == shape
                &&& m.dimensions_spec() == (width, height)
                &&& m.len_spec() == rect_count(width as int, height as int)
                &&& forall|p: CubePos| #[trigger]
                    m@.contains_key(p) <==> if shape == GridShape::Rectangle {
                        in_flat_rect(p, width as int, height as int)
                    } else {
                        in_pointy_rect(p, width as int, height as int)
                    }
                &&& forall|p: CubePos| #[trigger] m@.contains_key(p) ==> m@[p] == default_data()
            },
    {
        let mut tiles: Vec<(CubePos, Data)> = Vec::new();
        match shape {
            GridShape::Rectangle => {
                if width > 0 && height > 0 {
                    init_flat_rect(&mut tiles, width, height);
                }
            },
            GridShape::RectanglePointy => {
                if width > 0 && height > 0 {
                    init_pointy_rect(&mut tiles, width, height);
                }
            },
            GridShape::Hexagon => {
                return Err(GridError::NotImplemented);
            },
            GridShape::Rhombus => {
                return Err(GridError::NotImplemented);
            },
        }
        let m = TileMap { shape, tiles, dimensions: (width, height) };
        proof {
            let ks = keys_of(m.tiles@);
            assert forall|p: CubePos| #[trigger] m@.contains_key(p) implies m@[p] == default_data() by {
                let i = ks.index_of(p);
                assert(m.tiles@[i].1 == default_data());
            }
        }
        Ok(m)
    }

    /// The index of the tile at `pos`, if there is one.
    fn find(&self, pos: CubePos) -> (res: Option<usize>)
        ensures
            res matches Some(i) ==> i < self.tiles@.len() && self.tiles@[i as int].0 == pos,
            res is None ==> !keys_of(self.tiles@).contains(pos),
    {
        let mut i: usize = 0;
        while i < self.tiles.len()
            invariant
                i <= self.tiles@.len(),
                forall|j: int| 0 <= j < i ==> (#[trigger] self.tiles@[j]).0 != pos,
            decreases self.tiles@.len() - i,
        {
            if self.tiles[i].0 == pos {
                return Some(i);
            }
            i = i + 1;
        }
        proof {
            if keys_of(self.tiles@).contains(pos) {
                let j = keys_of(self.tiles@).index_of(pos);
                assert(self.tiles@[j].0 == pos);
            }
        }
        None
    }

    /// The data of the tile at `pos`: `OutOfBounds` where `pos` lies outside
    /// `[0, width) x [0, height)` on its `q` or `r` axis, else the tile's data
    /// if the map holds one there.
    pub fn get(&self, pos: CubePos) -> (res: Result<Option<Data>, GridError>)
        requires
            self.wf(),
        ensures
            !in_bounds(pos, self.dimensions_spec()) ==> res == Err::<Option<Data>, GridError>(
                GridError::OutOfBounds,
            ),
            in_bounds(pos, self.dimensions_spec()) ==> res == Ok::<Option<Data>, GridError>(
                if self@.contains_key(pos) {
                    Some(self@[pos])
                } else {
                    None
                },
            ),
    {
        if !self.in_bounds(pos) {
            return Err(GridError::OutOfBounds);
        }
        match self.find(pos) {
            Some(i) => {
                proof {
                    self.lemma_index_of(i as int);
                }
                Ok(Some(self.tiles[i].1))
            },
            None => Ok(None),
        }
    }

    /// Replaces the data of the tile at `pos` and returns what it held.
    /// `OutOfBounds` where `pos` lies outside the map's dimensions; `None`,
    /// and no change, where the map holds no tile there.
    pub fn set(&mut self, pos: CubePos, data: Data) -> (res: Result<Option<Data>, GridError>)
        requires
            old(self).wf(),
        ensures
            final(self).wf(),
            final(self).shape_spec() == old(self).shape_spec(),
            final(self).dimensions_spec() == old(self).dimensions_spec(),
            final(self).len_spec() == old(self).len_spec(),
            !in_bounds(pos, old(self).dimensions_spec()) ==> res == Err::<Option<Data>, GridError>(
                GridError::OutOfBounds,
            ) && final(self)@ == old(self)@,
            in_bounds(pos, old(self).dimensions_spec()) && !old(self)@.contains_key(pos) ==> res
                == Ok::<Option<Data>, GridError>(None) && final(self)@ == old(self)@,
            in_bounds(pos, old(self).dimensions_spec()) && old(self)@.contains_key(pos) ==> res
                == Ok::<Option<Data>, GridError>(Some(old(self)@[pos])) && final(self)@ == old(
                self,
            )@.insert(pos, data),
    {
        if !self.in_bounds(pos) {
            return Err(GridError::OutOfBounds);
        }
        match self.find(pos) {
            Some(i) => {
                proof {
                    self.lemma_index_of(i as int);
                }
                let prev = self.tiles[i].1;
                let ghost before = *self;
                self.tiles.set(i, (pos, data));
                proof {
                    let ks0 = keys_of(before.tiles@);
                    let ks1 = keys_of(self.tiles@);
                    assert(ks1 =~= ks0);
                    assert forall|p: CubePos| #[trigger] self@.contains_key(p) implies self@[p]
                        == before@.insert(pos, data)[p] by {
                        if p != pos {
                            before.lemma_index_of(ks0.index_of(p));
                        } else {
                            self.lemma_index_of(i as int);
                        }
                    }
                    assert(self@ =~= before@.insert(pos, data));
                }
                Ok(Some(prev))
            },
            None => Ok(None),
        }
    }

    /// Whether `pos` lies within the map's dimensions.
    fn in_bounds(&self, pos: CubePos) -> (res: bool)
        ensures
            res == in_bounds(pos, self.dimensions_spec()),
    {
        0 <= pos.q && pos.q < self.dimensions.0 && 0 <= pos.r && pos.r < self.dimensions.1
    }

    /// The tile stored at index `i` is the one the map holds at its position.
    proof fn lemma_index_of(&self, i: int)
        requires
            self.wf(),
            0 <= i < self.tiles@.len(),
        ensures
            self@.contains_key(self.tiles@[i].0),
            self@[self.tiles@[i].0] == self.tiles@[i].1,
    {
        let ks = keys_of(self.tiles@);
        assert(ks[i] == self.tiles@[i].0);
        let j = ks.index_of(self.tiles@[i].0);
        assert(ks[j] == ks[i]);
    }

    /// The tiles of a map sit at distinct positions: it holds as many
    /// positions as tiles.
    pub proof fn lemma_tile_count(&self)
        requires
            self.wf(),
        ensures
            self@.dom().finite(),
            self@.dom().len() == self.len_spec(),
    {
        let ks = keys_of(self.tiles@);
        ks.unique_seq_to_set();
        assert(self@.dom() =~= ks.to_set());
    }

    /// The positions of all tiles, each once.
    pub fn positions(&self) -> (res: Vec<CubePos>)
        requires
            self.wf(),
        ensures
            res@.len() == self.len_spec(),
            res@.no_duplicates(),
            forall|p: CubePos| res@.contains(p) <==> self@.contains_key(p),
    {
        let mut res: Vec<CubePos> = Vec::new();
        let mut i: usize = 0;
        while i < self.tiles.len()
            invariant
                i <= self.tiles@.len(),
                res@ == keys_of(self.tiles@).subrange(0, i as int),
            decreases self.tiles@.len() - i,
        {
            res.push(self.tiles[i].0);
            proof {
                assert(keys_of(self.tiles@).subrange(0, i + 1) =~= keys_of(self.tiles@).subrange(
                    0,
                    i as int,
                ).push(self.tiles@[i as int].0));
            }
            i = i + 1;
        }
        proof {
            assert(res@ =~= keys_of(self.tiles@));
        }
        res
    }

    pub fn shape(&self) -> (res: GridShape)
        ensures
            res == self.shape_spec(),
    {
        self.shape
    }

    /// The `(width, height)` the map was made with.
    pub fn dimensions(&self) -> (res: (i64, i64))
        ensures
            res == self.dimensions_spec(),
    {
        self.dimensions
    }

    /// The number of tiles.
    pub fn len(&self) -> (res: usize)
        ensures
            res == self.len_spec(),
    {
        self.tiles.len()
    }
}

} // verus!
