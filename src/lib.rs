//! Hexagonal grid coordinates and a bounded tile map.
//!
//! Positions on the hex lattice are held as signed integers in cube form
//! `(q, r, s)` with `q + r + s == 0`, or in axial form `(q, r)`. The library
//! converts between these and the row/column offset layouts, derives
//! neighbours, and stores tiles of a rectangular map keyed by position.
pub mod error;
pub mod hex_pos;
pub mod map;
pub mod offset;

pub use error::GridError;
pub use hex_pos::{AxialPos, Axis, CubePos, Directions, Pos};
pub use map::{Data, GridShape, TileMap};
pub use offset::{HexOrientation, Offset, OffsetCoord, OffsetPos};
