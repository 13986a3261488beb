use vstd::prelude::*;

verus! {

/// The conditions under which an operation of this library refuses its input.
#[derive(Clone, Copy, Debug, PartialEq, Eq, Structural)]
pub enum GridError {
    /// A cube position whose three components do not sum to zero.
    InvalidCoordinate,
    /// A map shape for which no generation algorithm exists.
    NotImplemented,
    /// A tile access outside the map's declared dimensions.
    OutOfBounds,
}

} // verus!
