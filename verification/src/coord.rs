//! Cube coordinates on a face of the icosahedron.

use vstd::prelude::*;
use crate::face::Face;

verus! {

/// A 3-component cube coordinate `(i, j, k)` in a hex grid.
///
/// The coordinate algebra itself (addition, rotation, normalization) lives
/// outside this crate; base cells only store and hand out coordinates as
/// immutable values.
#[derive(Clone, Copy, Debug, PartialEq, Eq, Structural)]
pub struct CoordIJK {
    /// Component along the `i` axis.
    pub i: i32,
    /// Component along the `j` axis.
    pub j: i32,
    /// Component along the `k` axis.
    pub k: i32,
}

impl CoordIJK {
    /// Builds a coordinate from its three components.
    pub fn new(i: i32, j: i32, k: i32) -> (r: Self)
        ensures
            r.i == i,
            r.j == j,
            r.k == k,
    {
        Self { i, j, k }
    }
}

/// A cell position: a face together with a coordinate on that face's frame.
#[derive(Clone, Copy, Debug, PartialEq, Eq, Structural)]
pub struct FaceIJK {
    /// The face carrying the coordinate frame.
    pub face: Face,
    /// The `IJK` coordinate within that frame.
    pub coord: CoordIJK,
}

} // verus!
