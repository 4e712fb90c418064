//! Identifier for one of the 7 hex-grid step directions.

use vstd::prelude::*;

verus! {

/// Number of hex-grid step directions, the center included.
pub const NUM_DIRECTIONS: u8 = 7;

/// Index of the `K` axis direction.
///
/// This is the direction slot that pentagonal base cells leave empty: a
/// pentagon has only 5 edge neighbors, and the `K` slot is the reserved one.
pub const K_AXIS: u8 = 1;

/// Index of the `I` axis direction.
///
/// This is the direction through which every neighbor of a polar pentagon
/// reaches that pentagon.
pub const I_AXIS: u8 = 4;

/// One of the 7 hex-grid step directions.
///
/// Direction 0 is the center (no-op) direction; the other six are the radial
/// directions at 60° intervals, used as indexes into the neighbor and
/// rotation tables: `K` is 1, `J` is 2, `JK` is 3, `I` is 4, `IK` is 5 and
/// `IJ` is 6.
#[derive(Clone, Copy, Debug, PartialEq, Eq, Structural)]
pub struct Direction {
    value: u8,
}

impl View for Direction {
    type V = u8;

    closed spec fn view(&self) -> u8 {
        self.value
    }
}

impl Direction {
    /// The direction's numeric identifier is always below [`NUM_DIRECTIONS`].
    #[verifier::type_invariant]
    pub closed spec fn wf(self) -> bool {
        self.value < NUM_DIRECTIONS
    }

    /// Builds a direction from an identifier already known to be in range.
    pub fn new_unchecked(value: u8) -> (r: Self)
        requires
            value < NUM_DIRECTIONS,
        ensures
            r@ == value,
    {
        Self { value }
    }

    /// Returns the direction's numeric identifier, always below
    /// [`NUM_DIRECTIONS`].
    pub fn value(self) -> (r: u8)
        ensures
            r == self@,
            r < NUM_DIRECTIONS,
    {
        proof {
            use_type_invariant(self);
        }
        self.value
    }
}

} // verus!
