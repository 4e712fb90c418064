//! Identifier for one of the 20 triangular faces of the icosahedron.

use vstd::prelude::*;

verus! {

/// Number of triangular faces of the icosahedron.
pub const NUM_FACES: u8 = 20;

/// One of the 20 triangular faces of the icosahedron.
///
/// A face carries its own local 2D hex-grid coordinate frame; base cells
/// reference faces both for their home embedding and for cross-face rotation
/// corrections.
#[derive(Clone, Copy, Debug, PartialEq, Eq, Structural)]
pub struct Face {
    value: u8,
}

impl View for Face {
    type V = u8;

    closed spec fn view(&self) -> u8 {
        self.value
    }
}

impl Face {
    /// The face's numeric identifier is always below [`NUM_FACES`].
    #[verifier::type_invariant]
    pub closed spec fn wf(self) -> bool {
        self.value < NUM_FACES
    }

    /// Builds a face from an identifier already known to be in range.
    pub fn new_unchecked(value: u8) -> (r: Self)
        requires
            value < NUM_FACES,
        ensures
            r@ == value,
    {
        Self { value }
    }

    /// Returns the face's numeric identifier, always below [`NUM_FACES`].
    pub fn value(self) -> (r: u8)
        ensures
            r == self@,
            r < NUM_FACES,
    {
        proof {
            use_type_invariant(self);
        }
        self.value
    }
}

} // verus!
