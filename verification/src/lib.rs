//! The base-cell topology layer of an icosahedral hierarchical hex grid.
//!
//! The sphere is tiled by 122 resolution-0 cells laid out on the 20
//! triangular faces of an icosahedron; 12 of them, sitting on the
//! icosahedron's vertices, are pentagonal.  This crate owns that topology:
//! cell identity and classification, each cell's home embedding, the
//! neighbor relation with its per-step rotation bookkeeping, the cross-face
//! rotation corrections, and the pentagon-specific direction-to-face
//! mappings.  Every query is a pure lookup into static tables, and the
//! combinatorial invariants the larger grid depends on are stated and proved
//! alongside the code.

pub mod base_cell;
pub mod coord;
pub mod direction;
pub mod error;
pub mod face;
pub mod tables;

pub use base_cell::BaseCell;
pub use base_cell::MAX;
pub use coord::CoordIJK;
pub use coord::FaceIJK;
pub use direction::Direction;
pub use error::InvalidBaseCell;
pub use face::Face;
