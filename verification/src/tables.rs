//! The static topology tables of the 122 base cells.
//!
//! The tables are the source of truth for the base-cell layer: they were
//! precomputed once from the cartographic derivation of the icosahedral grid
//! and are embedded here as constant data.  The lemmas in
//! [`crate::base_cell`] establish the combinatorial invariants that the rest
//! of the grid system depends on (neighbor symmetry, pentagon edge counts,
//! rotation ranges).

use vstd::prelude::*;

verus! {

/// Value marking an absent neighbor in [`NEIGHBORS`], and an undefined
/// rotation in [`NEIGHBOR_ROTATIONS`].
pub const NO_NEIGHBOR: u8 = 255;

/// Value marking, in [`FACE_ROTATIONS`], a face on which a base cell has no
/// presence.
pub const NO_PRESENCE: u8 = 7;

/// Value marking an absent face in [`CW_OFFSET_FACES`].
pub const NO_FACE: u8 = 255;

/// Bitmap of the pentagonal base cells: bit `v` is set exactly when base
/// cell `v` is pentagonal.
pub const BASE_PENTAGONS: u128 = 0x0020_0802_0008_0100_8402_0040_0100_4010;

/// The 12 pentagonal base cells, in ascending order.
///
/// The position of a pentagon in this list is its index into
/// [`PENTAGON_DIRECTION_FACES`].
pub const PENTAGONS: [u8; 12] = [4, 14, 24, 38, 49, 58, 63, 72, 83, 97, 107, 117];

/// Home face of each base cell.
#[verifier::opaque]
pub const HOME_FACES: [u8; 122] = [
    1, 2, 1, 2, 0, 1, 1, 2, 0, 2, 1, 1, 3, 3, 11, 4, 0, 6, 0, 2, 7, 2, 0, 6,
    10, 6, 3, 11, 4, 3, 0, 4, 5, 0, 7, 11, 7, 10, 12, 6, 7, 4, 3, 3, 4, 6,
    11, 8, 5, 14, 5, 12, 10, 4, 12, 7, 11, 10, 13, 10, 11, 9, 8, 6, 8, 9, 14,
    5, 16, 8, 5, 12, 7, 12, 10, 9, 13, 16, 15, 15, 16, 14, 13, 5, 8, 14, 9,
    14, 17, 12, 16, 17, 15, 16, 9, 15, 13, 8, 13, 17, 19, 14, 19, 17, 13, 17,
    16, 9, 15, 15, 18, 18, 19, 17, 19, 18, 18, 19, 19, 18, 19, 18,
];

/// `IJK` coordinate of each base cell's center on its home face.
#[verifier::opaque]
pub const HOME_COORDS: [[i32; 3]; 122] = [
    [1, 0, 0],
    [1, 1, 0],
    [0, 0, 0],
    [1, 0, 0],
    [2, 0, 0],
    [1, 1, 0],
    [0, 0, 1],
    [0, 0, 0],
    [1, 0, 0],
    [0, 1, 0],
    [0, 1, 0],
    [0, 1, 1],
    [1, 0, 0],
    [1, 1, 0],
    [2, 0, 0],
    [1, 0, 0],
    [0, 0, 0],
    [0, 1, 0],
    [0, 0, 1],
    [0, 1, 1],
    [0, 0, 1],
    [0, 0, 1],
    [1, 1, 0],
    [0, 0, 1],
    [2, 0, 0],
    [0, 0, 0],
    [0, 0, 0],
    [1, 0, 0],
    [1, 1, 0],
    [0, 1, 0],
    [0, 1, 1],
    [0, 0, 0],
    [0, 1, 0],
    [0, 1, 0],
    [0, 1, 0],
    [1, 1, 0],
    [0, 0, 0],
    [1, 0, 0],
    [2, 0, 0],
    [1, 0, 1],
    [1, 0, 1],
    [0, 0, 1],
    [0, 0, 1],
    [0, 1, 1],
    [0, 1, 0],
    [1, 0, 0],
    [0, 0, 0],
    [0, 0, 1],
    [0, 0, 1],
    [2, 0, 0],
    [0, 0, 0],
    [1, 0, 0],
    [1, 1, 0],
    [0, 1, 1],
    [1, 1, 0],
    [1, 0, 0],
    [0, 1, 0],
    [0, 0, 0],
    [2, 0, 0],
    [0, 0, 1],
    [0, 0, 1],
    [0, 1, 0],
    [0, 1, 0],
    [2, 0, 0],
    [0, 0, 0],
    [0, 0, 1],
    [1, 0, 0],
    [1, 0, 1],
    [0, 1, 1],
    [1, 0, 1],
    [1, 0, 0],
    [0, 0, 0],
    [2, 0, 0],
    [0, 1, 0],
    [0, 1, 0],
    [0, 0, 0],
    [1, 0, 0],
    [0, 0, 1],
    [0, 1, 1],
    [0, 1, 0],
    [0, 1, 0],
    [1, 1, 0],
    [1, 1, 0],
    [2, 0, 0],
    [1, 0, 0],
    [0, 0, 0],
    [1, 0, 1],
    [0, 0, 1],
    [0, 0, 1],
    [0, 0, 1],
    [0, 0, 0],
    [0, 1, 1],
    [0, 0, 1],
    [1, 0, 1],
    [1, 0, 0],
    [0, 0, 0],
    [0, 0, 0],
    [2, 0, 0],
    [0, 1, 0],
    [1, 0, 1],
    [0, 1, 0],
    [0, 1, 0],
    [0, 1, 1],
    [0, 1, 0],
    [0, 0, 1],
    [0, 0, 0],
    [1, 0, 0],
    [2, 0, 0],
    [1, 0, 1],
    [1, 0, 0],
    [0, 1, 1],
    [0, 0, 1],
    [0, 0, 1],
    [1, 0, 0],
    [0, 0, 0],
    [0, 1, 0],
    [1, 0, 1],
    [2, 0, 0],
    [1, 0, 0],
    [0, 0, 0],
    [1, 0, 1],
    [1, 0, 0],
];

/// For each base cell, the two faces that take a clockwise coordinate offset
/// when this cell's area is projected onto them, or `[NO_FACE, NO_FACE]`
/// when the cell has no such distortion mode.
///
/// Only 10 of the 12 pentagons carry an offset pair; every hexagonal cell and
/// the two polar pentagons carry the sentinel.
#[verifier::opaque]
pub const CW_OFFSET_FACES: [[u8; 2]; 122] = [
    [255, 255],
    [255, 255],
    [255, 255],
    [255, 255],
    [255, 255],
    [255, 255],
    [255, 255],
    [255, 255],
    [255, 255],
    [255, 255],
    [255, 255],
    [255, 255],
    [255, 255],
    [255, 255],
    [2, 6],
    [255, 255],
    [255, 255],
    [255, 255],
    [255, 255],
    [255, 255],
    [255, 255],
    [255, 255],
    [255, 255],
    [255, 255],
    [1, 5],
    [255, 255],
    [255, 255],
    [255, 255],
    [255, 255],
    [255, 255],
    [255, 255],
    [255, 255],
    [255, 255],
    [255, 255],
    [255, 255],
    [255, 255],
    [255, 255],
    [255, 255],
    [3, 7],
    [255, 255],
    [255, 255],
    [255, 255],
    [255, 255],
    [255, 255],
    [255, 255],
    [255, 255],
    [255, 255],
    [255, 255],
    [255, 255],
    [0, 9],
    [255, 255],
    [255, 255],
    [255, 255],
    [255, 255],
    [255, 255],
    [255, 255],
    [255, 255],
    [255, 255],
    [4, 8],
    [255, 255],
    [255, 255],
    [255, 255],
    [255, 255],
    [11, 15],
    [255, 255],
    [255, 255],
    [255, 255],
    [255, 255],
    [255, 255],
    [255, 255],
    [255, 255],
    [255, 255],
    [12, 16],
    [255, 255],
    [255, 255],
    [255, 255],
    [255, 255],
    [255, 255],
    [255, 255],
    [255, 255],
    [255, 255],
    [255, 255],
    [255, 255],
    [10, 19],
    [255, 255],
    [255, 255],
    [255, 255],
    [255, 255],
    [255, 255],
    [255, 255],
    [255, 255],
    [255, 255],
    [255, 255],
    [255, 255],
    [255, 255],
    [255, 255],
    [255, 255],
    [13, 17],
    [255, 255],
    [255, 255],
    [255, 255],
    [255, 255],
    [255, 255],
    [255, 255],
    [255, 255],
    [255, 255],
    [255, 255],
    [14, 18],
    [255, 255],
    [255, 255],
    [255, 255],
    [255, 255],
    [255, 255],
    [255, 255],
    [255, 255],
    [255, 255],
    [255, 255],
    [255, 255],
    [255, 255],
    [255, 255],
    [255, 255],
    [255, 255],
];

/// Neighboring base cell of each base cell in each direction.
///
/// Rows are indexed by base cell, columns by direction.  Column 0 (the
/// center direction) is the cell itself; [`NO_NEIGHBOR`] appears exactly in
/// the `K` column of the 12 pentagonal cells.
#[verifier::opaque]
pub const NEIGHBORS: [[u8; 7]; 122] = [
    [0, 1, 5, 2, 4, 3, 8],
    [1, 7, 6, 9, 0, 3, 2],
    [2, 6, 10, 11, 0, 1, 5],
    [3, 13, 1, 7, 4, 12, 0],
    [4, 255, 15, 8, 3, 0, 12],
    [5, 2, 18, 10, 8, 0, 16],
    [6, 14, 11, 17, 1, 9, 2],
    [7, 21, 9, 19, 3, 13, 1],
    [8, 5, 22, 16, 4, 0, 15],
    [9, 19, 14, 20, 1, 7, 6],
    [10, 11, 24, 23, 5, 2, 18],
    [11, 17, 23, 25, 2, 6, 10],
    [12, 28, 13, 26, 4, 15, 3],
    [13, 26, 21, 29, 3, 12, 7],
    [14, 255, 17, 27, 9, 20, 6],
    [15, 22, 28, 31, 4, 8, 12],
    [16, 18, 33, 30, 8, 5, 22],
    [17, 11, 14, 6, 35, 25, 27],
    [18, 24, 30, 32, 5, 10, 16],
    [19, 34, 20, 36, 7, 21, 9],
    [20, 14, 19, 9, 40, 27, 36],
    [21, 38, 19, 34, 13, 29, 7],
    [22, 16, 41, 33, 15, 8, 31],
    [23, 24, 11, 10, 39, 37, 25],
    [24, 255, 32, 37, 10, 23, 18],
    [25, 23, 17, 11, 45, 39, 35],
    [26, 42, 29, 43, 12, 28, 13],
    [27, 40, 35, 46, 14, 20, 17],
    [28, 31, 42, 44, 12, 15, 26],
    [29, 43, 38, 47, 13, 26, 21],
    [30, 32, 48, 50, 16, 18, 33],
    [31, 41, 44, 53, 15, 22, 28],
    [32, 30, 24, 18, 52, 50, 37],
    [33, 30, 49, 48, 22, 16, 41],
    [34, 19, 38, 21, 54, 36, 51],
    [35, 46, 45, 56, 17, 27, 25],
    [36, 20, 34, 19, 55, 40, 54],
    [37, 39, 52, 57, 24, 23, 32],
    [38, 255, 34, 51, 29, 47, 21],
    [39, 37, 25, 23, 59, 57, 45],
    [40, 27, 36, 20, 60, 46, 55],
    [41, 49, 53, 61, 22, 33, 31],
    [42, 58, 43, 62, 28, 44, 26],
    [43, 62, 47, 64, 26, 42, 29],
    [44, 53, 58, 65, 28, 31, 42],
    [45, 39, 35, 25, 63, 59, 56],
    [46, 60, 56, 68, 27, 40, 35],
    [47, 38, 43, 29, 69, 51, 64],
    [48, 49, 30, 33, 67, 66, 50],
    [49, 255, 61, 66, 33, 48, 41],
    [50, 48, 32, 30, 70, 67, 52],
    [51, 69, 54, 71, 38, 47, 34],
    [52, 57, 70, 74, 32, 37, 50],
    [53, 61, 65, 75, 31, 41, 44],
    [54, 71, 55, 73, 34, 51, 36],
    [55, 40, 54, 36, 72, 60, 73],
    [56, 68, 63, 77, 35, 46, 45],
    [57, 59, 74, 78, 37, 39, 52],
    [58, 255, 62, 76, 44, 65, 42],
    [59, 63, 78, 79, 39, 45, 57],
    [60, 72, 68, 80, 40, 55, 46],
    [61, 53, 49, 41, 81, 75, 66],
    [62, 43, 58, 42, 82, 64, 76],
    [63, 255, 56, 45, 79, 59, 77],
    [64, 47, 62, 43, 84, 69, 82],
    [65, 58, 53, 44, 86, 76, 75],
    [66, 67, 81, 85, 49, 48, 61],
    [67, 66, 50, 48, 87, 85, 70],
    [68, 56, 60, 46, 90, 77, 80],
    [69, 51, 64, 47, 89, 71, 84],
    [70, 67, 52, 50, 83, 87, 74],
    [71, 89, 73, 91, 51, 69, 54],
    [72, 255, 73, 55, 80, 60, 88],
    [73, 91, 72, 88, 54, 71, 55],
    [74, 78, 83, 92, 52, 57, 70],
    [75, 65, 61, 53, 94, 86, 81],
    [76, 86, 82, 96, 58, 65, 62],
    [77, 63, 68, 56, 93, 79, 90],
    [78, 74, 59, 57, 95, 92, 79],
    [79, 78, 63, 59, 93, 95, 77],
    [80, 68, 72, 60, 99, 90, 88],
    [81, 85, 94, 101, 61, 66, 75],
    [82, 96, 84, 98, 62, 76, 64],
    [83, 255, 74, 70, 100, 87, 92],
    [84, 69, 82, 64, 97, 89, 98],
    [85, 87, 101, 102, 66, 67, 81],
    [86, 76, 75, 65, 104, 96, 94],
    [87, 83, 102, 100, 67, 70, 85],
    [88, 72, 91, 73, 99, 80, 105],
    [89, 97, 91, 103, 69, 84, 71],
    [90, 77, 80, 68, 106, 93, 99],
    [91, 73, 89, 71, 105, 88, 103],
    [92, 83, 78, 74, 108, 100, 95],
    [93, 79, 90, 77, 109, 95, 106],
    [94, 86, 81, 75, 107, 104, 101],
    [95, 92, 79, 78, 109, 108, 93],
    [96, 104, 98, 110, 76, 86, 82],
    [97, 255, 98, 84, 103, 89, 111],
    [98, 110, 97, 111, 82, 96, 84],
    [99, 80, 105, 88, 106, 90, 113],
    [100, 102, 83, 87, 108, 114, 92],
    [101, 102, 107, 112, 81, 85, 94],
    [102, 101, 87, 85, 114, 112, 100],
    [103, 91, 97, 89, 116, 105, 111],
    [104, 107, 110, 115, 86, 94, 96],
    [105, 88, 103, 91, 113, 99, 116],
    [106, 93, 99, 90, 117, 109, 113],
    [107, 255, 101, 94, 115, 104, 112],
    [108, 100, 95, 92, 118, 114, 109],
    [109, 108, 93, 95, 117, 118, 106],
    [110, 98, 104, 96, 119, 111, 115],
    [111, 97, 110, 98, 116, 103, 119],
    [112, 107, 102, 101, 120, 115, 114],
    [113, 99, 116, 105, 117, 106, 121],
    [114, 112, 100, 102, 118, 120, 108],
    [115, 110, 107, 104, 120, 119, 112],
    [116, 103, 119, 111, 113, 105, 121],
    [117, 255, 109, 118, 113, 121, 106],
    [118, 120, 108, 114, 117, 121, 109],
    [119, 111, 115, 110, 121, 116, 120],
    [120, 115, 114, 112, 121, 119, 118],
    [121, 116, 120, 119, 117, 113, 118],
];

/// Number of 60° counter-clockwise rotations into the coordinate system of
/// the neighbor reached in each direction.
///
/// Rows are indexed by base cell, columns by direction.  [`NO_NEIGHBOR`]
/// appears exactly where [`NEIGHBORS`] has no entry.
#[verifier::opaque]
pub const NEIGHBOR_ROTATIONS: [[u8; 7]; 122] = [
    [0, 5, 0, 0, 1, 5, 1],
    [0, 0, 1, 0, 1, 0, 1],
    [0, 0, 0, 0, 0, 5, 0],
    [0, 5, 0, 0, 2, 5, 1],
    [0, 255, 1, 0, 3, 4, 2],
    [0, 0, 1, 0, 1, 0, 1],
    [0, 0, 0, 3, 5, 5, 0],
    [0, 0, 0, 0, 0, 5, 0],
    [0, 5, 0, 0, 0, 5, 1],
    [0, 0, 1, 3, 0, 0, 1],
    [0, 0, 1, 3, 0, 0, 1],
    [0, 3, 3, 3, 0, 0, 0],
    [0, 5, 0, 0, 3, 5, 1],
    [0, 0, 1, 0, 1, 0, 1],
    [0, 255, 3, 0, 5, 2, 0],
    [0, 5, 0, 0, 4, 5, 1],
    [0, 0, 0, 0, 0, 5, 0],
    [0, 3, 3, 3, 3, 0, 3],
    [0, 0, 0, 3, 5, 5, 0],
    [0, 3, 3, 3, 0, 0, 0],
    [0, 3, 3, 3, 0, 3, 0],
    [0, 0, 0, 3, 5, 5, 0],
    [0, 0, 1, 0, 1, 0, 1],
    [0, 3, 3, 3, 0, 3, 0],
    [0, 255, 3, 0, 5, 2, 0],
    [0, 0, 0, 3, 0, 0, 3],
    [0, 0, 0, 0, 0, 5, 0],
    [0, 3, 0, 0, 0, 3, 3],
    [0, 0, 1, 0, 1, 0, 1],
    [0, 0, 1, 3, 0, 0, 1],
    [0, 3, 3, 3, 0, 0, 0],
    [0, 0, 0, 0, 0, 5, 0],
    [0, 3, 3, 3, 3, 0, 3],
    [0, 0, 1, 3, 0, 0, 1],
    [0, 3, 3, 3, 3, 0, 3],
    [0, 0, 3, 0, 3, 0, 3],
    [0, 0, 0, 3, 0, 0, 3],
    [0, 3, 0, 0, 0, 3, 3],
    [0, 255, 3, 0, 5, 2, 0],
    [0, 3, 0, 0, 3, 3, 0],
    [0, 3, 0, 0, 3, 3, 0],
    [0, 0, 0, 3, 5, 5, 0],
    [0, 0, 0, 3, 5, 5, 0],
    [0, 3, 3, 3, 0, 0, 0],
    [0, 0, 1, 3, 0, 0, 1],
    [0, 0, 3, 0, 0, 3, 3],
    [0, 0, 0, 3, 0, 3, 0],
    [0, 3, 3, 3, 0, 3, 0],
    [0, 3, 3, 3, 0, 3, 0],
    [0, 255, 3, 0, 5, 2, 0],
    [0, 0, 0, 3, 0, 0, 3],
    [0, 3, 0, 0, 0, 3, 3],
    [0, 0, 3, 0, 3, 0, 3],
    [0, 3, 3, 3, 0, 0, 0],
    [0, 0, 3, 0, 3, 0, 3],
    [0, 0, 3, 0, 0, 3, 3],
    [0, 3, 3, 3, 0, 0, 3],
    [0, 0, 0, 3, 0, 3, 0],
    [0, 255, 3, 0, 5, 2, 0],
    [0, 3, 3, 3, 3, 3, 0],
    [0, 3, 3, 3, 3, 3, 0],
    [0, 3, 3, 3, 3, 0, 3],
    [0, 3, 3, 3, 3, 0, 3],
    [0, 255, 3, 0, 5, 2, 0],
    [0, 0, 0, 3, 0, 0, 3],
    [0, 3, 3, 3, 0, 3, 0],
    [0, 3, 0, 0, 0, 3, 3],
    [0, 3, 0, 0, 3, 3, 0],
    [0, 3, 3, 3, 0, 0, 0],
    [0, 3, 0, 0, 3, 3, 0],
    [0, 0, 3, 0, 0, 3, 3],
    [0, 0, 0, 3, 0, 3, 0],
    [0, 255, 3, 0, 5, 2, 0],
    [0, 3, 3, 3, 0, 0, 3],
    [0, 3, 3, 3, 0, 0, 3],
    [0, 0, 0, 3, 0, 0, 3],
    [0, 3, 0, 0, 0, 3, 3],
    [0, 0, 0, 3, 0, 5, 0],
    [0, 3, 3, 3, 0, 0, 0],
    [0, 0, 1, 3, 1, 0, 1],
    [0, 0, 1, 3, 1, 0, 1],
    [0, 0, 3, 0, 3, 0, 3],
    [0, 0, 3, 0, 3, 0, 3],
    [0, 255, 3, 0, 5, 2, 0],
    [0, 0, 3, 0, 0, 3, 3],
    [0, 0, 0, 3, 0, 3, 0],
    [0, 3, 0, 0, 3, 3, 0],
    [0, 3, 3, 3, 3, 3, 0],
    [0, 0, 0, 3, 0, 5, 0],
    [0, 3, 3, 3, 3, 3, 0],
    [0, 0, 0, 0, 0, 0, 1],
    [0, 3, 3, 3, 0, 0, 0],
    [0, 0, 0, 3, 0, 5, 0],
    [0, 5, 0, 0, 5, 5, 0],
    [0, 0, 3, 0, 0, 3, 3],
    [0, 0, 0, 0, 0, 0, 1],
    [0, 0, 0, 3, 0, 3, 0],
    [0, 255, 3, 0, 5, 2, 0],
    [0, 3, 3, 3, 0, 0, 3],
    [0, 5, 0, 0, 5, 5, 0],
    [0, 0, 1, 3, 1, 0, 1],
    [0, 3, 3, 3, 0, 0, 3],
    [0, 3, 3, 3, 0, 0, 0],
    [0, 0, 1, 3, 1, 0, 1],
    [0, 3, 3, 3, 3, 3, 0],
    [0, 0, 0, 0, 0, 0, 1],
    [0, 0, 1, 0, 3, 5, 1],
    [0, 255, 3, 0, 5, 2, 0],
    [0, 5, 0, 0, 5, 5, 0],
    [0, 0, 1, 0, 4, 5, 1],
    [0, 3, 3, 3, 0, 0, 0],
    [0, 0, 0, 3, 0, 5, 0],
    [0, 0, 0, 3, 0, 5, 0],
    [0, 0, 1, 0, 2, 5, 1],
    [0, 0, 0, 0, 0, 0, 1],
    [0, 0, 1, 3, 1, 0, 1],
    [0, 5, 0, 0, 5, 5, 0],
    [0, 255, 1, 0, 3, 4, 2],
    [0, 0, 1, 0, 0, 5, 1],
    [0, 0, 0, 0, 0, 0, 1],
    [0, 5, 0, 0, 5, 5, 0],
    [0, 0, 1, 0, 1, 5, 1],
];

/// Number of 60° counter-clockwise rotations aligning a base cell's
/// coordinate frame when viewed from a given face.
///
/// Rows are indexed by base cell, columns by face.  [`NO_PRESENCE`] marks a
/// face on which the cell's area cannot be expressed; every defined entry is
/// a rotation count in `[0, 5]`, and the entry for a cell's home face is 0.
#[verifier::opaque]
pub const FACE_ROTATIONS: [[u8; 20]; 122] = [
    [5, 0, 1, 7, 7, 7, 7, 7, 7, 7, 7, 7, 7, 7, 7, 7, 7, 7, 7, 7],
    [7, 5, 0, 7, 7, 7, 7, 7, 7, 7, 7, 7, 7, 7, 7, 7, 7, 7, 7, 7],
    [5, 0, 1, 7, 7, 7, 3, 7, 7, 7, 7, 7, 7, 7, 7, 7, 7, 7, 7, 7],
    [7, 5, 0, 1, 7, 7, 7, 7, 7, 7, 7, 7, 7, 7, 7, 7, 7, 7, 7, 7],
    [0, 1, 2, 3, 4, 7, 7, 7, 7, 7, 7, 7, 7, 7, 7, 7, 7, 7, 7, 7],
    [5, 0, 7, 7, 7, 7, 7, 7, 7, 7, 7, 7, 7, 7, 7, 7, 7, 7, 7, 7],
    [7, 0, 1, 7, 7, 7, 3, 7, 7, 7, 7, 7, 7, 7, 7, 7, 7, 7, 7, 7],
    [7, 5, 0, 1, 7, 7, 7, 3, 7, 7, 7, 7, 7, 7, 7, 7, 7, 7, 7, 7],
    [0, 1, 7, 7, 5, 7, 7, 7, 7, 7, 7, 7, 7, 7, 7, 7, 7, 7, 7, 7],
    [7, 5, 0, 7, 7, 7, 7, 3, 7, 7, 7, 7, 7, 7, 7, 7, 7, 7, 7, 7],
    [5, 0, 7, 7, 7, 7, 3, 7, 7, 7, 7, 7, 7, 7, 7, 7, 7, 7, 7, 7],
    [7, 0, 7, 7, 7, 7, 3, 7, 7, 7, 7, 7, 7, 7, 7, 7, 7, 7, 7, 7],
    [7, 7, 5, 0, 1, 7, 7, 7, 7, 7, 7, 7, 7, 7, 7, 7, 7, 7, 7, 7],
    [7, 7, 5, 0, 7, 7, 7, 7, 7, 7, 7, 7, 7, 7, 7, 7, 7, 7, 7, 7],
    [7, 0, 1, 7, 7, 7, 3, 3, 7, 7, 7, 0, 7, 7, 7, 7, 7, 7, 7, 7],
    [1, 7, 7, 5, 0, 7, 7, 7, 7, 7, 7, 7, 7, 7, 7, 7, 7, 7, 7, 7],
    [0, 1, 7, 7, 5, 3, 7, 7, 7, 7, 7, 7, 7, 7, 7, 7, 7, 7, 7, 7],
    [7, 3, 7, 7, 7, 7, 0, 7, 7, 7, 7, 3, 7, 7, 7, 7, 7, 7, 7, 7],
    [0, 1, 7, 7, 7, 3, 7, 7, 7, 7, 7, 7, 7, 7, 7, 7, 7, 7, 7, 7],
    [7, 7, 0, 7, 7, 7, 7, 3, 7, 7, 7, 7, 7, 7, 7, 7, 7, 7, 7, 7],
    [7, 7, 3, 7, 7, 7, 7, 0, 7, 7, 7, 3, 7, 7, 7, 7, 7, 7, 7, 7],
    [7, 7, 0, 1, 7, 7, 7, 3, 7, 7, 7, 7, 7, 7, 7, 7, 7, 7, 7, 7],
    [0, 7, 7, 7, 5, 7, 7, 7, 7, 7, 7, 7, 7, 7, 7, 7, 7, 7, 7, 7],
    [7, 3, 7, 7, 7, 7, 0, 7, 7, 7, 3, 7, 7, 7, 7, 7, 7, 7, 7, 7],
    [0, 1, 7, 7, 7, 3, 3, 7, 7, 7, 0, 7, 7, 7, 7, 7, 7, 7, 7, 7],
    [7, 3, 7, 7, 7, 7, 0, 7, 7, 7, 3, 3, 7, 7, 7, 7, 7, 7, 7, 7],
    [7, 7, 5, 0, 1, 7, 7, 7, 3, 7, 7, 7, 7, 7, 7, 7, 7, 7, 7, 7],
    [7, 7, 7, 7, 7, 7, 3, 3, 7, 7, 7, 0, 7, 7, 7, 7, 7, 7, 7, 7],
    [7, 7, 7, 5, 0, 7, 7, 7, 7, 7, 7, 7, 7, 7, 7, 7, 7, 7, 7, 7],
    [7, 7, 5, 0, 7, 7, 7, 7, 3, 7, 7, 7, 7, 7, 7, 7, 7, 7, 7, 7],
    [0, 7, 7, 7, 7, 3, 7, 7, 7, 7, 7, 7, 7, 7, 7, 7, 7, 7, 7, 7],
    [1, 7, 7, 5, 0, 7, 7, 7, 7, 3, 7, 7, 7, 7, 7, 7, 7, 7, 7, 7],
    [3, 7, 7, 7, 7, 0, 7, 7, 7, 7, 3, 7, 7, 7, 7, 7, 7, 7, 7, 7],
    [0, 7, 7, 7, 5, 3, 7, 7, 7, 7, 7, 7, 7, 7, 7, 7, 7, 7, 7, 7],
    [7, 7, 3, 7, 7, 7, 7, 0, 7, 7, 7, 7, 3, 7, 7, 7, 7, 7, 7, 7],
    [7, 7, 7, 7, 7, 7, 3, 7, 7, 7, 7, 0, 7, 7, 7, 7, 7, 7, 7, 7],
    [7, 7, 3, 7, 7, 7, 7, 0, 7, 7, 7, 3, 3, 7, 7, 7, 7, 7, 7, 7],
    [7, 7, 7, 7, 7, 3, 3, 7, 7, 7, 0, 7, 7, 7, 7, 7, 7, 7, 7, 7],
    [7, 7, 0, 1, 7, 7, 7, 3, 3, 7, 7, 7, 0, 7, 7, 7, 7, 7, 7, 7],
    [7, 7, 7, 7, 7, 7, 0, 7, 7, 7, 3, 7, 7, 7, 7, 7, 7, 7, 7, 7],
    [7, 7, 7, 7, 7, 7, 7, 0, 7, 7, 7, 3, 7, 7, 7, 7, 7, 7, 7, 7],
    [1, 7, 7, 7, 0, 7, 7, 7, 7, 3, 7, 7, 7, 7, 7, 7, 7, 7, 7, 7],
    [7, 7, 7, 0, 1, 7, 7, 7, 3, 7, 7, 7, 7, 7, 7, 7, 7, 7, 7, 7],
    [7, 7, 7, 0, 7, 7, 7, 7, 3, 7, 7, 7, 7, 7, 7, 7, 7, 7, 7, 7],
    [7, 7, 7, 5, 0, 7, 7, 7, 7, 3, 7, 7, 7, 7, 7, 7, 7, 7, 7, 7],
    [7, 7, 7, 7, 7, 7, 0, 7, 7, 7, 3, 3, 7, 7, 7, 7, 7, 7, 7, 7],
    [7, 7, 7, 7, 7, 7, 3, 3, 7, 7, 7, 0, 7, 7, 7, 7, 3, 7, 7, 7],
    [7, 7, 7, 3, 7, 7, 7, 7, 0, 7, 7, 7, 3, 7, 7, 7, 7, 7, 7, 7],
    [3, 7, 7, 7, 7, 0, 7, 7, 7, 7, 7, 7, 7, 7, 3, 7, 7, 7, 7, 7],
    [1, 7, 7, 7, 0, 3, 7, 7, 7, 3, 7, 7, 7, 7, 0, 7, 7, 7, 7, 7],
    [3, 7, 7, 7, 7, 0, 7, 7, 7, 7, 3, 7, 7, 7, 3, 7, 7, 7, 7, 7],
    [7, 7, 7, 7, 7, 7, 7, 3, 3, 7, 7, 7, 0, 7, 7, 7, 7, 7, 7, 7],
    [7, 7, 7, 7, 7, 3, 7, 7, 7, 7, 0, 7, 7, 7, 7, 7, 7, 7, 7, 7],
    [7, 7, 7, 7, 0, 7, 7, 7, 7, 3, 7, 7, 7, 7, 7, 7, 7, 7, 7, 7],
    [7, 7, 7, 7, 7, 7, 7, 3, 7, 7, 7, 7, 0, 7, 7, 7, 7, 7, 7, 7],
    [7, 7, 7, 7, 7, 7, 7, 0, 7, 7, 7, 3, 3, 7, 7, 7, 7, 7, 7, 7],
    [7, 7, 7, 7, 7, 7, 3, 7, 7, 7, 7, 0, 7, 7, 7, 7, 3, 7, 7, 7],
    [7, 7, 7, 7, 7, 1, 3, 7, 7, 7, 0, 7, 7, 7, 7, 3, 7, 7, 7, 7],
    [7, 7, 7, 0, 1, 7, 7, 7, 3, 3, 7, 7, 7, 0, 7, 7, 7, 7, 7, 7],
    [7, 7, 7, 7, 7, 7, 3, 7, 7, 7, 0, 7, 7, 7, 7, 3, 7, 7, 7, 7],
    [7, 7, 7, 7, 7, 7, 7, 3, 7, 7, 7, 0, 7, 7, 7, 7, 3, 7, 7, 7],
    [7, 7, 7, 7, 3, 7, 7, 7, 7, 0, 7, 7, 7, 7, 3, 7, 7, 7, 7, 7],
    [7, 7, 7, 3, 7, 7, 7, 7, 0, 7, 7, 7, 7, 3, 7, 7, 7, 7, 7, 7],
    [7, 7, 7, 7, 7, 7, 0, 7, 7, 7, 3, 3, 7, 7, 7, 1, 0, 7, 7, 7],
    [7, 7, 7, 3, 7, 7, 7, 7, 0, 7, 7, 7, 3, 3, 7, 7, 7, 7, 7, 7],
    [7, 7, 7, 7, 3, 7, 7, 7, 7, 0, 7, 7, 7, 3, 7, 7, 7, 7, 7, 7],
    [7, 7, 7, 7, 7, 3, 7, 7, 7, 3, 7, 7, 7, 7, 0, 7, 7, 7, 7, 7],
    [7, 7, 7, 7, 7, 0, 7, 7, 7, 7, 7, 7, 7, 7, 3, 7, 7, 7, 7, 7],
    [7, 7, 7, 7, 7, 7, 7, 7, 7, 7, 7, 3, 7, 7, 7, 7, 0, 7, 7, 7],
    [7, 7, 7, 7, 7, 7, 7, 7, 0, 7, 7, 7, 3, 7, 7, 7, 7, 7, 7, 7],
    [7, 7, 7, 7, 7, 0, 7, 7, 7, 7, 3, 7, 7, 7, 3, 7, 7, 7, 7, 7],
    [7, 7, 7, 7, 7, 7, 7, 3, 3, 7, 7, 7, 0, 7, 7, 7, 7, 3, 7, 7],
    [7, 7, 7, 7, 7, 7, 7, 0, 7, 7, 7, 3, 3, 7, 7, 7, 1, 0, 7, 7],
    [7, 7, 7, 7, 7, 7, 7, 3, 7, 7, 7, 7, 0, 7, 7, 7, 7, 3, 7, 7],
    [7, 7, 7, 7, 7, 3, 7, 7, 7, 7, 0, 7, 7, 7, 7, 3, 7, 7, 7, 7],
    [7, 7, 7, 7, 3, 7, 7, 7, 7, 0, 7, 7, 7, 3, 3, 7, 7, 7, 7, 7],
    [7, 7, 7, 7, 7, 7, 7, 7, 3, 3, 7, 7, 7, 0, 7, 7, 7, 7, 7, 7],
    [7, 7, 7, 7, 7, 7, 7, 7, 7, 7, 7, 3, 7, 7, 7, 1, 0, 7, 7, 7],
    [7, 7, 7, 7, 7, 7, 7, 7, 7, 7, 3, 7, 7, 7, 7, 0, 7, 7, 7, 7],
    [7, 7, 7, 7, 7, 7, 7, 7, 7, 7, 3, 7, 7, 7, 7, 0, 5, 7, 7, 7],
    [7, 7, 7, 7, 7, 7, 7, 7, 7, 7, 7, 3, 7, 7, 7, 7, 0, 5, 7, 7],
    [7, 7, 7, 7, 7, 7, 7, 7, 7, 3, 7, 7, 7, 7, 0, 7, 7, 7, 7, 7],
    [7, 7, 7, 7, 7, 7, 7, 7, 3, 7, 7, 7, 7, 0, 7, 7, 7, 7, 7, 7],
    [7, 7, 7, 7, 7, 0, 7, 7, 7, 7, 3, 7, 7, 7, 3, 0, 7, 7, 7, 1],
    [7, 7, 7, 7, 7, 7, 7, 7, 0, 7, 7, 7, 3, 3, 7, 7, 7, 7, 7, 7],
    [7, 7, 7, 7, 7, 3, 7, 7, 7, 3, 7, 7, 7, 7, 0, 7, 7, 7, 7, 3],
    [7, 7, 7, 7, 7, 7, 7, 7, 7, 0, 7, 7, 7, 3, 7, 7, 7, 7, 7, 7],
    [7, 7, 7, 7, 7, 3, 7, 7, 7, 7, 7, 7, 7, 7, 0, 7, 7, 7, 7, 3],
    [7, 7, 7, 7, 7, 7, 7, 7, 7, 7, 7, 7, 3, 7, 7, 7, 1, 0, 7, 7],
    [7, 7, 7, 7, 7, 7, 7, 7, 3, 7, 7, 7, 0, 7, 7, 7, 7, 3, 7, 7],
    [7, 7, 7, 7, 7, 7, 7, 7, 7, 7, 7, 3, 7, 7, 7, 1, 0, 5, 7, 7],
    [7, 7, 7, 7, 7, 7, 7, 7, 7, 7, 7, 7, 3, 7, 7, 7, 7, 0, 7, 7],
    [7, 7, 7, 7, 7, 7, 7, 7, 7, 7, 3, 7, 7, 7, 7, 0, 7, 7, 7, 1],
    [7, 7, 7, 7, 7, 7, 7, 7, 7, 7, 7, 7, 7, 7, 7, 1, 0, 7, 7, 7],
    [7, 7, 7, 7, 7, 7, 7, 7, 7, 0, 7, 7, 7, 3, 3, 7, 7, 7, 7, 7],
    [7, 7, 7, 7, 7, 7, 7, 7, 7, 7, 3, 7, 7, 7, 7, 0, 5, 7, 7, 1],
    [7, 7, 7, 7, 7, 7, 7, 7, 3, 3, 7, 7, 7, 0, 7, 7, 7, 7, 3, 7],
    [7, 7, 7, 7, 7, 7, 7, 7, 0, 7, 7, 7, 3, 3, 7, 7, 7, 1, 0, 7],
    [7, 7, 7, 7, 7, 7, 7, 7, 3, 7, 7, 7, 7, 0, 7, 7, 7, 7, 3, 7],
    [7, 7, 7, 7, 7, 7, 7, 7, 7, 7, 7, 7, 7, 7, 7, 7, 1, 0, 7, 7],
    [7, 7, 7, 7, 7, 7, 7, 7, 7, 7, 7, 7, 7, 7, 3, 5, 7, 7, 7, 0],
    [7, 7, 7, 7, 7, 7, 7, 7, 7, 3, 7, 7, 7, 7, 0, 7, 7, 7, 7, 3],
    [7, 7, 7, 7, 7, 7, 7, 7, 7, 7, 7, 7, 7, 7, 3, 7, 7, 7, 7, 0],
    [7, 7, 7, 7, 7, 7, 7, 7, 7, 7, 7, 7, 3, 7, 7, 7, 7, 0, 5, 7],
    [7, 7, 7, 7, 7, 7, 7, 7, 7, 3, 7, 7, 7, 0, 7, 7, 7, 7, 3, 7],
    [7, 7, 7, 7, 7, 7, 7, 7, 7, 7, 7, 7, 3, 7, 7, 7, 1, 0, 5, 7],
    [7, 7, 7, 7, 7, 7, 7, 7, 7, 7, 7, 7, 7, 7, 7, 1, 0, 5, 7, 7],
    [7, 7, 7, 7, 7, 7, 7, 7, 7, 0, 7, 7, 7, 3, 3, 7, 7, 7, 1, 0],
    [7, 7, 7, 7, 7, 7, 7, 7, 7, 7, 7, 7, 7, 7, 7, 0, 7, 7, 7, 1],
    [7, 7, 7, 7, 7, 7, 7, 7, 7, 7, 7, 7, 7, 7, 7, 0, 5, 7, 7, 1],
    [7, 7, 7, 7, 7, 7, 7, 7, 7, 7, 7, 7, 7, 3, 7, 7, 7, 7, 0, 7],
    [7, 7, 7, 7, 7, 7, 7, 7, 7, 7, 7, 7, 7, 3, 7, 7, 7, 1, 0, 7],
    [7, 7, 7, 7, 7, 7, 7, 7, 7, 7, 7, 7, 7, 7, 3, 7, 7, 7, 1, 0],
    [7, 7, 7, 7, 7, 7, 7, 7, 7, 7, 7, 7, 7, 7, 7, 7, 1, 0, 5, 7],
    [7, 7, 7, 7, 7, 7, 7, 7, 7, 7, 7, 7, 7, 7, 3, 5, 7, 7, 1, 0],
    [7, 7, 7, 7, 7, 7, 7, 7, 7, 7, 7, 7, 7, 3, 7, 7, 7, 7, 0, 5],
    [7, 7, 7, 7, 7, 7, 7, 7, 7, 7, 7, 7, 7, 7, 7, 7, 7, 1, 0, 7],
    [7, 7, 7, 7, 7, 7, 7, 7, 7, 7, 7, 7, 7, 7, 7, 4, 3, 2, 1, 0],
    [7, 7, 7, 7, 7, 7, 7, 7, 7, 7, 7, 7, 7, 7, 7, 5, 7, 7, 1, 0],
    [7, 7, 7, 7, 7, 7, 7, 7, 7, 7, 7, 7, 7, 3, 7, 7, 7, 1, 0, 5],
    [7, 7, 7, 7, 7, 7, 7, 7, 7, 7, 7, 7, 7, 7, 7, 7, 7, 7, 1, 0],
    [7, 7, 7, 7, 7, 7, 7, 7, 7, 7, 7, 7, 7, 7, 7, 7, 7, 1, 0, 5],
];

/// Direction-to-face mapping of each of the 12 pentagonal base cells.
///
/// Rows are indexed by a pentagon's position in [`PENTAGONS`]; the 5 columns
/// give the face each pentagon edge touches, in directional order starting
/// at `J`.
#[verifier::opaque]
pub const PENTAGON_DIRECTION_FACES: [[u8; 5]; 12] = [
    [4, 0, 2, 1, 3],
    [6, 11, 2, 7, 1],
    [5, 10, 1, 6, 0],
    [7, 12, 3, 8, 2],
    [9, 14, 0, 5, 4],
    [8, 13, 4, 9, 3],
    [11, 6, 15, 10, 16],
    [12, 7, 16, 11, 17],
    [10, 5, 19, 14, 15],
    [13, 8, 17, 12, 18],
    [14, 9, 18, 13, 19],
    [15, 19, 17, 18, 16],
];

} // verus!
