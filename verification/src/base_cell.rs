//! The 122 base cells and their topology queries.

use vstd::prelude::*;
use crate::coord::CoordIJK;
use crate::coord::FaceIJK;
use crate::direction::Direction;
use crate::direction::I_AXIS;
use crate::direction::K_AXIS;
use crate::direction::NUM_DIRECTIONS;
use crate::error::InvalidBaseCell;
use crate::face::Face;
use crate::face::NUM_FACES;
use crate::tables::BASE_PENTAGONS;
use crate::tables::CW_OFFSET_FACES;
use crate::tables::FACE_ROTATIONS;
use crate::tables::HOME_COORDS;
use crate::tables::HOME_FACES;
use crate::tables::NEIGHBORS;
use crate::tables::NEIGHBOR_ROTATIONS;
use crate::tables::NO_FACE;
use crate::tables::NO_NEIGHBOR;
use crate::tables::NO_PRESENCE;
use crate::tables::PENTAGONS;
use crate::tables::PENTAGON_DIRECTION_FACES;

verus! {

/// Maximum value for a base cell.
pub const MAX: u8 = 121;

/// A base cell is pentagonal exactly when it is one of the 12 cells sitting
/// on the icosahedron's vertices.
pub open spec fn spec_is_pentagon(value: u8) -> bool {
    ||| value == 4
    ||| value == 14
    ||| value == 24
    ||| value == 38
    ||| value == 49
    ||| value == 58
    ||| value == 63
    ||| value == 72
    ||| value == 83
    ||| value == 97
    ||| value == 107
    ||| value == 117
}

/// The ordinal position of a pentagonal base cell among the 12 pentagons,
/// counting how many pentagonal values lie strictly below it.
///
/// This derives the row index into [`PENTAGON_DIRECTION_FACES`] from the
/// membership predicate itself, so the two representations cannot drift
/// apart.
pub open spec fn spec_pentagon_index(value: u8) -> int {
    (if value > 4 { 1int } else { 0int }) + (if value > 14 { 1int } else { 0int }) + (if value > 24 { 1int } else { 0int })
        + (if value > 38 { 1int } else { 0int }) + (if value > 49 { 1int } else { 0int }) + (if value > 58 { 1int } else { 0int })
        + (if value > 63 { 1int } else { 0int }) + (if value > 72 { 1int } else { 0int }) + (if value > 83 { 1int } else { 0int })
        + (if value > 97 { 1int } else { 0int }) + (if value > 107 { 1int } else { 0int }) + (if value > 117 { 1int } else { 0int })
}

/// The neighboring base cell of `cell` in direction `dir`, as a raw table
/// entry: either a base cell value or [`NO_NEIGHBOR`].
pub open spec fn spec_neighbor(cell: u8, dir: u8) -> u8 {
    NEIGHBORS[cell as int][dir as int]
}

/// The number of 60° counter-clockwise rotations into the coordinate system
/// of the neighbor of `cell` in direction `dir`, as a raw table entry.
pub open spec fn spec_neighbor_rotation(cell: u8, dir: u8) -> u8 {
    NEIGHBOR_ROTATIONS[cell as int][dir as int]
}

/// The number of 60° counter-clockwise rotations aligning the frame of
/// `cell` when viewed from `face`, as a raw table entry: either a rotation
/// count or [`NO_PRESENCE`].
pub open spec fn spec_face_rotation(cell: u8, face: u8) -> u8 {
    FACE_ROTATIONS[cell as int][face as int]
}

/// Whether `face` is one of the two clockwise-offset faces of base cell
/// `cell`.
///
/// The sentinel entries of [`CW_OFFSET_FACES`] never equal a face value,
/// which is always below [`NUM_FACES`].
pub open spec fn spec_is_cw_offset(cell: u8, face: u8) -> bool {
    CW_OFFSET_FACES[cell as int][0] == face || CW_OFFSET_FACES[cell as int][1] == face
}

/// Static per-cell metadata: the cell's canonical embedding, and the
/// pentagon distortion faces when the cell has that distortion mode.
#[derive(Clone, Copy, Debug, PartialEq, Eq)]
pub struct Metadata {
    /// Home face.
    pub home: Face,
    /// `IJK` coordinates of the cell center on the home face.
    pub coord: CoordIJK,
    /// For pentagons only, the two clockwise offset rotation adjacent faces
    /// (if any).
    pub cw_offset_pent: Option<(Face, Face)>,
}

/// One of the 122 base cells.
#[derive(Clone, Copy, Debug, PartialEq, Eq, Structural)]
pub struct BaseCell {
    value: u8,
}

impl View for BaseCell {
    type V = u8;

    closed spec fn view(&self) -> u8 {
        self.value
    }
}

impl BaseCell {
    /// A base cell's value never exceeds [`MAX`].
    #[verifier::type_invariant]
    pub closed spec fn wf(self) -> bool {
        self.value <= MAX
    }

    /// Builds a base cell from a value already known to be in range.
    pub fn new_unchecked(value: u8) -> (r: Self)
        requires
            value <= MAX,
        ensures
            r@ == value,
    {
        Self { value }
    }

    /// Validated conversion from an untrusted integer.
    ///
    /// Succeeds on every value up to [`MAX`] (each one names a real base
    /// cell) and fails with an out-of-range error on every other value.
    pub fn try_from(value: u8) -> (r: Result<Self, InvalidBaseCell>)
        ensures
            value <= MAX ==> (r matches Ok(c) && c@ == value),
            value > MAX ==> (r matches Err(e) && e.value == value && e.reason@
                == "out of range"@),
    {
        if value > MAX {
            return Err(InvalidBaseCell::new(value, "out of range"));
        }
        Ok(Self { value })
    }

    /// Returns the cell's numeric value, always at most [`MAX`].
    pub fn value(self) -> (r: u8)
        ensures
            r == self@,
            r <= MAX,
    {
        proof {
            use_type_invariant(self);
        }
        self.value
    }

    /// Returns the total number of base cells.
    pub fn count() -> (r: u8)
        ensures
            r == 122,
    {
        122
    }

    /// Returns all 122 base cells, distinct and in ascending numeric order.
    pub fn iter() -> (r: Vec<Self>)
        ensures
            r@.len() == 122,
            forall|i: int| 0 <= i < 122 ==> #[trigger] r@[i]@ == i,
            forall|i: int, j: int| 0 <= i < j < 122 ==> r@[i] != r@[j],
    {
        let mut cells: Vec<Self> = Vec::new();
        let mut value: u8 = 0;
        while value < 122
            invariant
                value <= 122,
                cells@.len() == value,
                forall|i: int| 0 <= i < value ==> #[trigger] cells@[i]@ == i,
            decreases 122 - value,
        {
            cells.push(Self { value });
            value = value + 1;
        }
        proof {
            assert forall|i: int, j: int| 0 <= i < j < 122 implies cells@[i] != cells@[j] by {
                assert(cells@[i]@ == i);
                assert(cells@[j]@ == j);
            }
        }
        cells
    }

    /// Returns true if the base cell is pentagonal.
    pub fn is_pentagon(self) -> (r: bool)
        ensures
            r == spec_is_pentagon(self@),
    {
        proof {
            use_type_invariant(self);
            lemma_pentagon_bitmap_members();
        }
        BASE_PENTAGONS & (1u128 << self.value) != 0
    }

    /// Returns true if the base cell is a pentagon whose neighbors are all
    /// oriented towards it.
    pub fn is_polar_pentagon(self) -> (r: bool)
        ensures
            r == (self@ == 4 || self@ == 117),
    {
        self.value == 4 || self.value == 117
    }

    /// Returns the base cell's metadata: its home embedding and, for the 10
    /// distorted pentagons, the pair of clockwise offset faces.
    pub fn metadata(self) -> (r: Metadata)
        ensures
            r.home@ == HOME_FACES[self@ as int],
            r.coord.i == HOME_COORDS[self@ as int][0],
            r.coord.j == HOME_COORDS[self@ as int][1],
            r.coord.k == HOME_COORDS[self@ as int][2],
            CW_OFFSET_FACES[self@ as int][0] == NO_FACE ==> r.cw_offset_pent is None,
            CW_OFFSET_FACES[self@ as int][0] != NO_FACE ==> (r.cw_offset_pent matches Some(
                (first, second),
            ) && first@ == CW_OFFSET_FACES[self@ as int][0]
                && second@ == CW_OFFSET_FACES[self@ as int][1]),
    {
        proof {
            use_type_invariant(self);
            lemma_metadata_table_invariants();
        }
        let value = self.value as usize;
        let home = Face::new_unchecked(HOME_FACES[value]);
        let coord = CoordIJK::new(
            HOME_COORDS[value][0],
            HOME_COORDS[value][1],
            HOME_COORDS[value][2],
        );
        let first = CW_OFFSET_FACES[value][0];
        let second = CW_OFFSET_FACES[value][1];
        let cw_offset_pent = if first == NO_FACE {
            None
        } else {
            Some((Face::new_unchecked(first), Face::new_unchecked(second)))
        };
        Metadata { home, coord, cw_offset_pent }
    }

    /// Returns the canonical (face, coordinate) pair at which this base
    /// cell's center is defined.  Total: every base cell has exactly one
    /// home embedding.
    pub fn home_embedding(self) -> (r: FaceIJK)
        ensures
            r.face@ == HOME_FACES[self@ as int],
            r.coord.i == HOME_COORDS[self@ as int][0],
            r.coord.j == HOME_COORDS[self@ as int][1],
            r.coord.k == HOME_COORDS[self@ as int][2],
    {
        let metadata = self.metadata();
        FaceIJK { face: metadata.home, coord: metadata.coord }
    }

    /// Returns whether the tested face is a clockwise offset face on this
    /// cell.
    ///
    /// Always false for hexagonal cells, for the two polar pentagons, and
    /// for any face outside a pentagon's offset pair.
    pub fn is_cw_offset(self, face: Face) -> (r: bool)
        ensures
            r == spec_is_cw_offset(self@, face@),
    {
        proof {
            use_type_invariant(self);
        }
        let value = self.value as usize;
        let queried = face.value();
        CW_OFFSET_FACES[value][0] == queried || CW_OFFSET_FACES[value][1] == queried
    }

    /// Returns whether this base cell has a presence on the given face,
    /// that is, whether its area can be expressed in that face's frame.
    ///
    /// A cell's home face always has a presence; so do the faces the cell
    /// borders.  This is the boundary check that establishes the
    /// precondition of [`Self::rotation_count`].
    pub fn has_presence(self, face: Face) -> (r: bool)
        ensures
            r == (spec_face_rotation(self@, face@) != NO_PRESENCE),
    {
        proof {
            use_type_invariant(self);
        }
        FACE_ROTATIONS[self.value as usize][face.value() as usize] != NO_PRESENCE
    }

    /// Returns the number of 60° ccw rotations aligning this base cell's
    /// coordinate system when the traversal context is viewed from `face`
    /// rather than the cell's home face.
    ///
    /// The cell must have a presence on `face`: callers are expected to
    /// have already established face adjacency, and the result is always a
    /// rotation count in `[0, 5]`.
    pub fn rotation_count(self, face: Face) -> (r: u8)
        requires
            spec_face_rotation(self@, face@) != NO_PRESENCE,
        ensures
            r == spec_face_rotation(self@, face@),
            r <= 5,
    {
        proof {
            use_type_invariant(self);
            lemma_face_rotation_range();
        }
        FACE_ROTATIONS[self.value as usize][face.value() as usize]
    }

    /// Returns the direction-to-face mapping of this pentagonal cell.
    ///
    /// The 5 faces are in directional order, starting at `J`.  The cell
    /// must be a pentagon: the table has no row for hexagonal cells.
    pub fn pentagon_direction_faces(self) -> (r: [Face; 5])
        requires
            spec_is_pentagon(self@),
        ensures
            forall|i: int|
                0 <= i < 5 ==> #[trigger] r@[i]@ == PENTAGON_DIRECTION_FACES[spec_pentagon_index(
                    self@,
                )][i],
    {
        proof {
            use_type_invariant(self);
            lemma_pentagon_direction_faces_distinct();
        }
        let index = self.pentagon_index();
        let row = PENTAGON_DIRECTION_FACES[index];
        [
            Face::new_unchecked(row[0]),
            Face::new_unchecked(row[1]),
            Face::new_unchecked(row[2]),
            Face::new_unchecked(row[3]),
            Face::new_unchecked(row[4]),
        ]
    }

    /// Returns the cell's ordinal position among the 12 pentagons.
    fn pentagon_index(self) -> (r: usize)
        requires
            spec_is_pentagon(self@),
        ensures
            r == spec_pentagon_index(self@),
            r < 12,
    {
        proof {
            use_type_invariant(self);
        }
        let mut index: usize = 0;
        if self.value > 4 {
            index += 1;
        }
        if self.value > 14 {
            index += 1;
        }
        if self.value > 24 {
            index += 1;
        }
        if self.value > 38 {
            index += 1;
        }
        if self.value > 49 {
            index += 1;
        }
        if self.value > 58 {
            index += 1;
        }
        if self.value > 63 {
            index += 1;
        }
        if self.value > 72 {
            index += 1;
        }
        if self.value > 83 {
            index += 1;
        }
        if self.value > 97 {
            index += 1;
        }
        if self.value > 107 {
            index += 1;
        }
        if self.value > 117 {
            index += 1;
        }
        index
    }

    /// Returns the neighboring base cell in the given direction, or `None`
    /// for the reserved `K` direction of a pentagonal cell.
    pub fn neighbor(self, direction: Direction) -> (r: Option<Self>)
        ensures
            spec_neighbor(self@, direction@) <= MAX ==> (r matches Some(c) && c@ == spec_neighbor(
                self@,
                direction@,
            )),
            spec_neighbor(self@, direction@) > MAX ==> r is None,
            (r is None) <==> (spec_is_pentagon(self@) && direction@ == K_AXIS),
    {
        proof {
            use_type_invariant(self);
            lemma_neighbor_table_basics();
            lemma_pentagon_edge_count();
        }
        let value = NEIGHBORS[self.value as usize][direction.value() as usize];
        if value <= MAX {
            Some(Self { value })
        } else {
            None
        }
    }

    /// Returns the rotation applied when stepping to the neighbor in the
    /// given direction: the number of 60° ccw rotations into the neighbor's
    /// coordinate system.
    ///
    /// The neighbor must exist: the reserved `K` direction of a pentagon
    /// has no rotation entry.
    pub fn neighbor_rotation(self, direction: Direction) -> (r: u8)
        requires
            spec_neighbor(self@, direction@) != NO_NEIGHBOR,
        ensures
            r == spec_neighbor_rotation(self@, direction@),
            r <= 5,
    {
        proof {
            use_type_invariant(self);
            lemma_neighbor_rotation_defined();
        }
        NEIGHBOR_ROTATIONS[self.value as usize][direction.value() as usize]
    }

    /// Returns the direction from this base cell to the given neighboring
    /// cell, or `None` if the cells are not neighbors.
    ///
    /// The scan returns the first matching direction; by
    /// [`lemma_direction_unique`] it is also the only one.
    pub fn direction(self, neighbor: Self) -> (r: Option<Direction>)
        ensures
            r matches Some(d) ==> spec_neighbor(self@, d@) == neighbor@ && (forall|d2: u8|
                d2 < d@ ==> spec_neighbor(self@, d2) != neighbor@),
            r is None ==> forall|d: u8| d < NUM_DIRECTIONS ==> spec_neighbor(self@, d) != neighbor@,
    {
        proof {
            use_type_invariant(self);
        }
        let target = neighbor.value();
        let mut dir: u8 = 0;
        while dir < NUM_DIRECTIONS
            invariant
                dir <= NUM_DIRECTIONS,
                self@ <= MAX,
                forall|d2: u8| d2 < dir ==> spec_neighbor(self@, d2) != target,
                target == neighbor@,
            decreases NUM_DIRECTIONS - dir,
        {
            if NEIGHBORS[self.value as usize][dir as usize] == target {
                return Some(Direction::new_unchecked(dir));
            }
            dir += 1;
        }
        None
    }
}

/// The pentagon bitmap agrees, bit for bit, with the 12 pentagonal cell
/// values: the membership test and the explicit pentagon list can never
/// drift apart.
pub proof fn lemma_pentagon_bitmap_members()
    ensures
        forall|v: u8|
            v < 128 ==> ((BASE_PENTAGONS & (1u128 << v) != 0) <==> spec_is_pentagon(v)),
{
    assert(forall|v: u8|
        v < 128 ==> ((0x0020_0802_0008_0100_8402_0040_0100_4010u128 & (1u128 << v) != 0) <==> (v
            == 4 || v == 14 || v == 24 || v == 38 || v == 49 || v == 58 || v == 63 || v == 72 || v
            == 83 || v == 97 || v == 107 || v == 117))) by (bit_vector);
}

/// Invariants of the metadata tables: every home face is a real face, and a
/// clockwise offset pair is either wholly absent or a pair of real faces on
/// a pentagonal cell.  Hexagonal cells never carry an offset pair.
#[verifier::rlimit(100)]
#[verifier::spinoff_prover]
pub proof fn lemma_metadata_table_invariants()
    ensures
        forall|c: int| 0 <= c < 122 ==> #[trigger] HOME_FACES[c] < NUM_FACES,
        forall|c: int|
            0 <= c < 122 && #[trigger] CW_OFFSET_FACES[c][0] == NO_FACE
                ==> CW_OFFSET_FACES[c][1] == NO_FACE,
        forall|c: int|
            0 <= c < 122 && #[trigger] CW_OFFSET_FACES[c][0] != NO_FACE
                ==> CW_OFFSET_FACES[c][0] < NUM_FACES && CW_OFFSET_FACES[c][1] < NUM_FACES
                && spec_is_pentagon(c as u8),
{
    reveal(crate::tables::HOME_FACES);
    reveal(crate::tables::CW_OFFSET_FACES);
}

/// Exactly 12 distinct base cells are pentagonal: [`PENTAGONS`] lists them
/// in strictly ascending order, a value is pentagonal exactly when it
/// appears in that list, and each pentagon sits in the list at its own
/// derived ordinal [`spec_pentagon_index`].
#[verifier::rlimit(100)]
#[verifier::spinoff_prover]
pub proof fn lemma_twelve_pentagons()
    ensures
        forall|i: int| 0 <= i < 12 ==> spec_is_pentagon(#[trigger] PENTAGONS[i]),
        forall|i: int, j: int| 0 <= i < j < 12 ==> PENTAGONS[i] < PENTAGONS[j],
        forall|v: u8|
            v < 122 && spec_is_pentagon(v) ==> PENTAGONS[#[trigger] spec_pentagon_index(v)] == v,
{
    reveal(crate::tables::PENTAGONS);
}

/// Every neighbor-table entry is either a real base cell value or the
/// [`NO_NEIGHBOR`] sentinel, and the center direction always leads back to
/// the cell itself, with no rotation.
#[verifier::rlimit(100)]
#[verifier::spinoff_prover]
pub proof fn lemma_neighbor_table_basics()
    ensures
        forall|c: int, d: int|
            0 <= c < 122 && 0 <= d < 7 ==> #[trigger] NEIGHBORS[c][d] <= MAX || NEIGHBORS[c][d]
                == NO_NEIGHBOR,
        forall|c: int| 0 <= c < 122 ==> #[trigger] NEIGHBORS[c][0] == c,
        forall|c: int| 0 <= c < 122 ==> #[trigger] NEIGHBOR_ROTATIONS[c][0] == 0,
{
    reveal(crate::tables::NEIGHBORS);
    reveal(crate::tables::NEIGHBOR_ROTATIONS);
}

/// A pentagon has exactly 5 edge neighbors: the neighbor table has a hole
/// exactly at the reserved `K` direction of the 12 pentagonal cells.
/// Hexagonal cells have a neighbor in all 6 non-center directions.
#[verifier::rlimit(100)]
#[verifier::spinoff_prover]
pub proof fn lemma_pentagon_edge_count()
    ensures
        forall|c: int, d: int|
            0 <= c < 122 && 0 <= d < 7 ==> ((#[trigger] NEIGHBORS[c][d] == NO_NEIGHBOR) <==> (
            spec_is_pentagon(c as u8) && d == K_AXIS)),
{
    reveal(crate::tables::NEIGHBORS);
}

/// The per-step rotation table is defined exactly where the neighbor table
/// is, and every defined entry is a rotation count in `[0, 5]`.
#[verifier::rlimit(100)]
#[verifier::spinoff_prover]
pub proof fn lemma_neighbor_rotation_defined()
    ensures
        forall|c: int, d: int|
            0 <= c < 122 && 0 <= d < 7 ==> ((#[trigger] NEIGHBOR_ROTATIONS[c][d] == NO_NEIGHBOR)
                <==> (NEIGHBORS[c][d] == NO_NEIGHBOR)),
        forall|c: int, d: int|
            0 <= c < 122 && 0 <= d < 7 && #[trigger] NEIGHBOR_ROTATIONS[c][d] != NO_NEIGHBOR
                ==> NEIGHBOR_ROTATIONS[c][d] <= 5,
{
    reveal(crate::tables::NEIGHBORS);
    reveal(crate::tables::NEIGHBOR_ROTATIONS);
}

/// Neighborhood is symmetric: whenever stepping from `c` in direction `d`
/// reaches a neighbor, some direction leads from that neighbor back to `c`.
#[verifier::rlimit(100)]
#[verifier::spinoff_prover]
pub proof fn lemma_neighbor_symmetry()
    ensures
        forall|c: int, d: int|
            0 <= c < 122 && 0 <= d < 7 && NEIGHBORS[c][d] != NO_NEIGHBOR ==> exists|d2: int|
                0 <= d2 < 7 && #[trigger] NEIGHBORS[NEIGHBORS[c][d] as int][d2] == c,
{
    reveal(crate::tables::NEIGHBORS);
}

/// For a fixed origin, at most one direction reaches any given entry: the
/// rows of the neighbor table have no duplicates.
#[verifier::rlimit(100)]
#[verifier::spinoff_prover]
pub proof fn lemma_direction_unique()
    ensures
        forall|c: int, d1: int, d2: int|
            0 <= c < 122 && 0 <= d1 < 7 && 0 <= d2 < 7 && #[trigger] NEIGHBORS[c][d1]
                == #[trigger] NEIGHBORS[c][d2] ==> d1 == d2,
{
    reveal(crate::tables::NEIGHBORS);
}

/// Stepping between two hexagonal neighbors and back accumulates no net
/// rotation: the two legs' rotation counts cancel modulo 6.
///
/// The two polar-adjacent legs of a pentagonal cell are excluded: a
/// pentagon's missing edge shifts one leg's count, so the law holds only
/// when neither endpoint is a pentagon.
#[verifier::rlimit(100)]
#[verifier::spinoff_prover]
pub proof fn lemma_neighbor_rotation_round_trip()
    ensures
        forall|c: int, d: int, d2: int|
            0 <= c < 122 && 0 <= d < 7 && 0 <= d2 < 7 && !spec_is_pentagon(c as u8)
                && NEIGHBORS[c][d] != NO_NEIGHBOR && !spec_is_pentagon(NEIGHBORS[c][d])
                && #[trigger] NEIGHBORS[NEIGHBORS[c][d] as int][d2] == c ==> (
            #[trigger] NEIGHBOR_ROTATIONS[c][d] + NEIGHBOR_ROTATIONS[NEIGHBORS[c][d] as int][d2])
                % 6 == 0,
{
    reveal(crate::tables::NEIGHBORS);
    reveal(crate::tables::NEIGHBOR_ROTATIONS);
}

/// Every face-rotation entry is either the [`NO_PRESENCE`] sentinel or a
/// rotation count in `[0, 5]`.
#[verifier::rlimit(100)]
#[verifier::spinoff_prover]
pub proof fn lemma_face_rotation_range()
    ensures
        forall|c: int, f: int|
            0 <= c < 122 && 0 <= f < 20 ==> #[trigger] FACE_ROTATIONS[c][f] == NO_PRESENCE
                || FACE_ROTATIONS[c][f] <= 5,
{
    reveal(crate::tables::FACE_ROTATIONS);
}

/// Every base cell has a presence on its home face, and viewing a cell from
/// its own home face needs no rotation at all.
#[verifier::rlimit(100)]
#[verifier::spinoff_prover]
pub proof fn lemma_home_face_presence()
    ensures
        forall|c: int| 0 <= c < 122 ==> #[trigger] FACE_ROTATIONS[c][HOME_FACES[c] as int] == 0,
{
    reveal(crate::tables::FACE_ROTATIONS);
    reveal(crate::tables::HOME_FACES);
}

/// Each pentagon's direction-to-face row lists 5 real, pairwise distinct
/// faces: a pentagon's 5 edges touch 5 different faces.
#[verifier::rlimit(100)]
#[verifier::spinoff_prover]
pub proof fn lemma_pentagon_direction_faces_distinct()
    ensures
        forall|p: int, i: int|
            0 <= p < 12 && 0 <= i < 5 ==> #[trigger] PENTAGON_DIRECTION_FACES[p][i] < NUM_FACES,
        forall|p: int, i: int, j: int|
            0 <= p < 12 && 0 <= i < j < 5 ==> PENTAGON_DIRECTION_FACES[p][i]
                != PENTAGON_DIRECTION_FACES[p][j],
{
    reveal(crate::tables::PENTAGON_DIRECTION_FACES);
}

/// The two polar pentagons are exactly the base cells all of whose
/// neighbors are oriented towards them: every neighbor reaches the cell
/// back through the `I` direction alone, while every other cell has at
/// least one neighbor that reaches it through some other direction.
#[verifier::rlimit(100)]
#[verifier::spinoff_prover]
pub proof fn lemma_polar_pentagons_inward()
    ensures
        forall|c: int, d: int, d2: int|
            (c == 4 || c == 117) && 1 <= d < 7 && 0 <= d2 < 7 && NEIGHBORS[c][d] != NO_NEIGHBOR
                && #[trigger] NEIGHBORS[NEIGHBORS[c][d] as int][d2] == c ==> d2 == I_AXIS,
        forall|c: int|
            #![trigger NEIGHBORS[c]]
            0 <= c < 122 && c != 4 && c != 117 ==> exists|d: int, d2: int|
                1 <= d < 7 && 0 <= d2 < 7 && NEIGHBORS[c][d] != NO_NEIGHBOR
                    && #[trigger] NEIGHBORS[NEIGHBORS[c][d] as int][d2] == c && d2 != I_AXIS,
{
    reveal(crate::tables::NEIGHBORS);
}

} // verus!
