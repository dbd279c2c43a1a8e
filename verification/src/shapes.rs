//! The shape library: occupancy data for every (shape, rotation) pair.
//!
//! Each pair is pre-tabulated as a 16-bit mask over the piece's fixed 4x4
//! bounding box, bit `4 * row + column` (row-major, rows growing downward).
//! Shapes that span fewer than four rows or columns pad the unused cells
//! with zero bits. All four rotation states are tabulated rather than
//! computed from a base matrix, so an occupancy test is a pure lookup.

use vstd::prelude::*;

verus! {

/// The seven piece identities. A shape selects the geometry of the falling
/// piece and, once locked into the board, is retained in the cell purely as
/// a rendering tag.
#[derive(Clone, Copy, Debug, PartialEq, Eq, Structural)]
pub enum PieceShape {
    I,
    O,
    L,
    J,
    T,
    S,
    Z,
}

/// The four rotation states. `rotated_right` advances them in the cycle
/// Normal -> Right -> Reverse -> Left -> Normal.
#[derive(Clone, Copy, Debug, PartialEq, Eq, Structural)]
pub enum PieceRotation {
    Normal,
    Left,
    Reverse,
    Right,
}

/// One cell of the static grid: empty, or filled by a locked piece whose
/// shape is kept as a color tag.
#[derive(Clone, Copy, Debug, PartialEq, Eq, Structural)]
pub enum FieldCell {
    Empty,
    Occupied(PieceShape),
}

/// Occupancy mask of a (shape, rotation) pair: bit `4 * row + column` is set
/// exactly when the piece fills that cell of its 4x4 bounding box.
pub open spec fn spec_shape_mask(s: PieceShape, r: PieceRotation) -> u16 {
    match s {
        PieceShape::I => match r {
            PieceRotation::Normal => 0x1111,
            PieceRotation::Left => 0x000F,
            PieceRotation::Reverse => 0x1111,
            PieceRotation::Right => 0x000F,
        },
        PieceShape::O => match r {
            PieceRotation::Normal => 0x0033,
            PieceRotation::Left => 0x0033,
            PieceRotation::Reverse => 0x0033,
            PieceRotation::Right => 0x0033,
        },
        PieceShape::L => match r {
            PieceRotation::Normal => 0x0113,
            PieceRotation::Left => 0x0047,
            PieceRotation::Reverse => 0x0322,
            PieceRotation::Right => 0x0071,
        },
        PieceShape::J => match r {
            PieceRotation::Normal => 0x0223,
            PieceRotation::Left => 0x0074,
            PieceRotation::Reverse => 0x0311,
            PieceRotation::Right => 0x0017,
        },
        PieceShape::T => match r {
            PieceRotation::Normal => 0x0072,
            PieceRotation::Left => 0x0131,
            PieceRotation::Reverse => 0x0027,
            PieceRotation::Right => 0x0232,
        },
        PieceShape::S => match r {
            PieceRotation::Normal => 0x0132,
            PieceRotation::Left => 0x0063,
            PieceRotation::Reverse => 0x0132,
            PieceRotation::Right => 0x0063,
        },
        PieceShape::Z => match r {
            PieceRotation::Normal => 0x0231,
            PieceRotation::Left => 0x0036,
            PieceRotation::Reverse => 0x0231,
            PieceRotation::Right => 0x0036,
        },
    }
}

/// Whether the cell `(y, x)` of the 4x4 bounding box is filled for the given
/// shape and rotation. Cells outside the box are unoccupied.
pub open spec fn spec_occupies(s: PieceShape, r: PieceRotation, y: int, x: int) -> bool {
    0 <= y < 4 && 0 <= x < 4 && (spec_shape_mask(s, r) >> ((4 * y + x) as u16)) & 1 == 1
}

/// Executable lookup of the occupancy mask of a (shape, rotation) pair.
pub fn shape_mask(s: PieceShape, r: PieceRotation) -> (m: u16)
    ensures
        m == spec_shape_mask(s, r),
{
    match s {
        PieceShape::I => match r {
            PieceRotation::Normal => 0x1111,
            PieceRotation::Left => 0x000F,
            PieceRotation::Reverse => 0x1111,
            PieceRotation::Right => 0x000F,
        },
        PieceShape::O => match r {
            PieceRotation::Normal => 0x0033,
            PieceRotation::Left => 0x0033,
            PieceRotation::Reverse => 0x0033,
            PieceRotation::Right => 0x0033,
        },
        PieceShape::L => match r {
            PieceRotation::Normal => 0x0113,
            PieceRotation::Left => 0x0047,
            PieceRotation::Reverse => 0x0322,
            PieceRotation::Right => 0x0071,
        },
        PieceShape::J => match r {
            PieceRotation::Normal => 0x0223,
            PieceRotation::Left => 0x0074,
            PieceRotation::Reverse => 0x0311,
            PieceRotation::Right => 0x0017,
        },
        PieceShape::T => match r {
            PieceRotation::Normal => 0x0072,
            PieceRotation::Left => 0x0131,
            PieceRotation::Reverse => 0x0027,
            PieceRotation::Right => 0x0232,
        },
        PieceShape::S => match r {
            PieceRotation::Normal => 0x0132,
            PieceRotation::Left => 0x0063,
            PieceRotation::Reverse => 0x0132,
            PieceRotation::Right => 0x0063,
        },
        PieceShape::Z => match r {
            PieceRotation::Normal => 0x0231,
            PieceRotation::Left => 0x0036,
            PieceRotation::Reverse => 0x0231,
            PieceRotation::Right => 0x0036,
        },
    }
}

/// Executable occupancy test for cell `(y, x)` of the 4x4 bounding box.
pub fn shape_occupies(s: PieceShape, r: PieceRotation, y: usize, x: usize) -> (b: bool)
    requires
        y < 4,
        x < 4,
    ensures
        b == spec_occupies(s, r, y as int, x as int),
{
    let m = shape_mask(s, r);
    let sh: u16 = (4 * y + x) as u16;
    proof {
        assert(4 * y + x < 16);
        assert(sh == (4 * (y as int) + (x as int)) as u16);
    }
    ((m >> sh) & 1) == 1
}

} // verus!
