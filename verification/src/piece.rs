//! The active falling unit: shape identity, rotation state and board
//! position, with its pure geometric transforms. Every transform returns a
//! new value, so a rejected candidate is discarded without side effects.

use vstd::prelude::*;

use crate::shapes::PieceRotation;
use crate::shapes::PieceShape;
use crate::shapes::shape_occupies;
use crate::shapes::spec_occupies;

verus! {

/// Number of columns of the playfield.
pub const GAME_WIDTH: usize = 10;

/// Number of rows of the playfield; the top rows form the spawn buffer.
pub const GAME_HEIGHT: usize = 22;

/// Column of the fixed spawn point: the 4-wide bounding box sits mid-board.
pub const SPAWN_X: i32 = 3;

/// Row of the fixed spawn point: the top playable row.
pub const SPAWN_Y: i32 = 0;

/// A board coordinate: `x` grows rightward, `y` grows downward, origin at
/// the top-left playable cell.
#[derive(Clone, Copy, Debug, PartialEq, Eq, Structural)]
pub struct Point {
    pub x: i32,
    pub y: i32,
}

/// The three directions a piece can be asked to move. Upward movement is
/// not part of the command surface.
#[derive(Clone, Copy, Debug, PartialEq, Eq, Structural)]
pub enum Direction {
    Down,
    Left,
    Right,
}

/// The active piece: an immutable (shape, rotation, position) value whose
/// position is the top-left corner of its 4x4 bounding box.
#[derive(Clone, Copy, Debug, PartialEq, Eq, Structural)]
pub struct Piece {
    pub shape: PieceShape,
    pub rotation: PieceRotation,
    pub position: Point,
}

/// The point one cell away in the given direction.
pub open spec fn spec_moved_point(p: Point, d: Direction) -> Point {
    match d {
        Direction::Down => Point { x: p.x, y: (p.y + 1) as i32 },
        Direction::Left => Point { x: (p.x - 1) as i32, y: p.y },
        Direction::Right => Point { x: (p.x + 1) as i32, y: p.y },
    }
}

/// The piece freshly spawned with the given shape: initial rotation, fixed
/// spawn point.
pub open spec fn spec_spawned(shape: PieceShape) -> Piece {
    Piece {
        shape,
        rotation: PieceRotation::Normal,
        position: Point { x: SPAWN_X, y: SPAWN_Y },
    }
}

/// The piece shifted one cell in the given direction.
pub open spec fn spec_piece_moved(p: Piece, d: Direction) -> Piece {
    Piece { shape: p.shape, rotation: p.rotation, position: spec_moved_point(p.position, d) }
}

/// The next rotation state clockwise.
pub open spec fn spec_rotation_right(r: PieceRotation) -> PieceRotation {
    match r {
        PieceRotation::Normal => PieceRotation::Right,
        PieceRotation::Right => PieceRotation::Reverse,
        PieceRotation::Reverse => PieceRotation::Left,
        PieceRotation::Left => PieceRotation::Normal,
    }
}

/// The piece advanced one step in the clockwise rotation cycle; shape and
/// position are unchanged.
pub open spec fn spec_piece_rotated_right(p: Piece) -> Piece {
    Piece { shape: p.shape, rotation: spec_rotation_right(p.rotation), position: p.position }
}

/// Whether the piece fills the relative cell `(dy, dx)` of its bounding box.
pub open spec fn spec_piece_occupies(p: Piece, dy: int, dx: int) -> bool {
    spec_occupies(p.shape, p.rotation, dy, dx)
}

/// The coarse bounds pre-check: the bounding-box origin lies inside
/// `[0, GAME_WIDTH) x [0, GAME_HEIGHT)`. Not a per-cell test.
pub open spec fn spec_within_limits(p: Piece) -> bool {
    &&& 0 <= p.position.x < GAME_WIDTH
    &&& 0 <= p.position.y < GAME_HEIGHT
}

impl Point {
    /// The point one cell away in the given direction.
    pub fn moved(&self, direction: Direction) -> (r: Point)
        requires
            i32::MIN < self.x < i32::MAX,
            self.y < i32::MAX,
        ensures
            r == spec_moved_point(*self, direction),
    {
        match direction {
            Direction::Down => Point { x: self.x, y: self.y + 1 },
            Direction::Left => Point { x: self.x - 1, y: self.y },
            Direction::Right => Point { x: self.x + 1, y: self.y },
        }
    }
}

impl Piece {
    /// A piece freshly spawned with the given shape, at the spawn point.
    pub fn spawned(shape: PieceShape) -> (p: Piece)
        ensures
            p == spec_spawned(shape),
    {
        Piece {
            shape,
            rotation: PieceRotation::Normal,
            position: Point { x: SPAWN_X, y: SPAWN_Y },
        }
    }

    /// A copy with the given rotation state.
    pub fn with_rotation(&self, rotation: PieceRotation) -> (p: Piece)
        ensures
            p == (Piece { shape: self.shape, rotation, position: self.position }),
    {
        Piece { shape: self.shape, position: self.position, rotation }
    }

    /// A copy at the given position.
    pub fn with_position(&self, position: Point) -> (p: Piece)
        ensures
            p == (Piece { shape: self.shape, rotation: self.rotation, position }),
    {
        Piece { shape: self.shape, rotation: self.rotation, position }
    }

    /// A copy shifted one cell in the given direction.
    pub fn moved(&self, direction: Direction) -> (p: Piece)
        requires
            i32::MIN < self.position.x < i32::MAX,
            self.position.y < i32::MAX,
        ensures
            p == spec_piece_moved(*self, direction),
    {
        self.with_position(self.position.moved(direction))
    }

    /// A copy advanced one step in the clockwise rotation cycle.
    pub fn rotated_right(&self) -> (p: Piece)
        ensures
            p == spec_piece_rotated_right(*self),
    {
        self.with_rotation(
            match self.rotation {
                PieceRotation::Normal => PieceRotation::Right,
                PieceRotation::Right => PieceRotation::Reverse,
                PieceRotation::Reverse => PieceRotation::Left,
                PieceRotation::Left => PieceRotation::Normal,
            },
        )
    }

    /// Whether the piece fills the relative cell `(y, x)` of its bounding
    /// box; a pure table lookup in the shape library.
    pub fn get(&self, y: usize, x: usize) -> (b: bool)
        requires
            y < 4,
            x < 4,
        ensures
            b == spec_piece_occupies(*self, y as int, x as int),
    {
        shape_occupies(self.shape, self.rotation, y, x)
    }

    /// The coarse bounds pre-check on the bounding-box origin.
    pub fn check_limits(&self) -> (b: bool)
        ensures
            b == spec_within_limits(*self),
    {
        self.position.x >= 0 && self.position.y >= 0 && self.position.x < GAME_WIDTH as i32
            && self.position.y < GAME_HEIGHT as i32
    }
}

/// Four clockwise rotation steps return any piece to its original value:
/// the rotation states form a cyclic group of order four and the position
/// and shape are untouched by rotation.
pub proof fn lemma_rotation_cycle_of_four(p: Piece)
    ensures
        spec_piece_rotated_right(
            spec_piece_rotated_right(spec_piece_rotated_right(spec_piece_rotated_right(p))),
        ) == p,
{
}

} // verus!
