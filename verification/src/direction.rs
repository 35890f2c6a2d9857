//! The instruction pointer: a position on the grid and a heading.

use vstd::prelude::*;

verus! {

/// A pair of signed grid coordinates. It serves both as a place on the grid
/// and as the displacement of one move.
#[derive(Clone, Copy, Debug, PartialEq, Eq, Structural)]
pub struct ProgramPosition {
    pub row: i32,
    pub col: i32,
}

impl ProgramPosition {
    /// The place one cell away in direction `d`, if its coordinates can be
    /// held.
    pub open spec fn neighbour(self, d: Direction) -> Option<ProgramPosition> {
        let row = self.row + d.row_delta();
        let col = self.col + d.col_delta();
        if i32::MIN <= row <= i32::MAX && i32::MIN <= col <= i32::MAX {
            Some(ProgramPosition { row: row as i32, col: col as i32 })
        } else {
            None
        }
    }

    /// Moves one cell in direction `d`. There is no such place where a
    /// coordinate would leave the range of `i32`.
    pub fn moved(self, d: Direction) -> (r: Option<ProgramPosition>)
        ensures
            r == self.neighbour(d),
    {
        let mv: ProgramPosition = Direction::get_move(d);
        match (self.row.checked_add(mv.row), self.col.checked_add(mv.col)) {
            (Some(row), Some(col)) => Some(ProgramPosition { row, col }),
            _ => None,
        }
    }
}

/// The four headings of the instruction pointer.
#[derive(Clone, Copy, Debug, PartialEq, Eq, Structural)]
pub enum Direction {
    Up,
    Down,
    Left,
    Right,
}

impl Direction {
    /// Rows travelled by one move in this direction.
    pub open spec fn row_delta(self) -> int {
        match self {
            Direction::Up => -1,
            Direction::Down => 1,
            Direction::Left => 0,
            Direction::Right => 0,
        }
    }

    /// Columns travelled by one move in this direction.
    pub open spec fn col_delta(self) -> int {
        match self {
            Direction::Up => 0,
            Direction::Down => 0,
            Direction::Left => -1,
            Direction::Right => 1,
        }
    }

    /// The unit displacement of one move in direction `d`.
    pub fn get_move(d: Self) -> (mv: ProgramPosition)
        ensures
            mv.row == d.row_delta(),
            mv.col == d.col_delta(),
    {
        match d {
            Direction::Up => ProgramPosition { row: -1, col: 0 },
            Direction::Right => ProgramPosition { row: 0, col: 1 },
            Direction::Down => ProgramPosition { row: 1, col: 0 },
            Direction::Left => ProgramPosition { row: 0, col: -1 },
        }
    }
}

} // verus!
