//! The board the bishop walks: its regions, the moves each region allows,
//! and the rule that turns a step code into the next cell.

use vstd::prelude::*;
use crate::bits::Bits;

verus! {

/// Number of rows of the board.
pub const ROWS: usize = 9;

/// Number of columns of the board.
pub const COLS: usize = 17;

/// Whether `(row, column)` names a cell of the board.
pub open spec fn on_board(pos: (int, int)) -> bool {
    0 <= pos.0 < ROWS && 0 <= pos.1 < COLS
}

/// The cell the walk starts from: the centre of the board.
pub open spec fn start_cell() -> (int, int) {
    (4, 8)
}

/// The nine parts of the board that differ in the moves they allow.
#[derive(Debug, Clone, Copy, PartialEq, Eq, Structural)]
pub enum Region {
    TopLeft,
    Top,
    TopRight,
    Left,
    Center,
    Right,
    BottomLeft,
    Bottom,
    BottomRight,
}

impl Region {
    /// Whether the cell lies in this region. Corners are single cells, the
    /// four edges exclude their corners, the centre is everything else.
    pub open spec fn holds(self, pos: (int, int)) -> bool {
        let (row, col) = pos;
        match self {
            Region::TopLeft => row == 0 && col == 0,
            Region::Top => row == 0 && 0 < col < COLS - 1,
            Region::TopRight => row == 0 && col == COLS - 1,
            Region::Left => 0 < row < ROWS - 1 && col == 0,
            Region::Center => 0 < row < ROWS - 1 && 0 < col < COLS - 1,
            Region::Right => 0 < row < ROWS - 1 && col == COLS - 1,
            Region::BottomLeft => row == ROWS - 1 && col == 0,
            Region::Bottom => row == ROWS - 1 && 0 < col < COLS - 1,
            Region::BottomRight => row == ROWS - 1 && col == COLS - 1,
        }
    }

    /// The region of a cell, decided in the order: corner, top or bottom
    /// edge, left or right edge, centre.
    pub open spec fn of(pos: (int, int)) -> Region {
        let (row, col) = pos;
        if row == 0 {
            if col == 0 {
                Region::TopLeft
            } else if col == COLS - 1 {
                Region::TopRight
            } else {
                Region::Top
            }
        } else if row == ROWS - 1 {
            if col == 0 {
                Region::BottomLeft
            } else if col == COLS - 1 {
                Region::BottomRight
            } else {
                Region::Bottom
            }
        } else if col == 0 {
            Region::Left
        } else if col == COLS - 1 {
            Region::Right
        } else {
            Region::Center
        }
    }

    /// Whether this is one of the four corner regions.
    pub open spec fn is_corner(self) -> bool {
        self == Region::TopLeft || self == Region::TopRight || self == Region::BottomLeft || self
            == Region::BottomRight
    }

    /// Whether this is one of the four edge regions, corners not counted.
    pub open spec fn is_edge(self) -> bool {
        self == Region::Top || self == Region::Bottom || self == Region::Left || self
            == Region::Right
    }
}

/// The nine moves: staying put and the eight compass directions.
#[derive(Debug, Clone, Copy, PartialEq, Eq, Structural)]
pub enum Direction {
    Stay,
    NorthWest,
    North,
    NorthEast,
    West,
    East,
    SouthWest,
    South,
    SouthEast,
}

impl Direction {
    /// Change of row: -1 towards the top, +1 towards the bottom.
    pub open spec fn row_shift(self) -> int {
        match self {
            Direction::NorthWest | Direction::North | Direction::NorthEast => -1,
            Direction::SouthWest | Direction::South | Direction::SouthEast => 1,
            _ => 0,
        }
    }

    /// Change of column: -1 towards the left, +1 towards the right.
    pub open spec fn col_shift(self) -> int {
        match self {
            Direction::NorthWest | Direction::West | Direction::SouthWest => -1,
            Direction::NorthEast | Direction::East | Direction::SouthEast => 1,
            _ => 0,
        }
    }

    /// The cell reached from `pos` by this move.
    pub open spec fn apply(self, pos: (int, int)) -> (int, int) {
        (pos.0 + self.row_shift(), pos.1 + self.col_shift())
    }

    /// The move with the given changes of row and column, each of -1, 0 or 1.
    pub open spec fn with_shifts(row_shift: int, col_shift: int) -> Direction {
        if row_shift < 0 {
            if col_shift < 0 {
                Direction::NorthWest
            } else if col_shift > 0 {
                Direction::NorthEast
            } else {
                Direction::North
            }
        } else if row_shift > 0 {
            if col_shift < 0 {
                Direction::SouthWest
            } else if col_shift > 0 {
                Direction::SouthEast
            } else {
                Direction::South
            }
        } else if col_shift < 0 {
            Direction::West
        } else if col_shift > 0 {
            Direction::East
        } else {
            Direction::Stay
        }
    }

    /// Whether the move changes both row and column.
    pub open spec fn is_diagonal(self) -> bool {
        self.row_shift() != 0 && self.col_shift() != 0
    }
}

/// The row change a code asks for: its high bit clear pulls north, set pulls south.
pub open spec fn row_pull(bits: Bits) -> int {
    match bits {
        Bits::ZZ | Bits::ZO => -1,
        Bits::OZ | Bits::OO => 1,
    }
}

/// The column change a code asks for: its low bit clear pulls west, set pulls east.
pub open spec fn col_pull(bits: Bits) -> int {
    match bits {
        Bits::ZZ | Bits::OZ => -1,
        Bits::ZO | Bits::OO => 1,
    }
}

/// `x` moved by `pull`, held inside `0..=last`.
pub open spec fn slide(x: int, pull: int, last: int) -> int {
    if x + pull < 0 {
        0
    } else if x + pull > last {
        last
    } else {
        x + pull
    }
}

/// The cell the bishop reaches from `pos` on `bits`: one diagonal step in
/// the direction the code pulls, except that a wall stops the part of the
/// step that would cross it.
pub open spec fn next_cell(pos: (int, int), bits: Bits) -> (int, int) {
    (slide(pos.0, row_pull(bits), ROWS - 1), slide(pos.1, col_pull(bits), COLS - 1))
}

/// The move the bishop makes from `pos` on `bits`: the one that leads to `next_cell`.
pub open spec fn heading(pos: (int, int), bits: Bits) -> Direction {
    let to = next_cell(pos, bits);
    Direction::with_shifts(to.0 - pos.0, to.1 - pos.1)
}

/// Of the four codes, how many make the bishop at `pos` move in a way that `wanted` accepts.
pub open spec fn codes_heading(pos: (int, int), wanted: spec_fn(Direction) -> bool) -> nat {
    let one = |bits: Bits| if wanted(heading(pos, bits)) { 1nat } else { 0nat };
    one(Bits::ZZ) + one(Bits::ZO) + one(Bits::OZ) + one(Bits::OO)
}

/// Every cell of the board lies in the region `Region::of` names, and in no other.
pub proof fn lemma_region_unique(pos: (int, int), region: Region)
    requires
        on_board(pos),
    ensures
        Region::of(pos).holds(pos),
        region.holds(pos) <==> region == Region::of(pos),
{
}

/// A corner cell is classified as a corner, never as an edge.
pub proof fn lemma_corner_is_no_edge(pos: (int, int))
    requires
        on_board(pos),
        pos.0 == 0 || pos.0 == ROWS - 1,
        pos.1 == 0 || pos.1 == COLS - 1,
    ensures
        Region::of(pos).is_corner(),
        !Region::of(pos).is_edge(),
{
}

/// A step never leaves the board.
pub proof fn lemma_next_cell_on_board(pos: (int, int), bits: Bits)
    requires
        on_board(pos),
    ensures
        on_board(next_cell(pos, bits)),
{
}

/// The bishop's move leads to the next cell, and no other move does.
pub proof fn lemma_heading_leads_to_next_cell(pos: (int, int), bits: Bits, direction: Direction)
    requires
        on_board(pos),
    ensures
        heading(pos, bits).apply(pos) == next_cell(pos, bits),
        direction.apply(pos) == next_cell(pos, bits) <==> direction == heading(pos, bits),
{
}

/// How the four codes fare by region. In the centre all four move
/// diagonally. On an edge none stays: two slide along the edge and two move
/// diagonally. In a corner one stays, one moves diagonally and two slide
/// along the walls.
pub proof fn lemma_moves_by_region(pos: (int, int))
    requires
        on_board(pos),
    ensures
        Region::of(pos) == Region::Center ==> codes_heading(pos, |d: Direction| d.is_diagonal())
            == 4,
        Region::of(pos).is_edge() ==> {
            &&& codes_heading(pos, |d: Direction| d == Direction::Stay) == 0
            &&& codes_heading(pos, |d: Direction| d.is_diagonal()) == 2
        },
        Region::of(pos).is_corner() ==> {
            &&& codes_heading(pos, |d: Direction| d == Direction::Stay) == 1
            &&& codes_heading(pos, |d: Direction| d.is_diagonal()) == 1
        },
{
}

} // verus!
