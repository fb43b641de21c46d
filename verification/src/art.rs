//! The walk itself: visit counters, the bishop's state, and one step of it.

use vstd::prelude::*;
use crate::bits::Bits;
use crate::board::{heading, next_cell, on_board, start_cell, Direction, Region, COLS, ROWS};

verus! {

/// The highest count a cell keeps; further visits leave it there.
pub const MAX_VISITS: i8 = 127;

/// Number of glyphs in the ramp.
pub const RAMP_LEN: usize = 17;

/// The glyphs by visit count, the last one standing for every higher count.
pub const RAMP: [char; 17] = [
    ' ', '.', 'o', '+', '=', '*', 'B', 'O', 'X', '@', '%', '&', '#', '/', '^', 'S', 'E',
];

/// The glyph for a cell seen `visits` times.
pub open spec fn ramp_glyph(visits: nat) -> char {
    if visits < RAMP_LEN {
        RAMP@[visits as int]
    } else {
        RAMP@[RAMP_LEN - 1]
    }
}

/// A count one higher, unless it already is `MAX_VISITS`.
pub open spec fn bump(visits: nat) -> nat {
    if visits < MAX_VISITS {
        visits + 1
    } else {
        visits
    }
}

/// The visit counter of one cell.
#[derive(Debug, Clone, Copy)]
pub struct Entry(i8);

impl Entry {
    #[verifier::type_invariant]
    spec fn never_negative(self) -> bool {
        self.0 >= 0
    }

    /// How often the cell was visited, as far as the counter can tell.
    pub closed spec fn visits(self) -> nat {
        self.0 as nat
    }

    /// Counts one more visit; at `MAX_VISITS` the counter stays.
    pub fn incr(&mut self)
        ensures
            final(self).visits() == bump(old(self).visits()),
        no_unwind
    {
        proof {
            use_type_invariant(&*self);
        }
        if self.0 < MAX_VISITS {
            self.0 = self.0 + 1;
        }
    }

    /// The glyph that stands for the count.
    pub fn as_char(&self) -> (glyph: char)
        ensures
            glyph == ramp_glyph(self.visits()),
    {
        proof {
            use_type_invariant(self);
        }
        if self.0 < 17 {
            RAMP[self.0 as usize]
        } else {
            RAMP[16]
        }
    }
}

impl Default for Entry {
    /// A counter that has seen no visit.
    fn default() -> (entry: Entry)
        ensures
            entry.visits() == 0,
    {
        Entry(0)
    }
}

/// A cell seen 16 times or more shows the last glyph of the ramp, however
/// many visits came after.
pub proof fn lemma_ramp_saturates(visits: nat)
    requires
        visits >= RAMP_LEN - 1,
    ensures
        ramp_glyph(visits) == 'E',
        ramp_glyph(visits) == ramp_glyph((RAMP_LEN - 1) as nat),
{
}

/// What a walk has come to: where the bishop stands and how often each cell
/// of the board was stepped on.
pub struct Trail {
    pub pos: (int, int),
    pub visits: Map<(int, int), nat>,
}

impl Trail {
    /// The state before the first step: the bishop on the start cell, every
    /// count zero.
    pub open spec fn start() -> Trail {
        Trail {
            pos: start_cell(),
            visits: Map::new(|cell: (int, int)| on_board(cell), |cell: (int, int)| 0nat),
        }
    }

    /// The state after one more step: the bishop moves to the next cell, and
    /// that cell counts one more visit.
    pub open spec fn step(self, bits: Bits) -> Trail {
        let to = next_cell(self.pos, bits);
        Trail { pos: to, visits: self.visits.insert(to, bump(self.visits[to])) }
    }

    /// The state after the given codes, taken in order.
    pub open spec fn run(self, codes: Seq<Bits>) -> Trail
        decreases codes.len(),
    {
        if codes.len() == 0 {
            self
        } else {
            self.run(codes.drop_last()).step(codes.last())
        }
    }
}

/// The glyph drawn for a cell: `S` on the start cell, else `E` where the
/// bishop stands, else the ramp glyph of the cell's count.
pub open spec fn cell_glyph(trail: Trail, row: int, col: int) -> char {
    if (row, col) == start_cell() {
        'S'
    } else if (row, col) == trail.pos {
        'E'
    } else {
        ramp_glyph(trail.visits[(row, col)])
    }
}

/// The codes of a byte sequence: the four codes of each byte, byte after byte.
pub open spec fn codes_of(bytes: Seq<u8>) -> Seq<Bits>
    decreases bytes.len(),
{
    if bytes.len() == 0 {
        Seq::empty()
    } else {
        codes_of(bytes.drop_last()) + Bits::of_byte(bytes.last())
    }
}

/// Running one more code is running the codes before it and then taking a step.
pub proof fn lemma_run_push(trail: Trail, codes: Seq<Bits>, bits: Bits)
    ensures
        trail.run(codes.push(bits)) == trail.run(codes).step(bits),
{
    assert(codes.push(bits).drop_last() =~= codes);
}

/// Running two sequences of codes one after the other is running their concatenation.
pub proof fn lemma_run_concat(trail: Trail, first: Seq<Bits>, second: Seq<Bits>)
    ensures
        trail.run(first + second) == trail.run(first).run(second),
    decreases second.len(),
{
    if second.len() == 0 {
        assert(first + second =~= first);
    } else {
        lemma_run_concat(trail, first, second.drop_last());
        assert((first + second).drop_last() =~= first + second.drop_last());
    }
}

/// A walk that starts on the board ends on the board, whatever the codes.
pub proof fn lemma_walk_stays_on_board(trail: Trail, codes: Seq<Bits>)
    requires
        on_board(trail.pos),
    ensures
        on_board(trail.run(codes).pos),
    decreases codes.len(),
{
    if codes.len() > 0 {
        lemma_walk_stays_on_board(trail, codes.drop_last());
    }
}

/// The bishop on its board.
pub struct RandomArt {
    board: [[Entry; 17]; 9],
    pos: (usize, usize),
}

impl View for RandomArt {
    type V = Trail;

    closed spec fn view(&self) -> Trail {
        Trail {
            pos: (self.pos.0 as int, self.pos.1 as int),
            visits: Map::new(
                |cell: (int, int)| on_board(cell),
                |cell: (int, int)| self.board[cell.0][cell.1].visits(),
            ),
        }
    }
}

impl RandomArt {
    #[verifier::type_invariant]
    spec fn bishop_on_board(self) -> bool {
        self.pos.0 < ROWS && self.pos.1 < COLS
    }

    /// The cell every walk starts from.
    pub fn start_position() -> (pos: (usize, usize))
        ensures
            (pos.0 as int, pos.1 as int) == start_cell(),
    {
        (4, 8)
    }

    /// The cell the bishop stands on.
    pub fn position(&self) -> (pos: (usize, usize))
        ensures
            (pos.0 as int, pos.1 as int) == self@.pos,
            on_board(self@.pos),
    {
        proof {
            use_type_invariant(self);
        }
        self.pos
    }

    /// The glyph drawn for the cell at `row` and `col` of the board.
    pub fn glyph_at(&self, row: usize, col: usize) -> (glyph: char)
        requires
            on_board((row as int, col as int)),
        ensures
            glyph == cell_glyph(self@, row as int, col as int),
    {
        if row == 4 && col == 8 {
            'S'
        } else if row == self.pos.0 && col == self.pos.1 {
            'E'
        } else {
            self.board[row][col].as_char()
        }
    }

    /// Counts one more visit of the cell the bishop stands on.
    pub fn incr(&mut self)
        ensures
            final(self)@.pos == old(self)@.pos,
            final(self)@.visits == old(self)@.visits.insert(
                old(self)@.pos,
                bump(old(self)@.visits[old(self)@.pos]),
            ),
    {
        proof {
            use_type_invariant(&*self);
        }
        self.board[self.pos.0][self.pos.1].incr();
        assert(self@.visits =~= old(self)@.visits.insert(
            old(self)@.pos,
            bump(old(self)@.visits[old(self)@.pos]),
        ));
    }

    /// The region the bishop stands in.
    pub fn state(&self) -> (region: Region)
        ensures
            region == Region::of(self@.pos),
            region.holds(self@.pos),
    {
        proof {
            use_type_invariant(self);
        }
        let (row, col) = self.pos;
        match (row, col) {
            (0, 0) => Region::TopLeft,
            (0, 16) => Region::TopRight,
            (0, _) => Region::Top,
            (8, 0) => Region::BottomLeft,
            (8, 16) => Region::BottomRight,
            (8, _) => Region::Bottom,
            (_, 0) => Region::Left,
            (_, 16) => Region::Right,
            _ => Region::Center,
        }
    }

    /// The move that the code asks for where the bishop stands.
    pub fn move_direction(&self, bits: Bits) -> (direction: Direction)
        ensures
            direction == heading(self@.pos, bits),
            direction.apply(self@.pos) == next_cell(self@.pos, bits),
    {
        proof {
            use_type_invariant(self);
        }
        match (self.state(), bits) {
            (Region::TopLeft, Bits::ZZ) => Direction::Stay,
            (Region::TopLeft, Bits::ZO) => Direction::East,
            (Region::TopLeft, Bits::OZ) => Direction::South,
            (Region::TopLeft, Bits::OO) => Direction::SouthEast,
            (Region::Top, Bits::ZZ) => Direction::West,
            (Region::Top, Bits::ZO) => Direction::East,
            (Region::Top, Bits::OZ) => Direction::SouthWest,
            (Region::Top, Bits::OO) => Direction::SouthEast,
            (Region::TopRight, Bits::ZZ) => Direction::West,
            (Region::TopRight, Bits::ZO) => Direction::Stay,
            (Region::TopRight, Bits::OZ) => Direction::SouthWest,
            (Region::TopRight, Bits::OO) => Direction::South,
            (Region::Left, Bits::ZZ) => Direction::North,
            (Region::Left, Bits::ZO) => Direction::NorthEast,
            (Region::Left, Bits::OZ) => Direction::South,
            (Region::Left, Bits::OO) => Direction::SouthEast,
            (Region::Right, Bits::ZZ) => Direction::NorthWest,
            (Region::Right, Bits::ZO) => Direction::North,
            (Region::Right, Bits::OZ) => Direction::SouthWest,
            (Region::Right, Bits::OO) => Direction::South,
            (Region::Center, Bits::ZZ) => Direction::NorthWest,
            (Region::Center, Bits::ZO) => Direction::NorthEast,
            (Region::Center, Bits::OZ) => Direction::SouthWest,
            (Region::Center, Bits::OO) => Direction::SouthEast,
            (Region::BottomLeft, Bits::ZZ) => Direction::North,
            (Region::BottomLeft, Bits::ZO) => Direction::NorthEast,
            (Region::BottomLeft, Bits::OZ) => Direction::Stay,
            (Region::BottomLeft, Bits::OO) => Direction::East,
            (Region::Bottom, Bits::ZZ) => Direction::NorthWest,
            (Region::Bottom, Bits::ZO) => Direction::NorthEast,
            (Region::Bottom, Bits::OZ) => Direction::West,
            (Region::Bottom, Bits::OO) => Direction::East,
            (Region::BottomRight, Bits::ZZ) => Direction::NorthWest,
            (Region::BottomRight, Bits::ZO) => Direction::North,
            (Region::BottomRight, Bits::OZ) => Direction::West,
            (Region::BottomRight, Bits::OO) => Direction::Stay,
        }
    }

    /// The cell the move leads to from where the bishop stands. The move
    /// must not point off the board.
    pub fn new_position(&self, direction: &Direction) -> (pos: (usize, usize))
        requires
            on_board(direction.apply(self@.pos)),
        ensures
            (pos.0 as int, pos.1 as int) == direction.apply(self@.pos),
    {
        proof {
            use_type_invariant(self);
        }
        let (row, col) = self.pos;
        match direction {
            Direction::Stay => (row, col),
            Direction::NorthWest => (row - 1, col - 1),
            Direction::North => (row - 1, col),
            Direction::NorthEast => (row - 1, col + 1),
            Direction::West => (row, col - 1),
            Direction::East => (row, col + 1),
            Direction::SouthWest => (row + 1, col - 1),
            Direction::South => (row + 1, col),
            Direction::SouthEast => (row + 1, col + 1),
        }
    }

    /// One step of the walk: the bishop moves as the code asks, and the cell
    /// it lands on counts one more visit.
    pub fn step(&mut self, bits: Bits)
        ensures
            final(self)@ == old(self)@.step(bits),
            on_board(final(self)@.pos),
    {
        proof {
            use_type_invariant(&*self);
        }
        let direction = self.move_direction(bits);
        self.pos = self.new_position(&direction);
        self.incr();
    }

    /// Walks the bishop through the bytes: for each byte in order, one step
    /// for each of its four codes, least significant pair first.
    pub fn walk(&mut self, bytes: &[u8])
        ensures
            final(self)@ == old(self)@.run(codes_of(bytes@)),
            on_board(final(self)@.pos),
    {
        let mut i: usize = 0;
        assert(bytes@.take(0) =~= Seq::<u8>::empty());
        while i < bytes.len()
            invariant
                i <= bytes.len(),
                self@ == old(self)@.run(codes_of(bytes@.take(i as int))),
            decreases bytes.len() - i,
        {
            let codes = Bits::from_byte(bytes[i]);
            let ghost before = self@;
            let mut k: usize = 0;
            while k < 4
                invariant
                    k <= 4,
                    self@ == before.run(codes@.take(k as int)),
                decreases 4 - k,
            {
                proof {
                    lemma_run_push(before, codes@.take(k as int), codes@[k as int]);
                    assert(codes@.take(k + 1) =~= codes@.take(k as int).push(codes@[k as int]));
                }
                self.step(codes[k]);
                k += 1;
            }
            proof {
                let seen = bytes@.take(i as int);
                let more = bytes@.take(i + 1);
                assert(codes@.take(4) =~= codes@);
                assert(more.drop_last() =~= seen);
                assert(more.last() == bytes@[i as int]);
                lemma_run_concat(old(self)@, codes_of(seen), Bits::of_byte(bytes@[i as int]));
            }
            i += 1;
        }
        proof {
            assert(bytes@.take(bytes@.len() as int) =~= bytes@);
            use_type_invariant(&*self);
        }
    }
}

impl Default for RandomArt {
    /// The bishop on the start cell of an untouched board.
    fn default() -> (art: RandomArt)
        ensures
            art@ == Trail::start(),
    {
        let art = RandomArt {
            board: [[Entry::default(); 17]; 9],
            pos: RandomArt::start_position(),
        };
        assert(art@.visits =~= Trail::start().visits);
        art
    }
}

} // verus!
