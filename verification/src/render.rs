//! Drawing a walk as text: a border line, one line for each row of the
//! board, and the border line again.

use vstd::prelude::*;
use crate::art::{cell_glyph, codes_of, RandomArt, Trail};
use crate::board::{on_board, start_cell, COLS, ROWS};
use crate::digest::Digest;

verus! {

/// Number of characters of a line of the drawing, its line feed included.
pub const LINE_LEN: usize = 20;

/// `String::push` appends the character to the text.
pub assume_specification[ String::push ](text: &mut String, ch: char)
    ensures
        final(text)@ == old(text)@.push(ch),
;

/// The border line: `+`, a dash for each column, `+`, and a line feed.
pub open spec fn border_line() -> Seq<char> {
    seq!['+'] + Seq::new(COLS as nat, |col: int| '-') + seq!['+', '\n']
}

/// The first `cols` glyphs of a row of the board, left to right.
pub open spec fn row_glyphs(trail: Trail, row: int, cols: nat) -> Seq<char> {
    Seq::new(cols, |col: int| cell_glyph(trail, row, col))
}

/// The line of one row: `|`, the glyph of each cell, `|`, and a line feed.
pub open spec fn row_line(trail: Trail, row: int) -> Seq<char> {
    seq!['|'] + row_glyphs(trail, row, COLS as nat) + seq!['|', '\n']
}

/// The lines of the first `rows` rows of the board, top to bottom.
pub open spec fn rows_text(trail: Trail, rows: nat) -> Seq<char>
    decreases rows,
{
    if rows == 0 {
        Seq::empty()
    } else {
        rows_text(trail, (rows - 1) as nat) + row_line(trail, rows - 1)
    }
}

/// The whole drawing of a walk.
pub open spec fn art_text(trail: Trail) -> Seq<char> {
    border_line() + rows_text(trail, ROWS as nat) + border_line()
}

/// The drawing of the walk that the bytes steer from the start cell.
pub open spec fn art_of(bytes: Seq<u8>) -> Seq<char> {
    art_text(Trail::start().run(codes_of(bytes)))
}

/// The lines of the rows are `LINE_LEN` characters each, and the glyph of a
/// cell stands one past the `|` that opens the line of its row.
pub proof fn lemma_rows_layout(trail: Trail, rows: nat, row: int, col: int)
    requires
        0 <= row < rows,
        0 <= col < COLS,
    ensures
        rows_text(trail, rows).len() == rows * LINE_LEN,
        rows_text(trail, rows)[row * LINE_LEN + col + 1] == cell_glyph(trail, row, col),
    decreases rows,
{
    lemma_rows_len(trail, (rows - 1) as nat);
    if row < rows - 1 {
        lemma_rows_layout(trail, (rows - 1) as nat, row, col);
    }
}

/// The lines of `rows` rows hold `LINE_LEN` characters for each row.
pub proof fn lemma_rows_len(trail: Trail, rows: nat)
    ensures
        rows_text(trail, rows).len() == rows * LINE_LEN,
    decreases rows,
{
    if rows > 0 {
        lemma_rows_len(trail, (rows - 1) as nat);
    }
}

/// The drawing has a line for the border, one for each row and one more for
/// the border, and the glyph of the cell at `row` and `col` stands in line
/// `row + 1` at place `col + 1`.
pub proof fn lemma_text_layout(trail: Trail, row: int, col: int)
    requires
        on_board((row, col)),
    ensures
        art_text(trail).len() == (ROWS + 2) * LINE_LEN,
        art_text(trail)[(row + 1) * LINE_LEN + col + 1] == cell_glyph(trail, row, col),
{
    lemma_rows_layout(trail, ROWS as nat, row, col);
}

/// With no bytes the bishop never leaves the start cell: the walk ends where
/// it began, the drawing shows `S` there, and every other cell is blank.
pub proof fn lemma_empty_walk(bytes: Seq<u8>)
    requires
        bytes.len() == 0,
    ensures
        Trail::start().run(codes_of(bytes)) == Trail::start(),
        Trail::start().pos == start_cell(),
        forall|row: int, col: int|
            on_board((row, col)) ==> art_of(bytes)[(row + 1) * LINE_LEN + col + 1] == (if (
                row,
                col,
            ) == start_cell() {
                'S'
            } else {
                ' '
            }),
{
    assert forall|row: int, col: int| on_board((row, col)) implies art_of(bytes)[(row + 1)
        * LINE_LEN + col + 1] == (if (row, col) == start_cell() {
        'S'
    } else {
        ' '
    }) by {
        lemma_text_layout(Trail::start(), row, col);
    }
}

/// The drawing depends on the bytes alone: the same bytes give the same text.
pub proof fn lemma_same_bytes_same_art(first: Seq<u8>, second: Seq<u8>)
    requires
        first =~= second,
    ensures
        art_of(first) == art_of(second),
{
}

/// Appends the border line to the text.
fn push_border(text: &mut String)
    ensures
        final(text)@ == old(text)@ + border_line(),
{
    text.push('+');
    let mut col: usize = 0;
    while col < COLS
        invariant
            col <= COLS,
            text@ == old(text)@ + seq!['+'] + Seq::new(col as nat, |c: int| '-'),
        decreases COLS - col,
    {
        text.push('-');
        col += 1;
    }
    text.push('+');
    text.push('\n');
}

impl RandomArt {
    /// Draws the board: the glyph of every cell, row by row, inside the border.
    pub fn render(&self) -> (text: String)
        ensures
            text@ == art_text(self@),
    {
        let mut text = String::new();
        push_border(&mut text);
        let mut row: usize = 0;
        while row < ROWS
            invariant
                row <= ROWS,
                text@ == border_line() + rows_text(self@, row as nat),
            decreases ROWS - row,
        {
            let ghost done = text@;
            text.push('|');
            let mut col: usize = 0;
            while col < COLS
                invariant
                    row < ROWS,
                    col <= COLS,
                    text@ == done + seq!['|'] + row_glyphs(self@, row as int, col as nat),
                decreases COLS - col,
            {
                let glyph = self.glyph_at(row, col);
                text.push(glyph);
                col += 1;
            }
            text.push('|');
            text.push('\n');
            assert(text@ == done + row_line(self@, row as int));
            row += 1;
        }
        push_border(&mut text);
        text
    }
}

/// Draws the fingerprint: walks the bishop from the start cell through the
/// bytes of the digest and draws the board it leaves.
pub fn randomart(fingerprint: impl Digest) -> (text: String)
    ensures
        text@ == art_of(fingerprint.bytes()),
{
    let mut art = RandomArt::default();
    let bytes = fingerprint.into_bytes();
    art.walk(bytes.as_slice());
    art.render()
}

} // verus!
