use randomart::{Bits, Direction, Entry, RandomArt, Region};

const CODES: [Bits; 4] = [Bits::ZZ, Bits::ZO, Bits::OZ, Bits::OO];

/// The bishop after the given steps from the start cell.
fn after(steps: &[Bits]) -> RandomArt {
    let mut art = RandomArt::default();
    for bits in steps {
        art.step(*bits);
    }
    art
}

fn check_region(steps: &[Bits], cell: (usize, usize), region: Region, moves: [Direction; 4]) {
    let art = after(steps);
    assert_eq!(art.position(), cell);
    assert_eq!(art.state(), region);
    for k in 0..4 {
        assert_eq!(art.move_direction(CODES[k]), moves[k]);
    }
}

#[test]
fn start_position_is_the_centre() {
    assert_eq!(RandomArt::start_position(), (4, 8));
    let art = RandomArt::default();
    assert_eq!(art.position(), (4, 8));
    assert_eq!(art.state(), Region::Center);
}

#[test]
fn table_top_left() {
    check_region(
        &[Bits::ZZ; 8],
        (0, 0),
        Region::TopLeft,
        [Direction::Stay, Direction::East, Direction::South, Direction::SouthEast],
    );
}

#[test]
fn table_top() {
    check_region(
        &[Bits::ZZ; 4],
        (0, 4),
        Region::Top,
        [Direction::West, Direction::East, Direction::SouthWest, Direction::SouthEast],
    );
}

#[test]
fn table_top_right() {
    check_region(
        &[Bits::ZO; 8],
        (0, 16),
        Region::TopRight,
        [Direction::West, Direction::Stay, Direction::SouthWest, Direction::South],
    );
}

#[test]
fn table_left() {
    let steps = [
        Bits::ZZ, Bits::OZ, Bits::ZZ, Bits::OZ, Bits::ZZ, Bits::OZ, Bits::ZZ, Bits::OZ,
    ];
    check_region(
        &steps,
        (4, 0),
        Region::Left,
        [Direction::North, Direction::NorthEast, Direction::South, Direction::SouthEast],
    );
}

#[test]
fn table_center() {
    check_region(
        &[],
        (4, 8),
        Region::Center,
        [Direction::NorthWest, Direction::NorthEast, Direction::SouthWest, Direction::SouthEast],
    );
    check_region(
        &[Bits::ZZ, Bits::ZZ, Bits::ZZ],
        (1, 5),
        Region::Center,
        [Direction::NorthWest, Direction::NorthEast, Direction::SouthWest, Direction::SouthEast],
    );
}

#[test]
fn table_right() {
    let steps = [
        Bits::ZO, Bits::OO, Bits::ZO, Bits::OO, Bits::ZO, Bits::OO, Bits::ZO, Bits::OO,
    ];
    check_region(
        &steps,
        (4, 16),
        Region::Right,
        [Direction::NorthWest, Direction::North, Direction::SouthWest, Direction::South],
    );
}

#[test]
fn table_bottom_left() {
    check_region(
        &[Bits::OZ; 8],
        (8, 0),
        Region::BottomLeft,
        [Direction::North, Direction::NorthEast, Direction::Stay, Direction::East],
    );
}

#[test]
fn table_bottom() {
    check_region(
        &[Bits::OO; 4],
        (8, 12),
        Region::Bottom,
        [Direction::NorthWest, Direction::NorthEast, Direction::West, Direction::East],
    );
}

#[test]
fn table_bottom_right() {
    check_region(
        &[Bits::OO; 8],
        (8, 16),
        Region::BottomRight,
        [Direction::NorthWest, Direction::North, Direction::West, Direction::Stay],
    );
}

#[test]
fn new_position_follows_the_move() {
    let art = after(&[Bits::ZZ]);
    assert_eq!(art.position(), (3, 7));
    assert_eq!(art.new_position(&Direction::Stay), (3, 7));
    assert_eq!(art.new_position(&Direction::NorthWest), (2, 6));
    assert_eq!(art.new_position(&Direction::North), (2, 7));
    assert_eq!(art.new_position(&Direction::NorthEast), (2, 8));
    assert_eq!(art.new_position(&Direction::West), (3, 6));
    assert_eq!(art.new_position(&Direction::East), (3, 8));
    assert_eq!(art.new_position(&Direction::SouthWest), (4, 6));
    assert_eq!(art.new_position(&Direction::South), (4, 7));
    assert_eq!(art.new_position(&Direction::SouthEast), (4, 8));
}

#[test]
fn a_zero_byte_walks_north_west_to_the_top_edge() {
    let mut art = RandomArt::default();
    art.walk(&[0x00]);
    assert_eq!(art.position(), (0, 4));
    assert_eq!(art.state(), Region::Top);
    assert_eq!(art.glyph_at(3, 7), '.');
    assert_eq!(art.glyph_at(2, 6), '.');
    assert_eq!(art.glyph_at(1, 5), '.');
    assert_eq!(art.glyph_at(0, 4), 'E');
    assert_eq!(art.glyph_at(4, 8), 'S');
    assert_eq!(art.glyph_at(0, 0), ' ');
}

#[test]
fn walk_is_the_steps_of_each_byte_in_turn() {
    let mut walked = RandomArt::default();
    walked.walk(&[0xe4, 0x1b]);
    let stepped = after(&[
        Bits::ZZ, Bits::ZO, Bits::OZ, Bits::OO, Bits::OO, Bits::OZ, Bits::ZO, Bits::ZZ,
    ]);
    assert_eq!(walked.position(), stepped.position());
    assert_eq!(walked.render(), stepped.render());
}

#[test]
fn every_walk_stays_on_the_board() {
    let mut seed: u32 = 12345;
    for _ in 0..200 {
        let mut bytes = Vec::new();
        for _ in 0..64 {
            seed = seed.wrapping_mul(1664525).wrapping_add(1013904223);
            bytes.push((seed >> 24) as u8);
        }
        let mut art = RandomArt::default();
        art.walk(&bytes);
        let (row, col) = art.position();
        assert!(row <= 8);
        assert!(col <= 16);
    }
    for byte in [0x00u8, 0x55, 0xaa, 0xff] {
        let mut art = RandomArt::default();
        art.walk(&[byte; 100]);
        let (row, col) = art.position();
        assert!(row <= 8);
        assert!(col <= 16);
    }
}

#[test]
fn incr_counts_the_cell_under_the_bishop() {
    let mut art = after(&[Bits::ZZ]);
    assert_eq!(art.glyph_at(3, 7), 'E');
    art.incr();
    art.incr();
    assert_eq!(art.position(), (3, 7));
    art.step(Bits::ZZ);
    assert_eq!(art.glyph_at(3, 7), '+');
    assert_eq!(art.glyph_at(2, 6), 'E');
}

#[test]
fn entry_follows_the_ramp() {
    let ramp: Vec<char> = " .o+=*BOX@%&#/^SE".chars().collect();
    let mut entry = Entry::default();
    for glyph in ramp.iter() {
        assert_eq!(entry.as_char(), *glyph);
        entry.incr();
    }
    assert_eq!(entry.as_char(), 'E');
}

#[test]
fn entry_saturates_without_wrapping() {
    let mut entry = Entry::default();
    for visits in 0..1000 {
        if visits >= 16 {
            assert_eq!(entry.as_char(), 'E');
        }
        entry.incr();
    }
    assert_eq!(entry.as_char(), 'E');
}
