//! The shape catalog: the seven piece kinds, their spawn-time cell layouts
//! and their display glyphs, together with the cell states a field can hold.

use vstd::prelude::*;

verus! {

/// The seven canonical piece kinds.
#[derive(Clone, Copy, Debug, PartialEq, Eq, Structural)]
pub enum TetrominoNames {
    T,
    L,
    J,
    O,
    I,
    S,
    Z,
}

/// One cell of a field: empty, buffer-empty (hidden top rows), or filled by
/// a locked piece of the given kind.
#[derive(Clone, Copy, Debug, PartialEq, Eq, Structural)]
pub enum Cell {
    BufferEmpty,
    Empty,
    Filled(TetrominoNames),
}

/// A cell that no locked piece occupies; both empty states count.
pub open spec fn cell_free(c: Cell) -> bool {
    c == Cell::BufferEmpty || c == Cell::Empty
}

/// The four spawn coordinates of a kind, `(row, col)`; the second entry is
/// the rotation pivot.
pub open spec fn spawn_positions(name: TetrominoNames) -> Seq<(usize, usize)> {
    match name {
        TetrominoNames::T => seq![(2usize, 5usize), (2usize, 4usize), (2usize, 3usize), (3usize, 4usize)],
        TetrominoNames::L => seq![(2usize, 5usize), (2usize, 4usize), (2usize, 3usize), (3usize, 3usize)],
        TetrominoNames::J => seq![(2usize, 5usize), (2usize, 4usize), (2usize, 3usize), (1usize, 3usize)],
        TetrominoNames::O => seq![(2usize, 5usize), (2usize, 4usize), (3usize, 5usize), (3usize, 4usize)],
        TetrominoNames::I => seq![(2usize, 5usize), (2usize, 4usize), (2usize, 3usize), (2usize, 2usize)],
        TetrominoNames::S => seq![(2usize, 5usize), (2usize, 4usize), (3usize, 4usize), (3usize, 3usize)],
        TetrominoNames::Z => seq![(2usize, 5usize), (2usize, 4usize), (1usize, 4usize), (1usize, 3usize)],
    }
}

/// The glyph of a kind, as a sequence of characters.
pub open spec fn icon_seq(name: TetrominoNames) -> Seq<char> {
    match name {
        TetrominoNames::T => "🟥"@,
        TetrominoNames::L => "🟧"@,
        TetrominoNames::J => "🟨"@,
        TetrominoNames::O => "🟩"@,
        TetrominoNames::I => "🟦"@,
        TetrominoNames::S => "🟪"@,
        TetrominoNames::Z => "🟫"@,
    }
}

/// The glyph shown for one field cell.
pub open spec fn cell_icon(c: Cell) -> Seq<char> {
    match c {
        Cell::BufferEmpty => "⬜"@,
        Cell::Empty => "⬛"@,
        Cell::Filled(k) => icon_seq(k),
    }
}

/// The glyph shown for one field cell.
pub fn icon_of_cell(c: Cell) -> (r: &'static str)
    ensures
        r@ == cell_icon(c),
{
    match c {
        Cell::BufferEmpty => "⬜",
        Cell::Empty => "⬛",
        Cell::Filled(k) => k.get_icon(),
    }
}

impl TetrominoNames {
    /// The four spawn coordinates of this kind near the top middle of the
    /// play field; the second coordinate is the rotation pivot.
    pub fn get_position(&self) -> (r: [(usize, usize); 4])
        ensures
            r@ == spawn_positions(*self),
    {
        let r: [(usize, usize); 4] = match self {
            TetrominoNames::T => [(2, 5), (2, 4), (2, 3), (3, 4)],
            TetrominoNames::L => [(2, 5), (2, 4), (2, 3), (3, 3)],
            TetrominoNames::J => [(2, 5), (2, 4), (2, 3), (1, 3)],
            TetrominoNames::O => [(2, 5), (2, 4), (3, 5), (3, 4)],
            TetrominoNames::I => [(2, 5), (2, 4), (2, 3), (2, 2)],
            TetrominoNames::S => [(2, 5), (2, 4), (3, 4), (3, 3)],
            TetrominoNames::Z => [(2, 5), (2, 4), (1, 4), (1, 3)],
        };
        proof {
            assert(r@ =~= spawn_positions(*self));
        }
        r
    }

    /// The fixed display glyph of this kind.
    pub fn get_icon(&self) -> (r: &'static str)
        ensures
            r@ == icon_seq(*self),
    {
        match self {
            TetrominoNames::T => "🟥",
            TetrominoNames::L => "🟧",
            TetrominoNames::J => "🟨",
            TetrominoNames::O => "🟩",
            TetrominoNames::I => "🟦",
            TetrominoNames::S => "🟪",
            TetrominoNames::Z => "🟫",
        }
    }
}

} // verus!
