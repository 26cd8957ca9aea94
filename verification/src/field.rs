//! The two fields: the 24x10 play field (4 hidden buffer rows above 20
//! visible rows) where pieces lock and rows are cleared, and the 5x5 preview
//! field that only frames the on-deck piece.

use vstd::prelude::*;
use vstd::pervasive::VecAdditionalExecFns;

use crate::shape::Cell;
use crate::tetromino::Tetromino;

verus! {

pub const PLAY_FIELD_HEIGHT: usize = 24;

pub const PLAY_FIELD_WIDTH: usize = 10;

pub const PLAY_FIELD_BUFFER: usize = 4;

pub const NEXT_FIELD_HEIGHT: usize = 5;

pub const NEXT_FIELD_WIDTH: usize = 5;

/// A grid of `h` rows, each of `w` cells.
pub open spec fn grid_wf(g: Seq<Seq<Cell>>, h: int, w: int) -> bool {
    g.len() == h && (forall|r: int| 0 <= r < h ==> (#[trigger] g[r]).len() == w)
}

/// The play field as first created: buffer-empty in the hidden top rows,
/// empty below.
pub open spec fn fresh_play_grid() -> Seq<Seq<Cell>> {
    Seq::new(
        PLAY_FIELD_HEIGHT as nat,
        |r: int|
            Seq::new(
                PLAY_FIELD_WIDTH as nat,
                |c: int|
                    if r < PLAY_FIELD_BUFFER {
                        Cell::BufferEmpty
                    } else {
                        Cell::Empty
                    },
            ),
    )
}

/// A row of the visible region with every cell empty.
pub open spec fn empty_row() -> Seq<Cell> {
    Seq::new(PLAY_FIELD_WIDTH as nat, |c: int| Cell::Empty)
}

/// Row `r` has no empty cell, so a clear is due there.
pub open spec fn row_filled(g: Seq<Seq<Cell>>, r: int) -> bool {
    forall|c: int| 0 <= c < PLAY_FIELD_WIDTH ==> (#[trigger] g[r][c]) != Cell::Empty
}

/// The filled rows among `4..r`, in ascending order.
pub open spec fn filled_rows_upto(g: Seq<Seq<Cell>>, r: int) -> Seq<int>
    decreases r,
{
    if r <= PLAY_FIELD_BUFFER {
        Seq::empty()
    } else {
        filled_rows_upto(g, r - 1) + (if row_filled(g, r - 1) {
            seq![r - 1]
        } else {
            Seq::<int>::empty()
        })
    }
}

/// The ascending list of filled rows outside the hidden buffer.
pub open spec fn spec_filled_rows(g: Seq<Seq<Cell>>) -> Seq<int> {
    filled_rows_upto(g, PLAY_FIELD_HEIGHT as int)
}

/// The grid after compacting out `row`: every row from 5 up to `row` takes
/// the content of the row above it, row 4 becomes all-empty, and the buffer
/// rows and the rows below `row` keep their content.
pub open spec fn crushed(g: Seq<Seq<Cell>>, row: int) -> Seq<Seq<Cell>> {
    Seq::new(
        g.len(),
        |r: int|
            if r < PLAY_FIELD_BUFFER || r > row {
                g[r]
            } else if r == PLAY_FIELD_BUFFER {
                empty_row()
            } else {
                g[r - 1]
            },
    )
}

/// The grid after a piece locks: its glyph written at the piece's four
/// cells, everything else unchanged.
pub open spec fn spawned(g: Seq<Seq<Cell>>, p: Tetromino) -> Seq<Seq<Cell>> {
    Seq::new(
        g.len(),
        |r: int|
            Seq::new(
                g[r].len(),
                |c: int|
                    if p.pos().contains((r as usize, c as usize)) {
                        Cell::Filled(p.name)
                    } else {
                        g[r][c]
                    },
            ),
    )
}

/// The grid after resetting the listed cells to their unoccupied state:
/// buffer-empty inside the hidden buffer, empty below it.
pub open spec fn cleared(g: Seq<Seq<Cell>>, cells: Seq<(usize, usize)>) -> Seq<Seq<Cell>> {
    Seq::new(
        g.len(),
        |r: int|
            Seq::new(
                g[r].len(),
                |c: int|
                    if cells.contains((r as usize, c as usize)) {
                        if r < PLAY_FIELD_BUFFER {
                            Cell::BufferEmpty
                        } else {
                            Cell::Empty
                        }
                    } else {
                        g[r][c]
                    },
            ),
    )
}

/// The 24x10 play field where pieces lock and rows are cleared.
pub struct PlayField {
    pub cells: Vec<Vec<Cell>>,
}

impl View for PlayField {
    type V = Seq<Seq<Cell>>;

    open spec fn view(&self) -> Seq<Seq<Cell>> {
        self.cells@.map_values(|row: Vec<Cell>| row@)
    }
}

impl PlayField {
    /// Well-formed: 24 rows of 10 cells.
    pub open spec fn wf(&self) -> bool {
        grid_wf(self@, PLAY_FIELD_HEIGHT as int, PLAY_FIELD_WIDTH as int)
    }

    /// Create the play field with buffer-empty hidden rows and empty
    /// visible rows.
    pub fn new() -> (r: PlayField)
        ensures
            r.wf(),
            r@ == fresh_play_grid(),
    {
        let mut cells: Vec<Vec<Cell>> = Vec::new();
        let mut y: usize = 0;
        while y < PLAY_FIELD_HEIGHT
            invariant
                y <= PLAY_FIELD_HEIGHT,
                cells@.len() == y,
                forall|r: int| 0 <= r < y ==> (#[trigger] cells@[r])@ == fresh_play_grid()[r],
            decreases PLAY_FIELD_HEIGHT - y,
        {
            let fill = if y < PLAY_FIELD_BUFFER {
                Cell::BufferEmpty
            } else {
                Cell::Empty
            };
            let mut row: Vec<Cell> = Vec::new();
            let mut x: usize = 0;
            while x < PLAY_FIELD_WIDTH
                invariant
                    x <= PLAY_FIELD_WIDTH,
                    row@.len() == x,
                    forall|c: int| 0 <= c < x ==> row@[c] == fill,
                decreases PLAY_FIELD_WIDTH - x,
            {
                row.push(fill);
                x = x + 1;
            }
            proof {
                assert(row@ =~= fresh_play_grid()[y as int]);
            }
            cells.push(row);
            y = y + 1;
        }
        let r = PlayField { cells };
        proof {
            assert(r@ =~= fresh_play_grid());
        }
        r
    }

    /// Read one cell; bounds must hold.
    pub fn get_cell(&self, row: usize, col: usize) -> (r: Cell)
        requires
            self.wf(),
            row < PLAY_FIELD_HEIGHT,
            col < PLAY_FIELD_WIDTH,
        ensures
            r == self@[row as int][col as int],
    {
        self.cells[row][col]
    }

    /// Write one cell; bounds must hold.
    pub fn set_cell(&mut self, row: usize, col: usize, value: Cell)
        requires
            old(self).wf(),
            row < PLAY_FIELD_HEIGHT,
            col < PLAY_FIELD_WIDTH,
        ensures
            final(self).wf(),
            final(self)@ == old(self)@.update(
                row as int,
                old(self)@[row as int].update(col as int, value),
            ),
    {
        let mut new_row = copy_row(&self.cells[row]);
        proof {
            assert(new_row@ == self@[row as int]);
        }
        new_row.set(col, value);
        self.cells.set(row, new_row);
        proof {
            assert(self@ =~= old(self)@.update(
                row as int,
                old(self)@[row as int].update(col as int, value),
            ));
        }
    }

    /// Lock a piece: write its glyph into all four of its cells.
    pub fn spawn(&mut self, tetromino: Tetromino)
        requires
            old(self).wf(),
            tetromino.wf(),
        ensures
            final(self).wf(),
            final(self)@ == spawned(old(self)@, tetromino),
    {
        let glyph = Cell::Filled(tetromino.name);
        let (r0, c0) = tetromino.position[0];
        let (r1, c1) = tetromino.position[1];
        let (r2, c2) = tetromino.position[2];
        let (r3, c3) = tetromino.position[3];
        self.set_cell(r0, c0, glyph);
        self.set_cell(r1, c1, glyph);
        self.set_cell(r2, c2, glyph);
        self.set_cell(r3, c3, glyph);
        proof {
            let g0 = old(self)@;
            let p = tetromino;
            assert forall|r: int| 0 <= r < PLAY_FIELD_HEIGHT implies self@[r] =~= spawned(g0, p)[r] by {
                assert forall|c: int| 0 <= c < PLAY_FIELD_WIDTH implies self@[r][c] == spawned(
                    g0,
                    p,
                )[r][c] by {
                    if p.pos().contains((r as usize, c as usize)) {
                        let i = choose|i: int|
                            0 <= i < p.pos().len() && #[trigger] p.pos()[i] == (
                                r as usize,
                                c as usize,
                            );
                        assert(i == 0 || i == 1 || i == 2 || i == 3);
                    } else {
                        assert(p.pos()[0] != (r as usize, c as usize));
                        assert(p.pos()[1] != (r as usize, c as usize));
                        assert(p.pos()[2] != (r as usize, c as usize));
                        assert(p.pos()[3] != (r as usize, c as usize));
                    }
                }
            }
            assert(self@ =~= spawned(g0, p));
        }
    }

    /// Reset the listed cells to their unoccupied state: buffer-empty in the
    /// hidden rows, empty elsewhere.
    pub fn remove(&mut self, cells: &Vec<(usize, usize)>)
        requires
            old(self).wf(),
            forall|i: int|
                0 <= i < cells@.len() ==> (#[trigger] cells@[i]).0 < PLAY_FIELD_HEIGHT
                    && cells@[i].1 < PLAY_FIELD_WIDTH,
        ensures
            final(self).wf(),
            final(self)@ == cleared(old(self)@, cells@),
    {
        let ghost g0 = old(self)@;
        proof {
            assert(self@ =~~= cleared(g0, cells@.take(0)));
        }
        let mut i: usize = 0;
        while i < cells.len()
            invariant
                i <= cells@.len(),
                self.wf(),
                forall|k: int|
                    0 <= k < cells@.len() ==> (#[trigger] cells@[k]).0 < PLAY_FIELD_HEIGHT
                        && cells@[k].1 < PLAY_FIELD_WIDTH,
                self@ == cleared(g0, cells@.take(i as int)),
            decreases cells@.len() - i,
        {
            let (row, col) = cells[i];
            let value = if row < PLAY_FIELD_BUFFER {
                Cell::BufferEmpty
            } else {
                Cell::Empty
            };
            let ghost before = self@;
            self.set_cell(row, col, value);
            proof {
                assert(cells@.take(i + 1) =~= cells@.take(i as int).push(cells@[i as int]));
                assert forall|r: int| 0 <= r < PLAY_FIELD_HEIGHT implies self@[r] =~= cleared(
                    g0,
                    cells@.take(i + 1),
                )[r] by {
                    assert forall|c: int| 0 <= c < PLAY_FIELD_WIDTH implies self@[r][c] == cleared(
                        g0,
                        cells@.take(i + 1),
                    )[r][c] by {
                        let rc = (r as usize, c as usize);
                        if cells@.take(i + 1).contains(rc) {
                            if rc == cells@[i as int] {
                            } else {
                                let k = choose|k: int|
                                    0 <= k < cells@.take(i + 1).len() && #[trigger] cells@.take(
                                        i + 1,
                                    )[k] == rc;
                                assert(cells@.take(i as int)[k] == rc);
                                assert(cells@.take(i as int).contains(rc));
                            }
                        } else {
                            assert(!cells@.take(i as int).contains(rc)) by {
                                if cells@.take(i as int).contains(rc) {
                                    let k = choose|k: int|
                                        0 <= k < cells@.take(i as int).len() && #[trigger] cells@.take(
                                            i as int,
                                        )[k] == rc;
                                    assert(cells@.take(i + 1)[k] == rc);
                                }
                            }
                            assert(rc != cells@[i as int]) by {
                                if rc == cells@[i as int] {
                                    assert(cells@.take(i + 1)[i as int] == rc);
                                }
                            }
                        }
                    }
                }
                assert(self@ =~= cleared(g0, cells@.take(i + 1)));
            }
            i = i + 1;
        }
        proof {
            assert(cells@.take(cells@.len() as int) =~= cells@);
        }
    }

    /// The ascending list of row indices outside the hidden buffer whose
    /// every cell is occupied. No buffer row (index below 4) is ever
    /// reported, and no reported row has an empty cell.
    pub fn get_filled_row(&self) -> (r: Vec<usize>)
        requires
            self.wf(),
        ensures
            r@.map_values(|x: usize| x as int) == spec_filled_rows(self@),
            forall|i: int|
                0 <= i < r@.len() ==> PLAY_FIELD_BUFFER <= #[trigger] r@[i] < PLAY_FIELD_HEIGHT
                    && row_filled(self@, r@[i] as int),
            forall|i: int, j: int| 0 <= i < j < r@.len() ==> r@[i] < r@[j],
    {
        let mut filled: Vec<usize> = Vec::new();
        let mut x: usize = PLAY_FIELD_BUFFER;
        while x < PLAY_FIELD_HEIGHT
            invariant
                self.wf(),
                PLAY_FIELD_BUFFER <= x <= PLAY_FIELD_HEIGHT,
                filled@.map_values(|v: usize| v as int) == filled_rows_upto(self@, x as int),
                forall|i: int|
                    0 <= i < filled@.len() ==> PLAY_FIELD_BUFFER <= #[trigger] filled@[i] < x
                        && row_filled(self@, filled@[i] as int),
                forall|i: int, j: int| 0 <= i < j < filled@.len() ==> filled@[i] < filled@[j],
            decreases PLAY_FIELD_HEIGHT - x,
        {
            let mut has_empty = false;
            let mut c: usize = 0;
            while c < PLAY_FIELD_WIDTH
                invariant
                    self.wf(),
                    PLAY_FIELD_BUFFER <= x < PLAY_FIELD_HEIGHT,
                    c <= PLAY_FIELD_WIDTH,
                    has_empty <==> exists|cc: int|
                        0 <= cc < c && self@[x as int][cc] == Cell::Empty,
                decreases PLAY_FIELD_WIDTH - c,
            {
                if self.get_cell(x, c) == Cell::Empty {
                    has_empty = true;
                }
                c = c + 1;
            }
            if !has_empty {
                filled.push(x);
            }
            proof {
                assert(filled@.map_values(|v: usize| v as int) =~= filled_rows_upto(
                    self@,
                    x + 1,
                ));
            }
            x = x + 1;
        }
        filled
    }

    /// Compact out the given row: every row from 5 up to it takes the row
    /// above, row 4 becomes all-empty, and the hidden buffer rows and the
    /// rows below it are untouched.
    pub fn crush_row(&mut self, row_idx: usize)
        requires
            old(self).wf(),
            PLAY_FIELD_BUFFER <= row_idx < PLAY_FIELD_HEIGHT,
        ensures
            final(self).wf(),
            final(self)@ == crushed(old(self)@, row_idx as int),
    {
        let ghost g0 = old(self)@;
        let mut idx = row_idx;
        while idx > PLAY_FIELD_BUFFER
            invariant
                self.wf(),
                PLAY_FIELD_BUFFER <= idx <= row_idx < PLAY_FIELD_HEIGHT,
                forall|r: int| 0 <= r <= idx ==> self@[r] == g0[r],
                forall|r: int| idx < r <= row_idx ==> self@[r] == g0[r - 1],
                forall|r: int| row_idx < r < PLAY_FIELD_HEIGHT ==> self@[r] == g0[r],
            decreases idx,
        {
            let above = copy_row(&self.cells[idx - 1]);
            proof {
                assert(above@ == self@[idx - 1]);
            }
            let ghost before = self@;
            self.cells.set(idx, above);
            proof {
                assert(self@ =~= before.update(idx as int, above@));
            }
            idx = idx - 1;
        }
        let mut er: Vec<Cell> = Vec::new();
        let mut c: usize = 0;
        while c < PLAY_FIELD_WIDTH
            invariant
                c <= PLAY_FIELD_WIDTH,
                er@.len() == c,
                forall|k: int| 0 <= k < c ==> er@[k] == Cell::Empty,
            decreases PLAY_FIELD_WIDTH - c,
        {
            er.push(Cell::Empty);
            c = c + 1;
        }
        proof {
            assert(er@ =~= empty_row());
        }
        let ghost before_top = self@;
        self.cells.set(PLAY_FIELD_BUFFER, er);
        proof {
            assert(self@ =~= before_top.update(PLAY_FIELD_BUFFER as int, er@));
            assert(self@ =~= crushed(g0, row_idx as int));
        }
    }
}

/// The 5x5 preview field that frames the on-deck piece; all its cells start
/// and stay empty.
pub struct Nextfield {
    pub cells: Vec<Vec<Cell>>,
}

impl View for Nextfield {
    type V = Seq<Seq<Cell>>;

    open spec fn view(&self) -> Seq<Seq<Cell>> {
        self.cells@.map_values(|row: Vec<Cell>| row@)
    }
}

/// The preview field as first created: all cells empty.
pub open spec fn fresh_next_grid() -> Seq<Seq<Cell>> {
    Seq::new(
        NEXT_FIELD_HEIGHT as nat,
        |r: int| Seq::new(NEXT_FIELD_WIDTH as nat, |c: int| Cell::Empty),
    )
}

impl Nextfield {
    /// Well-formed: 5 rows of 5 cells.
    pub open spec fn wf(&self) -> bool {
        grid_wf(self@, NEXT_FIELD_HEIGHT as int, NEXT_FIELD_WIDTH as int)
    }

    /// Create the preview field with every cell empty.
    pub fn new() -> (r: Nextfield)
        ensures
            r.wf(),
            r@ == fresh_next_grid(),
    {
        let mut cells: Vec<Vec<Cell>> = Vec::new();
        let mut y: usize = 0;
        while y < NEXT_FIELD_HEIGHT
            invariant
                y <= NEXT_FIELD_HEIGHT,
                cells@.len() == y,
                forall|r: int| 0 <= r < y ==> (#[trigger] cells@[r])@ == fresh_next_grid()[r],
            decreases NEXT_FIELD_HEIGHT - y,
        {
            let mut row: Vec<Cell> = Vec::new();
            let mut x: usize = 0;
            while x < NEXT_FIELD_WIDTH
                invariant
                    x <= NEXT_FIELD_WIDTH,
                    row@.len() == x,
                    forall|c: int| 0 <= c < x ==> row@[c] == Cell::Empty,
                decreases NEXT_FIELD_WIDTH - x,
            {
                row.push(Cell::Empty);
                x = x + 1;
            }
            proof {
                assert(row@ =~= fresh_next_grid()[y as int]);
            }
            cells.push(row);
            y = y + 1;
        }
        let r = Nextfield { cells };
        proof {
            assert(r@ =~= fresh_next_grid());
        }
        r
    }

    /// Read one cell; bounds must hold.
    pub fn get_cell(&self, row: usize, col: usize) -> (r: Cell)
        requires
            self.wf(),
            row < NEXT_FIELD_HEIGHT,
            col < NEXT_FIELD_WIDTH,
        ensures
            r == self@[row as int][col as int],
    {
        self.cells[row][col]
    }

    /// Write one cell; bounds must hold.
    pub fn set_cell(&mut self, row: usize, col: usize, value: Cell)
        requires
            old(self).wf(),
            row < NEXT_FIELD_HEIGHT,
            col < NEXT_FIELD_WIDTH,
        ensures
            final(self).wf(),
            final(self)@ == old(self)@.update(
                row as int,
                old(self)@[row as int].update(col as int, value),
            ),
    {
        let mut new_row = copy_row(&self.cells[row]);
        proof {
            assert(new_row@ == self@[row as int]);
        }
        new_row.set(col, value);
        self.cells.set(row, new_row);
        proof {
            assert(self@ =~= old(self)@.update(
                row as int,
                old(self)@[row as int].update(col as int, value),
            ));
        }
    }
}

/// Copy a row of cells.
fn copy_row(v: &Vec<Cell>) -> (r: Vec<Cell>)
    ensures
        r@ == v@,
{
    let mut out: Vec<Cell> = Vec::new();
    let mut i: usize = 0;
    while i < v.len()
        invariant
            i <= v@.len(),
            out@ == v@.take(i as int),
        decreases v@.len() - i,
    {
        out.push(v[i]);
        proof {
            assert(out@ =~= v@.take(i + 1));
        }
        i = i + 1;
    }
    proof {
        assert(v@.take(v@.len() as int) =~= v@);
    }
    out
}

} // verus!
