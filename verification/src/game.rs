//! The game: one play field, the active and on-deck pieces, the score and
//! the terminal flag, with the legality queries, the movement and rotation
//! mutators, and the tick that advances the game one step.

use vstd::prelude::*;
use vstd::string::StringExecFns;

use crate::field::{
    crushed, fresh_next_grid, fresh_play_grid, grid_wf, spawned, spec_filled_rows,
    Nextfield, PlayField, NEXT_FIELD_HEIGHT, NEXT_FIELD_WIDTH, PLAY_FIELD_BUFFER,
    PLAY_FIELD_HEIGHT, PLAY_FIELD_WIDTH,
};
use crate::shape::{cell_free, cell_icon, icon_seq, spawn_positions, Cell, TetrominoNames};
use crate::tetromino::{pos_int, rotate_n, rotated_pos, rotation_in_bounds, Tetromino};

verus! {

/// Cell `i` is the lowest of the piece's cells in its column.
pub open spec fn col_bottom(pos: Seq<(usize, usize)>, i: int) -> bool {
    forall|j: int|
        0 <= j < pos.len() && (#[trigger] pos[j]).1 == pos[i].1 ==> pos[j].0 <= pos[i].0
}

/// Cell `i` is the rightmost of the piece's cells in its row.
pub open spec fn row_rightmost(pos: Seq<(usize, usize)>, i: int) -> bool {
    forall|j: int|
        0 <= j < pos.len() && (#[trigger] pos[j]).0 == pos[i].0 ==> pos[j].1 <= pos[i].1
}

/// Cell `i` is the leftmost of the piece's cells in its row.
pub open spec fn row_leftmost(pos: Seq<(usize, usize)>, i: int) -> bool {
    forall|j: int|
        0 <= j < pos.len() && (#[trigger] pos[j]).0 == pos[i].0 ==> pos[j].1 >= pos[i].1
}

/// The piece may descend: no cell sits on the bottommost row, and the field
/// cell just below each column's lowest cell is unoccupied.
pub open spec fn spec_can_move_down(g: Seq<Seq<Cell>>, pos: Seq<(usize, usize)>) -> bool {
    &&& (forall|i: int| 0 <= i < pos.len() ==> (#[trigger] pos[i]).0 < PLAY_FIELD_HEIGHT - 1)
    &&& (forall|i: int|
        0 <= i < pos.len() && #[trigger] col_bottom(pos, i) ==> cell_free(
            g[pos[i].0 as int + 1][pos[i].1 as int],
        ))
}

/// The piece may move right: no cell touches the right edge, and the field
/// cell just beyond each row's rightmost cell is unoccupied.
pub open spec fn spec_can_move_right(g: Seq<Seq<Cell>>, pos: Seq<(usize, usize)>) -> bool {
    &&& (forall|i: int| 0 <= i < pos.len() ==> (#[trigger] pos[i]).1 < PLAY_FIELD_WIDTH - 1)
    &&& (forall|i: int|
        0 <= i < pos.len() && #[trigger] row_rightmost(pos, i) ==> cell_free(
            g[pos[i].0 as int][pos[i].1 as int + 1],
        ))
}

/// The piece may move left: no cell touches the left edge, and the field
/// cell just beyond each row's leftmost cell is unoccupied.
pub open spec fn spec_can_move_left(g: Seq<Seq<Cell>>, pos: Seq<(usize, usize)>) -> bool {
    &&& (forall|i: int| 0 <= i < pos.len() ==> (#[trigger] pos[i]).1 > 0)
    &&& (forall|i: int|
        0 <= i < pos.len() && #[trigger] row_leftmost(pos, i) ==> cell_free(
            g[pos[i].0 as int][pos[i].1 as int - 1],
        ))
}

/// The piece may rotate: the rotated cells all stay inside the field and
/// each lands on an unoccupied field cell.
pub open spec fn spec_can_rotate(g: Seq<Seq<Cell>>, pos: Seq<(usize, usize)>) -> bool {
    &&& rotation_in_bounds(pos)
    &&& (forall|i: int|
        0 <= i < pos.len() ==> {
            let q = #[trigger] rotated_pos(pos_int(pos))[i];
            cell_free(g[q.0][q.1])
        })
}

/// The locked stack has reached the topmost visible row: some cell of row 4
/// holds a piece glyph.
pub open spec fn spec_touch_top(g: Seq<Seq<Cell>>) -> bool {
    exists|c: int|
        0 <= c < PLAY_FIELD_WIDTH && !cell_free(g[PLAY_FIELD_BUFFER as int][c])
}

/// The piece's cells translated by `(dr, dc)`.
pub open spec fn moved(pos: Seq<(usize, usize)>, dr: int, dc: int) -> Seq<(usize, usize)> {
    Seq::new(pos.len(), |i: int| ((pos[i].0 + dr) as usize, (pos[i].1 + dc) as usize))
}

/// The bonus for the `nth` row cleared within one lock event (0-based):
/// nothing for the first, 10 for the second and third, 20 for the fourth,
/// nothing beyond.
pub open spec fn bonus(nth: int) -> u32 {
    if nth == 1 || nth == 2 {
        10
    } else if nth == 3 {
        20
    } else {
        0
    }
}

/// The points one cleared row is worth: a base of 10 plus its bonus.
pub open spec fn crush_points(nth: int) -> u32 {
    (10 + bonus(nth)) as u32
}

/// Addition on the score counter, capped at its maximum.
pub open spec fn sat_add(a: u32, b: u32) -> u32 {
    if a + b > u32::MAX {
        u32::MAX
    } else {
        (a + b) as u32
    }
}

/// The score after clearing `k` rows in one lock event, starting from `s`.
pub open spec fn scored(s: u32, k: int) -> u32
    decreases k,
{
    if k <= 0 {
        s
    } else {
        sat_add(scored(s, k - 1), crush_points(k - 1))
    }
}

/// The grid after compacting out the given rows, in order.
pub open spec fn crush_all(g: Seq<Seq<Cell>>, rows: Seq<int>) -> Seq<Seq<Cell>>
    decreases rows.len(),
{
    if rows.len() == 0 {
        g
    } else {
        crush_all(crushed(g, rows[0]), rows.skip(1))
    }
}

/// The glyph shown at `(r, c)` of a field rendered with a piece overlaid:
/// the piece's glyph where the piece occupies `(r, c + dc)`, the cell's own
/// glyph elsewhere (`dc` is the preview field's column offset).
pub open spec fn render_cell(g: Seq<Seq<Cell>>, p: Tetromino, dc: int, r: int, c: int) -> Seq<
    char,
> {
    if p.pos().contains((r as usize, (c + dc) as usize)) {
        icon_seq(p.name)
    } else {
        cell_icon(g[r][c])
    }
}

/// The glyphs of row `r`'s first `c` cells.
pub open spec fn render_row_upto(g: Seq<Seq<Cell>>, p: Tetromino, dc: int, r: int, c: int) -> Seq<
    char,
>
    decreases c,
{
    if c <= 0 {
        Seq::empty()
    } else {
        render_row_upto(g, p, dc, r, c - 1) + render_cell(g, p, dc, r, c - 1)
    }
}

/// The first `r` rows rendered, each of width `w` and ending in a newline.
pub open spec fn render_upto(g: Seq<Seq<Cell>>, p: Tetromino, dc: int, w: int, r: int) -> Seq<
    char,
>
    decreases r,
{
    if r <= 0 {
        Seq::empty()
    } else {
        render_upto(g, p, dc, w, r - 1) + render_row_upto(g, p, dc, r - 1, w) + "\n"@
    }
}

/// The play field rendered with the active piece overlaid.
pub open spec fn render_play(g: Seq<Seq<Cell>>, p: Tetromino) -> Seq<char> {
    render_upto(g, p, 0, PLAY_FIELD_WIDTH as int, PLAY_FIELD_HEIGHT as int)
}

/// The preview field rendered with the on-deck piece overlaid, offset by
/// two columns.
pub open spec fn render_next(g: Seq<Seq<Cell>>, p: Tetromino) -> Seq<char> {
    render_upto(g, p, 2, NEXT_FIELD_WIDTH as int, NEXT_FIELD_HEIGHT as int)
}

/// The piece is some kind's spawn layout turned by up to three quarter
/// turns: all a fresh draw can produce.
pub open spec fn fresh_piece(t: Tetromino) -> bool {
    exists|k: TetrominoNames, n: int|
        0 <= n < 4 && t.name == k && pos_int(t.pos()) == rotate_n(
            pos_int(spawn_positions(k)),
            n,
        )
}

/// One game: terminal flag, score, play field, active piece, preview field
/// and on-deck piece.
pub struct Game {
    pub over: bool,
    pub score: u32,
    pub playfield: PlayField,
    pub current_tetromino: Tetromino,
    pub nextfield: Nextfield,
    pub next_tetromino: Tetromino,
}

impl Game {
    /// Well-formed: both fields have their fixed dimensions and both pieces
    /// hold four distinct in-bounds cells.
    pub open spec fn wf(self) -> bool {
        &&& self.playfield.wf()
        &&& self.nextfield.wf()
        &&& self.current_tetromino.wf()
        &&& self.next_tetromino.wf()
    }

    /// Create a game: fresh fields, score zero, not over, with a random
    /// active piece and a random on-deck piece.
    pub fn new() -> (r: Game)
        ensures
            r.wf(),
            !r.over,
            r.score == 0,
            r.playfield@ == fresh_play_grid(),
            r.nextfield@ == fresh_next_grid(),
            fresh_piece(r.current_tetromino),
            fresh_piece(r.next_tetromino),
    {
        let over = false;
        let score: u32 = 0;
        let playfield = PlayField::new();
        let current_tetromino = Tetromino::random();
        let nextfield = Nextfield::new();
        let next_tetromino = Tetromino::random();
        Game { over, score, playfield, current_tetromino, nextfield, next_tetromino }
    }

    /// Create a game with the given active and on-deck pieces, for hosts and
    /// tests that inject a deterministic piece source.
    pub fn with_pieces(current: Tetromino, next: Tetromino) -> (r: Game)
        requires
            current.wf(),
            next.wf(),
        ensures
            r.wf(),
            !r.over,
            r.score == 0,
            r.playfield@ == fresh_play_grid(),
            r.nextfield@ == fresh_next_grid(),
            r.current_tetromino == current,
            r.next_tetromino == next,
    {
        Game {
            over: false,
            score: 0,
            playfield: PlayField::new(),
            current_tetromino: current,
            nextfield: Nextfield::new(),
            next_tetromino: next,
        }
    }

    /// Whether the active piece can descend one row.
    pub fn can_move_down(&self) -> (r: bool)
        requires
            self.wf(),
        ensures
            r == spec_can_move_down(self.playfield@, self.current_tetromino.pos()),
    {
        let pos = self.current_tetromino.cells();
        let mut k: usize = 0;
        while k < 4
            invariant
                self.wf(),
                pos@ == self.current_tetromino.pos(),
                k <= 4,
                forall|i: int| 0 <= i < k ==> (#[trigger] pos@[i]).0 < PLAY_FIELD_HEIGHT - 1,
            decreases 4 - k,
        {
            if pos[k].0 == PLAY_FIELD_HEIGHT - 1 {
                return false;
            }
            k = k + 1;
        }
        let mut i: usize = 0;
        while i < 4
            invariant
                self.wf(),
                pos@ == self.current_tetromino.pos(),
                i <= 4,
                forall|ii: int| 0 <= ii < 4 ==> (#[trigger] pos@[ii]).0 < PLAY_FIELD_HEIGHT - 1,
                forall|ii: int|
                    0 <= ii < i && #[trigger] col_bottom(pos@, ii) ==> cell_free(
                        self.playfield@[pos@[ii].0 as int + 1][pos@[ii].1 as int],
                    ),
            decreases 4 - i,
        {
            let mut is_bottom = true;
            let mut j: usize = 0;
            while j < 4
                invariant
                    pos@.len() == 4,
                    j <= 4,
                    i < 4,
                    is_bottom <==> (forall|jj: int|
                        0 <= jj < j && (#[trigger] pos@[jj]).1 == pos@[i as int].1 ==> pos@[jj].0
                            <= pos@[i as int].0),
                decreases 4 - j,
            {
                if pos[j].1 == pos[i].1 && pos[j].0 > pos[i].0 {
                    is_bottom = false;
                }
                j = j + 1;
            }
            if is_bottom {
                let below = self.playfield.get_cell(pos[i].0 + 1, pos[i].1);
                if !(below == Cell::Empty || below == Cell::BufferEmpty) {
                    proof {
                        assert(col_bottom(pos@, i as int));
                    }
                    return false;
                }
            }
            i = i + 1;
        }
        true
    }

    /// Whether the active piece can move one column to the right.
    pub fn can_move_right(&self) -> (r: bool)
        requires
            self.wf(),
        ensures
            r == spec_can_move_right(self.playfield@, self.current_tetromino.pos()),
    {
        let pos = self.current_tetromino.cells();
        let mut k: usize = 0;
        while k < 4
            invariant
                self.wf(),
                pos@ == self.current_tetromino.pos(),
                k <= 4,
                forall|i: int| 0 <= i < k ==> (#[trigger] pos@[i]).1 < PLAY_FIELD_WIDTH - 1,
            decreases 4 - k,
        {
            if pos[k].1 == PLAY_FIELD_WIDTH - 1 {
                return false;
            }
            k = k + 1;
        }
        let mut i: usize = 0;
        while i < 4
            invariant
                self.wf(),
                pos@ == self.current_tetromino.pos(),
                i <= 4,
                forall|ii: int| 0 <= ii < 4 ==> (#[trigger] pos@[ii]).1 < PLAY_FIELD_WIDTH - 1,
                forall|ii: int|
                    0 <= ii < i && #[trigger] row_rightmost(pos@, ii) ==> cell_free(
                        self.playfield@[pos@[ii].0 as int][pos@[ii].1 as int + 1],
                    ),
            decreases 4 - i,
        {
            let mut is_edge = true;
            let mut j: usize = 0;
            while j < 4
                invariant
                    pos@.len() == 4,
                    j <= 4,
                    i < 4,
                    is_edge <==> (forall|jj: int|
                        0 <= jj < j && (#[trigger] pos@[jj]).0 == pos@[i as int].0 ==> pos@[jj].1
                            <= pos@[i as int].1),
                decreases 4 - j,
            {
                if pos[j].0 == pos[i].0 && pos[j].1 > pos[i].1 {
                    is_edge = false;
                }
                j = j + 1;
            }
            if is_edge {
                let beyond = self.playfield.get_cell(pos[i].0, pos[i].1 + 1);
                if !(beyond == Cell::Empty || beyond == Cell::BufferEmpty) {
                    proof {
                        assert(row_rightmost(pos@, i as int));
                    }
                    return false;
                }
            }
            i = i + 1;
        }
        true
    }

    /// Whether the active piece can move one column to the left.
    pub fn can_move_left(&self) -> (r: bool)
        requires
            self.wf(),
        ensures
            r == spec_can_move_left(self.playfield@, self.current_tetromino.pos()),
    {
        let pos = self.current_tetromino.cells();
        let mut k: usize = 0;
        while k < 4
            invariant
                self.wf(),
                pos@ == self.current_tetromino.pos(),
                k <= 4,
                forall|i: int| 0 <= i < k ==> (#[trigger] pos@[i]).1 > 0,
            decreases 4 - k,
        {
            if pos[k].1 == 0 {
                return false;
            }
            k = k + 1;
        }
        let mut i: usize = 0;
        while i < 4
            invariant
                self.wf(),
                pos@ == self.current_tetromino.pos(),
                i <= 4,
                forall|ii: int| 0 <= ii < 4 ==> (#[trigger] pos@[ii]).1 > 0,
                forall|ii: int|
                    0 <= ii < i && #[trigger] row_leftmost(pos@, ii) ==> cell_free(
                        self.playfield@[pos@[ii].0 as int][pos@[ii].1 as int - 1],
                    ),
            decreases 4 - i,
        {
            let mut is_edge = true;
            let mut j: usize = 0;
            while j < 4
                invariant
                    pos@.len() == 4,
                    j <= 4,
                    i < 4,
                    is_edge <==> (forall|jj: int|
                        0 <= jj < j && (#[trigger] pos@[jj]).0 == pos@[i as int].0 ==> pos@[jj].1
                            >= pos@[i as int].1),
                decreases 4 - j,
            {
                if pos[j].0 == pos[i].0 && pos[j].1 < pos[i].1 {
                    is_edge = false;
                }
                j = j + 1;
            }
            if is_edge {
                let beyond = self.playfield.get_cell(pos[i].0, pos[i].1 - 1);
                if !(beyond == Cell::Empty || beyond == Cell::BufferEmpty) {
                    proof {
                        assert(row_leftmost(pos@, i as int));
                    }
                    return false;
                }
            }
            i = i + 1;
        }
        true
    }

    /// Whether the active piece can rotate a quarter turn clockwise. The
    /// check is read-only: it probes a copy of the piece and never alters
    /// the live one.
    pub fn can_rotate(&self) -> (r: bool)
        requires
            self.wf(),
        ensures
            r == spec_can_rotate(self.playfield@, self.current_tetromino.pos()),
    {
        let mut probe = self.current_tetromino;
        match probe.rotate(false) {
            None => false,
            Some(cand) => {
                let ghost rp = rotated_pos(pos_int(self.current_tetromino.pos()));
                let mut i: usize = 0;
                while i < 4
                    invariant
                        self.wf(),
                        rp == rotated_pos(pos_int(self.current_tetromino.pos())),
                        pos_int(cand@) == rp,
                        cand@.len() == 4,
                        rotation_in_bounds(self.current_tetromino.pos()),
                        i <= 4,
                        forall|ii: int|
                            0 <= ii < i ==> cell_free(
                                self.playfield@[(#[trigger] rp[ii]).0][rp[ii].1],
                            ),
                    decreases 4 - i,
                {
                    proof {
                        assert(pos_int(cand@)[i as int] == rp[i as int]);
                    }
                    let target = self.playfield.get_cell(cand[i].0, cand[i].1);
                    if !(target == Cell::Empty || target == Cell::BufferEmpty) {
                        return false;
                    }
                    i = i + 1;
                }
                true
            },
        }
    }

    /// Move the active piece one row down, when legal; otherwise leave the
    /// game untouched.
    pub fn move_down(&mut self)
        requires
            old(self).wf(),
        ensures
            final(self).wf(),
            final(self).over == old(self).over,
            final(self).score == old(self).score,
            final(self).playfield == old(self).playfield,
            final(self).nextfield == old(self).nextfield,
            final(self).next_tetromino == old(self).next_tetromino,
            final(self).current_tetromino.name == old(self).current_tetromino.name,
            spec_can_move_down(old(self).playfield@, old(self).current_tetromino.pos())
                ==> final(self).current_tetromino.pos() == moved(
                old(self).current_tetromino.pos(),
                1,
                0,
            ),
            !spec_can_move_down(old(self).playfield@, old(self).current_tetromino.pos())
                ==> final(self).current_tetromino == old(self).current_tetromino,
    {
        if self.can_move_down() {
            let p = self.current_tetromino.position;
            self.current_tetromino.position = [
                (p[0].0 + 1, p[0].1),
                (p[1].0 + 1, p[1].1),
                (p[2].0 + 1, p[2].1),
                (p[3].0 + 1, p[3].1),
            ];
            proof {
                assert(self.current_tetromino.pos() =~= moved(p@, 1, 0));
                assert(self.current_tetromino.pos().no_duplicates());
            }
        }
    }

    /// Move the active piece one column right, when legal; otherwise leave
    /// the game untouched.
    pub fn move_right(&mut self)
        requires
            old(self).wf(),
        ensures
            final(self).wf(),
            final(self).over == old(self).over,
            final(self).score == old(self).score,
            final(self).playfield == old(self).playfield,
            final(self).nextfield == old(self).nextfield,
            final(self).next_tetromino == old(self).next_tetromino,
            final(self).current_tetromino.name == old(self).current_tetromino.name,
            spec_can_move_right(old(self).playfield@, old(self).current_tetromino.pos())
                ==> final(self).current_tetromino.pos() == moved(
                old(self).current_tetromino.pos(),
                0,
                1,
            ),
            !spec_can_move_right(old(self).playfield@, old(self).current_tetromino.pos())
                ==> final(self).current_tetromino == old(self).current_tetromino,
    {
        if self.can_move_right() {
            let p = self.current_tetromino.position;
            self.current_tetromino.position = [
                (p[0].0, p[0].1 + 1),
                (p[1].0, p[1].1 + 1),
                (p[2].0, p[2].1 + 1),
                (p[3].0, p[3].1 + 1),
            ];
            proof {
                assert(self.current_tetromino.pos() =~= moved(p@, 0, 1));
                assert(self.current_tetromino.pos().no_duplicates());
            }
        }
    }

    /// Move the active piece one column left, when legal; otherwise leave
    /// the game untouched.
    pub fn move_left(&mut self)
        requires
            old(self).wf(),
        ensures
            final(self).wf(),
            final(self).over == old(self).over,
            final(self).score == old(self).score,
            final(self).playfield == old(self).playfield,
            final(self).nextfield == old(self).nextfield,
            final(self).next_tetromino == old(self).next_tetromino,
            final(self).current_tetromino.name == old(self).current_tetromino.name,
            spec_can_move_left(old(self).playfield@, old(self).current_tetromino.pos())
                ==> final(self).current_tetromino.pos() == moved(
                old(self).current_tetromino.pos(),
                0,
                -1,
            ),
            !spec_can_move_left(old(self).playfield@, old(self).current_tetromino.pos())
                ==> final(self).current_tetromino == old(self).current_tetromino,
    {
        if self.can_move_left() {
            let p = self.current_tetromino.position;
            self.current_tetromino.position = [
                (p[0].0, p[0].1 - 1),
                (p[1].0, p[1].1 - 1),
                (p[2].0, p[2].1 - 1),
                (p[3].0, p[3].1 - 1),
            ];
            proof {
                assert(self.current_tetromino.pos() =~= moved(p@, 0, -1));
                assert(self.current_tetromino.pos().no_duplicates());
            }
        }
    }

    /// Rotate the active piece a quarter turn clockwise, when legal;
    /// otherwise leave the game untouched.
    pub fn rotate(&mut self)
        requires
            old(self).wf(),
        ensures
            final(self).wf(),
            final(self).over == old(self).over,
            final(self).score == old(self).score,
            final(self).playfield == old(self).playfield,
            final(self).nextfield == old(self).nextfield,
            final(self).next_tetromino == old(self).next_tetromino,
            final(self).current_tetromino.name == old(self).current_tetromino.name,
            spec_can_rotate(old(self).playfield@, old(self).current_tetromino.pos())
                ==> pos_int(final(self).current_tetromino.pos()) == rotated_pos(
                pos_int(old(self).current_tetromino.pos()),
            ),
            !spec_can_rotate(old(self).playfield@, old(self).current_tetromino.pos())
                ==> final(self).current_tetromino == old(self).current_tetromino,
    {
        if self.can_rotate() {
            let _ = self.current_tetromino.rotate(true);
        }
    }

    /// Whether the locked stack has reached the topmost visible row.
    pub fn touch_the_top(&self) -> (r: bool)
        requires
            self.wf(),
        ensures
            r == spec_touch_top(self.playfield@),
    {
        let mut c: usize = 0;
        while c < PLAY_FIELD_WIDTH
            invariant
                self.wf(),
                c <= PLAY_FIELD_WIDTH,
                forall|cc: int|
                    0 <= cc < c ==> cell_free(
                        #[trigger] self.playfield@[PLAY_FIELD_BUFFER as int][cc],
                    ),
            decreases PLAY_FIELD_WIDTH - c,
        {
            let cell = self.playfield.get_cell(PLAY_FIELD_BUFFER, c);
            if !(cell == Cell::Empty || cell == Cell::BufferEmpty) {
                return true;
            }
            c = c + 1;
        }
        false
    }

    /// Compact out one filled row and credit its points: a base of 10 plus
    /// the bonus earned by its 0-based place `nth` within the batch of rows
    /// cleared in this lock event. The score saturates at its maximum.
    pub fn crush_row(&mut self, row_idx: usize, nth: usize)
        requires
            old(self).wf(),
            PLAY_FIELD_BUFFER <= row_idx < PLAY_FIELD_HEIGHT,
        ensures
            final(self).wf(),
            final(self).playfield@ == crushed(old(self).playfield@, row_idx as int),
            final(self).score == sat_add(old(self).score, crush_points(nth as int)),
            final(self).over == old(self).over,
            final(self).current_tetromino == old(self).current_tetromino,
            final(self).nextfield == old(self).nextfield,
            final(self).next_tetromino == old(self).next_tetromino,
    {
        let bonus_score: u32 = if nth == 1 || nth == 2 {
            10
        } else if nth == 3 {
            20
        } else {
            0
        };
        self.playfield.crush_row(row_idx);
        let pts = 10 + bonus_score;
        if self.score <= u32::MAX - pts {
            self.score = self.score + pts;
        } else {
            self.score = u32::MAX;
        }
    }

    /// Advance the game one step. On a game already over, nothing changes.
    /// Otherwise, if the locked stack has reached the topmost visible row,
    /// the game becomes over and nothing else changes. Otherwise the active
    /// piece descends one row when it can; when it cannot, it locks into the
    /// play field, every newly filled row is compacted out in ascending
    /// order with its points credited, the on-deck piece becomes active and
    /// a fresh on-deck piece is drawn.
    pub fn tick(&mut self)
        requires
            old(self).wf(),
        ensures
            final(self).wf(),
            old(self).over ==> *final(self) == *old(self),
            !old(self).over && spec_touch_top(old(self).playfield@) ==> {
                &&& final(self).over
                &&& final(self).score == old(self).score
                &&& final(self).playfield == old(self).playfield
                &&& final(self).current_tetromino == old(self).current_tetromino
                &&& final(self).nextfield == old(self).nextfield
                &&& final(self).next_tetromino == old(self).next_tetromino
            },
            !old(self).over && !spec_touch_top(old(self).playfield@) && spec_can_move_down(
                old(self).playfield@,
                old(self).current_tetromino.pos(),
            ) ==> {
                &&& final(self).over == old(self).over
                &&& final(self).score == old(self).score
                &&& final(self).playfield == old(self).playfield
                &&& final(self).current_tetromino.name == old(self).current_tetromino.name
                &&& final(self).current_tetromino.pos() == moved(
                    old(self).current_tetromino.pos(),
                    1,
                    0,
                )
                &&& final(self).nextfield == old(self).nextfield
                &&& final(self).next_tetromino == old(self).next_tetromino
            },
            !old(self).over && !spec_touch_top(old(self).playfield@) && !spec_can_move_down(
                old(self).playfield@,
                old(self).current_tetromino.pos(),
            ) ==> {
                let locked = spawned(old(self).playfield@, old(self).current_tetromino);
                let rows = spec_filled_rows(locked);
                &&& final(self).over == old(self).over
                &&& final(self).playfield@ == crush_all(locked, rows)
                &&& final(self).score == scored(old(self).score, rows.len() as int)
                &&& final(self).current_tetromino == old(self).next_tetromino
                &&& final(self).nextfield == old(self).nextfield
                &&& final(self).next_tetromino.wf()
                &&& fresh_piece(final(self).next_tetromino)
            },
    {
        if self.over {
            return ;
        }
        if self.touch_the_top() {
            self.over = true;
            return ;
        }
        if self.can_move_down() {
            self.move_down();
        } else {
            self.playfield.spawn(self.current_tetromino);
            let filled = self.playfield.get_filled_row();
            let ghost locked = self.playfield@;
            let ghost rows = spec_filled_rows(locked);
            let ghost s0 = self.score;
            let ghost cur0 = self.current_tetromino;
            let ghost next0 = self.next_tetromino;
            let ghost nf0 = self.nextfield;
            let ghost over0 = self.over;
            proof {
                assert(rows.skip(0) =~= rows);
            }
            let mut nth: usize = 0;
            while nth < filled.len()
                invariant
                    self.wf(),
                    nth <= filled@.len(),
                    filled@.map_values(|x: usize| x as int) == rows,
                    forall|i: int|
                        0 <= i < filled@.len() ==> PLAY_FIELD_BUFFER <= #[trigger] filled@[i]
                            < PLAY_FIELD_HEIGHT,
                    crush_all(locked, rows) == crush_all(self.playfield@, rows.skip(nth as int)),
                    self.score == scored(s0, nth as int),
                    self.current_tetromino == cur0,
                    self.next_tetromino == next0,
                    self.nextfield == nf0,
                    self.over == over0,
                decreases filled@.len() - nth,
            {
                let row = filled[nth];
                let ghost before = self.playfield@;
                self.crush_row(row, nth);
                proof {
                    assert(rows.skip(nth as int)[0] == rows[nth as int]);
                    assert(rows.skip(nth as int).skip(1) =~= rows.skip(nth as int + 1));
                    assert(crush_all(before, rows.skip(nth as int)) == crush_all(
                        crushed(before, rows[nth as int]),
                        rows.skip(nth as int + 1),
                    ));
                }
                nth = nth + 1;
            }
            proof {
                assert(rows.skip(filled@.len() as int) =~= Seq::<int>::empty());
                assert(crush_all(self.playfield@, Seq::<int>::empty()) == self.playfield@);
            }
            self.current_tetromino = self.next_tetromino;
            self.next_tetromino = Tetromino::random();
        }
    }

    /// The current score.
    pub fn get_score(&self) -> (r: u32)
        ensures
            r == self.score,
    {
        self.score
    }

    /// The play field as a text block, one glyph per cell, rows separated
    /// by newlines, with the active piece overlaid on its occupied cells.
    pub fn get_playfield_str(&self) -> (r: String)
        requires
            self.wf(),
        ensures
            r@ == render_play(self.playfield@, self.current_tetromino),
    {
        let mut out = String::new();
        let mut x: usize = 0;
        while x < PLAY_FIELD_HEIGHT
            invariant
                self.wf(),
                x <= PLAY_FIELD_HEIGHT,
                out@ == render_upto(
                    self.playfield@,
                    self.current_tetromino,
                    0,
                    PLAY_FIELD_WIDTH as int,
                    x as int,
                ),
            decreases PLAY_FIELD_HEIGHT - x,
        {
            let mut y: usize = 0;
            while y < PLAY_FIELD_WIDTH
                invariant
                    self.wf(),
                    x < PLAY_FIELD_HEIGHT,
                    y <= PLAY_FIELD_WIDTH,
                    out@ == render_upto(
                        self.playfield@,
                        self.current_tetromino,
                        0,
                        PLAY_FIELD_WIDTH as int,
                        x as int,
                    ) + render_row_upto(
                        self.playfield@,
                        self.current_tetromino,
                        0,
                        x as int,
                        y as int,
                    ),
                decreases PLAY_FIELD_WIDTH - y,
            {
                let icon = if self.current_tetromino.occupies_cell((x, y)) {
                    self.current_tetromino.name.get_icon()
                } else {
                    crate::shape::icon_of_cell(self.playfield.get_cell(x, y))
                };
                out.append(icon);
                proof {
                    assert(out@ =~= render_upto(
                        self.playfield@,
                        self.current_tetromino,
                        0,
                        PLAY_FIELD_WIDTH as int,
                        x as int,
                    ) + render_row_upto(
                        self.playfield@,
                        self.current_tetromino,
                        0,
                        x as int,
                        y as int + 1,
                    ));
                }
                y = y + 1;
            }
            out.append("\n");
            proof {
                assert(out@ =~= render_upto(
                    self.playfield@,
                    self.current_tetromino,
                    0,
                    PLAY_FIELD_WIDTH as int,
                    x as int + 1,
                ));
            }
            x = x + 1;
        }
        out
    }

    /// The preview field as a text block, with the on-deck piece overlaid,
    /// offset by two columns.
    pub fn get_nextfield_str(&self) -> (r: String)
        requires
            self.wf(),
        ensures
            r@ == render_next(self.nextfield@, self.next_tetromino),
    {
        let mut out = String::new();
        let mut x: usize = 0;
        while x < NEXT_FIELD_HEIGHT
            invariant
                self.wf(),
                x <= NEXT_FIELD_HEIGHT,
                out@ == render_upto(
                    self.nextfield@,
                    self.next_tetromino,
                    2,
                    NEXT_FIELD_WIDTH as int,
                    x as int,
                ),
            decreases NEXT_FIELD_HEIGHT - x,
        {
            let mut y: usize = 0;
            while y < NEXT_FIELD_WIDTH
                invariant
                    self.wf(),
                    x < NEXT_FIELD_HEIGHT,
                    y <= NEXT_FIELD_WIDTH,
                    out@ == render_upto(
                        self.nextfield@,
                        self.next_tetromino,
                        2,
                        NEXT_FIELD_WIDTH as int,
                        x as int,
                    ) + render_row_upto(
                        self.nextfield@,
                        self.next_tetromino,
                        2,
                        x as int,
                        y as int,
                    ),
                decreases NEXT_FIELD_WIDTH - y,
            {
                let icon = if self.next_tetromino.occupies_cell((x, y + 2)) {
                    self.next_tetromino.name.get_icon()
                } else {
                    crate::shape::icon_of_cell(self.nextfield.get_cell(x, y))
                };
                out.append(icon);
                proof {
                    assert(out@ =~= render_upto(
                        self.nextfield@,
                        self.next_tetromino,
                        2,
                        NEXT_FIELD_WIDTH as int,
                        x as int,
                    ) + render_row_upto(
                        self.nextfield@,
                        self.next_tetromino,
                        2,
                        x as int,
                        y as int + 1,
                    ));
                }
                y = y + 1;
            }
            out.append("\n");
            proof {
                assert(out@ =~= render_upto(
                    self.nextfield@,
                    self.next_tetromino,
                    2,
                    NEXT_FIELD_WIDTH as int,
                    x as int + 1,
                ));
            }
            x = x + 1;
        }
        out
    }
}

/// A piece with a cell on the bottommost row can never descend, whatever
/// the play field holds.
pub proof fn lemma_bottom_row_blocks_descent(pos: Seq<(usize, usize)>, i: int)
    requires
        0 <= i < pos.len(),
        pos[i].0 == PLAY_FIELD_HEIGHT - 1,
    ensures
        forall|g: Seq<Seq<Cell>>| !spec_can_move_down(g, pos),
{
    assert forall|g: Seq<Seq<Cell>>| !spec_can_move_down(g, pos) by {
        assert(!((pos[i]).0 < PLAY_FIELD_HEIGHT - 1));
    }
}

/// Locking a piece that still has a cell in the topmost visible row, when
/// the lock completes no row, leaves the play field touching the top; by
/// `tick`'s contract the following tick then ends the game.
pub proof fn lemma_lock_at_top_leads_to_game_over(g: Seq<Seq<Cell>>, t: Tetromino, i: int)
    requires
        grid_wf(g, PLAY_FIELD_HEIGHT as int, PLAY_FIELD_WIDTH as int),
        t.wf(),
        0 <= i < 4,
        t.pos()[i].0 == PLAY_FIELD_BUFFER,
        spec_filled_rows(spawned(g, t)).len() == 0,
    ensures
        spec_touch_top(crush_all(spawned(g, t), spec_filled_rows(spawned(g, t)))),
{
    let f = spawned(g, t);
    assert(crush_all(f, spec_filled_rows(f)) == f);
    let col = t.pos()[i].1;
    assert(t.pos()[i] == (PLAY_FIELD_BUFFER, col));
    assert(t.pos().contains((PLAY_FIELD_BUFFER, col)));
    assert(f[PLAY_FIELD_BUFFER as int][col as int] == Cell::Filled(t.name));
    assert(!cell_free(f[PLAY_FIELD_BUFFER as int][col as int]));
}

/// The scores of whole clear batches, where the counter does not saturate:
/// one row is worth 10, two rows 30, three rows 50 and four rows 80.
pub proof fn lemma_batch_scores(s: u32)
    requires
        s <= u32::MAX - 80,
    ensures
        scored(s, 1) == s + 10,
        scored(s, 2) == s + 30,
        scored(s, 3) == s + 50,
        scored(s, 4) == s + 80,
{
    assert(scored(s, 0) == s);
    assert(scored(s, 1) == sat_add(scored(s, 0), crush_points(0)));
    assert(scored(s, 2) == sat_add(scored(s, 1), crush_points(1)));
    assert(scored(s, 3) == sat_add(scored(s, 2), crush_points(2)));
    assert(scored(s, 4) == sat_add(scored(s, 3), crush_points(3)));
}

} // verus!
