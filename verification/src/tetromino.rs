//! A piece: a kind plus the four grid cells it currently occupies, with
//! clockwise quarter-turn rotation about its pivot cell.

use vstd::prelude::*;

use crate::field::{PLAY_FIELD_HEIGHT, PLAY_FIELD_WIDTH};
use crate::rng::rand_below;
use crate::shape::{spawn_positions, TetrominoNames};

verus! {

/// A piece's coordinates as mathematical integers.
pub open spec fn pos_int(pos: Seq<(usize, usize)>) -> Seq<(int, int)> {
    pos.map_values(|p: (usize, usize)| (p.0 as int, p.1 as int))
}

/// One cell rotated a quarter turn clockwise about the pivot: with row
/// growing downward, `(r, c)` maps to `(pr + c - pc, pc + pr - r)`.
pub open spec fn rotate_pt(pivot: (int, int), p: (int, int)) -> (int, int) {
    (pivot.0 + p.1 - pivot.1, pivot.1 + pivot.0 - p.0)
}

/// All cells rotated a quarter turn clockwise about the second cell.
pub open spec fn rotated_pos(pos: Seq<(int, int)>) -> Seq<(int, int)>
    recommends
        pos.len() == 4,
{
    Seq::new(pos.len(), |i: int| rotate_pt(pos[1], pos[i]))
}

/// `n` successive quarter-turn rotations.
pub open spec fn rotate_n(pos: Seq<(int, int)>, n: int) -> Seq<(int, int)>
    decreases n,
{
    if n <= 0 {
        pos
    } else {
        rotated_pos(rotate_n(pos, n - 1))
    }
}

/// The rotated piece stays inside the play field (no coordinate negative or
/// beyond the field's height and width).
pub open spec fn rotation_in_bounds(pos: Seq<(usize, usize)>) -> bool {
    forall|i: int|
        0 <= i < pos.len() ==> {
            let q = #[trigger] rotated_pos(pos_int(pos))[i];
            0 <= q.0 < PLAY_FIELD_HEIGHT && 0 <= q.1 < PLAY_FIELD_WIDTH
        }
}

/// A piece: its kind and the four cells it occupies. The second cell is the
/// pivot for rotation.
#[derive(Clone, Copy, Debug)]
pub struct Tetromino {
    pub name: TetrominoNames,
    pub position: [(usize, usize); 4],
}

impl Tetromino {
    /// The occupied cells, in order.
    pub open spec fn pos(self) -> Seq<(usize, usize)> {
        self.position@
    }

    /// Well-formed: exactly four distinct cells, all inside the play field.
    pub open spec fn wf(self) -> bool {
        &&& self.pos().len() == 4
        &&& (forall|i: int|
            0 <= i < 4 ==> (#[trigger] self.pos()[i]).0 < PLAY_FIELD_HEIGHT && self.pos()[i].1
                < PLAY_FIELD_WIDTH)
        &&& self.pos().no_duplicates()
    }

    /// Whether the piece occupies the given `(row, col)` cell.
    pub open spec fn spec_occupies(self, position: (usize, usize)) -> bool {
        self.pos().contains(position)
    }

    /// Create a piece of the given kind at its spawn coordinates.
    pub fn new(name: TetrominoNames) -> (r: Tetromino)
        ensures
            r.name == name,
            r.pos() == spawn_positions(name),
            r.wf(),
    {
        let position = name.get_position();
        let r = Tetromino { name, position };
        proof {
            lemma_spawn_positions_wf(name);
        }
        r
    }

    /// Create a piece of a uniformly random kind, then give it a random
    /// starting orientation by rotating it in place up to three times.
    pub fn random() -> (r: Tetromino)
        ensures
            r.wf(),
            exists|k: TetrominoNames, n: int|
                0 <= n < 4 && r.name == k && pos_int(r.pos()) == rotate_n(
                    pos_int(spawn_positions(k)),
                    n,
                ),
    {
        let idx = rand_below(7);
        let name = if idx == 0 {
            TetrominoNames::T
        } else if idx == 1 {
            TetrominoNames::L
        } else if idx == 2 {
            TetrominoNames::J
        } else if idx == 3 {
            TetrominoNames::O
        } else if idx == 4 {
            TetrominoNames::I
        } else if idx == 5 {
            TetrominoNames::S
        } else {
            TetrominoNames::Z
        };
        let mut tetromino = Tetromino::new(name);
        let n_rotation = rand_below(4);
        let mut i: u8 = 0;
        let ghost mut done: int = 0;
        while i < n_rotation
            invariant
                i <= n_rotation < 4,
                0 <= done <= i,
                tetromino.wf(),
                tetromino.name == name,
                pos_int(tetromino.pos()) == rotate_n(pos_int(spawn_positions(name)), done),
            decreases n_rotation - i,
        {
            let turned = tetromino.rotate(true);
            proof {
                if turned is Some {
                    done = done + 1;
                }
            }
            i = i + 1;
        }
        tetromino
    }

    /// Compute the clockwise quarter-turn rotation about the pivot cell.
    /// Returns the rotated cells when they all stay inside the play field,
    /// and `None` otherwise; commits them to the piece only when `in_place`
    /// is true and the rotation stays in bounds.
    pub fn rotate(&mut self, in_place: bool) -> (r: Option<[(usize, usize); 4]>)
        requires
            old(self).wf(),
    ensures
            final(self).wf(),
            final(self).name == old(self).name,
            r is Some <==> rotation_in_bounds(old(self).pos()),
            r matches Some(cand) ==> pos_int(cand@) == rotated_pos(pos_int(old(self).pos())),
            in_place ==> (r matches Some(cand) ==> final(self).pos() == cand@),
            r is None || !in_place ==> final(self).pos() == old(self).pos(),
    {
        let (ox, oy) = self.position[1];
        let c0 = rotate_cell((ox, oy), self.position[0]);
        let c1 = rotate_cell((ox, oy), self.position[1]);
        let c2 = rotate_cell((ox, oy), self.position[2]);
        let c3 = rotate_cell((ox, oy), self.position[3]);
        match (c0, c1, c2, c3) {
            (Some(q0), Some(q1), Some(q2), Some(q3)) => {
                let cand: [(usize, usize); 4] = [q0, q1, q2, q3];
                proof {
                    assert(pos_int(cand@) =~= rotated_pos(pos_int(self.pos())));
                    assert forall|i: int| 0 <= i < 4 implies {
                        let q = #[trigger] rotated_pos(pos_int(self.pos()))[i];
                        0 <= q.0 < PLAY_FIELD_HEIGHT && 0 <= q.1 < PLAY_FIELD_WIDTH
                    } by {
                        assert(pos_int(cand@)[i] == rotated_pos(pos_int(self.pos()))[i]);
                    }
                    lemma_rotation_keeps_distinct(self.pos(), cand@);
                }
                if in_place {
                    self.position = cand;
                }
                Some(cand)
            },
            _ => {
                proof {
                    let pi = pos_int(self.pos());
                    let which: int = if c0 is None {
                        0
                    } else if c1 is None {
                        1
                    } else if c2 is None {
                        2
                    } else {
                        3
                    };
                    assert(rotated_pos(pi)[which] == rotate_pt(pi[1], pi[which]));
                    assert(!rotation_in_bounds(self.pos()));
                }
                None
            },
        }
    }

    /// Whether the piece occupies the given `(row, col)` cell.
    pub fn occupies_cell(&self, position: (usize, usize)) -> (r: bool)
        ensures
            r == self.spec_occupies(position),
    {
        if same_cell(self.position[0], position) || same_cell(self.position[1], position)
            || same_cell(self.position[2], position) || same_cell(self.position[3], position) {
            proof {
                assert(self.pos().contains(position));
            }
            true
        } else {
            false
        }
    }

    /// The occupied cells, for display and for tests.
    pub fn cells(&self) -> (r: [(usize, usize); 4])
        ensures
            r@ == self.pos(),
    {
        self.position
    }
}

/// Whether two `(row, col)` coordinates name the same cell.
fn same_cell(a: (usize, usize), b: (usize, usize)) -> (r: bool)
    ensures
        r == (a == b),
{
    a.0 == b.0 && a.1 == b.1
}

/// Rotate one cell about the pivot; `None` when the result would leave the
/// play field (in particular when a coordinate would go negative).
fn rotate_cell(pivot: (usize, usize), p: (usize, usize)) -> (r: Option<(usize, usize)>)
    requires
        pivot.0 < PLAY_FIELD_HEIGHT,
        pivot.1 < PLAY_FIELD_WIDTH,
        p.0 < PLAY_FIELD_HEIGHT,
        p.1 < PLAY_FIELD_WIDTH,
    ensures
        ({
            let q = rotate_pt((pivot.0 as int, pivot.1 as int), (p.0 as int, p.1 as int));
            &&& r is Some <==> (0 <= q.0 < PLAY_FIELD_HEIGHT && 0 <= q.1 < PLAY_FIELD_WIDTH)
            &&& r matches Some(c) ==> c.0 == q.0 && c.1 == q.1
        }),
{
    let row_sum = pivot.0 + p.1;
    let col_sum = pivot.1 + pivot.0;
    if row_sum < pivot.1 || col_sum < p.0 {
        return None;
    }
    let qr = row_sum - pivot.1;
    let qc = col_sum - p.0;
    if qr < PLAY_FIELD_HEIGHT && qc < PLAY_FIELD_WIDTH {
        Some((qr, qc))
    } else {
        None
    }
}

/// The spawn layout of every kind is well formed: four distinct cells, all
/// inside the play field.
pub proof fn lemma_spawn_positions_wf(name: TetrominoNames)
    ensures
        spawn_positions(name).len() == 4,
        forall|i: int|
            0 <= i < 4 ==> (#[trigger] spawn_positions(name)[i]).0 < PLAY_FIELD_HEIGHT
                && spawn_positions(name)[i].1 < PLAY_FIELD_WIDTH,
        spawn_positions(name).no_duplicates(),
{
}

/// A well-formed piece occupies exactly four cells: the coordinates for
/// which `occupies_cell` answers true form a set of cardinality four, and
/// every other coordinate is not occupied.
pub proof fn lemma_occupies_exactly_four(t: Tetromino)
    requires
        t.wf(),
    ensures
        t.pos().to_set().len() == 4,
        forall|p: (usize, usize)| #[trigger] t.spec_occupies(p) <==> t.pos().to_set().contains(p),
{
    t.pos().unique_seq_to_set();
}

/// Four quarter-turn rotations in place return every occupied cell of a
/// piece to its original coordinate, whatever the piece's kind and place.
pub proof fn lemma_rotation_four_times_identity(t: Tetromino)
    requires
        t.wf(),
    ensures
        rotate_n(pos_int(t.pos()), 4) == pos_int(t.pos()),
{
    let p0 = pos_int(t.pos());
    let p1 = rotated_pos(p0);
    let p2 = rotated_pos(p1);
    let p3 = rotated_pos(p2);
    let p4 = rotated_pos(p3);
    assert(rotate_n(p0, 0) == p0);
    assert(rotate_n(p0, 1) == p1);
    assert(rotate_n(p0, 2) == p2);
    assert(rotate_n(p0, 3) == p3);
    assert(rotate_n(p0, 4) == p4);
    assert(p1[1] == rotate_pt(p0[1], p0[1]));
    assert(p2[1] == rotate_pt(p1[1], p1[1]));
    assert(p3[1] == rotate_pt(p2[1], p2[1]));
    assert forall|i: int| 0 <= i < 4 implies p4[i] == p0[i] by {
        assert(p1[i] == rotate_pt(p0[1], p0[i]));
        assert(p2[i] == rotate_pt(p1[1], p1[i]));
        assert(p3[i] == rotate_pt(p2[1], p2[i]));
        assert(p4[i] == rotate_pt(p3[1], p3[i]));
    }
    assert(p4 =~= p0);
}

/// Rotation about a pivot is injective: distinct cells stay distinct.
proof fn lemma_rotation_keeps_distinct(pos: Seq<(usize, usize)>, cand: Seq<(usize, usize)>)
    requires
        pos.len() == 4,
        cand.len() == 4,
        pos.no_duplicates(),
        pos_int(cand) == rotated_pos(pos_int(pos)),
    ensures
        cand.no_duplicates(),
{
    assert forall|i: int, j: int| 0 <= i < 4 && 0 <= j < 4 && i != j implies cand[i] != cand[j] by {
        assert(pos[i] != pos[j]);
        assert(pos_int(cand)[i] == rotate_pt(pos_int(pos)[1], pos_int(pos)[i]));
        assert(pos_int(cand)[j] == rotate_pt(pos_int(pos)[1], pos_int(pos)[j]));
    }
}

} // verus!
