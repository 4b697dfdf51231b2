//! What each cell of the board shows: the classification behind a frame,
//! computed here; drawing the characters is left to the caller.

use vstd::prelude::*;

use crate::board::N_CELLS;

verus! {

/// What one cell renders as.
#[derive(Clone, Copy, Debug, PartialEq, Eq, Structural)]
pub enum CellKind {
    /// A cell the player occupies.
    Player,
    /// An obstacle cell.
    Rock,
    /// Anything else.
    Empty,
}

/// A cell shows the player wherever the player occupies it, else a rock
/// wherever an obstacle sits on it, else ground.
pub open spec fn cell_kind_spec(idx: i16, p: Seq<i16>, rocks: Seq<i16>) -> CellKind {
    if p.contains(idx) {
        CellKind::Player
    } else if rocks.contains(idx) {
        CellKind::Rock
    } else {
        CellKind::Empty
    }
}

/// Whether `c` occurs among `cells`.
#[verifier::loop_isolation(false)]
pub fn contains_cell(cells: &Vec<i16>, c: i16) -> (r: bool)
    ensures
        r == cells@.contains(c),
{
    let mut index: usize = 0;
    while index < cells.len()
        invariant
            index <= cells@.len(),
            forall|i: int| 0 <= i < index ==> cells@[i] != c,
        decreases cells@.len() - index,
    {
        if cells[index] == c {
            return true;
        }
        index += 1;
    }
    false
}

/// The kind of one cell of the current frame.
pub fn render_cell(idx: i16, player: &Vec<i16>, rocks: &Vec<i16>) -> (k: CellKind)
    ensures
        k == cell_kind_spec(idx, player@, rocks@),
{
    if contains_cell(player, idx) {
        CellKind::Player
    } else if contains_cell(rocks, idx) {
        CellKind::Rock
    } else {
        CellKind::Empty
    }
}

/// One whole frame, row-major: the kind of every cell of the board.
#[verifier::loop_isolation(false)]
pub fn render_board(player: &Vec<i16>, rocks: &Vec<i16>) -> (b: Vec<CellKind>)
    ensures
        b@.len() == N_CELLS,
        forall|i: int| 0 <= i < b@.len() ==> b@[i] == cell_kind_spec(i as i16, player@, rocks@),
{
    let mut b = Vec::<CellKind>::new();
    let mut idx: i16 = 0;
    while idx < N_CELLS
        invariant
            0 <= idx <= N_CELLS,
            b@.len() == idx,
            forall|i: int| 0 <= i < b@.len() ==> b@[i] == cell_kind_spec(i as i16, player@, rocks@),
        decreases N_CELLS - idx,
    {
        let k = render_cell(idx, player, rocks);
        b.push(k);
        idx += 1;
    }
    b
}

} // verus!
