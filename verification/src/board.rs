//! The grid: dimensions, flattened cell indices, and one-step toroidal
//! movement.

use vstd::prelude::*;

verus! {

/// Number of columns of the board.
pub const WIDTH: i16 = 50;

/// Number of rows of the board.
pub const HEIGHT: i16 = 20;

/// Total number of cells; a cell index lies in `[0, N_CELLS)`.
pub const N_CELLS: i16 = WIDTH * HEIGHT;

/// A cell index identifies one grid position, row-major: `x + y * WIDTH`.
pub open spec fn in_board(c: i16) -> bool {
    0 <= c < N_CELLS
}

/// Row (y coordinate) of a flattened cell index.
pub open spec fn row_of(c: int) -> int {
    c / (WIDTH as int)
}

/// Column (x coordinate) of a flattened cell index.
pub open spec fn col_of(c: int) -> int {
    c % (WIDTH as int)
}

/// The four direction commands: right, left, up, down.
pub open spec fn is_direction(c: char) -> bool {
    c == 'd' || c == 'a' || c == 'w' || c == 's'
}

/// The cell one step from `head` in direction `dir`, wrapping around the
/// board edges (toroidal topology); a non-direction character leaves the
/// head where it is.
pub open spec fn step_spec(dir: char, head: i16) -> int
    recommends
        in_board(head),
{
    if dir == 'd' {
        if (head as int + 1) % (WIDTH as int) == 0 {
            head + 1 - WIDTH
        } else {
            head + 1
        }
    } else if dir == 'a' {
        if (head as int) % (WIDTH as int) == 0 {
            head + WIDTH - 1
        } else {
            head - 1
        }
    } else if dir == 'w' {
        if head < WIDTH {
            head + WIDTH * (HEIGHT - 1)
        } else {
            head - WIDTH
        }
    } else if dir == 's' {
        if head + WIDTH >= WIDTH * HEIGHT {
            head - WIDTH * (HEIGHT - 1)
        } else {
            head + WIDTH
        }
    } else {
        head as int
    }
}

/// A step never leaves the board.
pub proof fn lemma_step_in_board(dir: char, head: i16)
    requires
        in_board(head),
    ensures
        0 <= step_spec(dir, head) < N_CELLS,
{
}

/// Toroidal wraparound: stepping off an edge reenters from the opposite
/// edge, staying in the same row (horizontal moves) or the same column
/// (vertical moves).
pub proof fn lemma_wraparound(head: i16)
    requires
        in_board(head),
    ensures
        col_of(head as int) == WIDTH - 1 ==> col_of(step_spec('d', head)) == 0 && row_of(
            step_spec('d', head),
        ) == row_of(head as int),
        col_of(head as int) == 0 ==> col_of(step_spec('a', head)) == WIDTH - 1 && row_of(
            step_spec('a', head),
        ) == row_of(head as int),
        row_of(head as int) == 0 ==> row_of(step_spec('w', head)) == HEIGHT - 1 && col_of(
            step_spec('w', head),
        ) == col_of(head as int),
        row_of(head as int) == HEIGHT - 1 ==> row_of(step_spec('s', head)) == 0 && col_of(
            step_spec('s', head),
        ) == col_of(head as int),
{
}

} // verus!
