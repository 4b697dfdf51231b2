//! The game engine: direction validation, player movement, collision
//! detection, and the per-tick state machine.

use vstd::prelude::*;

use crate::board::{in_board, is_direction, step_spec, N_CELLS, WIDTH, HEIGHT};

verus! {

/// `input` is the exact opposite of `last_input`: such a command is
/// rejected, to forbid instant reversals.
pub open spec fn is_reversal(input: char, last_input: char) -> bool {
    ||| (input == 'd' && last_input == 'a')
    ||| (input == 'a' && last_input == 'd')
    ||| (input == 'w' && last_input == 's')
    ||| (input == 's' && last_input == 'w')
}

/// A direction command is applied unless it reverses the current one.
pub fn is_valid_move(input: char, last_input: char) -> (r: bool)
    ensures
        r == !is_reversal(input, last_input),
{
    !((input == 'd' && last_input == 'a') || (input == 'a' && last_input == 'd') || (input == 'w'
        && last_input == 's') || (input == 's' && last_input == 'w'))
}

/// The player after one step in `dir`: the tail cell is dropped and the new
/// head appended at the end; a non-direction character moves nothing.
pub open spec fn moved(p: Seq<i16>, dir: char) -> Seq<i16>
    recommends
        p.len() >= 1,
{
    if is_direction(dir) {
        p.subrange(1, p.len() as int).push(step_spec(dir, p.last()) as i16)
    } else {
        p
    }
}

/// All cells of a player sequence lie on the board.
pub open spec fn player_on_board(p: Seq<i16>) -> bool {
    forall|i: int| 0 <= i < p.len() ==> in_board(p[i])
}

/// Advance the player one cell in direction `cur_play`, wrapping around the
/// board edges; any other character leaves the player unchanged. The length
/// is always preserved.
pub fn snake_move(cur_play: char, p_pos: &mut Vec<i16>)
    requires
        old(p_pos)@.len() >= 1,
        player_on_board(old(p_pos)@),
    ensures
        final(p_pos)@ == moved(old(p_pos)@, cur_play),
        final(p_pos)@.len() == old(p_pos)@.len(),
        player_on_board(final(p_pos)@),
{
    let head = p_pos[p_pos.len() - 1];
    proof {
        crate::board::lemma_step_in_board(cur_play, head);
    }
    // Move right
    if cur_play == 'd' {
        let mut next_pos = head + 1;
        if next_pos % WIDTH == 0 {
            next_pos -= WIDTH;
        }
        p_pos.push(next_pos);
        p_pos.remove(0);
        proof {
            assert(final(p_pos)@ =~= moved(old(p_pos)@, cur_play));
        }
        // Move left
    } else if cur_play == 'a' {
        let mut next_pos = head - 1;
        if (next_pos + 1) % WIDTH == 0 {
            next_pos += WIDTH;
        }
        p_pos.push(next_pos);
        p_pos.remove(0);
        proof {
            assert(final(p_pos)@ =~= moved(old(p_pos)@, cur_play));
        }
        // Move up
    } else if cur_play == 'w' {
        let mut next_pos = head - WIDTH;
        if next_pos < 0 {
            next_pos = head + WIDTH * (HEIGHT - 1);
        }
        p_pos.push(next_pos);
        p_pos.remove(0);
        proof {
            assert(final(p_pos)@ =~= moved(old(p_pos)@, cur_play));
        }
        // Move down
    } else if cur_play == 's' {
        let mut next_pos = head + WIDTH;
        if next_pos >= WIDTH * HEIGHT {
            next_pos = head - WIDTH * (HEIGHT - 1);
        }
        p_pos.push(next_pos);
        p_pos.remove(0);
        proof {
            assert(final(p_pos)@ =~= moved(old(p_pos)@, cur_play));
        }
    }
}

/// Some cell of the player coincides with an obstacle cell.
pub open spec fn collides(p: Seq<i16>, rocks: Seq<i16>) -> bool {
    exists|i: int| 0 <= i < p.len() && rocks.contains(p[i])
}

/// Collision detection: true exactly when the player occupies a rock cell.
#[verifier::loop_isolation(false)]
pub fn is_game_over(player_coords: &Vec<i16>, rocks_coords: &Vec<i16>) -> (r: bool)
    ensures
        r == collides(player_coords@, rocks_coords@),
{
    let mut p_index: usize = 0;
    while p_index < player_coords.len()
        invariant
            p_index <= player_coords@.len(),
            forall|i: int| 0 <= i < p_index ==> !rocks_coords@.contains(player_coords@[i]),
        decreases player_coords@.len() - p_index,
    {
        let mut rock_index: usize = 0;
        while rock_index < rocks_coords.len()
            invariant
                rock_index <= rocks_coords@.len(),
                forall|j: int|
                    0 <= j < rock_index ==> rocks_coords@[j] != player_coords@[p_index as int],
            decreases rocks_coords@.len() - rock_index,
        {
            if rocks_coords[rock_index] == player_coords[p_index] {
                return true;
            }
            rock_index += 1;
        }
        p_index += 1;
    }
    false
}

/// `c` reduced into the board, for `c` in `[0, 2*N_CELLS)`: consecutive
/// placement cells wrap past the last cell index.
pub open spec fn wrap_cell(c: int) -> int
    recommends
        0 <= c < 2 * N_CELLS,
{
    if c >= N_CELLS {
        c - N_CELLS
    } else {
        c
    }
}

/// The three consecutive cells a fresh player occupies, starting at `r`
/// and wrapping past the last cell index.
pub open spec fn consecutive_player(r: i16) -> Seq<i16>
    recommends
        in_board(r),
{
    seq![r, wrap_cell(r as int + 1) as i16, wrap_cell(r as int + 2) as i16]
}

/// A fresh player: three consecutive cells starting at a random board
/// position, wrapping past the last cell index.
pub fn spawn_player() -> (p: Vec<i16>)
    ensures
        p@.len() == 3,
        player_on_board(p@),
        in_board(p@[0]),
        p@ == consecutive_player(p@[0]),
{
    let initial_pos = crate::rng::random_cell();
    let second = if initial_pos + 1 >= N_CELLS {
        initial_pos + 1 - N_CELLS
    } else {
        initial_pos + 1
    };
    let third = if second + 1 >= N_CELLS {
        second + 1 - N_CELLS
    } else {
        second + 1
    };

    let mut p_positions = Vec::<i16>::new();
    p_positions.push(initial_pos);
    p_positions.push(second);
    p_positions.push(third);

    proof {
        assert(p_positions@ =~= consecutive_player(initial_pos));
    }
    p_positions
}

/// The whole mutable state of the game, owned by the tick loop.
pub struct GameState {
    /// The player's cells, tail first, head last.
    pub player: Vec<i16>,
    /// The static obstacle cells; never touched after construction.
    pub rocks: Vec<i16>,
    /// The direction currently held.
    pub cur_play: char,
    /// The direction held before the last accepted command.
    pub last_play: char,
    /// When set, movement is suspended and any key restarts the game.
    pub game_over: bool,
}

impl GameState {
    /// The player is non-empty and entirely on the board.
    pub open spec fn wf(self) -> bool {
        self.player@.len() >= 1 && player_on_board(self.player@)
    }

    /// A new game: a fresh random player, both direction fields right, and
    /// the given obstacles.
    pub fn new(rocks: Vec<i16>) -> (s: GameState)
        ensures
            s.wf(),
            s.player@.len() == 3,
            in_board(s.player@[0]),
            s.player@ == consecutive_player(s.player@[0]),
            s.rocks@ == rocks@,
            s.cur_play == 'd',
            s.last_play == 'd',
            !s.game_over,
    {
        GameState {
            player: spawn_player(),
            rocks,
            cur_play: 'd',
            last_play: 'd',
            game_over: false,
        }
    }
}

/// The pair (current, previous) of direction fields after the input drain:
/// any character received while running becomes the current direction and
/// pushes the old one back, unless it reverses it; a reversal, no input,
/// or a game already over leaves both fields alone.
pub open spec fn directions_after(input: Option<char>, cur: char, last: char, over: bool) -> (
    char,
    char,
) {
    match input {
        Option::Some(c) => if !over && !is_reversal(c, cur) {
            (c, cur)
        } else {
            (cur, last)
        },
        Option::None => (cur, last),
    }
}

/// A reversal command never changes the held direction: processing it
/// leaves the current direction exactly as it was.
pub proof fn lemma_reversal_rejected(input: char, cur: char, last: char)
    requires
        is_reversal(input, cur),
    ensures
        directions_after(Some(input), cur, last, false) == (cur, last),
{
}

/// A non-reversal character received while running becomes the current
/// direction, and the previous direction becomes the old current one.
pub proof fn lemma_command_applied(input: char, cur: char, last: char)
    requires
        !is_reversal(input, cur),
    ensures
        directions_after(Some(input), cur, last, false) == (input, cur),
{
}

/// One tick of the engine: drain at most one queued character, apply it,
/// advance the player, and detect collision. While running, a non-reversal
/// character turns the player and the player takes one wrapping step, after
/// which the game is over exactly when it touches an obstacle. After a game
/// over, any received character restarts from a fresh random three-cell
/// player, which takes its first step at once; silence changes nothing.
pub fn tick(state: &mut GameState, input: Option<char>)
    requires
        old(state).wf(),
    ensures
        final(state).wf(),
        final(state).rocks@ == old(state).rocks@,
        (final(state).cur_play, final(state).last_play) == directions_after(
            input,
            old(state).cur_play,
            old(state).last_play,
            old(state).game_over,
        ),
        !old(state).game_over ==> {
            &&& final(state).player@ == moved(old(state).player@, final(state).cur_play)
            &&& final(state).player@.len() == old(state).player@.len()
            &&& final(state).game_over == collides(final(state).player@, old(state).rocks@)
        },
        old(state).game_over && input is None ==> final(state).player@ == old(state).player@
            && final(state).game_over,
        old(state).game_over && input is Some ==> {
            &&& final(state).player@.len() == 3
            &&& exists|r: i16|
                in_board(r) && final(state).player@ == moved(
                    #[trigger] consecutive_player(r),
                    final(state).cur_play,
                )
            &&& final(state).game_over == collides(final(state).player@, old(state).rocks@)
        },
{
    let ghost mut spawn_start: i16 = 0;
    if let Some(c) = input {
        if is_valid_move(c, state.cur_play) && !state.game_over {
            state.last_play = state.cur_play;
            state.cur_play = c;
        }
        // Reset game
        if state.game_over {
            state.game_over = false;
            state.player = spawn_player();
            proof {
                spawn_start = state.player@[0];
            }
        }
    }
    if !state.game_over {
        snake_move(state.cur_play, &mut state.player);
    }
    if is_game_over(&state.player, &state.rocks) {
        state.game_over = true;
    }
    proof {
        if old(state).game_over && input is Some {
            assert(state.player@ == moved(consecutive_player(spawn_start), state.cur_play));
        }
    }
}

} // verus!
