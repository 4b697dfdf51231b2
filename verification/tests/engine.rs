use snake::board::{HEIGHT, N_CELLS, WIDTH};
use snake::engine::{is_game_over, is_valid_move, snake_move, spawn_player, tick, GameState};

fn running_state(player: Vec<i16>, rocks: Vec<i16>, dir: char) -> GameState {
    GameState { player, rocks, cur_play: dir, last_play: dir, game_over: false }
}

#[test]
fn reversal_inputs_are_rejected() {
    assert!(!is_valid_move('a', 'd'));
    assert!(!is_valid_move('d', 'a'));
    assert!(!is_valid_move('s', 'w'));
    assert!(!is_valid_move('w', 's'));
}

#[test]
fn non_reversal_inputs_are_accepted() {
    assert!(is_valid_move('w', 'd'));
    assert!(is_valid_move('s', 'd'));
    assert!(is_valid_move('d', 'd'));
    assert!(is_valid_move('x', 'd'));
}

#[test]
fn reversal_leaves_direction_unchanged() {
    let mut s = running_state(vec![204, 205, 206], vec![], 'd');
    tick(&mut s, Some('a'));
    assert_eq!(s.cur_play, 'd');
    assert_eq!(s.last_play, 'd');
}

#[test]
fn command_becomes_current_direction() {
    let mut s = running_state(vec![204, 205, 206], vec![], 'd');
    tick(&mut s, Some('w'));
    assert_eq!(s.cur_play, 'w');
    assert_eq!(s.last_play, 'd');
}

#[test]
fn nul_becomes_current_direction_while_running() {
    // NUL reverses nothing, so like any other character it is accepted;
    // it is no direction, so the player then stands still
    let mut s = running_state(vec![204, 205, 206], vec![], 'd');
    tick(&mut s, Some('\0'));
    assert_eq!(s.cur_play, '\0');
    assert_eq!(s.last_play, 'd');
    assert_eq!(s.player, vec![204, 205, 206]);
}

#[test]
fn nul_restarts_after_game_over() {
    let mut s = GameState {
        player: vec![204, 205, 206],
        rocks: vec![78, 80, 204],
        cur_play: 'd',
        last_play: 'd',
        game_over: true,
    };
    tick(&mut s, Some('\0'));
    assert_eq!(s.player.len(), 3);
    assert_eq!(s.game_over, is_game_over(&s.player, &s.rocks));
}

#[test]
fn movement_preserves_length() {
    let mut p: Vec<i16> = vec![204, 205, 206];
    snake_move('d', &mut p);
    assert_eq!(p.len(), 3);
    snake_move('w', &mut p);
    assert_eq!(p.len(), 3);
    snake_move('a', &mut p);
    assert_eq!(p.len(), 3);
    snake_move('s', &mut p);
    assert_eq!(p.len(), 3);
}

#[test]
fn move_right_advances_head() {
    let mut p: Vec<i16> = vec![204, 205, 206];
    snake_move('d', &mut p);
    assert_eq!(p, vec![205, 206, 207]);
}

#[test]
fn wraparound_right_edge() {
    // head in the last column of row 0 reenters at column 0 of row 0
    let mut p: Vec<i16> = vec![WIDTH - 2, WIDTH - 1];
    snake_move('d', &mut p);
    assert_eq!(p, vec![WIDTH - 1, 0]);
}

#[test]
fn wraparound_left_edge() {
    // head in column 0 of row 1 reenters at the last column of row 1
    let mut p: Vec<i16> = vec![WIDTH + 1, WIDTH];
    snake_move('a', &mut p);
    assert_eq!(p, vec![WIDTH, 2 * WIDTH - 1]);
}

#[test]
fn wraparound_top_edge() {
    // head in row 0 reenters at the bottom row, same column
    let mut p: Vec<i16> = vec![WIDTH + 5, 5];
    snake_move('w', &mut p);
    assert_eq!(p, vec![5, 5 + WIDTH * (HEIGHT - 1)]);
}

#[test]
fn wraparound_bottom_edge() {
    // head in the last row reenters at row 0, same column
    let bottom = 5 + WIDTH * (HEIGHT - 1);
    let mut p: Vec<i16> = vec![bottom - WIDTH, bottom];
    snake_move('s', &mut p);
    assert_eq!(p, vec![bottom, 5]);
}

#[test]
fn non_direction_character_moves_nothing() {
    let mut p: Vec<i16> = vec![204, 205, 206];
    snake_move('x', &mut p);
    assert_eq!(p, vec![204, 205, 206]);
}

#[test]
fn collision_is_detected() {
    assert!(is_game_over(&vec![204, 205], &vec![78, 80, 204]));
    assert!(!is_game_over(&vec![205, 206], &vec![78, 80, 204]));
    assert!(!is_game_over(&vec![205, 206], &vec![]));
}

#[test]
fn collision_triggers_game_over_for_any_direction() {
    for dir in ['d', 'a', 'w', 's'] {
        // a rock on every cell around the head: the step lands on one
        let head: i16 = 204;
        let rocks: Vec<i16> = vec![203, 205, 204 - WIDTH, 204 + WIDTH];
        let mut s = running_state(vec![head], rocks, dir);
        tick(&mut s, None);
        assert!(s.game_over, "direction {dir} missed the rock");
    }
}

#[test]
fn game_over_without_input_changes_nothing() {
    let mut s = GameState {
        player: vec![204, 205, 206],
        rocks: vec![78, 80, 204],
        cur_play: 'd',
        last_play: 'w',
        game_over: true,
    };
    tick(&mut s, None);
    assert!(s.game_over);
    assert_eq!(s.player, vec![204, 205, 206]);
    assert_eq!(s.cur_play, 'd');
    assert_eq!(s.last_play, 'w');
}

#[test]
fn any_key_restarts_after_game_over() {
    let mut s = GameState {
        player: vec![204, 205, 206],
        rocks: vec![78, 80, 204],
        cur_play: 'd',
        last_play: 'd',
        game_over: true,
    };
    tick(&mut s, Some('x'));
    assert_eq!(s.player.len(), 3);
    assert!(s.player.iter().all(|&c| (0..N_CELLS).contains(&c)));
    // the restarted game is over only if the fresh placement already
    // touches a rock
    assert_eq!(s.game_over, is_game_over(&s.player, &s.rocks));
    assert_eq!(s.cur_play, 'd');
}

#[test]
fn spawn_player_is_three_consecutive_cells() {
    for _ in 0..50 {
        let p = spawn_player();
        assert_eq!(p.len(), 3);
        for &c in &p {
            assert!((0..N_CELLS).contains(&c));
        }
        assert_eq!(p[1] as i32, (p[0] as i32 + 1) % N_CELLS as i32);
        assert_eq!(p[2] as i32, (p[0] as i32 + 2) % N_CELLS as i32);
    }
}

#[test]
fn new_game_starts_running_and_moving_right() {
    let s = GameState::new(vec![78, 80, 204]);
    assert_eq!(s.player.len(), 3);
    assert_eq!(s.rocks, vec![78, 80, 204]);
    assert_eq!(s.cur_play, 'd');
    assert_eq!(s.last_play, 'd');
    assert!(!s.game_over);
}

#[test]
fn end_to_end_scenario() {
    // board 50x20, rocks {78, 80, 204}, player {204, 205, 206} moving right
    let mut s = running_state(vec![204, 205, 206], vec![78, 80, 204], 'd');

    // after one tick the player has moved off the rock at 204
    tick(&mut s, None);
    assert_eq!(s.player, vec![205, 206, 207]);
    assert!(!s.game_over);

    // a reversal is ignored
    tick(&mut s, Some('a'));
    assert_eq!(s.cur_play, 'd');

    // moving right along row 4 wraps around and eventually hits the rock
    // at 204 again
    let mut ticks: usize = 0;
    while !s.game_over && ticks < 2 * WIDTH as usize {
        tick(&mut s, None);
        ticks += 1;
    }
    assert!(s.game_over);
    assert!(s.player.contains(&204));
}
