use game_relay::board::Board;
use game_relay::mark::Mark;
use game_relay::session::SessionState;

fn fresh_first() -> SessionState {
    SessionState::new(Mark::First)
}

#[test]
fn opposite_swaps_the_two_marks() {
    assert_eq!(Mark::First.opposite(), Mark::Second);
    assert_eq!(Mark::Second.opposite(), Mark::First);
}

#[test]
fn new_board_is_empty() {
    let b = Board::new();
    for i in 0..9 {
        assert_eq!(b.get(i), None);
    }
}

#[test]
fn fresh_session_first_to_move() {
    let s = fresh_first();
    assert_eq!(s.turn, Mark::First);
    assert_eq!(s.you, Mark::First);
    assert!(s.validate(0, Mark::First));
    assert!(!s.validate(0, Mark::Second));
}

#[test]
fn validate_rejects_occupied_cell_regardless_of_mark_or_turn() {
    let mut s = fresh_first();
    s.apply(4, Mark::First);
    // cell 4 is occupied: false for both marks, whoever's turn it is
    assert!(!s.validate(4, Mark::First));
    assert!(!s.validate(4, Mark::Second));
    s.apply(0, Mark::Second);
    assert!(!s.validate(4, Mark::First));
    assert!(!s.validate(4, Mark::Second));
    assert!(!s.validate(0, Mark::First));
    assert!(!s.validate(0, Mark::Second));
}

#[test]
fn validate_rejects_mark_out_of_turn() {
    let mut s = fresh_first();
    assert!(!s.validate(3, Mark::Second));
    s.apply(3, Mark::First);
    assert!(!s.validate(5, Mark::First));
    assert!(s.validate(5, Mark::Second));
}

#[test]
fn apply_writes_mark_and_alternates_turn() {
    let mut s = fresh_first();
    s.apply(4, Mark::First);
    assert_eq!(s.board.get(4), Some(Mark::First));
    assert_eq!(s.turn, Mark::Second);
    s.apply(0, Mark::Second);
    assert_eq!(s.board.get(0), Some(Mark::Second));
    assert_eq!(s.turn, Mark::First);
}

#[test]
fn duplicate_move_is_rejected_after_apply() {
    let mut s = fresh_first();
    assert!(s.validate(4, Mark::First));
    s.apply(4, Mark::First);
    // the same move redelivered: the occupied cell rejects it
    assert!(!s.validate(4, Mark::First));
    assert!(!s.validate(4, Mark::Second));
}

#[test]
fn no_outcome_on_empty_or_unfinished_board() {
    let s = fresh_first();
    assert_eq!(s.check_outcome(), None);
    let mut s = fresh_first();
    s.apply(0, Mark::First);
    s.apply(3, Mark::Second);
    s.apply(1, Mark::First);
    assert_eq!(s.check_outcome(), None);
}

fn play(moves: &[(usize, Mark)]) -> SessionState {
    let mut s = SessionState::new(Mark::First);
    for &(cell, m) in moves {
        assert!(s.validate(cell, m), "move {cell} by {m:?} should be legal");
        s.apply(cell, m);
    }
    s
}

#[test]
fn each_of_the_eight_lines_wins() {
    let lines: [[usize; 3]; 8] = [
        [0, 1, 2],
        [3, 4, 5],
        [6, 7, 8],
        [0, 3, 6],
        [1, 4, 7],
        [2, 5, 8],
        [0, 4, 8],
        [2, 4, 6],
    ];
    for line in lines {
        // First fills the line while Second plays three cells off it
        let off: Vec<usize> = (0..9).filter(|c| !line.contains(c)).collect();
        let s = play(&[
            (line[0], Mark::First),
            (off[0], Mark::Second),
            (line[1], Mark::First),
            (off[1], Mark::Second),
            (line[2], Mark::First),
        ]);
        assert_eq!(s.check_outcome(), Some(Mark::First), "line {line:?}");
    }
}

#[test]
fn second_can_win_a_column() {
    // First 0, Second 2, First 4, Second 5, First 6, Second 8: right column
    let s = play(&[
        (0, Mark::First),
        (2, Mark::Second),
        (4, Mark::First),
        (5, Mark::Second),
        (6, Mark::First),
        (8, Mark::Second),
    ]);
    assert_eq!(s.check_outcome(), Some(Mark::Second));
}

#[test]
fn full_board_without_line_has_no_outcome() {
    // F S F / F S S / S F F: no three-in-a-line for either mark
    let s = play(&[
        (0, Mark::First),
        (1, Mark::Second),
        (2, Mark::First),
        (4, Mark::Second),
        (3, Mark::First),
        (5, Mark::Second),
        (7, Mark::First),
        (6, Mark::Second),
        (8, Mark::First),
    ]);
    assert_eq!(s.check_outcome(), None);
    // the board is full: no move validates any more
    for cell in 0..9 {
        assert!(!s.validate(cell, Mark::First));
        assert!(!s.validate(cell, Mark::Second));
    }
}
