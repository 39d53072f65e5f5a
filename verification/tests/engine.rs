use connect_four::{
    advance, legal_actions, start, ConnectFourState, Data, DropPiece, EngineError, PiecePutBy,
    Status,
};

fn must(d: &Data, y: usize, x: usize) -> Data {
    advance(d, DropPiece::new(y, x)).unwrap()
}

#[test]
fn start_snapshot_is_fresh() {
    let d = start(6, 7);
    assert_eq!(d.h, 6);
    assert_eq!(d.w, 7);
    assert_eq!(d.turn, 0);
    assert!(matches!(d.status, Status::Ongoing));
    assert_eq!(d.board.len(), 6);
    for row in &d.board {
        assert_eq!(row.len(), 7);
        assert!(row.iter().all(|c| c.is_none()));
    }
}

#[test]
fn legal_moves_obey_gravity() {
    let d = start(2, 3);
    let moves = legal_actions(&d).unwrap();
    assert_eq!(moves, vec![DropPiece::new(1, 0), DropPiece::new(1, 1), DropPiece::new(1, 2)]);

    let d = must(&d, 1, 1);
    let moves = legal_actions(&d).unwrap();
    assert_eq!(moves, vec![DropPiece::new(1, 0), DropPiece::new(0, 1), DropPiece::new(1, 2)]);

    let d = must(&d, 0, 1);
    let moves = legal_actions(&d).unwrap();
    assert_eq!(moves, vec![DropPiece::new(1, 0), DropPiece::new(1, 2)]);
}

#[test]
fn turn_counts_up_by_one_per_move() {
    let mut d = start(6, 7);
    assert_eq!(d.turn, 0);
    d = must(&d, 5, 0);
    assert_eq!(d.turn, 1);
    d = must(&d, 5, 1);
    assert_eq!(d.turn, 2);
    d = must(&d, 4, 0);
    assert_eq!(d.turn, 3);
}

#[test]
fn players_alternate_first_then_second() {
    let mut d = start(2, 2);
    d = must(&d, 1, 0);
    assert_eq!(d.board[1][0], Some(PiecePutBy::First));
    d = must(&d, 1, 1);
    assert_eq!(d.board[1][1], Some(PiecePutBy::Second));
    d = must(&d, 0, 0);
    assert_eq!(d.board[0][0], Some(PiecePutBy::First));
}

#[test]
fn horizontal_win_on_standard_board() {
    let mut d = start(6, 7);
    d = must(&d, 5, 0); // First
    d = must(&d, 5, 6); // Second
    d = must(&d, 5, 1); // First
    d = must(&d, 4, 6); // Second
    d = must(&d, 5, 2); // First
    d = must(&d, 3, 6); // Second
    assert!(matches!(d.status, Status::Ongoing));
    d = must(&d, 5, 3); // First completes four in a row
    assert!(matches!(d.status, Status::LastPlayerWin));
    assert_eq!(legal_actions(&d), Err(EngineError::InvalidState));
    assert!(matches!(advance(&d, DropPiece::new(2, 6)), Err(EngineError::InvalidState)));
}

#[test]
fn vertical_win_counts_downward() {
    let mut d = start(4, 2);
    d = must(&d, 3, 0); // First
    d = must(&d, 3, 1); // Second
    d = must(&d, 2, 0); // First
    d = must(&d, 2, 1); // Second
    d = must(&d, 1, 0); // First
    d = must(&d, 1, 1); // Second
    assert!(matches!(d.status, Status::Ongoing));
    d = must(&d, 0, 0); // First stacks the fourth piece
    assert!(matches!(d.status, Status::LastPlayerWin));
}

#[test]
fn horizontal_win_joins_both_sides() {
    // Pieces on both sides of the placed cell count towards one run.
    let board = vec![
        vec![None, None, None, None, None],
        vec![
            Some(PiecePutBy::First),
            Some(PiecePutBy::First),
            None,
            Some(PiecePutBy::First),
            Some(PiecePutBy::Second),
        ],
    ];
    let d = Data { h: 2, w: 5, board, turn: 4, status: Status::Ongoing };
    let d = must(&d, 1, 2);
    assert!(matches!(d.status, Status::LastPlayerWin));
}

#[test]
fn lower_left_to_upper_right_diagonal_win() {
    let n = || None::<PiecePutBy>;
    let f = || Some(PiecePutBy::First);
    let s = || Some(PiecePutBy::Second);
    let board = vec![
        vec![n(), n(), n(), n()],
        vec![n(), n(), f(), s()],
        vec![n(), f(), s(), s()],
        vec![f(), s(), s(), s()],
    ];
    let d = Data { h: 4, w: 4, board, turn: 10, status: Status::Ongoing };
    let d = must(&d, 0, 3); // First completes the rising diagonal
    assert!(matches!(d.status, Status::LastPlayerWin));
}

#[test]
fn upper_left_to_lower_right_diagonal_win() {
    let n = || None::<PiecePutBy>;
    let f = || Some(PiecePutBy::First);
    let s = || Some(PiecePutBy::Second);
    let board = vec![
        vec![n(), n(), n(), n()],
        vec![s(), f(), n(), n()],
        vec![s(), s(), f(), n()],
        vec![s(), s(), s(), f()],
    ];
    let d = Data { h: 4, w: 4, board, turn: 10, status: Status::Ongoing };
    let d = must(&d, 0, 0); // First completes the falling diagonal
    assert!(matches!(d.status, Status::LastPlayerWin));
}

#[test]
fn three_in_a_row_is_no_win() {
    let mut d = start(6, 7);
    d = must(&d, 5, 0);
    d = must(&d, 5, 6);
    d = must(&d, 5, 1);
    d = must(&d, 4, 6);
    d = must(&d, 5, 2);
    assert!(matches!(d.status, Status::Ongoing));
}

#[test]
fn draw_when_board_fills_without_a_run() {
    let mut d = start(1, 4);
    d = must(&d, 0, 0); // x
    d = must(&d, 0, 1); // o
    d = must(&d, 0, 2); // x
    assert!(matches!(d.status, Status::Ongoing));
    d = must(&d, 0, 3); // o fills the board
    assert!(matches!(d.status, Status::Draw));
    assert_eq!(legal_actions(&d), Err(EngineError::InvalidState));
}

#[test]
fn winning_final_cell_beats_draw() {
    let f = || Some(PiecePutBy::First);
    let board = vec![vec![f(), f(), f(), None]];
    let d = Data { h: 1, w: 4, board, turn: 6, status: Status::Ongoing };
    let d = must(&d, 0, 3); // fills the board and completes a run
    assert!(matches!(d.status, Status::LastPlayerWin));
}

#[test]
fn occupied_cell_is_an_illegal_move() {
    let d = start(2, 2);
    let d = must(&d, 1, 0);
    assert!(matches!(advance(&d, DropPiece::new(1, 0)), Err(EngineError::IllegalMove)));
    // The refused call left the snapshot usable: the same legal move still works.
    let d2 = must(&d, 1, 1);
    assert_eq!(d2.turn, 2);
}

#[test]
fn floating_cell_is_an_illegal_move() {
    let d = start(2, 2);
    assert!(matches!(advance(&d, DropPiece::new(0, 0)), Err(EngineError::IllegalMove)));
}

#[test]
fn move_off_the_board_is_illegal() {
    let d = start(2, 2);
    assert!(matches!(advance(&d, DropPiece::new(1, 5)), Err(EngineError::IllegalMove)));
    assert!(matches!(advance(&d, DropPiece::new(7, 0)), Err(EngineError::IllegalMove)));
}

#[test]
fn state_getters_report_construction() {
    let s = ConnectFourState::new(5, 4);
    assert_eq!(s.h(), 5);
    assert_eq!(s.w(), 4);
    assert_eq!(s.turn(), 0);
    assert!(!s.done());
    assert_eq!(s.winning_status(), None);
    let board = s.get_board();
    assert_eq!(board.len(), 5);
    assert!(board.iter().all(|row| row.len() == 4 && row.iter().all(|c| c.is_none())));
}

#[test]
fn from_state_starts_with_no_verdict() {
    let board = vec![vec![Some(PiecePutBy::First), None], vec![
        Some(PiecePutBy::Second),
        Some(PiecePutBy::First),
    ]];
    let s = ConnectFourState::from_state(2, 2, board.clone(), 3);
    assert_eq!(s.h(), 2);
    assert_eq!(s.w(), 2);
    assert_eq!(s.turn(), 3);
    assert!(!s.done());
    assert_eq!(s.winning_status(), None);
    assert_eq!(s.get_board(), board);
}

#[test]
fn drop_piece_carries_its_cell() {
    let m = DropPiece::new(2, 5);
    assert_eq!(m.y, 2);
    assert_eq!(m.x, 5);
}
