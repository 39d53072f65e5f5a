use connect_four::{
    advance, debug, decode, encode, legal_actions, start, ConnectFourState, Data, DropPiece,
    EngineError, PiecePutBy, Status, WinningStatus,
};

#[test]
fn round_trip_reproduces_every_field() {
    let mut d = start(6, 7);
    d = advance(&d, DropPiece::new(5, 3)).unwrap();
    d = advance(&d, DropPiece::new(5, 4)).unwrap();
    let state = decode(&d).unwrap();
    let d2 = encode(&state);
    assert_eq!(d2.h, d.h);
    assert_eq!(d2.w, d.w);
    assert_eq!(d2.board, d.board);
    assert_eq!(d2.turn, d.turn);
    assert_eq!(d2.status, d.status);
}

#[test]
fn decode_trusts_the_outcome_verbatim() {
    // The board shows no finished game, yet the snapshot says the last
    // player won: decode must carry that verdict over, not recompute it.
    let d = Data {
        h: 2,
        w: 2,
        board: vec![vec![None, None], vec![None, None]],
        turn: 0,
        status: Status::LastPlayerWin,
    };
    let state = decode(&d).unwrap();
    assert!(state.done());
    assert_eq!(state.winning_status(), Some(WinningStatus::Lose));
    assert_eq!(encode(&state).status, Status::LastPlayerWin);

    let d = Data { status: Status::Draw, ..d };
    let state = decode(&d).unwrap();
    assert_eq!(state.winning_status(), Some(WinningStatus::Draw));
    assert_eq!(encode(&state).status, Status::Draw);
}

#[test]
fn decode_of_an_ongoing_snapshot_has_no_verdict() {
    let d = start(3, 3);
    let state = decode(&d).unwrap();
    assert!(!state.done());
    assert_eq!(state.winning_status(), None);
}

#[test]
fn misshapen_snapshots_break_the_schema() {
    // One row missing.
    let d = Data { h: 2, w: 2, board: vec![vec![None, None]], turn: 0, status: Status::Ongoing };
    assert!(matches!(decode(&d), Err(EngineError::SchemaError)));
    assert!(matches!(advance(&d, DropPiece::new(1, 0)), Err(EngineError::SchemaError)));
    assert_eq!(legal_actions(&d), Err(EngineError::SchemaError));
    // One row too narrow.
    let d = Data {
        h: 2,
        w: 2,
        board: vec![vec![None, None], vec![None]],
        turn: 0,
        status: Status::Ongoing,
    };
    assert!(matches!(decode(&d), Err(EngineError::SchemaError)));
    assert!(matches!(debug(&d), Err(EngineError::SchemaError)));
}

#[test]
fn render_draws_cells_and_breaks_lines() {
    let mut d = start(2, 3);
    d = advance(&d, DropPiece::new(1, 1)).unwrap(); // x
    d = advance(&d, DropPiece::new(1, 0)).unwrap(); // o
    assert_eq!(debug(&d).unwrap(), "...\nox.");
    d = advance(&d, DropPiece::new(0, 1)).unwrap(); // x
    assert_eq!(debug(&d).unwrap(), ".x.\nox.");
}

#[test]
fn render_of_one_row_has_no_line_break() {
    let d = start(1, 4);
    assert_eq!(debug(&d).unwrap(), "....");
}

#[test]
fn encode_after_advance_matches_snapshot_route() {
    // Driving the state directly and driving snapshots through `advance`
    // land on the same snapshot.
    let mut state = ConnectFourState::new(2, 2);
    state.advance(DropPiece::new(1, 0));
    let by_state = encode(&state);

    let d = start(2, 2);
    let by_snapshot = advance(&d, DropPiece::new(1, 0)).unwrap();
    assert_eq!(by_state.h, by_snapshot.h);
    assert_eq!(by_state.w, by_snapshot.w);
    assert_eq!(by_state.board, by_snapshot.board);
    assert_eq!(by_state.turn, by_snapshot.turn);
    assert_eq!(by_state.status, by_snapshot.status);
    assert_eq!(by_state.board[1][0], Some(PiecePutBy::First));
}

#[test]
fn legal_actions_method_matches_free_function() {
    let mut state = ConnectFourState::new(2, 2);
    state.advance(DropPiece::new(1, 1));
    let moves = state.legal_actions();
    assert_eq!(moves, vec![DropPiece::new(1, 0), DropPiece::new(0, 1)]);

    let free = legal_actions(&encode(&state)).unwrap();
    assert_eq!(moves, free);
}
