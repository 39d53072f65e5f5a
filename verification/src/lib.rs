//! A verified engine for a gravity-constrained four-in-a-row connector game.
//!
//! The engine keeps the whole game in a plain-data snapshot: the host hands a
//! snapshot in, the engine computes, and a fresh snapshot comes back out.

use vstd::prelude::*;

mod render;
mod runs;
mod snapshot;
mod state;

pub use render::{char_of, debug, rendered, rendered_row, rendered_rows};
pub use runs::{axis_run, run_len, run_measure, wins_at};
pub use snapshot::{decode, decode_view, encode, encode_view, lemma_round_trip,
    lemma_snapshot_round_trip, outcome_of, status_of, Data, SnapView, Status};
pub use state::{advance_view, grid_of, grid_wf, legal_moves, legal_moves_up_to,
    lemma_at_most_one_transition, lemma_gravity, lemma_legal_move_iff,
    lemma_lowest_empty_from_props, lemma_no_move_means_full, lowest_empty, lowest_empty_from,
    player_of, ConnectFourState, DropPiece, GameView, PiecePutBy, WinningStatus};

verus! {

/// Why a boundary call was refused: an operation that needs an ongoing game
/// was invoked on a finished one, a move named a cell it cannot occupy, or a
/// snapshot was not the shape it claimed.
#[derive(Clone, Copy, PartialEq, Eq, Structural, Debug)]
pub enum EngineError {
    InvalidState,
    IllegalMove,
    SchemaError,
}

/// A fresh game of the given dimensions, as a snapshot: an all-empty board,
/// turn counter 0, outcome ongoing.
pub fn start(h: usize, w: usize) -> (r: Data)
    requires
        1 <= h,
        1 <= w,
    ensures
        r@.wf(),
        r@.h == h,
        r@.w == w,
        r@.turn == 0,
        r@.status == Status::Ongoing,
        forall|y: int, x: int| 0 <= y < h && 0 <= x < w ==> r@.board[y][x] is None,
{
    encode(&ConnectFourState::new(h, w))
}

/// The legal moves of a snapshot's position, ordered by ascending column.
/// Asking a finished game is refused as an invalid state; a snapshot whose
/// grid is not the rectangle it claims is refused as a schema breach.
pub fn legal_actions(data: &Data) -> (r: Result<Vec<DropPiece>, EngineError>)
    ensures
        match r {
            Ok(moves) => {
                &&& data@.wf()
                &&& data@.status == Status::Ongoing
                &&& moves@ == legal_moves(decode_view(data@))
            },
            Err(e) => {
                ||| (e == EngineError::SchemaError && !data@.wf())
                ||| (e == EngineError::InvalidState && data@.wf() && data@.status
                    != Status::Ongoing)
            },
        },
{
    let state = match decode(data) {
        Ok(s) => s,
        Err(e) => {
            return Err(e);
        },
    };
    if state.done() {
        return Err(EngineError::InvalidState);
    }
    Ok(state.legal_actions())
}

/// Advance a snapshot by one resolved move and return the snapshot of the
/// new state. A finished game is refused as an invalid state; a move that is
/// not among the position's legal moves — an occupied cell, a cell off the
/// board, or a cell hanging above an empty one — is refused as an illegal
/// move, and the given snapshot is left untouched.
pub fn advance(data: &Data, action: DropPiece) -> (r: Result<Data, EngineError>)
    requires
        data@.turn < usize::MAX,
    ensures
        match r {
            Ok(d2) => {
                &&& data@.wf()
                &&& data@.status == Status::Ongoing
                &&& legal_moves(decode_view(data@)).contains(action)
                &&& d2@ == encode_view(
                    advance_view(decode_view(data@), action.y as int, action.x as int),
                )
                &&& d2@.wf()
                &&& d2@.turn == data@.turn + 1
            },
            Err(e) => {
                ||| (e == EngineError::SchemaError && !data@.wf())
                ||| (e == EngineError::InvalidState && data@.wf() && data@.status
                    != Status::Ongoing)
                ||| (e == EngineError::IllegalMove && data@.wf() && data@.status == Status::Ongoing
                    && !legal_moves(decode_view(data@)).contains(action))
            },
        },
{
    let mut state = match decode(data) {
        Ok(s) => s,
        Err(e) => {
            return Err(e);
        },
    };
    if state.done() {
        return Err(EngineError::InvalidState);
    }
    proof {
        lemma_legal_move_iff(state@, action);
    }
    if action.x >= state.w() {
        return Err(EngineError::IllegalMove);
    }
    let legal = match state.lowest_empty_row(action.x) {
        Some(y) => y == action.y,
        None => false,
    };
    if !legal {
        return Err(EngineError::IllegalMove);
    }
    proof {
        lemma_lowest_empty_from_props(state@.board, action.x as int, state@.h - 1);
    }
    state.advance(action);
    Ok(encode(&state))
}

} // verus!
