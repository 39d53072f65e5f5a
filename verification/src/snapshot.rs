use vstd::prelude::*;

use crate::state::{copy_grid, grid_of, grid_wf, ConnectFourState, GameView, PiecePutBy,
    WinningStatus};
use crate::EngineError;

verus! {

/// The outcome field of a snapshot: `LastPlayerWin` names the side that made
/// the most recent move as the winner.
#[derive(Clone, Copy, PartialEq, Eq, Structural, Debug)]
pub enum Status {
    LastPlayerWin,
    Draw,
    Ongoing,
}

/// The boundary-safe plain-data form of a game: dimensions, the full grid,
/// the turn counter and the outcome. This is what crosses the host boundary
/// on every call.
pub struct Data {
    pub h: usize,
    pub w: usize,
    pub board: Vec<Vec<Option<PiecePutBy>>>,
    pub turn: usize,
    pub status: Status,
}

/// The mathematical model of a snapshot.
#[verifier::ext_equal]
pub ghost struct SnapView {
    pub h: int,
    pub w: int,
    pub board: Seq<Seq<Option<PiecePutBy>>>,
    pub turn: int,
    pub status: Status,
}

impl SnapView {
    /// The snapshot's grid is the rectangle its dimension fields claim.
    pub open spec fn wf(self) -> bool {
        &&& 0 <= self.h <= usize::MAX
        &&& 0 <= self.w <= usize::MAX
        &&& 0 <= self.turn <= usize::MAX
        &&& grid_wf(self.board, self.h, self.w)
    }
}

impl View for Data {
    type V = SnapView;

    open spec fn view(&self) -> SnapView {
        SnapView {
            h: self.h as int,
            w: self.w as int,
            board: grid_of(self.board),
            turn: self.turn as int,
            status: self.status,
        }
    }
}

/// The status a cached verdict encodes to.
pub open spec fn status_of(outcome: Option<WinningStatus>) -> Status {
    match outcome {
        None => Status::Ongoing,
        Some(WinningStatus::Lose) => Status::LastPlayerWin,
        Some(WinningStatus::Draw) => Status::Draw,
    }
}

/// The cached verdict a status decodes to.
pub open spec fn outcome_of(status: Status) -> Option<WinningStatus> {
    match status {
        Status::Ongoing => None,
        Status::LastPlayerWin => Some(WinningStatus::Lose),
        Status::Draw => Some(WinningStatus::Draw),
    }
}

/// What encoding a state yields: every field carried over, the verdict
/// rendered as a status.
pub open spec fn encode_view(g: GameView) -> SnapView {
    SnapView { h: g.h, w: g.w, board: g.board, turn: g.turn, status: status_of(g.outcome) }
}

/// What decoding a snapshot yields: every field carried over, the status
/// taken verbatim as the verdict — never recomputed from the board.
pub open spec fn decode_view(s: SnapView) -> GameView {
    GameView { h: s.h, w: s.w, board: s.board, turn: s.turn, outcome: outcome_of(s.status) }
}

/// Round trip: decoding an encoded state reproduces it exactly — dimensions,
/// board and turn counter are identical, and the outcome comes back
/// verbatim.
pub proof fn lemma_round_trip(g: GameView)
    ensures
        decode_view(encode_view(g)) == g,
{
}

/// The round trip the other way: a snapshot survives decoding and encoding
/// unchanged.
pub proof fn lemma_snapshot_round_trip(s: SnapView)
    ensures
        encode_view(decode_view(s)) == s,
{
}

/// Encode a state as a snapshot.
pub fn encode(state: &ConnectFourState) -> (r: Data)
    ensures
        r@ == encode_view(state@),
{
    let status = match state.winning_status() {
        None => Status::Ongoing,
        Some(WinningStatus::Lose) => Status::LastPlayerWin,
        Some(WinningStatus::Draw) => Status::Draw,
    };
    Data { h: state.h(), w: state.w(), board: state.get_board(), turn: state.turn(), status }
}

/// Decode a snapshot into a state. A snapshot whose grid is not the
/// rectangle its dimension fields claim breaks the schema and is rejected;
/// the outcome field is trusted verbatim, not recomputed from the board.
pub fn decode(data: &Data) -> (r: Result<ConnectFourState, EngineError>)
    ensures
        match r {
            Ok(state) => data@.wf() && state@ == decode_view(data@),
            Err(e) => e == EngineError::SchemaError && !data@.wf(),
        },
{
    if data.board.len() != data.h {
        return Err(EngineError::SchemaError);
    }
    let mut y: usize = 0;
    while y < data.h
        invariant
            data@.board.len() == data@.h,
            y <= data@.h,
            forall|i: int| 0 <= i < y ==> (#[trigger] data@.board[i]).len() == data@.w,
        decreases data@.h - y,
    {
        if data.board[y].len() != data.w {
            proof {
                assert(data@.board[y as int] == data.board@[y as int]@);
                assert(!grid_wf(data@.board, data@.h, data@.w));
            }
            return Err(EngineError::SchemaError);
        }
        assert(data@.board[y as int] == data.board@[y as int]@);
        y = y + 1;
    }
    let outcome = match data.status {
        Status::Ongoing => None,
        Status::LastPlayerWin => Some(WinningStatus::Lose),
        Status::Draw => Some(WinningStatus::Draw),
    };
    let board = copy_grid(&data.board);
    proof {
        assert forall|i: int| 0 <= i < data@.h implies (#[trigger] board@[i])@.len()
            == data@.w by {
            assert(grid_of(board)[i] == board@[i]@);
            assert(grid_of(board)[i] == data@.board[i]);
        }
    }
    Ok(ConnectFourState::from_parts(data.h, data.w, board, data.turn, outcome))
}

} // verus!
