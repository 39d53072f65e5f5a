use vstd::prelude::*;

use crate::runs::{scan, wins_at};

verus! {

/// The two sides of the game; a cell, once occupied, names the side that
/// dropped the piece into it.
#[derive(Clone, Copy, PartialEq, Eq, Structural, Debug)]
pub enum PiecePutBy {
    First,
    Second,
}

/// A resolved move: the cell (row `y`, column `x`) the dropped piece will
/// occupy, already resolved against gravity.
#[derive(Clone, Copy, PartialEq, Eq, Structural, Debug)]
pub struct DropPiece {
    pub y: usize,
    pub x: usize,
}

impl DropPiece {
    pub fn new(y: usize, x: usize) -> (r: Self)
        ensures
            r == (DropPiece { y, x }),
    {
        Self { y, x }
    }
}

/// A decided game, recorded from the point of view of the side about to
/// move: `Lose` means the side that just placed completed a run of four,
/// `Draw` means the board filled up with no such run.
#[derive(Clone, Copy, PartialEq, Eq, Structural, Debug)]
pub enum WinningStatus {
    Lose,
    Draw,
}

/// The mathematical model of a game state: dimensions, the grid (row 0 at
/// the top, row `h - 1` at the bottom), the turn counter, and the cached
/// verdict (`None` while the game is ongoing).
#[verifier::ext_equal]
pub ghost struct GameView {
    pub h: int,
    pub w: int,
    pub board: Seq<Seq<Option<PiecePutBy>>>,
    pub turn: int,
    pub outcome: Option<WinningStatus>,
}

impl GameView {
    /// The grid really is an `h` by `w` rectangle, and the dimensions and the
    /// turn counter fit the machine word they are stored in.
    pub open spec fn wf(self) -> bool {
        &&& 0 <= self.h <= usize::MAX
        &&& 0 <= self.w <= usize::MAX
        &&& 0 <= self.turn <= usize::MAX
        &&& grid_wf(self.board, self.h, self.w)
    }
}

/// A cell-for-cell copy of a grid of rows.
pub(crate) fn copy_grid(board: &Vec<Vec<Option<PiecePutBy>>>) -> (r: Vec<
    Vec<Option<PiecePutBy>>,
>)
    ensures
        grid_of(r) == grid_of(*board),
        r@.len() == board@.len(),
{
    let mut out: Vec<Vec<Option<PiecePutBy>>> = Vec::new();
    let mut y: usize = 0;
    while y < board.len()
        invariant
            y <= board.len(),
            out@.len() == y,
            forall|i: int| 0 <= i < y ==> (#[trigger] out@[i])@ == board@[i]@,
        decreases board.len() - y,
    {
        let mut row: Vec<Option<PiecePutBy>> = Vec::new();
        let mut x: usize = 0;
        while x < board[y].len()
            invariant
                y < board@.len(),
                x <= board@[y as int]@.len(),
                row@ == board@[y as int]@.subrange(0, x as int),
            decreases board[y as int].len() - x,
        {
            row.push(board[y][x]);
            assert(row@ =~= board@[y as int]@.subrange(0, x + 1));
            x = x + 1;
        }
        assert(row@ =~= board@[y as int]@);
        out.push(row);
        y = y + 1;
    }
    assert(grid_of(out) =~~= grid_of(*board));
    out
}

/// The grid is an `h` by `w` rectangle of cells.
pub open spec fn grid_wf(g: Seq<Seq<Option<PiecePutBy>>>, h: int, w: int) -> bool {
    &&& g.len() == h
    &&& forall|y: int| 0 <= y < h ==> (#[trigger] g[y]).len() == w
}

/// The grid a vector of rows holds, as a sequence of sequences.
pub open spec fn grid_of(b: Vec<Vec<Option<PiecePutBy>>>) -> Seq<Seq<Option<PiecePutBy>>> {
    b@.map_values(|row: Vec<Option<PiecePutBy>>| row@)
}

/// Whose move it is: the first player on even turn counters, the second on
/// odd ones. Derived, never stored.
pub open spec fn player_of(turn: int) -> PiecePutBy {
    if turn % 2 == 0 {
        PiecePutBy::First
    } else {
        PiecePutBy::Second
    }
}

/// The lowest empty row of column `x`, scanning rows `y` down to row 0;
/// `None` when all of them are occupied. Row numbers grow downwards, so the
/// scan starts at the bottom.
pub open spec fn lowest_empty_from(
    board: Seq<Seq<Option<PiecePutBy>>>,
    x: int,
    y: int,
) -> Option<int>
    decreases y + 1,
{
    if y < 0 {
        None
    } else if board[y][x] is None {
        Some(y)
    } else {
        lowest_empty_from(board, x, y - 1)
    }
}

/// The row a piece dropped into column `x` comes to rest in, or `None` when
/// the column is full.
pub open spec fn lowest_empty(board: Seq<Seq<Option<PiecePutBy>>>, h: int, x: int) -> Option<int> {
    lowest_empty_from(board, x, h - 1)
}

/// The legal moves among columns `0 .. x`, in ascending column order: one
/// move per column that still has an empty cell, at its lowest empty row.
pub open spec fn legal_moves_up_to(
    board: Seq<Seq<Option<PiecePutBy>>>,
    h: int,
    x: int,
) -> Seq<DropPiece>
    decreases x,
{
    if x <= 0 {
        Seq::empty()
    } else {
        legal_moves_up_to(board, h, x - 1) + match lowest_empty(board, h, x - 1) {
            Some(y) => seq![DropPiece { y: y as usize, x: (x - 1) as usize }],
            None => Seq::empty(),
        }
    }
}

/// Every legal move of the position, ordered by ascending column.
pub open spec fn legal_moves(v: GameView) -> Seq<DropPiece> {
    legal_moves_up_to(v.board, v.h, v.w)
}

/// What the bottom-up scan of a column finds: the empty cell it names has
/// only occupied cells below it, and when it finds nothing the whole column
/// below the start row is occupied.
pub proof fn lemma_lowest_empty_from_props(board: Seq<Seq<Option<PiecePutBy>>>, x: int, y: int)
    ensures
        match lowest_empty_from(board, x, y) {
            Some(r) => {
                &&& 0 <= r <= y
                &&& board[r][x] is None
                &&& forall|j: int| r < j <= y ==> (#[trigger] board[j][x]) is Some
            },
            None => forall|j: int| 0 <= j <= y ==> (#[trigger] board[j][x]) is Some,
        },
    decreases y + 1,
{
    if y >= 0 && !(board[y][x] is None) {
        lemma_lowest_empty_from_props(board, x, y - 1);
    }
}

/// Membership in the legal-move list, column by column: a move is listed
/// exactly when its column lies below the bound and the move names that
/// column's lowest empty row.
proof fn lemma_legal_moves_up_to_contains(
    board: Seq<Seq<Option<PiecePutBy>>>,
    h: int,
    xb: int,
    m: DropPiece,
)
    requires
        h <= usize::MAX,
        xb <= usize::MAX,
    ensures
        legal_moves_up_to(board, h, xb).contains(m) <==> ((m.x as int) < xb && lowest_empty(
            board,
            h,
            m.x as int,
        ) == Some(m.y as int)),
    decreases xb,
{
    if xb <= 0 {
    } else {
        lemma_legal_moves_up_to_contains(board, h, xb - 1, m);
        let prefix = legal_moves_up_to(board, h, xb - 1);
        let whole = legal_moves_up_to(board, h, xb);
        match lowest_empty(board, h, xb - 1) {
            Some(y) => {
                lemma_lowest_empty_from_props(board, xb - 1, h - 1);
                let piece = DropPiece { y: y as usize, x: (xb - 1) as usize };
                assert(whole == prefix + seq![piece]);
                assert(whole[whole.len() - 1] == piece);
                assert(forall|i: int| 0 <= i < prefix.len() ==> whole[i] == prefix[i]);
                if whole.contains(m) && !prefix.contains(m) {
                    let i = choose|i: int| 0 <= i < whole.len() && whole[i] == m;
                    assert(i == whole.len() - 1);
                }
                if (m.x as int) == xb - 1 && lowest_empty(board, h, m.x as int) == Some(
                    m.y as int,
                ) {
                    assert(m == piece);
                    assert(whole.contains(m));
                }
                if prefix.contains(m) {
                    let i = choose|i: int| 0 <= i < prefix.len() && prefix[i] == m;
                    assert(whole[i] == m);
                    assert(whole.contains(m));
                }
            },
            None => {
                assert(whole =~= prefix);
            },
        }
    }
}

/// The gravity law: every legal move's cell is the lowest empty cell of its
/// column — the cell itself is empty and every cell below it is occupied.
pub proof fn lemma_gravity(v: GameView, i: int)
    requires
        v.wf(),
        0 <= i < legal_moves(v).len(),
    ensures
        (legal_moves(v)[i].x as int) < v.w,
        (legal_moves(v)[i].y as int) < v.h,
        v.board[legal_moves(v)[i].y as int][legal_moves(v)[i].x as int] is None,
        forall|j: int|
            (legal_moves(v)[i].y as int) < j < v.h ==> (#[trigger] v.board[j][legal_moves(
                v,
            )[i].x as int]) is Some,
{
    let m = legal_moves(v)[i];
    assert(legal_moves(v).contains(m));
    lemma_legal_moves_up_to_contains(v.board, v.h, v.w, m);
    lemma_lowest_empty_from_props(v.board, m.x as int, v.h - 1);
}

/// A move is in the legal-move list exactly when its column is on the board
/// and the move names that column's lowest empty row.
pub proof fn lemma_legal_move_iff(v: GameView, m: DropPiece)
    requires
        v.wf(),
    ensures
        legal_moves(v).contains(m) <==> ((m.x as int) < v.w && lowest_empty(
            v.board,
            v.h,
            m.x as int,
        ) == Some(m.y as int)),
{
    lemma_legal_moves_up_to_contains(v.board, v.h, v.w, m);
}

/// The state after a placement at the empty cell `(y, x)` by the side whose
/// move it is: the cell now holds that side's piece, the turn counter is one
/// higher, and the verdict is `Lose` when the placement completed a run of
/// four, `Draw` when it left no legal move, and unchanged otherwise.
pub open spec fn advance_view(v: GameView, y: int, x: int) -> GameView {
    let p = player_of(v.turn);
    let b2 = v.board.update(y, v.board[y].update(x, Some(p)));
    GameView {
        h: v.h,
        w: v.w,
        board: b2,
        turn: v.turn + 1,
        outcome: if wins_at(b2, v.h, v.w, p, y, x) {
            Some(WinningStatus::Lose)
        } else if legal_moves_up_to(b2, v.h, v.w).len() == 0 {
            Some(WinningStatus::Draw)
        } else {
            v.outcome
        },
    }
}

/// The legal-move list is empty exactly when every cell of the board is
/// occupied: a position offers no move only on a full board, which is what
/// turns the verdict into a draw.
pub proof fn lemma_no_move_means_full(v: GameView)
    requires
        v.wf(),
    ensures
        (legal_moves(v).len() == 0) <==> (forall|y: int, x: int|
            0 <= y < v.h && 0 <= x < v.w ==> (#[trigger] v.board[y][x]) is Some),
{
    if legal_moves(v).len() == 0 {
        assert forall|y: int, x: int|
            0 <= y < v.h && 0 <= x < v.w implies (#[trigger] v.board[y][x]) is Some by {
            lemma_lowest_empty_from_props(v.board, x, v.h - 1);
            match lowest_empty(v.board, v.h, x) {
                Some(r) => {
                    let m = DropPiece { y: r as usize, x: x as usize };
                    lemma_legal_moves_up_to_contains(v.board, v.h, v.w, m);
                    assert(legal_moves(v).contains(m));
                },
                None => {},
            }
        }
    } else {
        lemma_gravity(v, 0);
    }
}

/// A verdict is set at most once. A placement on an undecided board decides
/// the game exactly when it completes a run of four (the side that placed
/// wins — the side about to move loses) or, failing that, leaves no legal
/// move (a draw); otherwise the game stays undecided. A decided game is
/// never advanced again: `advance` refuses it by contract.
pub proof fn lemma_at_most_one_transition(v: GameView, y: int, x: int)
    requires
        v.outcome is None,
    ensures
        advance_view(v, y, x).outcome is Some <==> (wins_at(
            advance_view(v, y, x).board,
            v.h,
            v.w,
            player_of(v.turn),
            y,
            x,
        ) || legal_moves_up_to(advance_view(v, y, x).board, v.h, v.w).len() == 0),
        advance_view(v, y, x).outcome == Some(WinningStatus::Lose) <==> wins_at(
            advance_view(v, y, x).board,
            v.h,
            v.w,
            player_of(v.turn),
            y,
            x,
        ),
        advance_view(v, y, x).turn == v.turn + 1,
{
}

/// The state the engine works on. The snapshot codec is the only other
/// component that sees its insides.
pub struct ConnectFourState {
    h: usize,
    w: usize,
    board: Vec<Vec<Option<PiecePutBy>>>,
    winning_status_cache: Option<WinningStatus>,
    turn: usize,
}

impl View for ConnectFourState {
    type V = GameView;

    closed spec fn view(&self) -> GameView {
        GameView {
            h: self.h as int,
            w: self.w as int,
            board: grid_of(self.board),
            turn: self.turn as int,
            outcome: self.winning_status_cache,
        }
    }
}

impl ConnectFourState {
    /// A fresh game: an all-empty `h` by `w` grid, turn counter 0, no verdict.
    pub fn new(h: usize, w: usize) -> (r: Self)
        requires
            1 <= h,
            1 <= w,
        ensures
            r@.wf(),
            r@.h == h,
            r@.w == w,
            r@.turn == 0,
            r@.outcome is None,
            forall|y: int, x: int| 0 <= y < h && 0 <= x < w ==> r@.board[y][x] is None,
    {
        let mut board: Vec<Vec<Option<PiecePutBy>>> = Vec::new();
        let mut y: usize = 0;
        while y < h
            invariant
                y <= h,
                board@.len() == y,
                forall|i: int| 0 <= i < y ==> (#[trigger] board@[i])@.len() == w,
                forall|i: int, j: int| 0 <= i < y && 0 <= j < w ==> board@[i]@[j] is None,
            decreases h - y,
        {
            let mut row: Vec<Option<PiecePutBy>> = Vec::new();
            let mut x: usize = 0;
            while x < w
                invariant
                    x <= w,
                    row@.len() == x,
                    forall|j: int| 0 <= j < x ==> row@[j] is None,
                decreases w - x,
            {
                row.push(None);
                x = x + 1;
            }
            board.push(row);
            y = y + 1;
        }
        let r = Self { h, w, board, winning_status_cache: None, turn: 0 };
        assert(forall|i: int| 0 <= i < h ==> r@.board[i] == board@[i]@);
        r
    }

    /// Rebuild a state from all of its parts, the cached verdict included;
    /// the snapshot codec uses this to carry a snapshot's outcome field over
    /// verbatim.
    pub(crate) fn from_parts(
        h: usize,
        w: usize,
        board: Vec<Vec<Option<PiecePutBy>>>,
        turn: usize,
        outcome: Option<WinningStatus>,
    ) -> (r: Self)
        requires
            board@.len() == h,
            forall|y: int| 0 <= y < h ==> (#[trigger] board@[y])@.len() == w,
        ensures
            r@ == (GameView {
                h: h as int,
                w: w as int,
                board: grid_of(board),
                turn: turn as int,
                outcome,
            }),
            r@.wf(),
    {
        let r = Self { h, w, board, winning_status_cache: outcome, turn };
        assert(forall|y: int| 0 <= y < h ==> r@.board[y] == board@[y]@);
        r
    }

    /// Rebuild a state from its parts. The verdict cache starts out empty:
    /// the board alone does not say whether the game is over, and this
    /// constructor does not look.
    pub fn from_state(
        h: usize,
        w: usize,
        board: Vec<Vec<Option<PiecePutBy>>>,
        turn: usize,
    ) -> (r: Self)
        requires
            board@.len() == h,
            forall|y: int| 0 <= y < h ==> (#[trigger] board@[y])@.len() == w,
        ensures
            r@ == (GameView {
                h: h as int,
                w: w as int,
                board: grid_of(board),
                turn: turn as int,
                outcome: None,
            }),
            r@.wf(),
    {
        Self::from_parts(h, w, board, turn, None)
    }

    pub fn h(&self) -> (r: usize)
        ensures
            r == self@.h,
    {
        self.h
    }

    pub fn w(&self) -> (r: usize)
        ensures
            r == self@.w,
    {
        self.w
    }

    pub fn turn(&self) -> (r: usize)
        ensures
            r == self@.turn,
    {
        self.turn
    }

    /// A copy of the grid, row by row.
    pub fn get_board(&self) -> (r: Vec<Vec<Option<PiecePutBy>>>)
        ensures
            grid_of(r) == self@.board,
    {
        copy_grid(&self.board)
    }

    /// The row a piece dropped into column `x` comes to rest in: the lowest
    /// empty cell of the column, scanned from the bottom row upward.
    pub(crate) fn lowest_empty_row(&self, x: usize) -> (r: Option<usize>)
        requires
            self@.wf(),
            x < self@.w,
        ensures
            lowest_empty(self@.board, self@.h, x as int) == match r {
                Some(y) => Some(y as int),
                None => None::<int>,
            },
            r is Some ==> r->0 < self@.h,
    {
        let ghost b = self@.board;
        let mut y: usize = self.h;
        while y > 0
            invariant
                self@.wf(),
                x < self@.w,
                y <= self@.h,
                lowest_empty(self@.board, self@.h, x as int) == lowest_empty_from(
                    self@.board,
                    x as int,
                    y - 1,
                ),
            decreases y,
        {
            if self.board[y - 1][x].is_none() {
                return Some(y - 1);
            }
            y = y - 1;
        }
        None
    }

    /// Every legal move of the position, one per column that still has room,
    /// ordered by ascending column index. An empty result means the board is
    /// full.
    pub fn legal_actions(&self) -> (r: Vec<DropPiece>)
        requires
            self@.wf(),
        ensures
            r@ == legal_moves(self@),
    {
        let mut actions: Vec<DropPiece> = Vec::new();
        let mut x: usize = 0;
        while x < self.w
            invariant
                self@.wf(),
                x <= self@.w,
                actions@ == legal_moves_up_to(self@.board, self@.h, x as int),
            decreases self.w - x,
        {
            match self.lowest_empty_row(x) {
                Some(y) => {
                    actions.push(DropPiece::new(y, x));
                },
                None => {},
            }
            assert(actions@ =~= legal_moves_up_to(self@.board, self@.h, x + 1));
            x = x + 1;
        }
        actions
    }

    /// Place the piece of the side whose move it is at the empty cell the
    /// move names, evaluate the placement, and step the turn counter. The
    /// move must name an empty cell of the grid; legality under gravity is
    /// the caller's duty, established through `legal_actions`.
    pub fn advance(&mut self, action: DropPiece)
        requires
            old(self)@.wf(),
            (action.y as int) < old(self)@.h,
            (action.x as int) < old(self)@.w,
            old(self)@.board[action.y as int][action.x as int] is None,
            old(self)@.turn < usize::MAX,
        ensures
            final(self)@ == advance_view(old(self)@, action.y as int, action.x as int),
            final(self)@.wf(),
    {
        let y = action.y;
        let x = action.x;
        let player = if self.turn % 2 == 0 {
            PiecePutBy::First
        } else {
            PiecePutBy::Second
        };
        self.board[y][x] = Some(player);
        let ghost b2 = old(self)@.board.update(
            y as int,
            old(self)@.board[y as int].update(x as int, Some(player)),
        );
        proof {
            assert(grid_of(self.board) =~~= b2);
        }
        let w = self.w;
        let left = scan(&self.board, w, player, y, x, 0, -1);
        let right = scan(&self.board, w, player, y, x, 0, 1);
        let upper_left = scan(&self.board, w, player, y, x, -1, -1);
        let lower_right = scan(&self.board, w, player, y, x, 1, 1);
        let upper_right = scan(&self.board, w, player, y, x, -1, 1);
        let lower_left = scan(&self.board, w, player, y, x, 1, -1);
        let down = scan(&self.board, w, player, y, x, 1, 0);
        let win = left as u128 + right as u128 >= 5 || upper_left as u128 + lower_right as u128
            >= 5 || upper_right as u128 + lower_left as u128 >= 5 || down >= 4;
        if win {
            self.winning_status_cache = Some(WinningStatus::Lose);
        } else if self.legal_actions().len() == 0 {
            self.winning_status_cache = Some(WinningStatus::Draw);
        }
        self.turn = self.turn + 1;
        proof {
            assert(self@ =~~= advance_view(old(self)@, y as int, x as int));
        }
    }

    /// Whether the game is decided.
    pub fn done(&self) -> (r: bool)
        ensures
            r == (self@.outcome is Some),
    {
        self.winning_status_cache.is_some()
    }

    /// The verdict, if any: absent for a game still in play.
    pub fn winning_status(&self) -> (r: Option<WinningStatus>)
        ensures
            r == self@.outcome,
    {
        self.winning_status_cache
    }
}

} // verus!
