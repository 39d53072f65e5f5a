use vstd::prelude::*;

use crate::state::{grid_of, grid_wf, PiecePutBy};

verus! {

/// How many cells a run from `(y, x)` in direction `(dy, dx)` could still
/// cover before it leaves the board: the recursion's termination measure.
pub open spec fn run_measure(h: int, w: int, y: int, x: int, dy: int, dx: int) -> int {
    (if dy < 0 {
        y + 1
    } else if dy > 0 {
        h - y
    } else {
        0
    }) + (if dx < 0 {
        x + 1
    } else if dx > 0 {
        w - x
    } else {
        0
    })
}

/// The length of the contiguous run of `p`'s pieces that starts at cell
/// `(y, x)` and extends step by step in direction `(dy, dx)`, the starting
/// cell counted once. The run ends at the first cell that leaves the board
/// or does not hold a piece of `p`'s.
pub open spec fn run_len(
    board: Seq<Seq<Option<PiecePutBy>>>,
    h: int,
    w: int,
    p: PiecePutBy,
    y: int,
    x: int,
    dy: int,
    dx: int,
) -> nat
    decreases run_measure(h, w, y, x, dy, dx),
        when -1 <= dy <= 1 && -1 <= dx <= 1 && (dy != 0 || dx != 0)
{
    if y < 0 || y >= h || x < 0 || x >= w || board[y][x] != Some(p) {
        0
    } else {
        1 + run_len(board, h, w, p, y + dy, x + dx, dy, dx)
    }
}

/// The run through `(y, x)` along one axis: the cells on the `(dy, dx)` side
/// and on the opposite side, with the cell `(y, x)` itself counted once, not
/// twice.
pub open spec fn axis_run(
    board: Seq<Seq<Option<PiecePutBy>>>,
    h: int,
    w: int,
    p: PiecePutBy,
    y: int,
    x: int,
    dy: int,
    dx: int,
) -> int {
    run_len(board, h, w, p, y, x, dy, dx) + run_len(board, h, w, p, y, x, -dy, -dx) - 1
}

/// Whether the placement of `p`'s piece at `(y, x)` completed a run of at
/// least four: horizontally, along either diagonal, or vertically. The
/// vertical run only looks downward — under gravity the cells above a
/// freshly dropped piece are empty.
pub open spec fn wins_at(
    board: Seq<Seq<Option<PiecePutBy>>>,
    h: int,
    w: int,
    p: PiecePutBy,
    y: int,
    x: int,
) -> bool {
    ||| axis_run(board, h, w, p, y, x, 0, 1) >= 4
    ||| axis_run(board, h, w, p, y, x, 1, 1) >= 4
    ||| axis_run(board, h, w, p, y, x, 1, -1) >= 4
    ||| run_len(board, h, w, p, y, x, 1, 0) >= 4
}

/// How many steps a scan at `(cy, cx)` can still take before it falls off
/// the board in direction `(dy, dx)`: the scan loop's termination measure.
spec fn scan_measure(h: int, w: int, cy: int, cx: int, dy: int, dx: int) -> int {
    (if dy < 0 {
        cy
    } else {
        h - 1 - cy
    }) + (if dx < 0 {
        cx
    } else {
        w - 1 - cx
    })
}

/// Whether the cell holds a piece of `p`'s.
fn occupied_by(c: &Option<PiecePutBy>, p: PiecePutBy) -> (r: bool)
    ensures
        r == (*c == Some(p)),
{
    match c {
        Some(q) => *q == p,
        None => false,
    }
}

/// Count `p`'s contiguous pieces from `(y, x)` in direction `(dy, dx)`, the
/// starting cell included: the executable side of `run_len`.
pub(crate) fn scan(
    board: &Vec<Vec<Option<PiecePutBy>>>,
    w: usize,
    p: PiecePutBy,
    y: usize,
    x: usize,
    dy: i8,
    dx: i8,
) -> (r: usize)
    requires
        grid_wf(grid_of(*board), board@.len() as int, w as int),
        y < board@.len(),
        x < w,
        -1 <= dy as int <= 1,
        -1 <= dx as int <= 1,
        dy != 0 || dx != 0,
    ensures
        r as nat == run_len(
            grid_of(*board),
            board@.len() as int,
            w as int,
            p,
            y as int,
            x as int,
            dy as int,
            dx as int,
        ),
{
    let ghost g = grid_of(*board);
    let ghost h = board@.len() as int;
    let n: usize = board.len();
    let mut cy: usize = y;
    let mut cx: usize = x;
    let mut cnt: usize = 0;
    loop
        invariant
            grid_wf(g, h, w as int),
            g == grid_of(*board),
            h == board@.len() as int,
            n == h,
            y < h,
            x < w,
            cy < n,
            cx < w,
            -1 <= dy as int <= 1,
            -1 <= dx as int <= 1,
            dy != 0 || dx != 0,
            run_len(g, h, w as int, p, y as int, x as int, dy as int, dx as int) == cnt
                + run_len(g, h, w as int, p, cy as int, cx as int, dy as int, dx as int),
            dy as int == -1 ==> cy as int == y - cnt,
            dy as int == 1 ==> cy as int == y + cnt,
            dy as int == 0 && dx as int == -1 ==> cx as int == x - cnt,
            dy as int == 0 && dx as int == 1 ==> cx as int == x + cnt,
        decreases scan_measure(h, w as int, cy as int, cx as int, dy as int, dx as int),
    {
        let ghost oy = cy as int;
        let ghost ox = cx as int;
        if !occupied_by(&board[cy][cx], p) {
            return cnt;
        }
        cnt = cnt + 1;
        assert(run_len(g, h, w as int, p, oy, ox, dy as int, dx as int) == 1 + run_len(
            g,
            h,
            w as int,
            p,
            oy + dy,
            ox + dx,
            dy as int,
            dx as int,
        ));
        let can_y = if dy < 0 {
            cy > 0
        } else if dy > 0 {
            cy + 1 < n
        } else {
            true
        };
        let can_x = if dx < 0 {
            cx > 0
        } else if dx > 0 {
            cx + 1 < w
        } else {
            true
        };
        if !(can_y && can_x) {
            assert(run_len(g, h, w as int, p, oy + dy, ox + dx, dy as int, dx as int) == 0);
            return cnt;
        }
        if dy < 0 {
            cy = cy - 1;
        } else if dy > 0 {
            cy = cy + 1;
        }
        if dx < 0 {
            cx = cx - 1;
        } else if dx > 0 {
            cx = cx + 1;
        }
    }
}

} // verus!
