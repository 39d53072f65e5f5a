use vstd::prelude::*;
use vstd::string::StringExecFns;

use crate::snapshot::Data;
use crate::state::{grid_wf, PiecePutBy};
use crate::EngineError;

verus! {

/// The character a cell is drawn as: the first player's pieces as 'x', the
/// second player's as 'o', empty cells as '.'.
pub open spec fn char_of(c: Option<PiecePutBy>) -> char {
    match c {
        Some(PiecePutBy::First) => 'x',
        Some(PiecePutBy::Second) => 'o',
        None => '.',
    }
}

/// The leftmost `x` cells of one row, drawn left to right.
pub open spec fn rendered_row(row: Seq<Option<PiecePutBy>>, x: int) -> Seq<char>
    decreases x,
{
    if x <= 0 {
        Seq::empty()
    } else {
        rendered_row(row, x - 1) + seq![char_of(row[x - 1])]
    }
}

/// The top `y` rows of the grid, each `w` cells wide, drawn top to bottom,
/// rows separated by line breaks with none after the last.
pub open spec fn rendered_rows(board: Seq<Seq<Option<PiecePutBy>>>, w: int, y: int) -> Seq<char>
    decreases y,
{
    if y <= 0 {
        Seq::empty()
    } else if y == 1 {
        rendered_row(board[0], w)
    } else {
        rendered_rows(board, w, y - 1) + seq!['\n'] + rendered_row(board[y - 1], w)
    }
}

/// The whole `h` by `w` grid as text.
pub open spec fn rendered(board: Seq<Seq<Option<PiecePutBy>>>, h: int, w: int) -> Seq<char> {
    rendered_rows(board, w, h)
}

/// Render a snapshot's grid, one character per cell, rows separated by line
/// breaks with no trailing separator. A snapshot whose grid is not the
/// rectangle its dimension fields claim is rejected.
pub fn debug(data: &Data) -> (r: Result<String, EngineError>)
    ensures
        match r {
            Ok(s) => data@.wf() && s@ == rendered(data@.board, data@.h, data@.w),
            Err(e) => e == EngineError::SchemaError && !data@.wf(),
        },
{
    if data.board.len() != data.h {
        return Err(EngineError::SchemaError);
    }
    let ghost b = data@.board;
    let mut y: usize = 0;
    let mut out = String::new();
    while y < data.h
        invariant
            b == data@.board,
            b.len() == data@.h,
            y <= data@.h,
            forall|i: int| 0 <= i < y ==> (#[trigger] b[i]).len() == data@.w,
            out@ == rendered_rows(b, data@.w, y as int),
        decreases data@.h - y,
    {
        if data.board[y].len() != data.w {
            proof {
                assert(b[y as int] == data.board@[y as int]@);
                assert(!grid_wf(data@.board, data@.h, data@.w));
            }
            return Err(EngineError::SchemaError);
        }
        assert(b[y as int] == data.board@[y as int]@);
        let ghost prefix = if y == 0 {
            Seq::<char>::empty()
        } else {
            rendered_rows(b, data@.w, y as int) + seq!['\n']
        };
        if y > 0 {
            proof {
                reveal_strlit("\n");
            }
            out.append("\n");
            assert(out@ =~= prefix);
        }
        let mut x: usize = 0;
        while x < data.w
            invariant
                b == data@.board,
                b.len() == data@.h,
                y < data@.h,
                b[y as int].len() == data@.w,
                b[y as int] == data.board@[y as int]@,
                x <= data@.w,
                out@ == prefix + rendered_row(b[y as int], x as int),
            decreases data@.w - x,
        {
            proof {
                reveal_strlit("x");
                reveal_strlit("o");
                reveal_strlit(".");
            }
            match data.board[y][x] {
                Some(PiecePutBy::First) => out.append("x"),
                Some(PiecePutBy::Second) => out.append("o"),
                None => out.append("."),
            }
            assert(out@ =~= prefix + rendered_row(b[y as int], x + 1));
            x = x + 1;
        }
        assert(out@ =~= rendered_rows(b, data@.w, y + 1));
        y = y + 1;
    }
    Ok(out)
}

} // verus!
