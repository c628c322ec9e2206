//! The collision test: whether a proposed move or turn of the active piece is
//! blocked by the edges of the board or by locked cells.

use vstd::prelude::*;
use crate::tetramino::{
    filled, grid_of, max_x, max_y, min_x, min_y, rotated_clockwise, rotated_counterclockwise,
    scanned, Piece, Tetramino,
};
use crate::tilemap::{on_board, Board, COLS, ROWS};

verus! {

/// The cell `(x, y)` lies on the board and holds a locked cell.
pub open spec fn occupied(board: Seq<Seq<u8>>, x: int, y: int) -> bool {
    on_board(x, y) && board[y][x] > 0
}

/// The matrix `shape`, anchored at `(ax, ay)`, has an occupied cell on a
/// locked cell of the board.
pub open spec fn overlaps(board: Seq<Seq<u8>>, shape: Seq<Seq<u8>>, ax: int, ay: int) -> bool {
    exists|px: int, py: int| #[trigger] filled(shape, px, py) && occupied(board, ax + px, ay + py)
}

/// Every occupied cell of the piece lies on the board.
pub open spec fn in_bounds(p: Piece) -> bool {
    forall|px: int, py: int| #[trigger] filled(p.shape, px, py) ==> on_board(p.x + px, p.y + py)
}

/// The piece lies on the board and on no locked cell.
pub open spec fn is_legal(board: Seq<Seq<u8>>, p: Piece) -> bool {
    in_bounds(p) && !overlaps(board, p.shape, p.x, p.y)
}

/// The piece `p` may not take the matrix `turned` in place of its own: the
/// turned matrix would touch or pass an edge of the board, or lie on a locked
/// cell.
pub open spec fn turn_blocked(board: Seq<Seq<u8>>, p: Piece, turned: Seq<Seq<u8>>) -> bool {
    ||| p.y + min_y(turned) <= 0
    ||| p.y + max_y(turned) >= ROWS - 1
    ||| p.x + min_x(turned) <= 0
    ||| p.x + max_x(turned) >= COLS - 1
    ||| overlaps(board, turned, p.x, p.y)
}

/// The piece `p` is blocked from moving by `(dx, dy)` or, where `rotation`
/// is not zero, from turning: clockwise for `1`, counterclockwise otherwise.
///
/// A descent (`dy == -1`) is blocked where the lowest occupied row of the
/// piece is at the bottom row or below it. Apart from that a move is blocked
/// where the moved piece would lie on a locked cell, and a turn where
/// `turn_blocked` holds of the turned matrix at the anchor as it stands.
pub open spec fn is_collided(board: Seq<Seq<u8>>, p: Piece, dx: int, dy: int, rotation: int) -> bool {
    ||| dy == -1 && p.y + min_y(p.shape) <= 0
    ||| if rotation == 0 {
        overlaps(board, p.shape, p.x + dx, p.y + dy)
    } else if rotation == 1 {
        turn_blocked(board, p, rotated_clockwise(p.shape))
    } else {
        turn_blocked(board, p, rotated_counterclockwise(p.shape))
    }
}

/// Whether the matrix `shape`, anchored at `(ax, ay)`, lies on a locked cell.
fn overlaps_at(board: &Board, shape: &[[u8; 4]; 4], ax: i64, ay: i64) -> (hit: bool)
    requires
        -0x1_0000_0000 <= ax <= 0x1_0000_0000,
        -0x1_0000_0000 <= ay <= 0x1_0000_0000,
    ensures
        hit == overlaps(board@, grid_of(*shape), ax as int, ay as int),
{
    let ghost grid = grid_of(*shape);
    let mut x: usize = 0;
    while x < 4
        invariant
            x <= 4,
            grid == grid_of(*shape),
            -0x1_0000_0000 <= ax <= 0x1_0000_0000,
            -0x1_0000_0000 <= ay <= 0x1_0000_0000,
            forall|px: int, py: int|
                scanned(px, py, x as int, 0) && #[trigger] filled(grid, px, py) ==> !occupied(
                    board@,
                    ax + px,
                    ay + py,
                ),
        decreases 4 - x,
    {
        let mut y: usize = 0;
        while y < 4
            invariant
                x < 4,
                y <= 4,
                grid == grid_of(*shape),
                -0x1_0000_0000 <= ax <= 0x1_0000_0000,
                -0x1_0000_0000 <= ay <= 0x1_0000_0000,
                forall|px: int, py: int|
                    scanned(px, py, x as int, y as int) && #[trigger] filled(grid, px, py) ==> !occupied(
                        board@,
                        ax + px,
                        ay + py,
                    ),
            decreases 4 - y,
        {
            if shape[x][y] == 1 {
                let tile_x: i64 = ax + x as i64;
                let tile_y: i64 = ay + y as i64;
                if 0 <= tile_x && tile_x < COLS as i64 && 0 <= tile_y && tile_y < ROWS as i64 {
                    if board.get(tile_x as i32, tile_y as i32) > 0 {
                        assert(filled(grid, x as int, y as int));
                        return true;
                    }
                }
            }
            y += 1;
        }
        x += 1;
    }
    false
}

/// Whether the move of `tetramino` by `delta`, or its turn by `rotation`
/// (`1` clockwise, `-1` counterclockwise, `0` none), is blocked.
pub fn check_is_collided(
    tetramino: &Tetramino,
    board: &Board,
    delta: (i32, i32),
    rotation: i32,
) -> (collided: bool)
    requires
        -1 <= rotation <= 1,
    ensures
        collided == is_collided(board@, tetramino@, delta.0 as int, delta.1 as int, rotation as int),
{
    let (_, min_y, _, _) = tetramino.get_bounds();
    if delta.1 == -1 && tetramino.y as i64 + min_y as i64 <= 0 {
        return true;
    }
    if rotation == 0 {
        return overlaps_at(
            board,
            &tetramino.shape,
            tetramino.x as i64 + delta.0 as i64,
            tetramino.y as i64 + delta.1 as i64,
        );
    }
    let mut turned: Tetramino = *tetramino;
    if rotation == 1 {
        turned.rotate_clockwise();
    } else {
        turned.rotate_conterclockwise();
    }
    let (min_x, min_y, max_x, max_y) = turned.get_bounds();
    let x: i64 = turned.x as i64;
    let y: i64 = turned.y as i64;
    if y + min_y as i64 <= 0 {
        return true;
    }
    if y + max_y as i64 >= ROWS as i64 - 1 {
        return true;
    }
    if x + min_x as i64 <= 0 {
        return true;
    }
    if x + max_x as i64 >= COLS as i64 - 1 {
        return true;
    }
    overlaps_at(board, &turned.shape, x, y)
}

/// A piece whose lowest occupied row is the bottom row of the board is
/// blocked from every descent, whatever lies on the board.
pub proof fn lemma_floor_blocks_descent(board: Seq<Seq<u8>>, p: Piece, dx: int, rotation: int)
    requires
        p.y + min_y(p.shape) == 0,
    ensures
        is_collided(board, p, dx, -1, rotation),
{
}

/// A descent by one row that would put the occupied cell `(px, py)` of the
/// piece on a locked cell is blocked.
pub proof fn lemma_overlap_blocks_descent(board: Seq<Seq<u8>>, p: Piece, px: int, py: int)
    requires
        filled(p.shape, px, py),
        occupied(board, p.x + px, p.y + py - 1),
    ensures
        is_collided(board, p, 0, -1, 0),
{
    assert(filled(p.shape, px, py) && occupied(board, p.x + 0 + px, p.y + -1 + py));
}

} // verus!
