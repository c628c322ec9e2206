//! The steps of the game: a player intent, the gravity tick, and the landing
//! of the active piece.

use vstd::prelude::*;
use crate::collision::{check_is_collided, in_bounds, is_collided, is_legal, occupied};
use crate::tetramino::{
    code_of, create_random_tetramino, filled, is_shape, is_tetramino_shape, lemma_bounds_tight,
    lemma_turns_keep_tetramino_shape, max_x, min_x, rotated_clockwise,
    rotated_counterclockwise, scanned, spawned, turned, Piece, Tetramino, TetraminoType,
};
use crate::tilemap::{
    burn_the_line, cleared, full_row_count, is_grid, line_bonus, on_board, Board, TetrisData,
    COLS, MAX_CELL, ROWS,
};

verus! {

/// What a player may ask of the active piece.
#[derive(Clone, Copy, Debug, PartialEq, Eq, Structural)]
pub enum Intent {
    MoveLeft,
    MoveRight,
    RotateClockwise,
    RotateCounterclockwise,
}

/// The intent is granted: a move to the side where the bounding box stays
/// between the side walls and the moved piece lies on no locked cell, a turn
/// where the collision test lets it pass.
pub open spec fn intent_allowed(board: Seq<Seq<u8>>, p: Piece, intent: Intent) -> bool {
    match intent {
        Intent::MoveLeft => p.x + min_x(p.shape) > 0 && !is_collided(board, p, -1, 0, 0),
        Intent::MoveRight => p.x + max_x(p.shape) < COLS - 1 && !is_collided(board, p, 1, 0, 0),
        Intent::RotateClockwise => !is_collided(board, p, 0, 0, 1),
        Intent::RotateCounterclockwise => !is_collided(board, p, 0, 0, -1),
    }
}

/// The piece as the intent would leave it, were it granted.
pub open spec fn intent_applied(p: Piece, intent: Intent) -> Piece {
    match intent {
        Intent::MoveLeft => Piece { x: p.x - 1, ..p },
        Intent::MoveRight => Piece { x: p.x + 1, ..p },
        Intent::RotateClockwise => Piece { shape: rotated_clockwise(p.shape), ..p },
        Intent::RotateCounterclockwise => Piece { shape: rotated_counterclockwise(p.shape), ..p },
    }
}

/// The piece after the intent: changed where the intent is granted, as it was
/// where it is not.
pub open spec fn after_intent(board: Seq<Seq<u8>>, p: Piece, intent: Intent) -> Piece {
    if intent_allowed(board, p, intent) {
        intent_applied(p, intent)
    } else {
        p
    }
}

/// The board with the piece locked into it: every cell under an occupied
/// cell of the piece holds the code of its kind, every other cell is as it
/// was.
pub open spec fn locked(board: Seq<Seq<u8>>, p: Piece) -> Seq<Seq<u8>> {
    Seq::new(
        ROWS as nat,
        |y: int|
            Seq::new(
                COLS as nat,
                |x: int|
                    if filled(p.shape, x - p.x, y - p.y) {
                        code_of(p.tetramino_type)
                    } else {
                        board[y][x]
                    },
            ),
    )
}

/// The board with those occupied cells of the piece locked into it that come
/// before `(x, y)` in reading order.
spec fn partly_locked(board: Seq<Seq<u8>>, p: Piece, x: int, y: int) -> Seq<Seq<u8>> {
    Seq::new(
        ROWS as nat,
        |by: int|
            Seq::new(
                COLS as nat,
                |bx: int|
                    if filled(p.shape, bx - p.x, by - p.y) && scanned(bx - p.x, by - p.y, x, y) {
                        code_of(p.tetramino_type)
                    } else {
                        board[by][bx]
                    },
            ),
    )
}

/// Applies a player intent to the active piece where the rules grant it, and
/// leaves the piece as it is where they do not. Returns whether it was
/// granted.
pub fn keyboard_input(intent: Intent, tetramino: &mut Tetramino, board: &Board) -> (granted: bool)
    ensures
        granted == intent_allowed(board@, old(tetramino)@, intent),
        final(tetramino)@ == after_intent(board@, old(tetramino)@, intent),
{
    match intent {
        Intent::MoveLeft => {
            let (min_x, _, _, _) = tetramino.get_bounds();
            if tetramino.x > -min_x && !check_is_collided(tetramino, board, (-1, 0), 0) {
                tetramino.x -= 1;
                true
            } else {
                false
            }
        },
        Intent::MoveRight => {
            let (_, _, max_x, _) = tetramino.get_bounds();
            if tetramino.x < COLS as i32 - max_x - 1 && !check_is_collided(
                tetramino,
                board,
                (1, 0),
                0,
            ) {
                tetramino.x += 1;
                true
            } else {
                false
            }
        },
        Intent::RotateClockwise => {
            if !check_is_collided(tetramino, board, (0, 0), 1) {
                tetramino.rotate_clockwise();
                true
            } else {
                false
            }
        },
        Intent::RotateCounterclockwise => {
            if !check_is_collided(tetramino, board, (0, 0), -1) {
                tetramino.rotate_conterclockwise();
                true
            } else {
                false
            }
        },
    }
}

/// Lands the active piece: locks its occupied cells into the board under the
/// code of its kind, and puts a piece of a kind drawn at random in its place,
/// at the spawn anchor.
pub fn on_collided(tetramino: &mut Tetramino, board: &mut Board)
    requires
        in_bounds(old(tetramino)@),
        old(board).wf(),
    ensures
        final(board)@ == locked(old(board)@, old(tetramino)@),
        final(board).wf(),
        final(tetramino)@ == spawned(final(tetramino)@.tetramino_type),
{
    let ghost grid = board@;
    let ghost p = tetramino@;
    let value: u8 = tetramino.tetramino_type.code();
    let mut x: usize = 0;
    assert(board@ =~~= partly_locked(grid, p, 0, 0));
    while x < 4
        invariant
            x <= 4,
            p == tetramino@,
            in_bounds(p),
            is_grid(grid),
            value == code_of(p.tetramino_type),
            value <= MAX_CELL,
            board.wf(),
            board@ == partly_locked(grid, p, x as int, 0),
        decreases 4 - x,
    {
        let mut y: usize = 0;
        while y < 4
            invariant
                x < 4,
                y <= 4,
                p == tetramino@,
                in_bounds(p),
                is_grid(grid),
                value == code_of(p.tetramino_type),
                value <= MAX_CELL,
                board.wf(),
                board@ == partly_locked(grid, p, x as int, y as int),
            decreases 4 - y,
        {
            if tetramino.shape[x][y] == 1 {
                assert(filled(p.shape, x as int, y as int));
                let tile_x: i32 = tetramino.x + x as i32;
                let tile_y: i32 = tetramino.y + y as i32;
                board.set(tile_x, tile_y, value);
            }
            assert(board@ =~~= partly_locked(grid, p, x as int, y + 1));
            y += 1;
        }
        assert(board@ =~~= partly_locked(grid, p, x + 1, 0));
        x += 1;
    }
    assert(board@ =~~= locked(grid, p));
    *tetramino = create_random_tetramino();
}

/// The gravity tick. Where the descent by one row is blocked, the piece
/// lands: it is locked into the board, the full rows are cleared and scored,
/// and a new piece spawns. Where it is not, the piece moves down a row and
/// nothing else changes. Returns whether the piece landed.
pub fn fall_system(tetramino: &mut Tetramino, board: &mut Board, tetris_data: &mut TetrisData) -> (landed:
    bool)
    requires
        in_bounds(old(tetramino)@),
        old(board).wf(),
        is_collided(old(board)@, old(tetramino)@, 0, -1, 0) ==> old(tetris_data).score + line_bonus(
            full_row_count(locked(old(board)@, old(tetramino)@)),
        ) <= i32::MAX,
    ensures
        landed == is_collided(old(board)@, old(tetramino)@, 0, -1, 0),
        !landed ==> {
            &&& final(tetramino)@ == (Piece { y: old(tetramino)@.y - 1, ..old(tetramino)@ })
            &&& final(board)@ == old(board)@
            &&& final(tetris_data).score == old(tetris_data).score
        },
        landed ==> {
            &&& final(tetramino)@ == spawned(final(tetramino)@.tetramino_type)
            &&& final(board)@ == cleared(locked(old(board)@, old(tetramino)@))
            &&& final(tetris_data).score == old(tetris_data).score + line_bonus(
                full_row_count(locked(old(board)@, old(tetramino)@)),
            )
        },
        in_bounds(final(tetramino)@),
        final(board).wf(),
{
    if check_is_collided(tetramino, board, (0, -1), 0) {
        on_collided(tetramino, board);
        burn_the_line(tetris_data, board);
        proof {
            lemma_spawn_in_bounds(tetramino@.tetramino_type);
        }
        true
    } else {
        proof {
            lemma_descent_keeps_legal(board@, tetramino@);
        }
        tetramino.y -= 1;
        false
    }
}

/// A move to the left is refused to a piece whose leftmost occupied column is
/// the leftmost column of the board: the piece stays as it is.
pub proof fn lemma_left_wall_rejects(board: Seq<Seq<u8>>, p: Piece)
    requires
        p.x + min_x(p.shape) == 0,
    ensures
        !intent_allowed(board, p, Intent::MoveLeft),
        after_intent(board, p, Intent::MoveLeft) == p,
{
}

/// A move to the right is refused to a piece whose rightmost occupied column
/// is the rightmost column of the board: the piece stays as it is.
pub proof fn lemma_right_wall_rejects(board: Seq<Seq<u8>>, p: Piece)
    requires
        p.x + max_x(p.shape) == COLS - 1,
    ensures
        !intent_allowed(board, p, Intent::MoveRight),
        after_intent(board, p, Intent::MoveRight) == p,
{
}

/// No intent takes a legal piece off the board or onto a locked cell.
pub proof fn lemma_intent_keeps_legal(board: Seq<Seq<u8>>, p: Piece, intent: Intent)
    requires
        is_shape(p.shape),
        is_legal(board, p),
    ensures
        is_legal(board, after_intent(board, p, intent)),
{
    let q = after_intent(board, p, intent);
    if intent_allowed(board, p, intent) {
        lemma_bounds_tight(p.shape);
        lemma_bounds_tight(q.shape);
        match intent {
            Intent::MoveLeft => {
                assert forall|px: int, py: int| #[trigger] filled(q.shape, px, py) implies on_board(
                    q.x + px,
                    q.y + py,
                ) by {
                    assert(filled(p.shape, px, py));
                }
                assert forall|px: int, py: int| #[trigger] filled(q.shape, px, py) implies !occupied(
                    board,
                    q.x + px,
                    q.y + py,
                ) by {
                    assert(filled(p.shape, px, py) && !occupied(board, p.x + -1 + px, p.y + 0 + py));
                }
            },
            Intent::MoveRight => {
                assert forall|px: int, py: int| #[trigger] filled(q.shape, px, py) implies on_board(
                    q.x + px,
                    q.y + py,
                ) by {
                    assert(filled(p.shape, px, py));
                }
                assert forall|px: int, py: int| #[trigger] filled(q.shape, px, py) implies !occupied(
                    board,
                    q.x + px,
                    q.y + py,
                ) by {
                    assert(filled(p.shape, px, py) && !occupied(board, p.x + 1 + px, p.y + 0 + py));
                }
            },
            Intent::RotateClockwise => {},
            Intent::RotateCounterclockwise => {},
        }
    }
}

/// Whatever the player asks, the active piece keeps the shape of a
/// tetramino, and a piece has one as it spawns.
pub proof fn lemma_shape_stays_a_tetramino(board: Seq<Seq<u8>>, p: Piece, intent: Intent, kind: TetraminoType)
    requires
        is_tetramino_shape(p.shape),
    ensures
        is_tetramino_shape(after_intent(board, p, intent).shape),
        is_tetramino_shape(spawned(kind).shape),
{
    lemma_turns_keep_tetramino_shape(p.shape);
    assert(spawned(kind).shape == turned(spawned(kind).shape, 0));
}

/// A descent that the collision test lets pass takes a piece that lies on
/// the board to a place on the board and on no locked cell.
pub proof fn lemma_descent_keeps_legal(board: Seq<Seq<u8>>, p: Piece)
    requires
        is_shape(p.shape),
        in_bounds(p),
        !is_collided(board, p, 0, -1, 0),
    ensures
        is_legal(board, Piece { y: p.y - 1, ..p }),
{
    let q = Piece { y: p.y - 1, ..p };
    lemma_bounds_tight(p.shape);
    assert forall|px: int, py: int| #[trigger] filled(q.shape, px, py) implies on_board(
        q.x + px,
        q.y + py,
    ) && !occupied(board, q.x + px, q.y + py) by {
        assert(filled(p.shape, px, py) && !occupied(board, p.x + 0 + px, p.y + -1 + py));
    }
}

/// A piece as it spawns lies on the board, whatever its kind.
pub proof fn lemma_spawn_in_bounds(kind: TetraminoType)
    ensures
        in_bounds(spawned(kind)),
{
}

} // verus!
