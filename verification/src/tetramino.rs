//! The active piece: one of seven tetramino kinds as a 4 by 4 occupancy
//! matrix, anchored at a board position.
//!
//! A shape is indexed `shape[px][py]`: `px` counts columns from the anchor to
//! the right, `py` counts rows from the anchor upward. A cell is occupied
//! where the matrix holds 1.

use rand::Rng;
use vstd::prelude::*;
use crate::tilemap::{COLS, ROWS};

verus! {

/// The spawn pattern of the I tetramino, column by column.
pub const I_TETRAMINO: [[u8; 4]; 4] = [[0, 0, 0, 0], [1, 1, 1, 1], [0, 0, 0, 0], [0, 0, 0, 0]];

/// The spawn pattern of the S tetramino, column by column.
pub const S_TETRAMINO: [[u8; 4]; 4] = [[0, 0, 0, 0], [0, 1, 1, 0], [1, 1, 0, 0], [0, 0, 0, 0]];

/// The spawn pattern of the Z tetramino, column by column.
pub const Z_TETRAMINO: [[u8; 4]; 4] = [[0, 0, 0, 0], [1, 1, 0, 0], [0, 1, 1, 0], [0, 0, 0, 0]];

/// The spawn pattern of the J tetramino, column by column.
pub const J_TETRAMINO: [[u8; 4]; 4] = [[0, 0, 0, 0], [1, 0, 0, 0], [1, 1, 1, 0], [0, 0, 0, 0]];

/// The spawn pattern of the L tetramino, column by column.
pub const L_TETRAMINO: [[u8; 4]; 4] = [[0, 0, 0, 0], [1, 1, 1, 0], [1, 0, 0, 0], [0, 0, 0, 0]];

/// The spawn pattern of the O tetramino, column by column.
pub const O_TETRAMINO: [[u8; 4]; 4] = [[0, 0, 0, 0], [0, 1, 1, 0], [0, 1, 1, 0], [0, 0, 0, 0]];

/// The spawn pattern of the T tetramino, column by column.
pub const T_TETRAMINO: [[u8; 4]; 4] = [[0, 0, 0, 0], [0, 1, 0, 0], [1, 1, 1, 0], [0, 0, 0, 0]];

/// The number of tetramino kinds.
pub const KINDS: u32 = 7;

/// The seven tetramino kinds.
#[derive(Clone, Copy, Debug, PartialEq, Eq, Structural)]
pub enum TetraminoType {
    I,
    S,
    Z,
    J,
    L,
    O,
    T,
}

/// The active piece.
#[derive(Clone, Copy, Debug)]
pub struct Tetramino {
    pub x: i32,
    pub y: i32,
    pub shape: [[u8; 4]; 4],
    pub tetramino_type: TetraminoType,
}

/// What a `Tetramino` stands for: an anchor, an occupancy matrix and a kind.
pub struct Piece {
    pub x: int,
    pub y: int,
    pub shape: Seq<Seq<u8>>,
    pub tetramino_type: TetraminoType,
}

/// The matrix `shape` as a sequence of its four columns.
pub open spec fn grid_of(shape: [[u8; 4]; 4]) -> Seq<Seq<u8>> {
    Seq::new(4, |px: int| shape[px]@)
}

/// `shape` is a 4 by 4 matrix.
pub open spec fn is_shape(shape: Seq<Seq<u8>>) -> bool {
    &&& shape.len() == 4
    &&& forall|px: int| 0 <= px < 4 ==> (#[trigger] shape[px]).len() == 4
}

/// The matrix without an occupied cell.
pub open spec fn blank_shape() -> Seq<Seq<u8>> {
    Seq::new(4, |px: int| Seq::new(4, |py: int| 0u8))
}

/// The cell `(px, py)` lies in the matrix and is occupied.
pub open spec fn filled(shape: Seq<Seq<u8>>, px: int, py: int) -> bool {
    0 <= px < 4 && 0 <= py < 4 && shape[px][py] == 1
}

/// The spawn pattern of each kind.
pub open spec fn canonical_shape(kind: TetraminoType) -> Seq<Seq<u8>> {
    match kind {
        TetraminoType::I => grid_of(I_TETRAMINO),
        TetraminoType::S => grid_of(S_TETRAMINO),
        TetraminoType::Z => grid_of(Z_TETRAMINO),
        TetraminoType::J => grid_of(J_TETRAMINO),
        TetraminoType::L => grid_of(L_TETRAMINO),
        TetraminoType::O => grid_of(O_TETRAMINO),
        TetraminoType::T => grid_of(T_TETRAMINO),
    }
}

/// The kind that a draw of `index` out of `KINDS` selects.
pub open spec fn kind_of_index(index: int) -> TetraminoType {
    if index == 0 {
        TetraminoType::I
    } else if index == 1 {
        TetraminoType::S
    } else if index == 2 {
        TetraminoType::Z
    } else if index == 3 {
        TetraminoType::J
    } else if index == 4 {
        TetraminoType::L
    } else if index == 5 {
        TetraminoType::O
    } else {
        TetraminoType::T
    }
}

/// The value that a locked cell of this kind holds on the board.
pub open spec fn code_of(kind: TetraminoType) -> u8 {
    match kind {
        TetraminoType::I => 1,
        TetraminoType::S => 2,
        TetraminoType::Z => 3,
        TetraminoType::J => 4,
        TetraminoType::L => 5,
        TetraminoType::O => 6,
        TetraminoType::T => 7,
    }
}

/// The matrix turned a quarter clockwise: the cell `(px, py)` moves to
/// `(py, 3 - px)`.
pub open spec fn rotated_clockwise(shape: Seq<Seq<u8>>) -> Seq<Seq<u8>> {
    Seq::new(4, |i: int| Seq::new(4, |j: int| shape[3 - j][i]))
}

/// The matrix turned a quarter counterclockwise: the cell `(px, py)` moves to
/// `(3 - py, px)`.
pub open spec fn rotated_counterclockwise(shape: Seq<Seq<u8>>) -> Seq<Seq<u8>> {
    Seq::new(4, |i: int| Seq::new(4, |j: int| shape[j][3 - i]))
}

/// The matrix after `turns` quarter turns clockwise.
pub open spec fn turned(shape: Seq<Seq<u8>>, turns: nat) -> Seq<Seq<u8>>
    decreases turns,
{
    if turns == 0 {
        shape
    } else {
        rotated_clockwise(turned(shape, (turns - 1) as nat))
    }
}

/// `shape` is the spawn pattern of a kind, or one turned by quarter turns.
pub open spec fn is_tetramino_shape(shape: Seq<Seq<u8>>) -> bool {
    exists|kind: TetraminoType, turns: nat|
        turns < 4 && shape == #[trigger] turned(canonical_shape(kind), turns)
}

/// Column `px` of the matrix holds an occupied cell.
pub open spec fn column_used(shape: Seq<Seq<u8>>, px: int) -> bool {
    shape[px][0] == 1 || shape[px][1] == 1 || shape[px][2] == 1 || shape[px][3] == 1
}

/// Row `py` of the matrix holds an occupied cell.
pub open spec fn row_used(shape: Seq<Seq<u8>>, py: int) -> bool {
    shape[0][py] == 1 || shape[1][py] == 1 || shape[2][py] == 1 || shape[3][py] == 1
}

/// The leftmost used column; 3 where no cell is occupied.
pub open spec fn min_x(shape: Seq<Seq<u8>>) -> int {
    if column_used(shape, 0) {
        0
    } else if column_used(shape, 1) {
        1
    } else if column_used(shape, 2) {
        2
    } else {
        3
    }
}

/// The rightmost used column; 0 where no cell is occupied.
pub open spec fn max_x(shape: Seq<Seq<u8>>) -> int {
    if column_used(shape, 3) {
        3
    } else if column_used(shape, 2) {
        2
    } else if column_used(shape, 1) {
        1
    } else {
        0
    }
}

/// The lowest used row; 3 where no cell is occupied.
pub open spec fn min_y(shape: Seq<Seq<u8>>) -> int {
    if row_used(shape, 0) {
        0
    } else if row_used(shape, 1) {
        1
    } else if row_used(shape, 2) {
        2
    } else {
        3
    }
}

/// The highest used row; 0 where no cell is occupied.
pub open spec fn max_y(shape: Seq<Seq<u8>>) -> int {
    if row_used(shape, 3) {
        3
    } else if row_used(shape, 2) {
        2
    } else if row_used(shape, 1) {
        1
    } else {
        0
    }
}

/// The column at which every piece spawns.
pub open spec fn spawn_x() -> int {
    COLS as int / 2 - 2
}

/// The row at which every piece spawns.
pub open spec fn spawn_y() -> int {
    ROWS as int - 4
}

/// The piece of the given kind as it spawns.
pub open spec fn spawned(kind: TetraminoType) -> Piece {
    Piece { x: spawn_x(), y: spawn_y(), shape: canonical_shape(kind), tetramino_type: kind }
}

/// The cell `(px, py)` comes before `(x, y)` when the matrix is read column
/// by column, each from the bottom.
pub open spec fn scanned(px: int, py: int, x: int, y: int) -> bool {
    0 <= px < 4 && 0 <= py < 4 && (px < x || (px == x && py < y))
}

impl View for Tetramino {
    type V = Piece;

    open spec fn view(&self) -> Piece {
        Piece {
            x: self.x as int,
            y: self.y as int,
            shape: grid_of(self.shape),
            tetramino_type: self.tetramino_type,
        }
    }
}

impl TetraminoType {
    /// The kind that a draw of `index` selects.
    pub fn from_index(index: u32) -> (kind: TetraminoType)
        requires
            index < KINDS,
        ensures
            kind == kind_of_index(index as int),
    {
        if index == 0 {
            TetraminoType::I
        } else if index == 1 {
            TetraminoType::S
        } else if index == 2 {
            TetraminoType::Z
        } else if index == 3 {
            TetraminoType::J
        } else if index == 4 {
            TetraminoType::L
        } else if index == 5 {
            TetraminoType::O
        } else {
            TetraminoType::T
        }
    }

    /// The value that a locked cell of this kind holds on the board.
    pub fn code(&self) -> (value: u8)
        ensures
            value == code_of(*self),
            1 <= value <= 7,
    {
        match self {
            TetraminoType::I => 1,
            TetraminoType::S => 2,
            TetraminoType::Z => 3,
            TetraminoType::J => 4,
            TetraminoType::L => 5,
            TetraminoType::O => 6,
            TetraminoType::T => 7,
        }
    }
}

impl Tetramino {
    /// A piece at the spawn anchor with a blank matrix, tagged `I` until
    /// `set_shape` gives it a kind.
    pub fn new() -> (tetramino: Self)
        ensures
            tetramino@ == (Piece {
                x: spawn_x(),
                y: spawn_y(),
                shape: blank_shape(),
                tetramino_type: TetraminoType::I,
            }),
    {
        let tetramino = Self {
            x: (COLS / 2) as i32 - 2,
            y: ROWS as i32 - 4,
            shape: [[0, 0, 0, 0], [0, 0, 0, 0], [0, 0, 0, 0], [0, 0, 0, 0]],
            tetramino_type: TetraminoType::I,
        };
        assert(tetramino@.shape =~~= blank_shape());
        tetramino
    }

    /// Turns the matrix a quarter clockwise. The anchor stays: whether the
    /// turned piece fits is the caller's question to the collision test.
    pub fn rotate_clockwise(&mut self)
        ensures
            final(self)@ == (Piece { shape: rotated_clockwise(old(self)@.shape), ..old(self)@ }),
    {
        let mut new_shape: [[u8; 4]; 4] = [[0u8; 4]; 4];
        let mut x: usize = 0;
        while x < 4
            invariant
                x <= 4,
                *self == *old(self),
                forall|px: int, py: int|
                    0 <= px < x && 0 <= py < 4 ==> new_shape[py][3 - px] == self.shape[px][py],
            decreases 4 - x,
        {
            let mut y: usize = 0;
            while y < 4
                invariant
                    x < 4,
                    y <= 4,
                    *self == *old(self),
                    forall|px: int, py: int|
                        0 <= px < x && 0 <= py < 4 ==> new_shape[py][3 - px] == self.shape[px][py],
                    forall|py: int| 0 <= py < y ==> new_shape[py][3 - x] == self.shape[x as int][py],
                decreases 4 - y,
            {
                new_shape[y][3 - x] = self.shape[x][y];
                y += 1;
            }
            x += 1;
        }
        assert forall|i: int, j: int| 0 <= i < 4 && 0 <= j < 4 implies new_shape[i][j]
            == self.shape[3 - j][i] by {
            assert(new_shape[i][3 - (3 - j)] == self.shape[3 - j][i]);
        }
        self.shape = new_shape;
        assert(final(self)@.shape =~~= rotated_clockwise(old(self)@.shape));
    }

    /// Turns the matrix a quarter counterclockwise. The anchor stays.
    pub fn rotate_conterclockwise(&mut self)
        ensures
            final(self)@ == (Piece {
                shape: rotated_counterclockwise(old(self)@.shape),
                ..old(self)@
            }),
    {
        let mut new_shape: [[u8; 4]; 4] = [[0u8; 4]; 4];
        let mut x: usize = 0;
        while x < 4
            invariant
                x <= 4,
                *self == *old(self),
                forall|px: int, py: int|
                    0 <= px < x && 0 <= py < 4 ==> new_shape[3 - py][px] == self.shape[px][py],
            decreases 4 - x,
        {
            let mut y: usize = 0;
            while y < 4
                invariant
                    x < 4,
                    y <= 4,
                    *self == *old(self),
                    forall|px: int, py: int|
                        0 <= px < x && 0 <= py < 4 ==> new_shape[3 - py][px] == self.shape[px][py],
                    forall|py: int| 0 <= py < y ==> new_shape[3 - py][x as int] == self.shape[x as int][py],
                decreases 4 - y,
            {
                new_shape[3 - y][x] = self.shape[x][y];
                y += 1;
            }
            x += 1;
        }
        assert forall|i: int, j: int| 0 <= i < 4 && 0 <= j < 4 implies new_shape[i][j]
            == self.shape[j][3 - i] by {
            assert(new_shape[3 - (3 - i)][j] == self.shape[j][3 - i]);
        }
        self.shape = new_shape;
        assert(final(self)@.shape =~~= rotated_counterclockwise(old(self)@.shape));
    }

    /// The tight rectangle `(min_x, min_y, max_x, max_y)` round the occupied
    /// cells of the matrix; `(3, 3, 0, 0)` where none is occupied.
    pub fn get_bounds(&self) -> (bounds: (i32, i32, i32, i32))
        ensures
            bounds.0 == min_x(self@.shape),
            bounds.1 == min_y(self@.shape),
            bounds.2 == max_x(self@.shape),
            bounds.3 == max_y(self@.shape),
    {
        let mut min_x: i32 = 3;
        let mut min_y: i32 = 3;
        let mut max_x: i32 = 0;
        let mut max_y: i32 = 0;
        let ghost shape = self@.shape;
        let mut x: i32 = 0;
        while x < 4
            invariant
                0 <= x <= 4,
                shape == self@.shape,
                0 <= min_x <= 3 && 0 <= min_y <= 3 && 0 <= max_x <= 3 && 0 <= max_y <= 3,
                forall|px: int, py: int|
                    scanned(px, py, x as int, 0) && #[trigger] shape[px][py] == 1 ==> min_x <= px
                        <= max_x && min_y <= py <= max_y,
                min_x == 3 || exists|py: int|
                    scanned(min_x as int, py, x as int, 0) && #[trigger] shape[min_x as int][py] == 1,
                max_x == 0 || exists|py: int|
                    scanned(max_x as int, py, x as int, 0) && #[trigger] shape[max_x as int][py] == 1,
                min_y == 3 || exists|px: int|
                    scanned(px, min_y as int, x as int, 0) && #[trigger] shape[px][min_y as int] == 1,
                max_y == 0 || exists|px: int|
                    scanned(px, max_y as int, x as int, 0) && #[trigger] shape[px][max_y as int] == 1,
            decreases 4 - x,
        {
            let mut y: i32 = 0;
            while y < 4
                invariant
                    0 <= x < 4,
                    0 <= y <= 4,
                    shape == self@.shape,
                    0 <= min_x <= 3 && 0 <= min_y <= 3 && 0 <= max_x <= 3 && 0 <= max_y <= 3,
                    forall|px: int, py: int|
                        scanned(px, py, x as int, y as int) && #[trigger] shape[px][py] == 1 ==> min_x
                            <= px <= max_x && min_y <= py <= max_y,
                    min_x == 3 || exists|py: int|
                        scanned(min_x as int, py, x as int, y as int) && #[trigger] shape[min_x as int][py]
                            == 1,
                    max_x == 0 || exists|py: int|
                        scanned(max_x as int, py, x as int, y as int) && #[trigger] shape[max_x as int][py]
                            == 1,
                    min_y == 3 || exists|px: int|
                        scanned(px, min_y as int, x as int, y as int) && #[trigger] shape[px][min_y as int]
                            == 1,
                    max_y == 0 || exists|px: int|
                        scanned(px, max_y as int, x as int, y as int) && #[trigger] shape[px][max_y as int]
                            == 1,
                decreases 4 - y,
            {
                if self.shape[x as usize][y as usize] == 1 {
                    assert(shape[x as int][y as int] == 1);
                    if x < min_x {
                        min_x = x;
                    }
                    if x > max_x {
                        max_x = x;
                    }
                    if y < min_y {
                        min_y = y;
                    }
                    if y > max_y {
                        max_y = y;
                    }
                }
                y += 1;
            }
            x += 1;
        }
        (min_x, min_y, max_x, max_y)
    }

    /// Gives the piece the spawn pattern of `tetramino_type` and tags it with
    /// that kind. The anchor stays.
    pub fn set_shape(&mut self, tetramino_type: &TetraminoType)
        ensures
            final(self)@ == (Piece {
                shape: canonical_shape(*tetramino_type),
                tetramino_type: *tetramino_type,
                ..old(self)@
            }),
    {
        match tetramino_type {
            TetraminoType::I => self.shape = I_TETRAMINO,
            TetraminoType::S => self.shape = S_TETRAMINO,
            TetraminoType::Z => self.shape = Z_TETRAMINO,
            TetraminoType::J => self.shape = J_TETRAMINO,
            TetraminoType::L => self.shape = L_TETRAMINO,
            TetraminoType::O => self.shape = O_TETRAMINO,
            TetraminoType::T => self.shape = T_TETRAMINO,
        }
        self.tetramino_type = *tetramino_type;
    }
}

/// The bounding box is tight: it holds every occupied cell, and where the
/// matrix has an occupied cell, each of its four edges passes through one.
pub proof fn lemma_bounds_tight(shape: Seq<Seq<u8>>)
    requires
        is_shape(shape),
    ensures
        forall|px: int, py: int| #[trigger]
            filled(shape, px, py) ==> min_x(shape) <= px <= max_x(shape) && min_y(shape) <= py
                <= max_y(shape),
        (exists|px: int, py: int| filled(shape, px, py)) ==> {
            &&& column_used(shape, min_x(shape))
            &&& column_used(shape, max_x(shape))
            &&& row_used(shape, min_y(shape))
            &&& row_used(shape, max_y(shape))
        },
{
    if exists|px: int, py: int| filled(shape, px, py) {
        let (px, py) = choose|px: int, py: int| filled(shape, px, py);
        assert(column_used(shape, px));
        assert(row_used(shape, py));
    }
}

/// Four quarter turns clockwise give the matrix back.
pub proof fn lemma_four_clockwise_turns(shape: Seq<Seq<u8>>)
    requires
        is_shape(shape),
    ensures
        rotated_clockwise(rotated_clockwise(rotated_clockwise(rotated_clockwise(shape)))) == shape,
{
    let twice = rotated_clockwise(rotated_clockwise(shape));
    assert forall|i: int, j: int| 0 <= i < 4 && 0 <= j < 4 implies #[trigger] twice[i][j] == shape[3
        - i][3 - j] by {}
    assert(rotated_clockwise(rotated_clockwise(twice)) =~~= shape);
}

/// A quarter turn clockwise and a quarter turn counterclockwise undo each
/// other, in either order.
pub proof fn lemma_opposite_turns_cancel(shape: Seq<Seq<u8>>)
    requires
        is_shape(shape),
    ensures
        rotated_counterclockwise(rotated_clockwise(shape)) == shape,
        rotated_clockwise(rotated_counterclockwise(shape)) == shape,
{
    assert(rotated_counterclockwise(rotated_clockwise(shape)) =~~= shape);
    assert(rotated_clockwise(rotated_counterclockwise(shape)) =~~= shape);
}

/// A quarter turn either way takes the shape of a tetramino to the shape of
/// a tetramino.
pub proof fn lemma_turns_keep_tetramino_shape(shape: Seq<Seq<u8>>)
    requires
        is_tetramino_shape(shape),
    ensures
        is_tetramino_shape(rotated_clockwise(shape)),
        is_tetramino_shape(rotated_counterclockwise(shape)),
{
    let (kind, turns) = choose|kind: TetraminoType, turns: nat|
        turns < 4 && shape == #[trigger] turned(canonical_shape(kind), turns);
    let spawn = canonical_shape(kind);
    reveal_with_fuel(turned, 5);
    lemma_four_clockwise_turns(spawn);
    if turns < 3 {
        assert(rotated_clockwise(shape) == turned(spawn, turns + 1));
    } else {
        assert(rotated_clockwise(shape) == turned(spawn, 0));
    }
    if turns > 0 {
        lemma_opposite_turns_cancel(turned(spawn, (turns - 1) as nat));
        assert(rotated_counterclockwise(shape) == turned(spawn, (turns - 1) as nat));
    } else {
        lemma_opposite_turns_cancel(turned(spawn, 3));
        assert(rotated_counterclockwise(shape) == turned(spawn, 3));
    }
}

/// The shape of a tetramino has an occupied cell, so its bounding box is
/// never the degenerate one.
pub proof fn lemma_tetramino_shape_is_occupied(shape: Seq<Seq<u8>>)
    requires
        is_tetramino_shape(shape),
    ensures
        is_shape(shape),
        exists|px: int, py: int| filled(shape, px, py),
        min_x(shape) <= max_x(shape),
        min_y(shape) <= max_y(shape),
{
    let (kind, turns) = choose|kind: TetraminoType, turns: nat|
        turns < 4 && shape == #[trigger] turned(canonical_shape(kind), turns);
    let spawn = canonical_shape(kind);
    reveal_with_fuel(turned, 5);
    // Each spawn pattern but that of J occupies the cell (1, 1), and that of
    // J the cell (1, 0); a quarter turn clockwise takes (px, py) to (py, 3 - px).
    let (px, py): (int, int) = if kind == TetraminoType::J {
        assert(filled(spawn, 1, 0));
        assert(filled(turned(spawn, 1), 0, 2));
        assert(filled(turned(spawn, 2), 2, 3));
        assert(filled(turned(spawn, 3), 3, 1));
        if turns == 0 {
            (1, 0)
        } else if turns == 1 {
            (0, 2)
        } else if turns == 2 {
            (2, 3)
        } else {
            (3, 1)
        }
    } else {
        assert(filled(spawn, 1, 1));
        assert(filled(turned(spawn, 1), 1, 2));
        assert(filled(turned(spawn, 2), 2, 2));
        assert(filled(turned(spawn, 3), 2, 1));
        if turns == 0 {
            (1, 1)
        } else if turns == 1 {
            (1, 2)
        } else if turns == 2 {
            (2, 2)
        } else {
            (2, 1)
        }
    };
    assert(filled(shape, px, py));
    lemma_bounds_tight(shape);
}

/// A uniform draw from `0..bound`, made by `rand::Rng::gen_range` on
/// `rand::thread_rng()`. Believed of it, not proved: the draw lies in the
/// range. Which value comes is left open, so two draws may differ. The range
/// must not be empty, for `gen_range` panics on an empty one.
#[verifier::external_body]
fn random_below(bound: u32) -> (draw: u32)
    requires
        bound > 0,
    ensures
        draw < bound,
{
    rand::thread_rng().gen_range(0..bound)
}

/// The piece of the given kind at the spawn anchor.
pub fn create_tetramino(tetramino_type: TetraminoType) -> (tetramino: Tetramino)
    ensures
        tetramino@ == spawned(tetramino_type),
{
    let mut tetramino = Tetramino::new();
    tetramino.set_shape(&tetramino_type);
    tetramino
}

/// A piece of a kind drawn at random, at the spawn anchor. Whatever kind was
/// drawn, the piece is that kind as it spawns.
pub fn create_random_tetramino() -> (tetramino: Tetramino)
    ensures
        tetramino@ == spawned(tetramino@.tetramino_type),
{
    let index: u32 = random_below(KINDS);
    create_tetramino(TetraminoType::from_index(index))
}

} // verus!
