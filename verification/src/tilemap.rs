//! The board: a grid of `ROWS` by `COLS` cells, each empty (zero) or holding the
//! code of the tetramino kind that was locked there.

use vstd::prelude::*;

verus! {

/// Number of rows of the board. Row 0 is the bottom row.
pub const ROWS: usize = 20;

/// Number of columns of the board. Column 0 is the leftmost column.
pub const COLS: usize = 10;

/// The largest cell value: the code of the last tetramino kind.
pub const MAX_CELL: u8 = 7;

/// One cell of the board as a front end sees it.
#[derive(Clone, Copy, Debug, PartialEq, Eq, Structural)]
pub struct Tile {
    pub x: i32,
    pub y: i32,
    pub value: u8,
}

/// The running score of one game.
#[derive(Clone, Copy, Debug)]
pub struct TetrisData {
    pub score: i32,
}

impl Default for TetrisData {
    fn default() -> (data: Self)
        ensures
            data.score == 0,
    {
        TetrisData { score: 0 }
    }
}

/// The grid of locked cells, stored row by row from the bottom.
#[derive(Clone, Copy, Debug)]
pub struct Board {
    cells: [[u8; COLS]; ROWS],
}

/// A row in which no cell is occupied.
pub open spec fn empty_row() -> Seq<u8> {
    Seq::new(COLS as nat, |x: int| 0u8)
}

/// The board on which no cell is occupied.
pub open spec fn empty_grid() -> Seq<Seq<u8>> {
    Seq::new(ROWS as nat, |y: int| empty_row())
}

/// `grid` has the dimensions of a board and holds only cell values.
pub open spec fn is_grid(grid: Seq<Seq<u8>>) -> bool {
    &&& grid.len() == ROWS
    &&& forall|y: int| 0 <= y < ROWS ==> (#[trigger] grid[y]).len() == COLS
    &&& forall|y: int, x: int| 0 <= y < ROWS && 0 <= x < COLS ==> #[trigger] grid[y][x] <= MAX_CELL
}

/// `(x, y)` names a cell of the board.
pub open spec fn on_board(x: int, y: int) -> bool {
    0 <= x < COLS && 0 <= y < ROWS
}

/// Every cell of `row` is occupied.
pub open spec fn row_full(row: Seq<u8>) -> bool {
    forall|x: int| 0 <= x < COLS ==> #[trigger] row[x] != 0
}

/// The rows that a line clear keeps: those that are not full.
pub open spec fn keeps_row() -> spec_fn(Seq<u8>) -> bool {
    |row: Seq<u8>| !row_full(row)
}

/// The rows of `grid` that are not full, in their order from the bottom.
pub open spec fn remaining_rows(grid: Seq<Seq<u8>>) -> Seq<Seq<u8>> {
    grid.filter(keeps_row())
}

/// The number of full rows of `grid`.
pub open spec fn full_row_count(grid: Seq<Seq<u8>>) -> int {
    grid.len() - remaining_rows(grid).len()
}

/// The grid after a line clear: the rows that are not full move down to close
/// the gaps, and as many empty rows as were removed come in at the top.
pub open spec fn cleared(grid: Seq<Seq<u8>>) -> Seq<Seq<u8>> {
    remaining_rows(grid) + Seq::new(full_row_count(grid) as nat, |y: int| empty_row())
}

/// The score that clearing `lines` rows at once brings.
pub open spec fn line_bonus(lines: int) -> int {
    lines * lines * 100
}

/// The rows of a stored grid from the bottom up.
spec fn rows_of(cells: [[u8; COLS]; ROWS]) -> Seq<Seq<u8>> {
    Seq::new(ROWS as nat, |y: int| cells[y]@)
}

impl View for Board {
    type V = Seq<Seq<u8>>;

    /// The rows from the bottom up, each from the left: `self@[y][x]`.
    closed spec fn view(&self) -> Seq<Seq<u8>> {
        rows_of(self.cells)
    }
}

impl Board {
    /// Every cell holds zero or the code of a tetramino kind.
    pub open spec fn wf(&self) -> bool {
        is_grid(self@)
    }

    /// The value of the cell in column `x` of row `y`.
    pub fn get(&self, x: i32, y: i32) -> (value: u8)
        requires
            on_board(x as int, y as int),
        ensures
            value == self@[y as int][x as int],
    {
        self.cells[y as usize][x as usize]
    }

    /// Writes `value` into the cell in column `x` of row `y`.
    pub fn set(&mut self, x: i32, y: i32, value: u8)
        requires
            old(self).wf(),
            on_board(x as int, y as int),
            value <= MAX_CELL,
        ensures
            final(self)@ == old(self)@.update(y as int, old(self)@[y as int].update(x as int, value)),
            final(self).wf(),
    {
        self.cells[y as usize][x as usize] = value;
        assert(final(self)@ =~~= old(self)@.update(y as int, old(self)@[y as int].update(x as int, value)));
    }

    /// The cell in column `x` of row `y`, with its coordinates.
    pub fn tile(&self, x: i32, y: i32) -> (tile: Tile)
        requires
            on_board(x as int, y as int),
        ensures
            tile == (Tile { x, y, value: self@[y as int][x as int] }),
    {
        Tile { x, y, value: self.cells[y as usize][x as usize] }
    }
}

/// Whether every cell of `row` is occupied.
fn row_is_full(row: &[u8; COLS]) -> (full: bool)
    ensures
        full == row_full(row@),
{
    let mut x: usize = 0;
    while x < COLS
        invariant
            x <= COLS,
            forall|i: int| 0 <= i < x ==> row@[i] != 0,
        decreases COLS - x,
    {
        if row[x] == 0 {
            return false;
        }
        x += 1;
    }
    true
}

/// Removes every full row of the board and adds the bonus for them to the
/// score. The rows above a removed row move down, empty rows come in at the
/// top, and no full row is left. Returns the number of rows removed.
pub fn burn_the_line(tetris_data: &mut TetrisData, board: &mut Board) -> (count: i32)
    requires
        old(board).wf(),
        old(tetris_data).score + line_bonus(full_row_count(old(board)@)) <= i32::MAX,
    ensures
        count == full_row_count(old(board)@),
        0 <= count <= ROWS,
        final(board)@ == cleared(old(board)@),
        final(board).wf(),
        forall|y: int| 0 <= y < ROWS ==> !row_full(#[trigger] final(board)@[y]),
        final(tetris_data).score == old(tetris_data).score + line_bonus(count as int),
{
    let ghost grid = board@;
    let mut matrix: [[u8; COLS]; ROWS] = [[0u8; COLS]; ROWS];
    let mut kept: usize = 0;
    let mut y: usize = 0;
    while y < ROWS
        invariant
            y <= ROWS,
            kept <= y,
            grid == board@,
            is_grid(grid),
            rows_of(matrix).take(kept as int) == remaining_rows(grid.take(y as int)),
            forall|i: int| kept <= i < ROWS ==> (#[trigger] matrix[i])@ == empty_row(),
            forall|i: int, x: int|
                0 <= i < kept && 0 <= x < COLS ==> #[trigger] matrix[i][x] <= MAX_CELL,
            forall|i: int| 0 <= i < kept ==> !row_full((#[trigger] matrix[i])@),
        decreases ROWS - y,
    {
        proof {
            assert(grid.take(y + 1) =~= grid.take(y as int).push(grid[y as int]));
            grid.take(y as int).lemma_filter_push(grid[y as int], keeps_row());
        }
        if !row_is_full(&board.cells[y]) {
            let ghost before = rows_of(matrix);
            matrix[kept] = board.cells[y];
            assert(rows_of(matrix).take(kept + 1) =~= before.take(kept as int).push(grid[y as int]));
            assert forall|x: int| 0 <= x < COLS implies #[trigger] matrix[kept as int][x] <= MAX_CELL by {
                assert(grid[y as int][x] <= MAX_CELL);
            }
            kept += 1;
        }
        y += 1;
    }
    let count: i32 = (ROWS - kept) as i32;
    proof {
        assert(grid.take(ROWS as int) =~= grid);
        assert(rows_of(matrix) =~= cleared(grid));
        assert(is_grid(rows_of(matrix))) by {
            assert forall|i: int, x: int| 0 <= i < ROWS && 0 <= x < COLS implies #[trigger] rows_of(
                matrix,
            )[i][x] <= MAX_CELL by {
                if i >= kept {
                    assert(matrix[i]@ == empty_row());
                }
            }
        }
        assert forall|i: int| 0 <= i < ROWS implies !row_full(#[trigger] rows_of(matrix)[i]) by {
            if i >= kept {
                assert(matrix[i]@ == empty_row());
                assert(matrix[i]@[0] == 0);
            }
        }
        assert(0 <= count * count <= 400 && (count == 0 ==> count * count == 0)) by (nonlinear_arith)
            requires
                0 <= count <= 20,
        ;
    }
    board.cells = matrix;
    if count > 0 {
        tetris_data.score += count * count * 100;
    }
    count
}

/// A filter that every item passes keeps the sequence as it is.
proof fn lemma_filter_keeps_all(rows: Seq<Seq<u8>>)
    requires
        forall|y: int| 0 <= y < rows.len() ==> !row_full(#[trigger] rows[y]),
    ensures
        remaining_rows(rows) == rows,
    decreases rows.len(),
{
    reveal(Seq::filter);
    if rows.len() > 0 {
        lemma_filter_keeps_all(rows.drop_last());
        assert(rows.drop_last().push(rows.last()) =~= rows);
    }
}

/// A line clear on a grid without a full row removes nothing and leaves the
/// grid as it is.
pub proof fn lemma_nothing_to_clear(grid: Seq<Seq<u8>>)
    requires
        forall|y: int| 0 <= y < grid.len() ==> !row_full(#[trigger] grid[y]),
    ensures
        full_row_count(grid) == 0,
        cleared(grid) == grid,
{
    lemma_filter_keeps_all(grid);
    assert(cleared(grid) =~= grid);
}

/// A line clear on a grid whose only full row is row `k` removes that one
/// row: the rows above it move down by one, and the top row becomes empty.
pub proof fn lemma_one_full_row(grid: Seq<Seq<u8>>, k: int)
    requires
        0 <= k < grid.len(),
        row_full(grid[k]),
        forall|y: int| 0 <= y < grid.len() && y != k ==> !row_full(#[trigger] grid[y]),
    ensures
        full_row_count(grid) == 1,
        cleared(grid) == grid.remove(k).push(empty_row()),
        forall|y: int| 0 <= y < k ==> cleared(grid)[y] == grid[y],
        forall|y: int| k <= y < grid.len() - 1 ==> cleared(grid)[y] == grid[y + 1],
        cleared(grid)[grid.len() - 1] == empty_row(),
{
    let below = grid.take(k);
    let above = grid.skip(k + 1);
    assert(grid =~= below.push(grid[k]) + above);
    Seq::filter_distributes_over_add(below.push(grid[k]), above, keeps_row());
    below.lemma_filter_push(grid[k], keeps_row());
    lemma_filter_keeps_all(below);
    lemma_filter_keeps_all(above);
    assert(remaining_rows(grid) =~= grid.remove(k));
    assert(cleared(grid) =~= grid.remove(k).push(empty_row()));
}

/// A line clear keeps the dimensions of the board and leaves no full row, so
/// that a second clear right after it finds nothing to remove.
pub proof fn lemma_cleared_is_settled(grid: Seq<Seq<u8>>)
    requires
        is_grid(grid),
    ensures
        is_grid(cleared(grid)),
        forall|y: int| 0 <= y < ROWS ==> !row_full(#[trigger] cleared(grid)[y]),
        full_row_count(cleared(grid)) == 0,
        cleared(cleared(grid)) == cleared(grid),
{
    let kept = remaining_rows(grid);
    grid.lemma_filter_len(keeps_row());
    assert forall|y: int| 0 <= y < ROWS implies {
        &&& !row_full(#[trigger] cleared(grid)[y])
        &&& cleared(grid)[y].len() == COLS
        &&& forall|x: int| 0 <= x < COLS ==> cleared(grid)[y][x] <= MAX_CELL
    } by {
        if y < kept.len() {
            grid.lemma_filter_pred(keeps_row(), y);
            grid.lemma_filter_contains_rev(keeps_row(), kept[y]);
            let i = choose|i: int| 0 <= i < grid.len() && grid[i] == kept[y];
            assert(grid[i].len() == COLS);
            assert forall|x: int| 0 <= x < COLS implies cleared(grid)[y][x] <= MAX_CELL by {
                assert(grid[i][x] <= MAX_CELL);
            }
        } else {
            assert(cleared(grid)[y] == empty_row());
            assert(empty_row()[0] == 0);
        }
    }
    lemma_nothing_to_clear(cleared(grid));
}

/// The bonus for one clear is at most that for a board of full rows.
pub proof fn lemma_line_bonus_bound(grid: Seq<Seq<u8>>)
    requires
        grid.len() == ROWS,
    ensures
        0 <= full_row_count(grid) <= ROWS,
        0 <= line_bonus(full_row_count(grid)) <= 40_000,
{
    grid.lemma_filter_len(keeps_row());
    let n = full_row_count(grid);
    assert(0 <= n * n * 100 <= 40_000) by (nonlinear_arith)
        requires
            0 <= n <= 20,
    ;
}

/// Creates the board of a new game: every cell empty.
pub fn tiles_setup() -> (board: Board)
    ensures
        board@ == empty_grid(),
        board.wf(),
{
    let board = Board { cells: [[0u8; COLS]; ROWS] };
    assert(board@ =~~= empty_grid());
    board
}

} // verus!
