use tetris::collision::check_is_collided;
use tetris::tetramino::{create_tetramino, Tetramino, TetraminoType};
use tetris::tilemap::tiles_setup;

fn piece_at(kind: TetraminoType, x: i32, y: i32) -> Tetramino {
    let mut tetramino = create_tetramino(kind);
    tetramino.x = x;
    tetramino.y = y;
    tetramino
}

#[test]
fn free_fall_is_not_blocked() {
    let board = tiles_setup();
    let tetramino = create_tetramino(TetraminoType::T);
    assert!(!check_is_collided(&tetramino, &board, (0, -1), 0));
    assert!(!check_is_collided(&piece_at(TetraminoType::T, 3, 1), &board, (0, -1), 0));
}

#[test]
fn floor_blocks_descent() {
    let board = tiles_setup();
    assert!(check_is_collided(&piece_at(TetraminoType::T, 3, 0), &board, (0, -1), 0));
    assert!(check_is_collided(&piece_at(TetraminoType::I, 0, 0), &board, (0, -1), 0));
    assert!(check_is_collided(&piece_at(TetraminoType::I, 0, 0), &board, (1, -1), 0));
}

#[test]
fn floor_is_measured_from_the_lowest_occupied_row() {
    let board = tiles_setup();
    // The O pattern leaves its row 0 empty: its cells reach the floor at y = -1.
    assert!(!check_is_collided(&piece_at(TetraminoType::O, 3, 0), &board, (0, -1), 0));
    assert!(check_is_collided(&piece_at(TetraminoType::O, 3, -1), &board, (0, -1), 0));
    assert!(check_is_collided(&piece_at(TetraminoType::O, 3, -5), &board, (0, -1), 0));
}

#[test]
fn floor_does_not_block_a_move_to_the_side() {
    let board = tiles_setup();
    let tetramino = piece_at(TetraminoType::T, 3, 0);
    assert!(!check_is_collided(&tetramino, &board, (-1, 0), 0));
    assert!(!check_is_collided(&tetramino, &board, (1, 0), 0));
    assert!(!check_is_collided(&tetramino, &board, (0, 0), 0));
}

#[test]
fn locked_cell_below_blocks_descent() {
    let mut board = tiles_setup();
    // I at (3, 5) occupies column 4, rows 5 to 8.
    board.set(4, 4, 2);
    let tetramino = piece_at(TetraminoType::I, 3, 5);
    assert!(check_is_collided(&tetramino, &board, (0, -1), 0));
    assert!(!check_is_collided(&tetramino, &board, (0, 0), 0));
    assert!(!check_is_collided(&tetramino, &board, (1, -1), 0));
}

#[test]
fn locked_cell_beside_the_path_does_not_block() {
    let mut board = tiles_setup();
    board.set(3, 4, 2);
    board.set(5, 4, 2);
    board.set(4, 3, 2);
    board.set(4, 9, 2);
    let tetramino = piece_at(TetraminoType::I, 3, 5);
    assert!(!check_is_collided(&tetramino, &board, (0, -1), 0));
}

#[test]
fn locked_cell_beside_blocks_a_move_to_that_side() {
    let mut board = tiles_setup();
    board.set(3, 6, 1);
    let tetramino = piece_at(TetraminoType::I, 3, 5);
    assert!(check_is_collided(&tetramino, &board, (-1, 0), 0));
    assert!(!check_is_collided(&tetramino, &board, (1, 0), 0));
    board.set(5, 8, 7);
    assert!(check_is_collided(&tetramino, &board, (1, 0), 0));
}

#[test]
fn cells_off_the_board_never_overlap() {
    let board = tiles_setup();
    let tetramino = piece_at(TetraminoType::I, -1, 5);
    assert!(!check_is_collided(&tetramino, &board, (-1, 0), 0));
    assert!(!check_is_collided(&tetramino, &board, (-100, 100), 0));
    assert!(!check_is_collided(&piece_at(TetraminoType::I, i32::MAX, i32::MAX), &board, (i32::MAX, i32::MAX), 0));
    assert!(!check_is_collided(&piece_at(TetraminoType::I, i32::MIN, 5), &board, (i32::MIN, 0), 0));
}

#[test]
fn turn_in_open_space_is_free() {
    let board = tiles_setup();
    let tetramino = piece_at(TetraminoType::I, 3, 5);
    assert!(!check_is_collided(&tetramino, &board, (0, 0), 1));
    assert!(!check_is_collided(&tetramino, &board, (0, 0), -1));
}

#[test]
fn turn_is_blocked_where_the_turned_piece_touches_a_side_wall() {
    let board = tiles_setup();
    // I turned either way spans columns 0 to 3 of its matrix.
    assert!(check_is_collided(&piece_at(TetraminoType::I, 0, 5), &board, (0, 0), 1));
    assert!(check_is_collided(&piece_at(TetraminoType::I, 0, 5), &board, (0, 0), -1));
    assert!(!check_is_collided(&piece_at(TetraminoType::I, 1, 5), &board, (0, 0), 1));
    assert!(!check_is_collided(&piece_at(TetraminoType::I, 5, 5), &board, (0, 0), 1));
    assert!(check_is_collided(&piece_at(TetraminoType::I, 6, 5), &board, (0, 0), 1));
    assert!(check_is_collided(&piece_at(TetraminoType::I, 6, 5), &board, (0, 0), -1));
}

#[test]
fn turn_is_blocked_where_the_turned_piece_touches_floor_or_ceiling() {
    let board = tiles_setup();
    // I turned clockwise lies in row 2 of its matrix, counterclockwise in row 1.
    assert!(check_is_collided(&piece_at(TetraminoType::I, 3, -2), &board, (0, 0), 1));
    assert!(!check_is_collided(&piece_at(TetraminoType::I, 3, -1), &board, (0, 0), 1));
    assert!(check_is_collided(&piece_at(TetraminoType::I, 3, -1), &board, (0, 0), -1));
    assert!(!check_is_collided(&piece_at(TetraminoType::I, 3, 0), &board, (0, 0), -1));
    assert!(!check_is_collided(&piece_at(TetraminoType::I, 3, 16), &board, (0, 0), 1));
    assert!(check_is_collided(&piece_at(TetraminoType::I, 3, 17), &board, (0, 0), 1));
    assert!(!check_is_collided(&piece_at(TetraminoType::I, 3, 17), &board, (0, 0), -1));
    assert!(check_is_collided(&piece_at(TetraminoType::I, 3, 18), &board, (0, 0), -1));
}

#[test]
fn turn_is_blocked_by_a_locked_cell_under_the_turned_piece() {
    let mut board = tiles_setup();
    // I at (3, 5) turned clockwise occupies row 7, columns 3 to 6.
    board.set(6, 7, 3);
    let tetramino = piece_at(TetraminoType::I, 3, 5);
    assert!(check_is_collided(&tetramino, &board, (0, 0), 1));
    // Turned counterclockwise it occupies row 6.
    assert!(!check_is_collided(&tetramino, &board, (0, 0), -1));
    board.set(3, 6, 3);
    assert!(check_is_collided(&tetramino, &board, (0, 0), -1));
}

#[test]
fn turn_is_judged_on_the_turned_cells_alone() {
    let mut board = tiles_setup();
    // A locked cell under the piece as it stands does not block the turn.
    board.set(4, 5, 1);
    let tetramino = piece_at(TetraminoType::I, 3, 5);
    assert!(check_is_collided(&tetramino, &board, (0, 0), 0));
    assert!(!check_is_collided(&tetramino, &board, (0, 0), 1));
}
