use tetris::tilemap::{burn_the_line, tiles_setup, Board, TetrisData, Tile, COLS, ROWS};

fn fill_row(board: &mut Board, y: i32, value: u8) {
    for x in 0..COLS as i32 {
        board.set(x, y, value);
    }
}

fn snapshot(board: &Board) -> Vec<Vec<u8>> {
    (0..ROWS as i32).map(|y| (0..COLS as i32).map(|x| board.get(x, y)).collect()).collect()
}

#[test]
fn board_is_twenty_rows_of_ten() {
    assert_eq!(ROWS, 20);
    assert_eq!(COLS, 10);
}

#[test]
fn new_board_is_empty() {
    let board = tiles_setup();
    assert_eq!(snapshot(&board), vec![vec![0u8; 10]; 20]);
}

#[test]
fn set_writes_one_cell() {
    let mut board = tiles_setup();
    board.set(3, 7, 5);
    let mut expected = vec![vec![0u8; 10]; 20];
    expected[7][3] = 5;
    assert_eq!(snapshot(&board), expected);
    assert_eq!(board.get(3, 7), 5);
    assert_eq!(board.get(7, 3), 0);
    board.set(3, 7, 0);
    assert_eq!(snapshot(&board), vec![vec![0u8; 10]; 20]);
}

#[test]
fn corners_are_cells() {
    let mut board = tiles_setup();
    board.set(0, 0, 1);
    board.set(9, 0, 2);
    board.set(0, 19, 3);
    board.set(9, 19, 7);
    assert_eq!(board.get(0, 0), 1);
    assert_eq!(board.get(9, 0), 2);
    assert_eq!(board.get(0, 19), 3);
    assert_eq!(board.get(9, 19), 7);
}

#[test]
fn tile_carries_coordinates_and_value() {
    let mut board = tiles_setup();
    board.set(4, 2, 6);
    assert_eq!(board.tile(4, 2), Tile { x: 4, y: 2, value: 6 });
    assert_eq!(board.tile(2, 4), Tile { x: 2, y: 4, value: 0 });
}

#[test]
fn score_starts_at_zero() {
    assert_eq!(TetrisData::default().score, 0);
}

#[test]
fn nothing_full_nothing_cleared() {
    let mut board = tiles_setup();
    for x in 0..9 {
        board.set(x, 0, 1);
    }
    board.set(9, 1, 2);
    board.set(4, 19, 3);
    let before = snapshot(&board);
    let mut data = TetrisData { score: 250 };
    assert_eq!(burn_the_line(&mut data, &mut board), 0);
    assert_eq!(snapshot(&board), before);
    assert_eq!(data.score, 250);
}

#[test]
fn empty_board_has_nothing_to_clear() {
    let mut board = tiles_setup();
    let mut data = TetrisData::default();
    assert_eq!(burn_the_line(&mut data, &mut board), 0);
    assert_eq!(snapshot(&board), vec![vec![0u8; 10]; 20]);
    assert_eq!(data.score, 0);
}

#[test]
fn only_row_five_full() {
    let mut board = tiles_setup();
    fill_row(&mut board, 5, 4);
    let mut data = TetrisData::default();
    assert_eq!(burn_the_line(&mut data, &mut board), 1);
    assert_eq!(snapshot(&board), vec![vec![0u8; 10]; 20]);
    assert_eq!(data.score, 100);
}

#[test]
fn rows_above_a_cleared_row_move_down_by_one() {
    let mut board = tiles_setup();
    board.set(2, 3, 1);
    board.set(0, 4, 2);
    fill_row(&mut board, 5, 4);
    board.set(7, 6, 3);
    board.set(8, 7, 5);
    board.set(9, 19, 6);
    let mut data = TetrisData { score: 40 };
    assert_eq!(burn_the_line(&mut data, &mut board), 1);
    let mut expected = vec![vec![0u8; 10]; 20];
    expected[3][2] = 1;
    expected[4][0] = 2;
    expected[5][7] = 3;
    expected[6][8] = 5;
    expected[18][9] = 6;
    assert_eq!(snapshot(&board), expected);
    assert_eq!(data.score, 140);
}

#[test]
fn two_lines_at_once_score_four_hundred() {
    let mut board = tiles_setup();
    fill_row(&mut board, 0, 1);
    board.set(5, 1, 2);
    fill_row(&mut board, 2, 3);
    board.set(6, 3, 4);
    let mut data = TetrisData::default();
    assert_eq!(burn_the_line(&mut data, &mut board), 2);
    let mut expected = vec![vec![0u8; 10]; 20];
    expected[0][5] = 2;
    expected[1][6] = 4;
    assert_eq!(snapshot(&board), expected);
    assert_eq!(data.score, 400);
}

#[test]
fn three_lines_at_once_score_nine_hundred() {
    let mut board = tiles_setup();
    fill_row(&mut board, 1, 1);
    fill_row(&mut board, 2, 1);
    fill_row(&mut board, 3, 1);
    let mut data = TetrisData::default();
    assert_eq!(burn_the_line(&mut data, &mut board), 3);
    assert_eq!(data.score, 900);
}

#[test]
fn four_lines_at_once_score_sixteen_hundred() {
    let mut board = tiles_setup();
    for y in 0..4 {
        fill_row(&mut board, y, 1);
    }
    board.set(0, 4, 7);
    let mut data = TetrisData { score: 1000 };
    assert_eq!(burn_the_line(&mut data, &mut board), 4);
    let mut expected = vec![vec![0u8; 10]; 20];
    expected[0][0] = 7;
    assert_eq!(snapshot(&board), expected);
    assert_eq!(data.score, 2600);
}

#[test]
fn a_board_of_full_rows_is_emptied() {
    let mut board = tiles_setup();
    for y in 0..ROWS as i32 {
        fill_row(&mut board, y, 7);
    }
    let mut data = TetrisData::default();
    assert_eq!(burn_the_line(&mut data, &mut board), 20);
    assert_eq!(snapshot(&board), vec![vec![0u8; 10]; 20]);
    assert_eq!(data.score, 40_000);
}

#[test]
fn top_row_full_is_cleared_too() {
    let mut board = tiles_setup();
    board.set(1, 18, 2);
    fill_row(&mut board, 19, 3);
    let mut data = TetrisData::default();
    assert_eq!(burn_the_line(&mut data, &mut board), 1);
    let mut expected = vec![vec![0u8; 10]; 20];
    expected[18][1] = 2;
    assert_eq!(snapshot(&board), expected);
}

#[test]
fn a_second_clear_finds_nothing() {
    let mut board = tiles_setup();
    fill_row(&mut board, 0, 1);
    fill_row(&mut board, 4, 2);
    board.set(3, 9, 5);
    let mut data = TetrisData::default();
    assert_eq!(burn_the_line(&mut data, &mut board), 2);
    let after = snapshot(&board);
    assert_eq!(burn_the_line(&mut data, &mut board), 0);
    assert_eq!(snapshot(&board), after);
    assert_eq!(data.score, 400);
}
