use game_of_life::board::Board;
use game_of_life::cell::Cell;

fn empty(width: u32, height: u32) -> Board {
    Board::new_empty(1, width, height)
}

fn with_alive(width: u32, height: u32, alive: &[(u32, u32)]) -> Board {
    let mut board = empty(width, height);
    for &(x, y) in alive {
        board.toggle_cell(x, y);
    }
    board
}

fn cells(board: &Board) -> Vec<Vec<Cell>> {
    let mut all = Vec::new();
    for x in 0..board.width() {
        let mut column = Vec::new();
        for y in 0..board.height() {
            column.push(board.cell(x, y).unwrap());
        }
        all.push(column);
    }
    all
}

fn alive_cells(board: &Board) -> Vec<(u32, u32)> {
    let mut alive = Vec::new();
    for x in 0..board.width() {
        for y in 0..board.height() {
            if board.cell(x, y) == Some(Cell::Alive) {
                alive.push((x, y));
            }
        }
    }
    alive
}

#[test]
fn cell_rule_table() {
    for n in 0..=8u32 {
        let from_alive = if n == 2 || n == 3 { Cell::Alive } else { Cell::Dead };
        let from_dead = if n == 3 { Cell::Alive } else { Cell::Dead };
        assert_eq!(Cell::Alive.next(n), from_alive);
        assert_eq!(Cell::Dead.next(n), from_dead);
    }
    assert_eq!(Cell::Alive.next(u32::MAX), Cell::Dead);
}

#[test]
fn cell_toggled_and_is_alive() {
    assert_eq!(Cell::Alive.toggled(), Cell::Dead);
    assert_eq!(Cell::Dead.toggled(), Cell::Alive);
    assert!(Cell::Alive.is_alive());
    assert!(!Cell::Dead.is_alive());
}

#[test]
fn new_empty_divides_pixels_by_scale() {
    let board = Board::new_empty(10, 1000, 750);
    assert_eq!(board.width(), 100);
    assert_eq!(board.height(), 75);
    assert_eq!(board.scale(), 10);
    assert!(alive_cells(&board).is_empty());
}

#[test]
fn new_empty_truncates_the_division() {
    let board = Board::new_empty(10, 39, 21);
    assert_eq!(board.width(), 3);
    assert_eq!(board.height(), 2);
    assert_eq!(cells(&board), vec![vec![Cell::Dead; 2]; 3]);
}

#[test]
fn new_places_the_six_seed_cells() {
    let board = Board::new(10, 1000, 750);
    assert_eq!(board.width(), 100);
    assert_eq!(board.height(), 75);
    assert_eq!(board.scale(), 10);
    assert_eq!(
        alive_cells(&board),
        vec![(49, 38), (50, 37), (50, 38), (51, 37), (51, 38), (52, 37)]
    );
}

#[test]
fn new_on_the_smallest_grid_that_fits() {
    assert!(Board::can_seed(1, 5, 3));
    let board = Board::new(1, 5, 3);
    assert_eq!(
        alive_cells(&board),
        vec![(1, 2), (2, 1), (2, 2), (3, 1), (3, 2), (4, 1)]
    );
}

#[test]
fn can_seed_names_the_grids_that_fit() {
    assert!(Board::can_seed(10, 1000, 750));
    assert!(Board::can_seed(10, 59, 39));
    assert!(!Board::can_seed(10, 49, 39));
    assert!(!Board::can_seed(10, 59, 29));
    assert!(!Board::can_seed(1, 4, 3));
    assert!(!Board::can_seed(1, 5, 2));
    assert!(!Board::can_seed(0, 1000, 750));
}

#[test]
fn seed_after_one_step() {
    let mut board = Board::new(1, 9, 9);
    // . X X X
    // X X X .   around the centre (4, 4)
    assert_eq!(
        alive_cells(&board),
        vec![(3, 5), (4, 4), (4, 5), (5, 4), (5, 5), (6, 4)]
    );
    board.step();
    assert_eq!(
        alive_cells(&board),
        vec![(3, 4), (3, 5), (4, 6), (5, 3), (6, 4), (6, 5)]
    );
}

#[test]
fn cell_reads_in_range_only() {
    let board = with_alive(3, 2, &[(2, 1)]);
    assert_eq!(board.cell(2, 1), Some(Cell::Alive));
    assert_eq!(board.cell(0, 0), Some(Cell::Dead));
    assert_eq!(board.cell(3, 0), None);
    assert_eq!(board.cell(0, 2), None);
    assert_eq!(board.cell(u32::MAX, u32::MAX), None);
}

#[test]
fn neighbor_counting_is_edge_correct() {
    let board = with_alive(3, 3, &[(1, 1)]);
    assert_eq!(board.count_alive_neighbors(0, 0), 1);
    assert_eq!(board.count_alive_neighbors(2, 0), 1);
    assert_eq!(board.count_alive_neighbors(0, 2), 1);
    assert_eq!(board.count_alive_neighbors(2, 2), 1);
    assert_eq!(board.count_alive_neighbors(1, 1), 0);
    assert_eq!(board.count_alive_neighbors(1, 0), 1);
    assert_eq!(board.count_alive_neighbors(0, 1), 1);
}

#[test]
fn neighbor_counting_does_not_wrap() {
    let board = with_alive(4, 4, &[(3, 0), (3, 1), (3, 2), (3, 3), (0, 3), (1, 3), (2, 3)]);
    assert_eq!(board.count_alive_neighbors(0, 0), 0);
    assert_eq!(board.count_alive_neighbors(0, 1), 0);
    assert_eq!(board.count_alive_neighbors(1, 0), 0);
    assert_eq!(board.count_alive_neighbors(2, 2), 5);
    assert_eq!(board.count_alive_neighbors(3, 3), 2);
}

#[test]
fn neighbor_counting_reaches_eight() {
    let mut all = Vec::new();
    for x in 0..3 {
        for y in 0..3 {
            all.push((x, y));
        }
    }
    let board = with_alive(3, 3, &all);
    assert_eq!(board.count_alive_neighbors(1, 1), 8);
    assert_eq!(board.count_alive_neighbors(0, 0), 3);
    assert_eq!(board.count_alive_neighbors(1, 0), 5);
}

#[test]
fn neighbor_counting_off_the_board() {
    let board = with_alive(3, 3, &[(2, 2), (2, 1)]);
    assert_eq!(board.count_alive_neighbors(3, 3), 1);
    assert_eq!(board.count_alive_neighbors(3, 2), 2);
    assert_eq!(board.count_alive_neighbors(4, 2), 0);
    assert_eq!(board.count_alive_neighbors(u32::MAX, u32::MAX), 0);
}

#[test]
fn step_matches_the_rule_on_the_snapshot() {
    let mut board = Board::new(1, 12, 10);
    for _ in 0..6 {
        let mut expected = Vec::new();
        for x in 0..board.width() {
            let mut column = Vec::new();
            for y in 0..board.height() {
                let n = board.count_alive_neighbors(x, y);
                let now = board.cell(x, y).unwrap();
                let next = if n == 3 || (n == 2 && now == Cell::Alive) {
                    Cell::Alive
                } else {
                    Cell::Dead
                };
                column.push(next);
            }
            expected.push(column);
        }
        board.step();
        assert_eq!(board.width(), 12);
        assert_eq!(board.height(), 10);
        assert_eq!(cells(&board), expected);
    }
}

#[test]
fn blinker_oscillates() {
    let mut board = with_alive(5, 5, &[(1, 2), (2, 2), (3, 2)]);
    board.step();
    assert_eq!(alive_cells(&board), vec![(2, 1), (2, 2), (2, 3)]);
    board.step();
    assert_eq!(alive_cells(&board), vec![(1, 2), (2, 2), (3, 2)]);
}

#[test]
fn isolated_cell_dies() {
    let mut board = with_alive(5, 5, &[(2, 2)]);
    board.step();
    assert!(alive_cells(&board).is_empty());
}

#[test]
fn cell_with_one_neighbor_dies() {
    let mut board = with_alive(5, 5, &[(2, 2), (3, 3)]);
    assert_eq!(board.count_alive_neighbors(2, 2), 1);
    board.step();
    assert_eq!(board.cell(2, 2), Some(Cell::Dead));
    assert!(alive_cells(&board).is_empty());
}

#[test]
fn cell_with_eight_neighbors_dies() {
    let mut all = Vec::new();
    for x in 1..4 {
        for y in 1..4 {
            all.push((x, y));
        }
    }
    let mut board = with_alive(5, 5, &all);
    assert_eq!(board.count_alive_neighbors(2, 2), 8);
    board.step();
    assert_eq!(board.cell(2, 2), Some(Cell::Dead));
}

#[test]
fn dead_cell_with_three_neighbors_is_born() {
    let mut board = with_alive(5, 5, &[(1, 1), (2, 1), (3, 1)]);
    assert_eq!(board.cell(2, 2), Some(Cell::Dead));
    assert_eq!(board.count_alive_neighbors(2, 2), 3);
    board.step();
    assert_eq!(board.cell(2, 2), Some(Cell::Alive));
}

#[test]
fn dead_cell_with_two_neighbors_stays_dead() {
    let mut board = with_alive(5, 5, &[(1, 1), (3, 1)]);
    assert_eq!(board.count_alive_neighbors(2, 2), 2);
    board.step();
    assert_eq!(board.cell(2, 2), Some(Cell::Dead));
}

#[test]
fn dead_cell_with_four_neighbors_stays_dead() {
    let mut board = with_alive(5, 5, &[(1, 1), (3, 1), (1, 3), (3, 3)]);
    assert_eq!(board.count_alive_neighbors(2, 2), 4);
    board.step();
    assert_eq!(board.cell(2, 2), Some(Cell::Dead));
}

#[test]
fn live_cell_with_four_neighbors_dies() {
    let mut board = with_alive(5, 5, &[(2, 2), (1, 1), (3, 1), (1, 3), (3, 3)]);
    board.step();
    assert_eq!(board.cell(2, 2), Some(Cell::Dead));
}

#[test]
fn live_cell_with_two_or_three_neighbors_survives() {
    let mut two = with_alive(5, 5, &[(2, 2), (1, 1), (3, 3)]);
    two.step();
    assert_eq!(two.cell(2, 2), Some(Cell::Alive));
    let mut three = with_alive(5, 5, &[(2, 2), (1, 1), (3, 3), (1, 3)]);
    three.step();
    assert_eq!(three.cell(2, 2), Some(Cell::Alive));
}

#[test]
fn block_is_a_still_life() {
    let block = [(3, 3), (3, 4), (4, 3), (4, 4)];
    let mut board = with_alive(8, 8, &block);
    let before = cells(&board);
    board.step();
    assert_eq!(alive_cells(&board), block.to_vec());
    assert_eq!(cells(&board), before);
}

#[test]
fn resize_preserves_overlap() {
    let mut board = with_alive(4, 4, &[(1, 1)]);
    board.resize(6, 6);
    assert_eq!(board.width(), 6);
    assert_eq!(board.height(), 6);
    assert_eq!(board.cell(1, 1), Some(Cell::Alive));
    for x in 0..6 {
        for y in 0..6 {
            if x >= 4 || y >= 4 {
                assert_eq!(board.cell(x, y), Some(Cell::Dead));
            }
        }
    }
    assert_eq!(alive_cells(&board), vec![(1, 1)]);
    board.resize(2, 2);
    assert_eq!(board.width(), 2);
    assert_eq!(board.height(), 2);
    assert_eq!(alive_cells(&board), vec![(1, 1)]);
    board.resize(1, 1);
    assert_eq!(cells(&board), vec![vec![Cell::Dead]]);
}

#[test]
fn resize_truncates_and_does_not_bring_cells_back() {
    let mut board = with_alive(4, 4, &[(0, 0), (3, 3), (2, 1)]);
    board.resize(3, 2);
    assert_eq!(alive_cells(&board), vec![(0, 0), (2, 1)]);
    board.resize(4, 4);
    assert_eq!(alive_cells(&board), vec![(0, 0), (2, 1)]);
}

#[test]
fn resize_uses_the_stored_scale() {
    let mut board = Board::new_empty(10, 40, 40);
    board.toggle_cell(3, 3);
    board.resize(65, 59);
    assert_eq!(board.scale(), 10);
    assert_eq!(board.width(), 6);
    assert_eq!(board.height(), 5);
    assert_eq!(alive_cells(&board), vec![(3, 3)]);
}

#[test]
fn zero_dimension_grid_is_harmless() {
    let mut board = Board::new_empty(10, 40, 40);
    board.toggle_cell(1, 1);
    board.resize(5, 40);
    assert_eq!(board.width(), 0);
    assert_eq!(board.height(), 4);
    board.step();
    board.toggle_cell(0, 0);
    assert_eq!(board.count_alive_neighbors(0, 0), 0);
    assert_eq!(board.cell(0, 0), None);
    assert_eq!(board.width(), 0);
    assert_eq!(board.height(), 4);

    let mut flat = Board::new_empty(10, 40, 9);
    assert_eq!(flat.width(), 4);
    assert_eq!(flat.height(), 0);
    flat.step();
    flat.toggle_cell(0, 0);
    assert_eq!(flat.count_alive_neighbors(1, 0), 0);
    assert_eq!(flat.cell(0, 0), None);
    assert_eq!(flat.width(), 4);
    assert_eq!(flat.height(), 0);
    flat.resize(40, 40);
    assert_eq!(cells(&flat), vec![vec![Cell::Dead; 4]; 4]);
}

#[test]
fn toggle_flips_exactly_one_cell() {
    let mut board = with_alive(4, 3, &[(0, 0), (3, 2)]);
    board.toggle_cell(2, 1);
    assert_eq!(alive_cells(&board), vec![(0, 0), (2, 1), (3, 2)]);
    board.toggle_cell(0, 0);
    assert_eq!(alive_cells(&board), vec![(2, 1), (3, 2)]);
}

#[test]
fn toggle_twice_restores_the_cell() {
    let mut board = Board::new(1, 7, 6);
    let before = cells(&board);
    for x in 0..7 {
        for y in 0..6 {
            board.toggle_cell(x, y);
            assert_ne!(cells(&board), before);
            board.toggle_cell(x, y);
            assert_eq!(cells(&board), before);
        }
    }
}

#[test]
fn toggle_out_of_range_changes_nothing() {
    let mut board = Board::new(1, 7, 6);
    let before = cells(&board);
    board.toggle_cell(7, 0);
    board.toggle_cell(0, 6);
    board.toggle_cell(7, 6);
    board.toggle_cell(u32::MAX, 2);
    assert_eq!(cells(&board), before);
    assert_eq!(board.width(), 7);
    assert_eq!(board.height(), 6);
}

#[test]
fn clear_keeps_the_size() {
    let mut board = Board::new(10, 100, 80);
    board.clear();
    assert_eq!(board.width(), 10);
    assert_eq!(board.height(), 8);
    assert_eq!(board.scale(), 10);
    assert!(alive_cells(&board).is_empty());
}
