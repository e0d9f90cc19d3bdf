use pipe_puzzle::board::{
    contains_index, draw_gaps, is_gap_list, index_of, init_board, spawn_tiles, Board,
    BOARD_COLS, BOARD_ROWS, GAP_DRAWS,
};
use pipe_puzzle::pipe::{PipeType, Point};

fn two_by_two() -> Board {
    Board::new(2, 2, &vec![3]).unwrap()
}

fn three_by_four(gaps: Vec<i16>) -> Board {
    Board::new(3, 4, &gaps).unwrap()
}

#[test]
fn new_board_starts_at_the_origin() {
    let board = two_by_two();
    assert_eq!(
        board,
        Board {
            active_tile_idx: 0,
            water_idx: 0,
            next_water_idx: 2,
            next_entry_point: Point::Top,
            size: 4,
            gap_idxs: vec![3],
            cols: 2,
            rows: 2,
        }
    );
    assert!(board.is_valid());
}

#[test]
fn new_board_heads_for_the_tile_below_the_origin() {
    let board = three_by_four(vec![5]);
    assert_eq!(board.size, 12);
    assert_eq!(board.next_water_idx, 4);
    assert_eq!(board.water_idx, 0);
    assert_eq!(board.next_entry_point, Point::Top);
}

#[test]
fn new_board_merges_repeated_draws() {
    let board = three_by_four(vec![5, 7, 5, 11, 7, 5]);
    assert_eq!(board.gap_idxs, vec![5, 7, 11]);
    assert_eq!(board.gap_count(), 3);
    assert!(board.is_valid());
}

#[test]
fn new_board_rejects_a_single_row() {
    assert_eq!(Board::new(1, 5, &vec![3]), None);
    assert_eq!(Board::new(0, 5, &vec![3]), None);
    assert_eq!(Board::new(-2, 5, &vec![3]), None);
}

#[test]
fn new_board_rejects_no_columns() {
    assert_eq!(Board::new(3, 0, &vec![1]), None);
    assert_eq!(Board::new(3, -1, &vec![1]), None);
}

#[test]
fn new_board_rejects_a_size_beyond_the_index_type() {
    assert_eq!(Board::new(200, 200, &vec![1]), None);
    assert_eq!(Board::new(32767, 32767, &vec![1]), None);
    assert_eq!(Board::new(2, 16384, &vec![1]), None);
    let largest = Board::new(2, 16383, &vec![1]).unwrap();
    assert_eq!(largest.size, 32766);
}

#[test]
fn new_board_rejects_no_gaps() {
    assert_eq!(Board::new(2, 2, &vec![]), None);
}

#[test]
fn new_board_rejects_a_gap_at_the_origin() {
    assert_eq!(Board::new(2, 2, &vec![0]), None);
    assert_eq!(Board::new(2, 2, &vec![3, 0]), None);
}

#[test]
fn new_board_rejects_a_gap_off_the_grid() {
    assert_eq!(Board::new(2, 2, &vec![4]), None);
    assert_eq!(Board::new(2, 2, &vec![3, -1]), None);
    assert_eq!(Board::new(2, 2, &vec![1, 2, 3, 100]), None);
}

#[test]
fn new_board_accepts_the_last_place_as_a_gap() {
    let board = Board::new(2, 2, &vec![1, 2, 3]).unwrap();
    assert_eq!(board.gap_count(), 3);
    assert!(board.is_gap(3));
}

#[test]
fn is_gap_tells_gaps_from_tiles() {
    let board = three_by_four(vec![5, 7]);
    assert!(board.is_gap(5));
    assert!(board.is_gap(7));
    assert!(!board.is_gap(0));
    assert!(!board.is_gap(6));
    assert!(!board.is_gap(-1));
    assert!(!board.is_gap(12));
}

#[test]
fn index_of_finds_the_position() {
    let v = vec![4, 9, 2];
    assert_eq!(index_of(&v, 4), Some(0));
    assert_eq!(index_of(&v, 9), Some(1));
    assert_eq!(index_of(&v, 2), Some(2));
    assert_eq!(index_of(&v, 3), None);
    assert_eq!(index_of(&vec![7, 5, 7, 5], 5), Some(1));
    assert!(contains_index(&v, 9));
    assert!(!contains_index(&v, 0));
    assert!(!contains_index(&vec![], 0));
}

#[test]
fn gap_list_wants_distinct_indices_on_the_grid() {
    assert!(is_gap_list(&vec![], 4));
    assert!(is_gap_list(&vec![0, 3, 1], 4));
    assert!(!is_gap_list(&vec![0, 3, 0], 4));
    assert!(!is_gap_list(&vec![1, 1], 4));
    assert!(!is_gap_list(&vec![4], 4));
    assert!(!is_gap_list(&vec![-1], 4));
}

#[test]
fn neighbour_steps_by_one_or_by_a_row() {
    let board = three_by_four(vec![5]);
    assert_eq!(board.neighbour(6, Point::Left), 5);
    assert_eq!(board.neighbour(6, Point::Right), 7);
    assert_eq!(board.neighbour(6, Point::Top), 2);
    assert_eq!(board.neighbour(6, Point::Bottom), 10);
    assert_eq!(board.neighbour(0, Point::Left), -1);
    assert_eq!(board.neighbour(0, Point::Top), -4);
    assert_eq!(board.neighbour(11, Point::Bottom), 15);
}

#[test]
fn neighbour_does_not_overflow_on_the_largest_board() {
    let mut board = Board::new(2, 16383, &vec![1]).unwrap();
    board.active_tile_idx = 32765;
    assert_eq!(board.candidate(Point::Bottom), 32765 + 16383);
    assert!(!board.can_select(Point::Bottom));
    assert!(!board.gap_towards(Point::Bottom));
    assert!(board.can_select(Point::Top));
}

#[test]
fn select_moves_to_a_tile_on_the_grid() {
    let mut board = three_by_four(vec![5]);
    assert!(board.select(Point::Right));
    assert_eq!(board.active_tile_idx, 1);
    assert!(board.select(Point::Right));
    assert_eq!(board.active_tile_idx, 2);
    assert!(board.select(Point::Bottom));
    assert_eq!(board.active_tile_idx, 6);
    assert!(board.select(Point::Top));
    assert_eq!(board.active_tile_idx, 2);
    assert!(board.select(Point::Left));
    assert_eq!(board.active_tile_idx, 1);
    assert!(board.is_valid());
}

#[test]
fn select_does_not_enter_a_gap() {
    let mut board = three_by_four(vec![5]);
    board.active_tile_idx = 4;
    let before = board.clone();
    assert!(!board.can_select(Point::Right));
    assert!(!board.select(Point::Right));
    assert_eq!(board, before);
    board.active_tile_idx = 1;
    let before = board.clone();
    assert!(!board.select(Point::Bottom));
    assert_eq!(board, before);
}

#[test]
fn select_does_not_leave_the_grid() {
    let mut board = three_by_four(vec![5]);
    let before = board.clone();
    assert!(!board.select(Point::Left));
    assert!(!board.select(Point::Top));
    assert_eq!(board, before);
    board.active_tile_idx = 11;
    let before = board.clone();
    assert!(!board.select(Point::Right));
    assert!(!board.select(Point::Bottom));
    assert_eq!(board, before);
}

#[test]
fn select_sideways_wraps_across_row_ends() {
    let mut board = three_by_four(vec![5]);
    board.active_tile_idx = 4;
    assert!(board.select(Point::Left));
    assert_eq!(board.active_tile_idx, 3);
    assert!(board.select(Point::Right));
    assert_eq!(board.active_tile_idx, 4);
}

#[test]
fn gap_towards_sees_the_gap_beside_the_selection() {
    let mut board = three_by_four(vec![5]);
    board.active_tile_idx = 4;
    assert!(board.gap_towards(Point::Right));
    assert!(!board.gap_towards(Point::Left));
    assert!(!board.gap_towards(Point::Bottom));
    board.active_tile_idx = 9;
    assert!(board.gap_towards(Point::Top));
    board.active_tile_idx = 1;
    assert!(board.gap_towards(Point::Bottom));
    board.active_tile_idx = 6;
    assert!(board.gap_towards(Point::Left));
}

#[test]
fn grid_position_is_row_and_column() {
    let board = three_by_four(vec![5]);
    assert_eq!(board.grid_position(0), (0, 0));
    assert_eq!(board.grid_position(3), (0, 3));
    assert_eq!(board.grid_position(4), (1, 0));
    assert_eq!(board.grid_position(11), (2, 3));
}

#[test]
fn is_valid_rejects_a_selected_gap() {
    let mut board = two_by_two();
    board.active_tile_idx = 3;
    assert!(!board.is_valid());
}

#[test]
fn is_valid_rejects_an_empty_gap_list() {
    let mut board = two_by_two();
    board.gap_idxs = vec![];
    assert!(!board.is_valid());
}

#[test]
fn is_valid_rejects_flow_off_the_grid() {
    let mut board = two_by_two();
    board.water_idx = 4;
    assert!(!board.is_valid());
    let mut board = two_by_two();
    board.next_water_idx = -1;
    assert!(!board.is_valid());
}

#[test]
fn is_valid_rejects_other_broken_boards() {
    let mut board = two_by_two();
    board.size = 5;
    assert!(!board.is_valid());
    let mut board = two_by_two();
    board.gap_idxs = vec![3, 3];
    assert!(!board.is_valid());
    let mut board = two_by_two();
    board.gap_idxs = vec![4];
    assert!(!board.is_valid());
    let mut board = two_by_two();
    board.active_tile_idx = -1;
    assert!(!board.is_valid());
    let mut board = two_by_two();
    board.rows = 0;
    board.size = 0;
    assert!(!board.is_valid());
}

#[test]
fn draw_gaps_stays_inside_the_grid() {
    let draws = draw_gaps(400, 140);
    assert_eq!(draws.len(), 400);
    for d in &draws {
        assert!(1 <= *d && *d < 139);
    }
    let narrow = draw_gaps(50, 3);
    assert_eq!(narrow, vec![1; 50]);
    assert_eq!(draw_gaps(0, 3), vec![]);
}

#[test]
fn draw_gaps_varies() {
    let draws = draw_gaps(400, 140);
    assert!(draws.iter().any(|d| *d != draws[0]));
}

#[test]
fn init_board_is_the_standard_board() {
    assert_eq!(BOARD_ROWS, 10);
    assert_eq!(BOARD_COLS, 14);
    assert_eq!(GAP_DRAWS, 19);
    for _ in 0..50 {
        let board = init_board();
        assert!(board.is_valid());
        assert_eq!(board.rows, 10);
        assert_eq!(board.cols, 14);
        assert_eq!(board.size, 140);
        assert_eq!(board.active_tile_idx, 0);
        assert_eq!(board.water_idx, 0);
        assert_eq!(board.next_water_idx, 14);
        assert_eq!(board.next_entry_point, Point::Top);
        assert!(1 <= board.gap_count() && board.gap_count() <= 19);
        for g in &board.gap_idxs {
            assert!(1 <= *g && *g < 139);
        }
    }
}

#[test]
fn spawn_tiles_makes_one_fresh_tile_per_place() {
    let board = three_by_four(vec![5]);
    let tiles = spawn_tiles(&board);
    assert_eq!(tiles.len(), 12);
    assert_eq!(tiles[0].pipe.pipe_type, PipeType::Straight(Point::Top));
    for (i, tile) in tiles.iter().enumerate() {
        assert_eq!(tile.idx as usize, i);
        assert!(tile.movable);
        assert!(!tile.pipe.painted);
        assert_ne!(tile.pipe.pipe_type, PipeType::Elbow(Point::Left));
    }
}

#[test]
fn spawn_tiles_makes_nothing_for_an_empty_grid() {
    let mut board = two_by_two();
    board.size = 0;
    assert_eq!(spawn_tiles(&board), vec![]);
    board.size = -3;
    assert_eq!(spawn_tiles(&board), vec![]);
}
