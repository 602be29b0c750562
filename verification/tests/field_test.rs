use life_game_wasm::error::GameError;
use life_game_wasm::field::Field;

#[test]
fn test_field_creation() {
    let field = Field::new(10, 10);
    assert_eq!(field.width(), 10);
    assert_eq!(field.height(), 10);
    assert_eq!(field.cells().len(), 100);

    // every cell starts out dead
    for cell in field.cells() {
        assert!(!cell);
    }
}

#[test]
fn test_cell_operations() {
    let mut field = Field::new(3, 3);

    // initial state
    assert!(!field.get_cell(1, 1).unwrap());

    // set_cell
    field.set_cell(1, 1, true).unwrap();
    assert!(field.get_cell(1, 1).unwrap());

    // toggle_cell
    field.toggle_cell(1, 1).unwrap();
    assert!(!field.get_cell(1, 1).unwrap());

    // out of bounds
    assert!(field.get_cell(10, 10).is_err());
    assert!(field.set_cell(10, 10, true).is_err());
    assert!(field.toggle_cell(10, 10).is_err());
}

#[test]
fn test_clear() {
    let mut field = Field::new(3, 3);

    // make some cells alive
    field.set_cell(0, 0, true).unwrap();
    field.set_cell(1, 1, true).unwrap();
    field.set_cell(2, 2, true).unwrap();

    field.clear();

    // every cell is dead again
    for row in 0..3 {
        for col in 0..3 {
            assert!(!field.get_cell(row, col).unwrap());
        }
    }
}

#[test]
fn test_count_live_neighbors() {
    let mut field = Field::new(3, 3);

    // the pattern:
    // X O X
    // O X O
    // X O X
    field.set_cell(0, 1, true).unwrap();
    field.set_cell(1, 0, true).unwrap();
    field.set_cell(1, 2, true).unwrap();
    field.set_cell(2, 1, true).unwrap();

    // the centre has four live neighbours
    assert_eq!(field.count_live_neighbors(1, 1), 4);

    // a corner sees cells across the edges
    let corner_neighbors = field.count_live_neighbors(0, 0);
    assert!(corner_neighbors > 0);
}

#[test]
fn field_is_row_major() {
    // three columns, two rows
    let mut field = Field::new(3, 2);
    assert_eq!(field.width(), 3);
    assert_eq!(field.height(), 2);
    field.set_cell(1, 2, true).unwrap();
    assert_eq!(field.get_index(1, 2).unwrap(), 5);
    assert_eq!(field.get_index(0, 0).unwrap(), 0);
    assert_eq!(field.get_index(1, 0).unwrap(), 3);
    assert_eq!(field.cells().to_vec(), vec![false, false, false, false, false, true]);
    assert!(field.get_cell_unchecked(1, 2));
    assert!(!field.get_cell_unchecked(0, 2));
}

#[test]
fn bounds_are_checked_on_each_axis() {
    let mut field = Field::new(3, 2);
    // the last cell is inside
    assert!(field.get_cell(1, 2).is_ok());
    // one row too far, one column too far
    assert!(field.get_cell(2, 0).is_err());
    assert!(field.get_cell(0, 3).is_err());
    assert!(field.get_index(2, 2).is_err());
    assert!(field.set_cell(0, 3, true).is_err());
    assert!(field.toggle_cell(2, 0).is_err());
    // a refused write leaves the grid as it was
    assert_eq!(field.cells().to_vec(), vec![false; 6]);
}

#[test]
fn out_of_bounds_error_names_position_and_size() {
    let field = Field::new(3, 4);
    let error = field.get_cell(10, 12).unwrap_err();
    assert_eq!(
        error.message(),
        "セルの位置 (10, 12) はサイズ 4x3 のフィールド範囲外です"
    );
    assert_eq!(
        error.to_string(),
        "Game Error: セルの位置 (10, 12) はサイズ 4x3 のフィールド範囲外です"
    );
    let error = field.get_index(4, 0).unwrap_err();
    assert_eq!(
        error.message(),
        "セルの位置 (4, 0) はサイズ 4x3 のフィールド範囲外です"
    );
}

#[test]
fn game_error_carries_its_message() {
    let error = GameError::new("no such cell");
    assert_eq!(error.message(), "no such cell");
    assert_eq!(error.to_string(), "Game Error: no such cell");
    assert_eq!(error.clone(), error);
    let empty = GameError::new("");
    assert_eq!(empty.message(), "");
    assert_eq!(empty.to_string(), "Game Error: ");
}

#[test]
fn out_of_bounds_message_writes_numbers_in_decimal() {
    let error = GameError::out_of_bounds(0, 9, 10, 1234567890);
    assert_eq!(
        error.message(),
        "セルの位置 (0, 9) はサイズ 10x1234567890 のフィールド範囲外です"
    );
}

#[test]
fn decimal_string_matches_std() {
    for n in [0usize, 1, 9, 10, 11, 99, 100, 101, 4096, 65535, 1000000, usize::MAX] {
        assert_eq!(life_game_wasm::error::decimal_string(n), format!("{}", n));
    }
}

#[test]
fn set_then_get_returns_what_was_set() {
    let mut field = Field::new(4, 3);
    for row in 0..3 {
        for col in 0..4 {
            field.set_cell(row, col, true).unwrap();
            assert!(field.get_cell(row, col).unwrap());
            field.set_cell(row, col, false).unwrap();
            assert!(!field.get_cell(row, col).unwrap());
        }
    }
}

#[test]
fn set_changes_no_other_cell() {
    let mut field = Field::new(4, 3);
    field.set_cell(1, 2, true).unwrap();
    for row in 0..3 {
        for col in 0..4 {
            assert_eq!(field.get_cell(row, col).unwrap(), (row, col) == (1, 2));
        }
    }
    field.set_cell_unchecked(2, 3, true);
    assert!(field.get_cell(2, 3).unwrap());
    assert!(field.get_cell(1, 2).unwrap());
    assert!(!field.get_cell(2, 2).unwrap());
}

#[test]
fn toggle_twice_restores_the_cell() {
    let mut field = Field::new(4, 3);
    field.set_cell(0, 1, true).unwrap();
    let before = field.clone();
    field.toggle_cell(0, 1).unwrap();
    assert!(!field.get_cell(0, 1).unwrap());
    field.toggle_cell(0, 1).unwrap();
    assert_eq!(field, before);
    field.toggle_cell(2, 3).unwrap();
    assert!(field.get_cell(2, 3).unwrap());
    field.toggle_cell(2, 3).unwrap();
    assert_eq!(field, before);
}

#[test]
fn clear_keeps_the_dimensions() {
    let mut field = Field::new(5, 2);
    field.set_cell(1, 4, true).unwrap();
    field.clear();
    assert_eq!(field, Field::new(5, 2));
    assert_eq!(field.width(), 5);
    assert_eq!(field.height(), 2);
}

#[test]
fn randomize_takes_the_samples_in_row_major_order() {
    let mut field = Field::new(3, 2);
    field.randomize(&[true, false, false, true, true, false]);
    assert!(field.get_cell(0, 0).unwrap());
    assert!(!field.get_cell(0, 1).unwrap());
    assert!(!field.get_cell(0, 2).unwrap());
    assert!(field.get_cell(1, 0).unwrap());
    assert!(field.get_cell(1, 1).unwrap());
    assert!(!field.get_cell(1, 2).unwrap());
}

#[test]
fn randomize_with_too_few_or_too_many_samples() {
    let mut field = Field::new(2, 2);
    field.set_cell(1, 1, true).unwrap();
    // two samples: the second row keeps its state
    field.randomize(&[true, true]);
    assert_eq!(field.cells().to_vec(), vec![true, true, false, true]);
    // six samples: the last two are not used
    field.randomize(&[false, true, false, false, true, true]);
    assert_eq!(field.cells().to_vec(), vec![false, true, false, false]);
    // no samples: nothing changes
    field.randomize(&[]);
    assert_eq!(field.cells().to_vec(), vec![false, true, false, false]);
}

#[test]
fn neighbors_wrap_at_all_four_corners() {
    // 4 columns, 3 rows; live cells at (2,3), (0,3), (2,0), (1,1)
    let mut field = Field::new(4, 3);
    field.set_cell(2, 3, true).unwrap();
    field.set_cell(0, 3, true).unwrap();
    field.set_cell(2, 0, true).unwrap();
    field.set_cell(1, 1, true).unwrap();
    // (0,0): above-left is (2,3), left is (0,3), above is (2,0), below-right is (1,1)
    assert_eq!(field.count_live_neighbors(0, 0), 4);
    // (0,3): above is (2,3), above-right is (2,0)
    assert_eq!(field.count_live_neighbors(0, 3), 2);
    // (2,0): left is (2,3), below-left is (0,3), above-right is (1,1)
    assert_eq!(field.count_live_neighbors(2, 0), 3);
    // (2,3): right is (2,0), below is (0,3)
    assert_eq!(field.count_live_neighbors(2, 3), 2);
}

#[test]
fn every_cell_of_a_full_grid_has_eight_live_neighbors() {
    for (width, height) in [(3usize, 3usize), (4, 3), (5, 7), (1, 1), (2, 2), (1, 3), (2, 5)] {
        let mut field = Field::new(width, height);
        field.randomize(&vec![true; width * height]);
        for row in 0..height {
            for col in 0..width {
                assert_eq!(field.count_live_neighbors(row, col), 8);
            }
        }
        field.clear();
        for row in 0..height {
            for col in 0..width {
                assert_eq!(field.count_live_neighbors(row, col), 0);
            }
        }
    }
}

#[test]
fn narrow_grids_count_a_cell_once_for_each_neighbor_it_is() {
    // a single cell is all eight of its own neighbours
    let mut one = Field::new(1, 1);
    assert_eq!(one.count_live_neighbors(0, 0), 0);
    one.set_cell(0, 0, true).unwrap();
    assert_eq!(one.count_live_neighbors(0, 0), 8);

    // two columns, three rows, live cell at (1,1)
    let mut two = Field::new(2, 3);
    two.set_cell(1, 1, true).unwrap();
    // (1,0) has it to the left and to the right
    assert_eq!(two.count_live_neighbors(1, 0), 2);
    // (1,1) has it neither above nor below nor beside
    assert_eq!(two.count_live_neighbors(1, 1), 0);
    // (0,0) has it below-left and below-right
    assert_eq!(two.count_live_neighbors(0, 0), 2);
    // (0,1) has it below only
    assert_eq!(two.count_live_neighbors(0, 1), 1);
}

#[test]
fn neighbors_of_a_position_outside_are_those_of_the_cell_it_names() {
    let mut field = Field::new(4, 3);
    field.set_cell(0, 1, true).unwrap();
    field.set_cell(2, 2, true).unwrap();
    field.set_cell(1, 3, true).unwrap();
    for row in 0..3 {
        for col in 0..4 {
            let inside = field.count_live_neighbors(row, col);
            assert_eq!(field.count_live_neighbors(row + 3, col), inside);
            assert_eq!(field.count_live_neighbors(row, col + 4), inside);
            assert_eq!(field.count_live_neighbors(row + 6, col + 8), inside);
        }
    }
    assert_eq!(field.count_live_neighbors(usize::MAX, usize::MAX), {
        let row = usize::MAX % 3;
        let col = usize::MAX % 4;
        field.count_live_neighbors(row, col)
    });
}

#[test]
fn neighbor_count_follows_a_mirrored_pattern() {
    // 5 columns, 4 rows
    let live = [(0usize, 1usize), (1, 4), (2, 2), (3, 0), (3, 3)];
    let mut field = Field::new(5, 4);
    let mut left_right = Field::new(5, 4);
    let mut up_down = Field::new(5, 4);
    let mut transposed = Field::new(4, 5);
    for (row, col) in live {
        field.set_cell(row, col, true).unwrap();
        left_right.set_cell(row, 4 - col, true).unwrap();
        up_down.set_cell(3 - row, col, true).unwrap();
        transposed.set_cell(col, row, true).unwrap();
    }
    for row in 0..4 {
        for col in 0..5 {
            let count = field.count_live_neighbors(row, col);
            assert_eq!(left_right.count_live_neighbors(row, 4 - col), count);
            assert_eq!(up_down.count_live_neighbors(3 - row, col), count);
            assert_eq!(transposed.count_live_neighbors(col, row), count);
        }
    }
}

#[test]
fn symmetric_pattern_has_symmetric_counts() {
    // the pattern of a cross on a 3x3 grid is its own mirror image and
    // its own quarter turn
    let mut field = Field::new(3, 3);
    field.set_cell(0, 1, true).unwrap();
    field.set_cell(1, 0, true).unwrap();
    field.set_cell(1, 2, true).unwrap();
    field.set_cell(2, 1, true).unwrap();
    for row in 0..3 {
        for col in 0..3 {
            let count = field.count_live_neighbors(row, col);
            assert_eq!(field.count_live_neighbors(row, 2 - col), count);
            assert_eq!(field.count_live_neighbors(2 - row, col), count);
            assert_eq!(field.count_live_neighbors(col, 2 - row), count);
        }
    }
    // each corner has the two arms beside it and, across the edges, the other two
    assert_eq!(field.count_live_neighbors(0, 0), 4);
    assert_eq!(field.count_live_neighbors(0, 2), 4);
    assert_eq!(field.count_live_neighbors(2, 0), 4);
    assert_eq!(field.count_live_neighbors(2, 2), 4);
}
