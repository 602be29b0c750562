use life_game_wasm::field::Field;
use life_game_wasm::rules::standard_rule::StandardRule;
use life_game_wasm::rules::Rule;

#[test]
fn test_standard_rule() {
    let mut field = Field::new(5, 5);
    let rule = StandardRule::new();

    // a blinker
    let _ = field.set_cell(2, 1, true);
    let _ = field.set_cell(2, 2, true);
    let _ = field.set_cell(2, 3, true);

    // one generation on
    let next_field = rule.apply(&field);

    // the blinker has turned
    assert!(next_field.get_cell(1, 2).unwrap());
    assert!(next_field.get_cell(2, 2).unwrap());
    assert!(next_field.get_cell(3, 2).unwrap());
    assert!(!next_field.get_cell(2, 1).unwrap());
    assert!(!next_field.get_cell(2, 3).unwrap());
}

/// The blinker turns between lying and standing.
#[test]
fn test_blinker_pattern() {
    let mut field = Field::new(5, 5);
    let rule = StandardRule::new();

    // lying
    field.set_cell(2, 1, true).unwrap();
    field.set_cell(2, 2, true).unwrap();
    field.set_cell(2, 3, true).unwrap();

    // standing
    let field = rule.apply(&field);
    assert!(field.get_cell(1, 2).unwrap());
    assert!(field.get_cell(2, 2).unwrap());
    assert!(field.get_cell(3, 2).unwrap());
    assert!(!field.get_cell(2, 1).unwrap());
    assert!(!field.get_cell(2, 3).unwrap());

    // lying again
    let field = rule.apply(&field);
    assert!(field.get_cell(2, 1).unwrap());
    assert!(field.get_cell(2, 2).unwrap());
    assert!(field.get_cell(2, 3).unwrap());
    assert!(!field.get_cell(1, 2).unwrap());
    assert!(!field.get_cell(3, 2).unwrap());
}

/// The block is a still life.
#[test]
fn test_block_pattern() {
    let mut field = Field::new(4, 4);
    let rule = StandardRule::new();

    // a block of two by two
    field.set_cell(1, 1, true).unwrap();
    field.set_cell(1, 2, true).unwrap();
    field.set_cell(2, 1, true).unwrap();
    field.set_cell(2, 2, true).unwrap();

    // it stays as it is
    let next_field = rule.apply(&field);
    assert!(next_field.get_cell(1, 1).unwrap());
    assert!(next_field.get_cell(1, 2).unwrap());
    assert!(next_field.get_cell(2, 1).unwrap());
    assert!(next_field.get_cell(2, 2).unwrap());

    // the other cells stay dead
    assert!(!next_field.get_cell(0, 0).unwrap());
    assert!(!next_field.get_cell(0, 1).unwrap());
    assert!(!next_field.get_cell(3, 3).unwrap());
}

fn field_of(width: usize, height: usize, live: &[(usize, usize)]) -> Field {
    let mut field = Field::new(width, height);
    for &(row, col) in live {
        field.set_cell(row, col, true).unwrap();
    }
    field
}

#[test]
fn blinker_has_exactly_three_live_cells_in_each_phase() {
    let rule = StandardRule::new();
    let lying = field_of(5, 5, &[(2, 1), (2, 2), (2, 3)]);
    let standing = field_of(5, 5, &[(1, 2), (2, 2), (3, 2)]);
    let first = rule.apply(&lying);
    assert_eq!(first, standing);
    let second = rule.apply(&first);
    assert_eq!(second, lying);
}

#[test]
fn block_is_a_fixed_point() {
    let rule = StandardRule::new();
    let block = field_of(4, 4, &[(1, 1), (1, 2), (2, 1), (2, 2)]);
    let mut field = block.clone();
    for _ in 0..25 {
        field = rule.apply(&field);
        assert_eq!(field, block);
    }
}

#[test]
fn apply_leaves_its_input_alone_and_repeats_its_answer() {
    let rule = StandardRule::new();
    let field = field_of(6, 5, &[(0, 0), (0, 5), (1, 1), (2, 3), (3, 3), (4, 3), (4, 0)]);
    let before = field.clone();
    let first = rule.apply(&field);
    assert_eq!(field, before);
    let second = rule.apply(&field);
    assert_eq!(field, before);
    assert_eq!(first, second);
    assert_eq!(first.width(), 6);
    assert_eq!(first.height(), 5);
}

#[test]
fn every_count_gives_the_state_of_the_rule() {
    // the centre of a 5x5 grid, dead or alive, with 0 to 8 live neighbours
    let around = [(1usize, 1usize), (1, 2), (1, 3), (2, 1), (2, 3), (3, 1), (3, 2), (3, 3)];
    let rule = StandardRule::new();
    for alive in [false, true] {
        for count in 0..=8usize {
            let mut field = field_of(5, 5, &around[..count]);
            field.set_cell(2, 2, alive).unwrap();
            assert_eq!(field.count_live_neighbors(2, 2) as usize, count);
            let next = rule.apply(&field);
            let expected = if alive { count == 2 || count == 3 } else { count == 3 };
            assert_eq!(next.get_cell(2, 2).unwrap(), expected);
        }
    }
}

#[test]
fn the_update_is_simultaneous() {
    // a glider, one generation on
    let rule = StandardRule::new();
    let glider = field_of(6, 6, &[(0, 1), (1, 2), (2, 0), (2, 1), (2, 2)]);
    let next = rule.apply(&glider);
    assert_eq!(next, field_of(6, 6, &[(1, 0), (1, 2), (2, 1), (2, 2), (3, 1)]));
}

#[test]
fn the_rule_wraps_around_the_edges() {
    // a blinker that lies across the right edge of a 5x5 grid
    let rule = StandardRule::new();
    let lying = field_of(5, 5, &[(0, 4), (0, 0), (0, 1)]);
    let standing = field_of(5, 5, &[(4, 0), (0, 0), (1, 0)]);
    assert_eq!(rule.apply(&lying), standing);
    assert_eq!(rule.apply(&standing), lying);
}

#[test]
fn a_rule_can_be_used_through_the_trait() {
    let rule: Box<dyn Rule> = Box::new(StandardRule::new());
    let lying = field_of(5, 5, &[(2, 1), (2, 2), (2, 3)]);
    let standing = field_of(5, 5, &[(1, 2), (2, 2), (3, 2)]);
    assert_eq!(rule.apply(&lying), standing);
}
