use block_dodger::field::{advance, advance_from, collides, place_spawns, Block};

fn block(x: usize, y: usize) -> Block {
    Block { x, y }
}

#[test]
fn advance_moves_every_block_down_one_row() {
    let mut blocks = vec![block(1, 0), block(2, 3), block(3, 7)];
    advance(&mut blocks, 10);
    assert_eq!(blocks, vec![block(1, 1), block(2, 4), block(3, 8)]);
}

#[test]
fn advance_drops_blocks_that_leave_the_grid() {
    let mut blocks = vec![block(1, 0), block(2, 8), block(3, 9), block(4, 5)];
    advance(&mut blocks, 10);
    assert_eq!(blocks, vec![block(1, 1), block(2, 9), block(4, 6)]);
}

#[test]
fn advance_keeps_insertion_order() {
    let mut blocks = vec![block(9, 2), block(0, 9), block(5, 0), block(7, 9), block(1, 4)];
    advance(&mut blocks, 10);
    assert_eq!(blocks, vec![block(9, 3), block(5, 1), block(1, 5)]);
}

#[test]
fn advance_leaves_no_block_at_or_below_height() {
    for height in 1..6usize {
        let mut blocks = Vec::new();
        for y in 0..12usize {
            blocks.push(block(y % 3, y));
        }
        advance(&mut blocks, height);
        assert_eq!(blocks.len(), height - 1);
        for b in &blocks {
            assert!(b.y < height);
        }
    }
}

#[test]
fn advance_treats_blocks_on_one_cell_independently() {
    let mut blocks = vec![block(4, 1), block(4, 1)];
    advance(&mut blocks, 3);
    assert_eq!(blocks, vec![block(4, 2), block(4, 2)]);
    advance(&mut blocks, 3);
    assert_eq!(blocks, Vec::new());
}

#[test]
fn advance_on_an_empty_field_does_nothing() {
    let mut blocks: Vec<Block> = Vec::new();
    advance(&mut blocks, 10);
    assert!(blocks.is_empty());
}

#[test]
fn advance_drops_a_block_at_the_largest_row() {
    let mut blocks = vec![block(0, usize::MAX), block(1, usize::MAX - 1), block(2, 0)];
    advance(&mut blocks, usize::MAX);
    assert_eq!(blocks, vec![block(2, 1)]);
}

#[test]
fn advance_on_a_grid_of_one_row_clears_the_field() {
    let mut blocks = vec![block(0, 0), block(1, 0)];
    advance(&mut blocks, 1);
    assert!(blocks.is_empty());
}

#[test]
fn advance_on_a_grid_without_rows_clears_the_field() {
    let mut blocks = vec![block(0, 0), block(1, 5)];
    advance(&mut blocks, 0);
    assert!(blocks.is_empty());
}

#[test]
fn advance_from_leaves_its_input_alone() {
    let blocks = vec![block(1, 0), block(2, 9)];
    let next = advance_from(&blocks, 10);
    assert_eq!(blocks, vec![block(1, 0), block(2, 9)]);
    assert_eq!(next, vec![block(1, 1)]);
}

#[test]
fn place_spawns_appends_top_row_blocks_in_order() {
    let mut blocks = vec![block(3, 4)];
    place_spawns(&mut blocks, &vec![7, 0, 7]);
    assert_eq!(blocks, vec![block(3, 4), block(7, 0), block(0, 0), block(7, 0)]);
}

#[test]
fn place_spawns_without_columns_changes_nothing() {
    let mut blocks = vec![block(3, 4)];
    place_spawns(&mut blocks, &Vec::new());
    assert_eq!(blocks, vec![block(3, 4)]);
}

#[test]
fn collides_is_false_on_an_empty_field() {
    assert!(!collides(&Vec::new(), 0, 10));
    assert!(!collides(&Vec::new(), 5, 1));
}

#[test]
fn collides_when_a_block_is_on_the_player_cell() {
    let blocks = vec![block(1, 2), block(5, 9), block(7, 9)];
    assert!(collides(&blocks, 5, 10));
    assert!(collides(&blocks, 7, 10));
}

#[test]
fn collides_needs_both_column_and_bottom_row() {
    let blocks = vec![block(5, 8), block(4, 9), block(6, 9)];
    assert!(!collides(&blocks, 5, 10));
    assert!(collides(&blocks, 5, 9));
    assert!(!collides(&blocks, 4, 9));
}

#[test]
fn collides_is_false_on_a_grid_without_rows() {
    let blocks = vec![block(0, 0), block(0, usize::MAX)];
    assert!(!collides(&blocks, 0, 0));
}

#[test]
fn collides_does_not_change_the_field() {
    let blocks = vec![block(5, 9), block(1, 1)];
    let before = blocks.clone();
    let _ = collides(&blocks, 5, 10);
    assert_eq!(blocks, before);
}
