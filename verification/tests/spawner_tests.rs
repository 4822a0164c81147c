use block_dodger::difficulty::{level_for, max_spawns};
use block_dodger::field::Block;
use block_dodger::spawner::{draw_spawns, spawn};
use rand::rngs::StdRng;
use rand::SeedableRng;

#[test]
fn spawn_with_a_fixed_seed_is_reproducible() {
    for seed in 0..50u64 {
        for score in [0usize, 35, 90, 150, 400] {
            let mut first_rng = StdRng::seed_from_u64(seed);
            let mut second_rng = StdRng::seed_from_u64(seed);
            let mut first: Vec<Block> = Vec::new();
            let mut second: Vec<Block> = Vec::new();
            for _ in 0..20 {
                spawn(&mut first, 20, score, &mut first_rng);
                spawn(&mut second, 20, score, &mut second_rng);
            }
            assert_eq!(first, second);
        }
    }
}

#[test]
fn spawn_only_appends_top_row_blocks_on_the_grid() {
    let mut rng = StdRng::seed_from_u64(11);
    for score in [0usize, 10, 45, 90, 150, 1000] {
        let existing = vec![Block { x: 3, y: 4 }, Block { x: 0, y: 9 }];
        let mut blocks = existing.clone();
        for _ in 0..200 {
            let before = blocks.clone();
            spawn(&mut blocks, 7, score, &mut rng);
            assert!(blocks.len() >= before.len());
            assert!(blocks.len() - before.len() <= max_spawns(level_for(score)));
            assert_eq!(&blocks[..before.len()], &before[..]);
            for b in &blocks[before.len()..] {
                assert_eq!(b.y, 0);
                assert!(b.x < 7);
            }
        }
    }
}

#[test]
fn spawn_at_level_zero_adds_at_most_one_block() {
    let mut rng = StdRng::seed_from_u64(3);
    for _ in 0..500 {
        let mut blocks: Vec<Block> = Vec::new();
        spawn(&mut blocks, 20, 9, &mut rng);
        assert!(blocks.len() <= 1);
    }
}

#[test]
fn draw_spawns_on_one_column_always_draws_column_zero() {
    let mut drawn = 0usize;
    for seed in 0..40u64 {
        let mut rng = StdRng::seed_from_u64(seed);
        let columns = draw_spawns(1, 150, &mut rng);
        assert!(columns.len() <= 6);
        for column in &columns {
            assert_eq!(*column, 0);
        }
        drawn += columns.len();
    }
    assert!(drawn > 0);
}

#[test]
fn draw_spawns_reaches_every_column() {
    let mut rng = StdRng::seed_from_u64(5);
    let mut seen = [false; 4];
    for _ in 0..400 {
        for column in draw_spawns(4, 150, &mut rng) {
            assert!(column < 4);
            seen[column] = true;
        }
    }
    assert_eq!(seen, [true; 4]);
}

#[test]
fn spawn_rate_follows_the_level() {
    let mut rng = StdRng::seed_from_u64(2024);
    let mut low = 0usize;
    let mut high = 0usize;
    for _ in 0..1000 {
        low += draw_spawns(20, 0, &mut rng).len();
        high += draw_spawns(20, 150, &mut rng).len();
    }
    // 1000 trials at 30 in 100, against 6000 trials at 90 in 100.
    assert!(low > 200 && low < 400, "level 0 spawned {}", low);
    assert!(high > 5100 && high < 5700, "level 15 spawned {}", high);
}

// The expected columns below are those of rand 0.8's `StdRng`.

#[test]
fn spawn_golden_blocks_at_the_top_level() {
    let mut rng = StdRng::seed_from_u64(42);
    let mut blocks: Vec<Block> = Vec::new();
    for _ in 0..4 {
        spawn(&mut blocks, 20, 150, &mut rng);
    }
    let columns: Vec<usize> = blocks.iter().map(|b| b.x).collect();
    assert_eq!(
        columns,
        vec![8, 8, 0, 10, 0, 1, 10, 7, 4, 13, 18, 4, 1, 12, 0, 19, 15, 11, 4, 9, 9, 2]
    );
    assert!(blocks.iter().all(|b| b.y == 0));
}

#[test]
fn draw_spawns_golden_columns_at_level_zero() {
    let mut rng = StdRng::seed_from_u64(7);
    let mut drawn: Vec<Vec<usize>> = Vec::new();
    for _ in 0..12 {
        drawn.push(draw_spawns(20, 0, &mut rng));
    }
    let expected: Vec<Vec<usize>> = vec![
        vec![6],
        vec![5],
        vec![],
        vec![5],
        vec![14],
        vec![],
        vec![7],
        vec![],
        vec![],
        vec![],
        vec![],
        vec![],
    ];
    assert_eq!(drawn, expected);
}
