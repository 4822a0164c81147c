//! The spawner: how many blocks enter the top row in a tick, and where.
//!
//! The random draws come from a `StdRng` that the caller owns, so a caller
//! that seeds it gets the same blocks on every run.

use crate::difficulty::{
    level_for, level_of, max_spawns, max_spawns_of, spawn_chance_percent, SPAWN_CHANCE_SCALE,
};
use crate::field::{place_spawns, spawned, Block};
use rand::rngs::StdRng;
use rand::Rng;
use vstd::prelude::*;

verus! {

/// `rand::rngs::StdRng`, the generator the draws are taken from. Nothing is
/// known of its state: it is only handed on to the two draws below.
#[verifier::external_type_specification]
#[verifier::external_body]
pub struct ExStdRng(StdRng);

/// One Bernoulli trial: `Rng::gen_ratio` on `rng`, which is true with
/// probability `numerator / denominator`.
///
/// Nothing is claimed of the outcome. `gen_ratio` panics on a zero
/// denominator and on a numerator above the denominator, so both are
/// excluded here.
#[verifier::external_body]
fn bernoulli_trial(rng: &mut StdRng, numerator: u32, denominator: u32) -> (success: bool)
    requires
        0 < denominator,
        numerator <= denominator,
{
    rng.gen_ratio(numerator, denominator)
}

/// One uniform draw of a column: `Rng::gen_range` on `rng` over the
/// half-open range from 0 to `width`.
///
/// The claim is only that the column lies in that range. `gen_range`
/// panics on an empty range, so a zero `width` is excluded here.
#[verifier::external_body]
fn uniform_column(rng: &mut StdRng, width: usize) -> (column: usize)
    requires
        0 < width,
    ensures
        column < width,
{
    rng.gen_range(0..width)
}

/// Whether `columns` is a possible outcome of one tick's spawning on a grid
/// of `width` columns at `score`: at most one column per trial, each on the
/// grid.
pub open spec fn drawable(columns: Seq<usize>, width: usize, score: nat) -> bool {
    &&& columns.len() <= max_spawns_of(level_of(score))
    &&& forall|i: int| 0 <= i < columns.len() ==> #[trigger] columns[i] < width
}

/// Runs one tick's spawn trials and returns the column of each success, in
/// trial order.
///
/// The number of trials and the chance of each follow from the level at
/// `score`; a column is drawn only after a successful trial.
pub fn draw_spawns(width: usize, score: usize, rng: &mut StdRng) -> (columns: Vec<usize>)
    requires
        0 < width,
    ensures
        drawable(columns@, width, score as nat),
{
    let level: usize = level_for(score);
    let chance: u32 = spawn_chance_percent(level);
    let trials: usize = max_spawns(level);
    let mut columns: Vec<usize> = Vec::new();
    let mut done: usize = 0;
    while done < trials
        invariant
            0 < width,
            done <= trials,
            chance <= SPAWN_CHANCE_SCALE,
            columns@.len() <= done,
            forall|i: int| 0 <= i < columns@.len() ==> #[trigger] columns@[i] < width,
        decreases trials - done,
    {
        if bernoulli_trial(rng, chance, SPAWN_CHANCE_SCALE) {
            let column: usize = uniform_column(rng, width);
            columns.push(column);
        }
        done += 1;
    }
    columns
}

/// Spawns new blocks on the top row: one trial per allowed spawn at the
/// level of `score`, and for each success a block at a uniformly drawn
/// column. The blocks already on the field stay as they are.
pub fn spawn(blocks: &mut Vec<Block>, width: usize, score: usize, rng: &mut StdRng)
    requires
        0 < width,
    ensures
        exists|columns: Seq<usize>|
            drawable(columns, width, score as nat) && final(blocks)@ == old(blocks)@ + #[trigger] spawned(
                columns,
            ),
{
    let columns = draw_spawns(width, score, rng);
    place_spawns(blocks, &columns);
}

} // verus!
