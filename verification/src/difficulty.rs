//! Difficulty model: the level reached at a score, and the pacing and
//! spawning parameters that follow from a level.

use vstd::prelude::*;

verus! {

/// Points needed to climb one level.
pub const LEVEL_THRESHOLD: usize = 10;

/// Highest level the game reaches.
pub const UPPER_LEVEL_CAP: usize = 15;

/// Spawn chance at level 0, in hundredths.
pub const SPAWN_CHANCE_BASE: u32 = 30;

/// Spawn chance gained per level, in hundredths.
pub const SPAWN_CHANCE_SLOPE: u32 = 4;

/// Denominator of the spawn chance.
pub const SPAWN_CHANCE_SCALE: u32 = 100;

/// Tick interval at level 0, in milliseconds.
pub const TICK_INTERVAL_BASE_MS: u64 = 250;

/// Milliseconds taken off the tick interval per level.
pub const TICK_INTERVAL_SLOPE_MS: u64 = 20;

/// Shortest tick interval, in milliseconds.
pub const TICK_INTERVAL_FLOOR_MS: u64 = 1;

/// The level reached at `score`: one level per `LEVEL_THRESHOLD` points,
/// never above `UPPER_LEVEL_CAP`.
pub open spec fn level_of(score: nat) -> nat {
    let raw = score / (LEVEL_THRESHOLD as nat);
    if raw <= UPPER_LEVEL_CAP {
        raw
    } else {
        UPPER_LEVEL_CAP as nat
    }
}

/// Chance, in hundredths, that one spawn trial succeeds at `level`.
///
/// The chance grows linearly with the level and stops growing at
/// `UPPER_LEVEL_CAP`, where it is 90 in 100.
pub open spec fn spawn_chance_of(level: nat) -> nat {
    let capped = if level <= UPPER_LEVEL_CAP {
        level
    } else {
        UPPER_LEVEL_CAP as nat
    };
    SPAWN_CHANCE_BASE as nat + SPAWN_CHANCE_SLOPE as nat * capped
}

/// Number of spawn trials made in one tick at `level`.
pub open spec fn max_spawns_of(level: nat) -> nat {
    1 + level / 3
}

/// Milliseconds between two ticks at `level`: the base interval less the
/// slope per level, held at the floor once the difference would fall
/// below it.
pub open spec fn tick_interval_of(level: nat) -> nat {
    let linear = TICK_INTERVAL_BASE_MS as int - TICK_INTERVAL_SLOPE_MS as int * level as int;
    if linear >= TICK_INTERVAL_FLOOR_MS as int {
        linear as nat
    } else {
        TICK_INTERVAL_FLOOR_MS as nat
    }
}

/// Level for a score.
pub fn level_for(score: usize) -> (level: usize)
    ensures
        level == level_of(score as nat),
        level <= UPPER_LEVEL_CAP,
{
    let raw: usize = score / LEVEL_THRESHOLD;
    if raw <= UPPER_LEVEL_CAP {
        raw
    } else {
        UPPER_LEVEL_CAP
    }
}

/// Spawn chance at a level, in hundredths: 30 at level 0, four more per
/// level, 90 from `UPPER_LEVEL_CAP` on.
pub fn spawn_chance_percent(level: usize) -> (chance: u32)
    ensures
        chance == spawn_chance_of(level as nat),
        SPAWN_CHANCE_BASE <= chance <= SPAWN_CHANCE_SCALE,
{
    let capped: u32 = if level <= UPPER_LEVEL_CAP {
        level as u32
    } else {
        UPPER_LEVEL_CAP as u32
    };
    SPAWN_CHANCE_BASE + SPAWN_CHANCE_SLOPE * capped
}

/// Number of spawn trials per tick at a level.
pub fn max_spawns(level: usize) -> (count: usize)
    ensures
        count == max_spawns_of(level as nat),
        count >= 1,
{
    1 + level / 3
}

/// Milliseconds between ticks at a level.
pub fn tick_interval_ms(level: usize) -> (interval: u64)
    ensures
        interval == tick_interval_of(level as nat),
        TICK_INTERVAL_FLOOR_MS <= interval <= TICK_INTERVAL_BASE_MS,
{
    let steps: u64 = (TICK_INTERVAL_BASE_MS - TICK_INTERVAL_FLOOR_MS) / TICK_INTERVAL_SLOPE_MS;
    if level as u64 <= steps {
        TICK_INTERVAL_BASE_MS - TICK_INTERVAL_SLOPE_MS * (level as u64)
    } else {
        TICK_INTERVAL_FLOOR_MS
    }
}

/// Level as shown to the player, counted from 1.
pub fn display_level(score: usize) -> (shown: usize)
    ensures
        shown == level_of(score as nat) + 1,
{
    level_for(score) + 1
}

/// The level never falls as the score grows, and never exceeds the cap.
pub proof fn lemma_level_monotone_and_bounded(lower: nat, higher: nat)
    requires
        lower <= higher,
    ensures
        level_of(lower) <= level_of(higher),
        level_of(higher) <= UPPER_LEVEL_CAP,
{
}

/// Gaining `LEVEL_THRESHOLD` points raises the level by exactly one until
/// the cap is reached.
pub proof fn lemma_level_step(score: nat)
    ensures
        level_of(score + LEVEL_THRESHOLD as nat) == if level_of(score) < UPPER_LEVEL_CAP {
            level_of(score) + 1
        } else {
            UPPER_LEVEL_CAP as nat
        },
{
}

/// A higher level never slows the game down, and speeds it up for as long
/// as the lower level's interval is above the floor.
pub proof fn lemma_tick_interval_decreases(lower: nat, higher: nat)
    requires
        lower < higher,
    ensures
        tick_interval_of(higher) <= tick_interval_of(lower),
        tick_interval_of(lower) > TICK_INTERVAL_FLOOR_MS ==> tick_interval_of(higher)
            < tick_interval_of(lower),
{
}

} // verus!
