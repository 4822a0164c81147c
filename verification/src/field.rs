//! The block field: the falling obstacles, how they advance, and when one
//! of them hits the player.

use vstd::prelude::*;

verus! {

/// A falling obstacle at column `x`, row `y`; row 0 is the top of the grid.
///
/// A block has no identity beyond its position: two blocks may share a
/// cell and still fall independently.
#[derive(Clone, Copy, Debug, PartialEq, Eq, Structural)]
pub struct Block {
    pub x: usize,
    pub y: usize,
}

/// Whether `block` is still on a grid of `height` rows after falling one
/// row.
pub open spec fn survives(block: Block, height: usize) -> bool {
    block.y + 1 < height
}

/// `block` one row further down.
pub open spec fn lowered(block: Block) -> Block {
    Block { x: block.x, y: (block.y + 1) as usize }
}

/// The field after one advance: every block falls one row, and those that
/// leave a grid of `height` rows are dropped. The survivors keep their
/// order.
pub open spec fn advanced(blocks: Seq<Block>, height: usize) -> Seq<Block> {
    blocks.filter(|b: Block| survives(b, height)).map_values(|b: Block| lowered(b))
}

/// Fresh blocks on the top row, one per drawn column, in drawing order.
pub open spec fn spawned(columns: Seq<usize>) -> Seq<Block> {
    columns.map_values(|x: usize| Block { x, y: 0 })
}

/// Whether some block occupies the player's cell, the bottom row of column
/// `player_x`.
pub open spec fn hits(blocks: Seq<Block>, player_x: usize, height: usize) -> bool {
    exists|i: int|
        0 <= i < blocks.len() && (#[trigger] blocks[i]).x == player_x && blocks[i].y == height - 1
}

/// Whether every block lies on a grid of `width` columns and `height` rows.
pub open spec fn in_grid(blocks: Seq<Block>, width: usize, height: usize) -> bool {
    forall|i: int|
        0 <= i < blocks.len() ==> (#[trigger] blocks[i]).x < width && blocks[i].y < height
}

/// Advancing a prefix that grows by one block either appends that block,
/// lowered, or leaves the result as it was.
proof fn lemma_advanced_push(blocks: Seq<Block>, last: Block, height: usize)
    ensures
        advanced(blocks.push(last), height) == if survives(last, height) {
            advanced(blocks, height).push(lowered(last))
        } else {
            advanced(blocks, height)
        },
{
    let keep = |b: Block| survives(b, height);
    blocks.lemma_filter_push(last, keep);
    if survives(last, height) {
        assert(blocks.filter(keep).push(last).map_values(|b: Block| lowered(b))
            =~= blocks.filter(keep).map_values(|b: Block| lowered(b)).push(lowered(last)));
    }
}

/// Every block of an advanced field descends from a block of the field
/// before: same column, one row lower, and still above the bottom edge.
pub proof fn lemma_advanced_origin(blocks: Seq<Block>, height: usize, i: int)
    requires
        0 <= i < advanced(blocks, height).len(),
    ensures
        advanced(blocks, height)[i].y < height,
        exists|j: int|
            0 <= j < blocks.len() && (#[trigger] blocks[j]).x == advanced(blocks, height)[i].x
                && blocks[j].y + 1 == advanced(blocks, height)[i].y,
{
    let keep = |b: Block| survives(b, height);
    let kept = blocks.filter(keep);
    blocks.lemma_filter_pred(keep, i);
    assert(kept.contains(kept[i]));
    blocks.lemma_filter_contains_rev(keep, kept[i]);
    let j = choose|j: int| 0 <= j < blocks.len() && blocks[j] == kept[i];
    assert(blocks[j].x == advanced(blocks, height)[i].x);
}

/// A block that survives the advance is found in the advanced field, one
/// row lower.
pub proof fn lemma_advanced_keeps(blocks: Seq<Block>, height: usize, j: int)
    requires
        0 <= j < blocks.len(),
        survives(blocks[j], height),
    ensures
        exists|i: int|
            0 <= i < advanced(blocks, height).len() && #[trigger] advanced(blocks, height)[i]
                == lowered(blocks[j]),
{
    let keep = |b: Block| survives(b, height);
    let kept = blocks.filter(keep);
    blocks.lemma_filter_contains(keep, j);
    let i = choose|i: int| 0 <= i < kept.len() && kept[i] == blocks[j];
    assert(advanced(blocks, height)[i] == lowered(blocks[j]));
}

/// No block of an advanced field lies at or below row `height`, whatever
/// the field was before.
pub proof fn lemma_advanced_below_height(blocks: Seq<Block>, height: usize)
    ensures
        forall|i: int|
            0 <= i < advanced(blocks, height).len() ==> (#[trigger] advanced(blocks, height)[i]).y
                < height,
{
    assert forall|i: int| 0 <= i < advanced(blocks, height).len() implies (#[trigger] advanced(
        blocks,
        height,
    )[i]).y < height by {
        lemma_advanced_origin(blocks, height, i);
    }
}

/// Advancing keeps a field on its grid.
pub proof fn lemma_advanced_in_grid(blocks: Seq<Block>, width: usize, height: usize)
    requires
        in_grid(blocks, width, height),
    ensures
        in_grid(advanced(blocks, height), width, height),
{
    assert forall|i: int| 0 <= i < advanced(blocks, height).len() implies (#[trigger] advanced(
        blocks,
        height,
    )[i]).x < width && advanced(blocks, height)[i].y < height by {
        lemma_advanced_origin(blocks, height, i);
    }
}

/// The field that `blocks` becomes by one advance, as a vector of its own.
pub fn advance_from(blocks: &Vec<Block>, height: usize) -> (kept: Vec<Block>)
    ensures
        kept@ == advanced(blocks@, height),
        forall|i: int| 0 <= i < kept@.len() ==> (#[trigger] kept@[i]).y < height,
{
    let mut kept: Vec<Block> = Vec::new();
    let mut i: usize = 0;
    while i < blocks.len()
        invariant
            i <= blocks.len(),
            kept@ == advanced(blocks@.take(i as int), height),
        decreases blocks.len() - i,
    {
        let block = blocks[i];
        proof {
            assert(blocks@.take(i + 1) =~= blocks@.take(i as int).push(block));
            lemma_advanced_push(blocks@.take(i as int), block, height);
        }
        if height > 0 && block.y < height - 1 {
            kept.push(Block { x: block.x, y: block.y + 1 });
        }
        i += 1;
    }
    proof {
        assert(blocks@.take(i as int) =~= blocks@);
        lemma_advanced_below_height(blocks@, height);
    }
    kept
}

/// Moves every block down one row and drops those that leave the grid.
pub fn advance(blocks: &mut Vec<Block>, height: usize)
    ensures
        final(blocks)@ == advanced(old(blocks)@, height),
        forall|i: int| 0 <= i < final(blocks)@.len() ==> (#[trigger] final(blocks)@[i]).y < height,
{
    let kept = advance_from(blocks, height);
    *blocks = kept;
}

/// Appends one fresh top-row block per column of `columns`.
pub fn place_spawns(blocks: &mut Vec<Block>, columns: &Vec<usize>)
    ensures
        final(blocks)@ == old(blocks)@ + spawned(columns@),
{
    let mut i: usize = 0;
    while i < columns.len()
        invariant
            i <= columns.len(),
            blocks@ == old(blocks)@ + spawned(columns@.take(i as int)),
        decreases columns.len() - i,
    {
        let x: usize = columns[i];
        proof {
            assert(columns@.take(i + 1) =~= columns@.take(i as int).push(x));
            assert(spawned(columns@.take(i as int).push(x)) =~= spawned(
                columns@.take(i as int),
            ).push(Block { x, y: 0 }));
        }
        blocks.push(Block { x, y: 0 });
        i += 1;
    }
    proof {
        assert(columns@.take(i as int) =~= columns@);
    }
}

/// Whether a block sits on the player's cell: column `player_x` of the
/// bottom row of a grid of `height` rows.
pub fn collides(blocks: &Vec<Block>, player_x: usize, height: usize) -> (hit: bool)
    ensures
        hit == hits(blocks@, player_x, height),
        blocks@.len() == 0 ==> !hit,
{
    let mut i: usize = 0;
    while i < blocks.len()
        invariant
            i <= blocks.len(),
            !hits(blocks@.take(i as int), player_x, height),
        decreases blocks.len() - i,
    {
        let block = blocks[i];
        if height > 0 && block.x == player_x && block.y == height - 1 {
            return true;
        }
        proof {
            let seen = blocks@.take(i + 1);
            if hits(seen, player_x, height) {
                let k = choose|k: int|
                    0 <= k < seen.len() && (#[trigger] seen[k]).x == player_x && seen[k].y == height
                        - 1;
                if k < i {
                    assert(blocks@.take(i as int)[k] == seen[k]);
                }
            }
        }
        i += 1;
    }
    proof {
        assert(blocks@.take(i as int) =~= blocks@);
    }
    false
}

} // verus!
