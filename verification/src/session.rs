//! The game session: player, score, block field and state, and the rules
//! that carry them from one frame to the next.

use crate::difficulty::{
    level_for, level_of, tick_interval_ms, tick_interval_of, LEVEL_THRESHOLD,
};
use crate::field::{
    advance_from, advanced, collides, hits, in_grid, lemma_advanced_in_grid,
    lemma_advanced_keeps, lowered, place_spawns, spawned, Block,
};
use crate::spawner::{draw_spawns, drawable};
use rand::rngs::StdRng;
use vstd::prelude::*;

verus! {

/// Whether a session is still running. `GameOver` is terminal.
#[derive(Clone, Copy, Debug, PartialEq, Eq, Structural)]
pub enum SessionState {
    Playing,
    GameOver,
}

/// Why a session could not be set up.
#[derive(Clone, Copy, Debug, PartialEq, Eq, Structural)]
pub enum ConfigError {
    /// The grid has no columns.
    ZeroWidth,
    /// The grid has no rows.
    ZeroHeight,
    /// Levels would be zero points apart.
    ZeroThreshold,
    /// A block of the opening field lies outside the grid.
    BlockOutsideGrid,
}

/// The keys pressed during one frame.
#[derive(Clone, Copy, Debug, PartialEq, Eq, Structural)]
pub struct FrameInput {
    pub left: bool,
    pub right: bool,
    pub quit: bool,
}

/// What a frame did, as far as the host has to act on it.
#[derive(Clone, Copy, Debug, PartialEq, Eq, Structural)]
pub enum FrameOutcome {
    /// The player asked to quit; the host leaves its loop.
    Quit,
    /// A simulation tick ran; the host restarts its tick timer.
    Ticked,
    /// Nothing but input was processed.
    Idle,
}

/// The verdict on a configuration: the first of width, height and
/// threshold that is zero is the error.
pub open spec fn config_verdict(width: usize, height: usize, threshold: usize) -> Result<
    (),
    ConfigError,
> {
    if width == 0 {
        Err(ConfigError::ZeroWidth)
    } else if height == 0 {
        Err(ConfigError::ZeroHeight)
    } else if threshold == 0 {
        Err(ConfigError::ZeroThreshold)
    } else {
        Ok(())
    }
}

/// Checks that a grid and a level threshold are usable.
pub fn check_config(width: usize, height: usize, threshold: usize) -> (verdict: Result<
    (),
    ConfigError,
>)
    ensures
        verdict == config_verdict(width, height, threshold),
{
    if width == 0 {
        Err(ConfigError::ZeroWidth)
    } else if height == 0 {
        Err(ConfigError::ZeroHeight)
    } else if threshold == 0 {
        Err(ConfigError::ZeroThreshold)
    } else {
        Ok(())
    }
}

/// A session as a mathematical value.
pub struct SessionView {
    pub width: usize,
    pub height: usize,
    pub player_x: usize,
    pub score: nat,
    pub blocks: Seq<Block>,
    pub state: SessionState,
}

impl SessionView {
    /// The grid is not empty, and the player and every block are on it.
    pub open spec fn wf(self) -> bool {
        &&& 0 < self.width
        &&& 0 < self.height
        &&& self.player_x < self.width
        &&& in_grid(self.blocks, self.width, self.height)
    }

    /// A fresh session on `blocks`: playing, no points yet, the player at
    /// the horizontal center.
    pub open spec fn opening(width: usize, height: usize, blocks: Seq<Block>) -> SessionView {
        SessionView {
            width,
            height,
            player_x: width / 2,
            score: 0,
            blocks,
            state: SessionState::Playing,
        }
    }

    /// The level at the current score.
    pub open spec fn level(self) -> nat {
        level_of(self.score)
    }

    /// The session after "left" was pressed: one column to the left unless
    /// the player is at the left edge or the game is over.
    pub open spec fn after_left(self) -> SessionView {
        if self.state == SessionState::Playing && self.player_x > 0 {
            SessionView { player_x: (self.player_x - 1) as usize, ..self }
        } else {
            self
        }
    }

    /// The session after "right" was pressed: one column to the right
    /// unless the player is at the right edge or the game is over.
    pub open spec fn after_right(self) -> SessionView {
        if self.state == SessionState::Playing && self.player_x + 1 < self.width {
            SessionView { player_x: (self.player_x + 1) as usize, ..self }
        } else {
            self
        }
    }

    /// The session after one frame's movement keys: "left" is applied
    /// before "right".
    pub open spec fn after_input(self, input: FrameInput) -> SessionView {
        let moved = if input.left {
            self.after_left()
        } else {
            self
        };
        if input.right {
            moved.after_right()
        } else {
            moved
        }
    }

    /// Whether a tick is due once `elapsed_ms` milliseconds have passed
    /// since the last one.
    pub open spec fn tick_due(self, elapsed_ms: u64) -> bool {
        self.state == SessionState::Playing && elapsed_ms > tick_interval_of(self.level())
    }

    /// The field at the moment a tick checks for a collision: the blocks
    /// advanced, then this tick's spawns appended.
    pub open spec fn field_after_step(self, columns: Seq<usize>) -> Seq<Block> {
        advanced(self.blocks, self.height) + spawned(columns)
    }

    /// The session after one tick that spawns a block at each of
    /// `columns`. A collision ends the game and earns no point; otherwise
    /// the score grows by one. A finished session stays as it is.
    pub open spec fn after_step(self, columns: Seq<usize>) -> SessionView {
        if self.state == SessionState::GameOver {
            self
        } else if hits(self.field_after_step(columns), self.player_x, self.height) {
            SessionView {
                blocks: self.field_after_step(columns),
                state: SessionState::GameOver,
                ..self
            }
        } else {
            SessionView { blocks: self.field_after_step(columns), score: self.score + 1, ..self }
        }
    }

    /// The session after a run of ticks, the first of `ticks` first; each
    /// entry holds the columns that tick spawns at.
    pub open spec fn after_steps(self, ticks: Seq<Seq<usize>>) -> SessionView
        decreases ticks.len(),
    {
        if ticks.len() == 0 {
            self
        } else {
            self.after_steps(ticks.drop_last()).after_step(ticks.last())
        }
    }

    /// What a frame reports to the host.
    pub open spec fn frame_outcome(self, input: FrameInput, elapsed_ms: u64) -> FrameOutcome {
        if self.state == SessionState::GameOver {
            FrameOutcome::Idle
        } else if input.quit {
            FrameOutcome::Quit
        } else if self.tick_due(elapsed_ms) {
            FrameOutcome::Ticked
        } else {
            FrameOutcome::Idle
        }
    }
}

/// The opening of a session on a given field, or the reason it cannot
/// start.
pub open spec fn opening_verdict(width: usize, height: usize, blocks: Seq<Block>) -> Result<
    SessionView,
    ConfigError,
> {
    match config_verdict(width, height, LEVEL_THRESHOLD) {
        Err(e) => Err(e),
        Ok(_) => if in_grid(blocks, width, height) {
            Ok(SessionView::opening(width, height, blocks))
        } else {
            Err(ConfigError::BlockOutsideGrid)
        },
    }
}

/// One run of the game.
#[derive(Debug)]
pub struct Session {
    width: usize,
    height: usize,
    player_x: usize,
    score: usize,
    blocks: Vec<Block>,
    state: SessionState,
}

impl View for Session {
    type V = SessionView;

    closed spec fn view(&self) -> SessionView {
        SessionView {
            width: self.width,
            height: self.height,
            player_x: self.player_x,
            score: self.score as nat,
            blocks: self.blocks@,
            state: self.state,
        }
    }
}

/// Whether every block of `blocks` lies on the grid.
fn all_in_grid(blocks: &Vec<Block>, width: usize, height: usize) -> (inside: bool)
    ensures
        inside == in_grid(blocks@, width, height),
{
    let mut i: usize = 0;
    while i < blocks.len()
        invariant
            i <= blocks.len(),
            in_grid(blocks@.take(i as int), width, height),
        decreases blocks.len() - i,
    {
        let block = blocks[i];
        if block.x >= width || block.y >= height {
            return false;
        }
        proof {
            assert forall|k: int| 0 <= k < i + 1 implies (#[trigger] blocks@.take(i + 1)[k]).x
                < width && blocks@.take(i + 1)[k].y < height by {
                if k < i {
                    assert(blocks@.take(i as int)[k] == blocks@.take(i + 1)[k]);
                }
            }
        }
        i += 1;
    }
    proof {
        assert(blocks@.take(i as int) =~= blocks@);
    }
    true
}

impl Session {
    #[verifier::type_invariant]
    spec fn inv(&self) -> bool {
        self@.wf()
    }

    /// Starts a session on an empty field.
    pub fn new(width: usize, height: usize) -> (made: Result<Session, ConfigError>)
        ensures
            match made {
                Ok(session) => opening_verdict(width, height, Seq::empty()) == Ok::<
                    SessionView,
                    ConfigError,
                >(session@) && session@.wf(),
                Err(e) => opening_verdict(width, height, Seq::empty()) == Err::<
                    SessionView,
                    ConfigError,
                >(e),
            },
    {
        Session::with_blocks(width, height, Vec::new())
    }

    /// Starts a session on a field that already holds `blocks`.
    pub fn with_blocks(width: usize, height: usize, blocks: Vec<Block>) -> (made: Result<
        Session,
        ConfigError,
    >)
        ensures
            match made {
                Ok(session) => opening_verdict(width, height, blocks@) == Ok::<
                    SessionView,
                    ConfigError,
                >(session@) && session@.wf(),
                Err(e) => opening_verdict(width, height, blocks@) == Err::<
                    SessionView,
                    ConfigError,
                >(e),
            },
    {
        match check_config(width, height, LEVEL_THRESHOLD) {
            Err(e) => Err(e),
            Ok(_) => {
                if all_in_grid(&blocks, width, height) {
                    Ok(
                        Session {
                            width,
                            height,
                            player_x: width / 2,
                            score: 0,
                            blocks,
                            state: SessionState::Playing,
                        },
                    )
                } else {
                    Err(ConfigError::BlockOutsideGrid)
                }
            },
        }
    }

    /// Number of columns of the grid.
    pub fn width(&self) -> (width: usize)
        ensures
            width == self@.width,
            self@.wf(),
    {
        proof {
            use_type_invariant(self);
        }
        self.width
    }

    /// Number of rows of the grid.
    pub fn height(&self) -> (height: usize)
        ensures
            height == self@.height,
            self@.wf(),
    {
        proof {
            use_type_invariant(self);
        }
        self.height
    }

    /// The player's column; the player's row is the bottom one.
    pub fn player_x(&self) -> (x: usize)
        ensures
            x == self@.player_x,
            self@.wf(),
    {
        proof {
            use_type_invariant(self);
        }
        self.player_x
    }

    /// Points earned so far.
    pub fn score(&self) -> (score: usize)
        ensures
            score == self@.score,
    {
        self.score
    }

    /// The blocks on the field, oldest first.
    pub fn blocks(&self) -> (blocks: &Vec<Block>)
        ensures
            blocks@ == self@.blocks,
            self@.wf(),
    {
        proof {
            use_type_invariant(self);
        }
        &self.blocks
    }

    /// Whether the session is running or over.
    pub fn state(&self) -> (state: SessionState)
        ensures
            state == self@.state,
    {
        self.state
    }

    /// Whether the game has ended.
    pub fn is_over(&self) -> (over: bool)
        ensures
            over == (self@.state == SessionState::GameOver),
    {
        self.state == SessionState::GameOver
    }

    /// The level at the current score.
    pub fn level(&self) -> (level: usize)
        ensures
            level == self@.level(),
    {
        level_for(self.score)
    }

    /// Milliseconds between ticks at the current level.
    pub fn tick_interval_ms(&self) -> (interval: u64)
        ensures
            interval == tick_interval_of(self@.level()),
    {
        tick_interval_ms(level_for(self.score))
    }

    /// Whether a tick is due once `elapsed_ms` milliseconds have passed
    /// since the last one.
    pub fn tick_due(&self, elapsed_ms: u64) -> (due: bool)
        ensures
            due == self@.tick_due(elapsed_ms),
    {
        self.state == SessionState::Playing && elapsed_ms > self.tick_interval_ms()
    }

    /// Handles a press of "left".
    pub fn press_left(&mut self)
        ensures
            final(self)@ == old(self)@.after_left(),
            final(self)@.wf(),
    {
        proof {
            use_type_invariant(&*self);
        }
        if self.state == SessionState::Playing && self.player_x > 0 {
            self.player_x -= 1;
        }
    }

    /// Handles a press of "right".
    pub fn press_right(&mut self)
        ensures
            final(self)@ == old(self)@.after_right(),
            final(self)@.wf(),
    {
        proof {
            use_type_invariant(&*self);
        }
        if self.state == SessionState::Playing && self.player_x < self.width - 1 {
            self.player_x += 1;
        }
    }

    /// Applies one frame's movement keys, "left" before "right", and says
    /// whether the player asked to quit. A finished session ignores every
    /// key.
    pub fn handle_input(&mut self, input: FrameInput) -> (quit: bool)
        ensures
            final(self)@ == old(self)@.after_input(input),
            final(self)@.wf(),
            quit == (old(self)@.state == SessionState::Playing && input.quit),
    {
        proof {
            use_type_invariant(&*self);
        }
        if input.left {
            self.press_left();
        }
        if input.right {
            self.press_right();
        }
        self.state == SessionState::Playing && input.quit
    }

    /// Runs one tick that spawns a block at each of `columns`: the blocks
    /// advance, the new ones enter the top row, and a block on the
    /// player's cell ends the game; without one the score grows by one.
    pub fn step(&mut self, columns: &Vec<usize>)
        requires
            forall|i: int| 0 <= i < columns@.len() ==> #[trigger] columns@[i] < old(self)@.width,
            old(self)@.state == SessionState::Playing ==> old(self)@.score < usize::MAX,
        ensures
            final(self)@ == old(self)@.after_step(columns@),
            final(self)@.wf(),
    {
        proof {
            use_type_invariant(&*self);
        }
        if self.state == SessionState::Playing {
            proof {
                lemma_step_keeps_wf(self@, columns@);
            }
            let mut field = advance_from(&self.blocks, self.height);
            place_spawns(&mut field, columns);
            let hit = collides(&field, self.player_x, self.height);
            self.blocks = field;
            if hit {
                self.state = SessionState::GameOver;
            } else {
                self.score += 1;
            }
        }
    }

    /// Runs one tick with spawns drawn from `rng`.
    pub fn tick(&mut self, rng: &mut StdRng)
        requires
            old(self)@.state == SessionState::Playing ==> old(self)@.score < usize::MAX,
        ensures
            exists|columns: Seq<usize>|
                drawable(columns, old(self)@.width, old(self)@.score) && final(self)@ == old(
                    self,
                )@.after_step(columns),
            final(self)@.wf(),
    {
        proof {
            use_type_invariant(&*self);
        }
        if self.state == SessionState::Playing {
            let columns = draw_spawns(self.width, self.score, rng);
            self.step(&columns);
        } else {
            assert(drawable(Seq::<usize>::empty(), self@.width, self@.score));
            assert(self@ == self@.after_step(Seq::<usize>::empty()));
        }
    }

    /// Runs one frame: the keys are handled first; unless the player quits,
    /// a tick follows if one is due after `elapsed_ms` milliseconds. A host
    /// that measures finer than milliseconds rounds up, so that a tick is
    /// due as soon as the interval is exceeded at all.
    pub fn frame(&mut self, input: FrameInput, elapsed_ms: u64, rng: &mut StdRng) -> (outcome:
        FrameOutcome)
        requires
            old(self)@.state == SessionState::Playing ==> old(self)@.score < usize::MAX,
        ensures
            outcome == old(self)@.frame_outcome(input, elapsed_ms),
            outcome != FrameOutcome::Ticked ==> final(self)@ == old(self)@.after_input(input),
            outcome == FrameOutcome::Ticked ==> exists|columns: Seq<usize>|
                drawable(columns, old(self)@.width, old(self)@.score) && final(self)@ == old(
                    self,
                )@.after_input(input).after_step(columns),
            final(self)@.wf(),
    {
        if self.handle_input(input) {
            FrameOutcome::Quit
        } else if self.tick_due(elapsed_ms) {
            self.tick(rng);
            FrameOutcome::Ticked
        } else {
            FrameOutcome::Idle
        }
    }
}

/// A tick keeps a session well-formed when its spawns are on the grid.
pub proof fn lemma_step_keeps_wf(pre: SessionView, columns: Seq<usize>)
    requires
        pre.wf(),
        forall|i: int| 0 <= i < columns.len() ==> #[trigger] columns[i] < pre.width,
    ensures
        in_grid(pre.field_after_step(columns), pre.width, pre.height),
        pre.after_step(columns).wf(),
{
    lemma_advanced_in_grid(pre.blocks, pre.width, pre.height);
}

/// The player stays on the grid: "left" at the left edge and "right" at the
/// right edge change nothing, and any other press moves by one column.
pub proof fn lemma_player_clamped(pre: SessionView, input: FrameInput)
    requires
        pre.wf(),
    ensures
        pre.player_x == 0 ==> pre.after_left() == pre,
        pre.player_x == pre.width - 1 ==> pre.after_right() == pre,
        pre.after_left().wf(),
        pre.after_right().wf(),
        pre.after_input(input).wf(),
{
}

/// Keys move the player and nothing else.
pub proof fn lemma_input_moves_only_player(pre: SessionView, input: FrameInput)
    ensures
        pre.after_input(input) == (SessionView {
            player_x: pre.after_input(input).player_x,
            ..pre
        }),
{
}

/// The score never falls. A tick of a running session earns exactly one
/// point when no block hits the player, and none when one does.
pub proof fn lemma_score_monotone(pre: SessionView, input: FrameInput, columns: Seq<usize>)
    ensures
        pre.after_input(input).score == pre.score,
        pre.after_step(columns).score >= pre.score,
        pre.state == SessionState::Playing ==> pre.after_step(columns).score == if hits(
            pre.field_after_step(columns),
            pre.player_x,
            pre.height,
        ) {
            pre.score
        } else {
            pre.score + 1
        },
{
}

/// A tick ends the game exactly when a block is on the player's cell once
/// the blocks have advanced and the spawns have entered.
pub proof fn lemma_game_over_iff_hit(pre: SessionView, columns: Seq<usize>)
    requires
        pre.state == SessionState::Playing,
    ensures
        pre.after_step(columns).state == SessionState::GameOver <==> hits(
            pre.field_after_step(columns),
            pre.player_x,
            pre.height,
        ),
{
}

/// A block right above the player's cell ends the game on the next tick,
/// whatever that tick spawns, and the tick earns no point.
pub proof fn lemma_block_above_player_ends_game(pre: SessionView, columns: Seq<usize>, j: int)
    requires
        pre.state == SessionState::Playing,
        0 <= j < pre.blocks.len(),
        pre.blocks[j].x == pre.player_x,
        pre.blocks[j].y + 2 == pre.height,
    ensures
        pre.after_step(columns).state == SessionState::GameOver,
        pre.after_step(columns).score == pre.score,
{
    lemma_advanced_keeps(pre.blocks, pre.height, j);
    let fallen = advanced(pre.blocks, pre.height);
    let i = choose|i: int| 0 <= i < fallen.len() && fallen[i] == lowered(pre.blocks[j]);
    assert(pre.field_after_step(columns)[i] == fallen[i]);
}

/// A session that is still running after a run of ticks has earned one
/// point for each of them.
pub proof fn lemma_survivor_scores_every_tick(pre: SessionView, ticks: Seq<Seq<usize>>)
    requires
        pre.after_steps(ticks).state == SessionState::Playing,
    ensures
        pre.state == SessionState::Playing,
        pre.after_steps(ticks).score == pre.score + ticks.len(),
    decreases ticks.len(),
{
    if ticks.len() > 0 {
        lemma_survivor_scores_every_tick(pre, ticks.drop_last());
    }
}

/// A fresh session that survives `LEVEL_THRESHOLD` ticks is at level 1,
/// where ticks come faster than at level 0.
pub proof fn lemma_first_level_up(opened: SessionView, ticks: Seq<Seq<usize>>)
    requires
        opened.score == 0,
        ticks.len() == LEVEL_THRESHOLD,
        opened.after_steps(ticks).state == SessionState::Playing,
    ensures
        opened.after_steps(ticks).level() == 1,
        tick_interval_of(opened.after_steps(ticks).level()) < tick_interval_of(opened.level()),
{
    lemma_survivor_scores_every_tick(opened, ticks);
}

/// Nothing changes a finished session, and no tick is ever due for it.
pub proof fn lemma_game_over_is_terminal(
    pre: SessionView,
    input: FrameInput,
    columns: Seq<usize>,
    elapsed_ms: u64,
)
    requires
        pre.state == SessionState::GameOver,
    ensures
        pre.after_input(input) == pre,
        pre.after_step(columns) == pre,
        !pre.tick_due(elapsed_ms),
        pre.frame_outcome(input, elapsed_ms) == FrameOutcome::Idle,
{
}

} // verus!
