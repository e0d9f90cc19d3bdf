//! What holds of every state the puzzle can reach, whatever the player and
//! the clock do.

use crate::engine::{EngineState, PuzzleEngine};
use crate::pipe::Point;
use crate::tile::ArrowKeys;
use crate::water::WaterOutcome;
use vstd::prelude::*;

verus! {

/// One command to the puzzle.
#[derive(Clone, Copy, Debug, PartialEq, Eq, Structural)]
pub enum Command {
    /// Move the selection one step towards a side.
    Select(Point),
    /// Slide the selected tile towards a side.
    Slide(Point),
    /// Turn the pipe of the selected tile.
    Rotate,
    /// Let time pass and perform the water step that is then due.
    Tick(u32),
}

impl EngineState {
    /// The puzzle after one command.
    pub open spec fn step(self, command: Command) -> EngineState {
        match command {
            Command::Select(d) => self.select(d),
            Command::Slide(d) => self.slide_toward(d),
            Command::Rotate => self.rotate(),
            Command::Tick(delta) => self.tick_water(delta),
        }
    }

    /// The puzzle after a sequence of commands, the first command first.
    pub open spec fn run(self, commands: Seq<Command>) -> EngineState
        decreases commands.len(),
    {
        if commands.len() == 0 {
            self
        } else {
            self.run(commands.drop_last()).step(commands.last())
        }
    }
}

impl PuzzleEngine {
    /// Carries out one command.
    pub fn apply(&mut self, command: Command)
        requires
            old(self).wf(),
        ensures
            final(self).wf(),
            final(self)@ == old(self)@.step(command),
    {
        match command {
            Command::Select(direction) => {
                self.select(direction);
            },
            Command::Slide(direction) => {
                self.slide_toward(direction);
            },
            Command::Rotate => {
                self.rotate();
            },
            Command::Tick(delta) => {
                self.tick_water(delta);
            },
        }
    }
}

/// Whether every tile that is locked in `before` is locked in `after`.
pub open spec fn locks_kept(before: EngineState, after: EngineState) -> bool {
    forall|i: int|
        0 <= i < before.tiles.len() && !(#[trigger] before.tiles[i]).movable ==> !after.tiles[i].movable
}

/// A selection command keeps the invariant and touches nothing but the
/// selection.
pub proof fn lemma_select_keeps_invariant(s: EngineState, d: Point)
    requires
        s.wf(),
    ensures
        s.select(d).wf(),
        s.select(d).board.gaps == s.board.gaps,
        s.select(d).tiles == s.tiles,
{
}

/// A slide command keeps the invariant and the number of gaps: it trades
/// one gap for another, and only where the selected tile is not locked
/// and has a gap beside it.
pub proof fn lemma_slide_keeps_invariant(s: EngineState, d: Point)
    requires
        s.wf(),
    ensures
        s.slide_toward(d).wf(),
        s.slide_toward(d).board.gaps.len() == s.board.gaps.len(),
        s.slide_toward(d) != s ==> s.active_tile().movable && s.board.gaps.contains(
            s.slide_toward(d).board.active,
        ) && s.slide_toward(d).board.gaps.contains(s.board.active),
{
    if s.can_slide(d) {
        let t = s.slide_toward(d);
        let c = s.board.candidate(d);
        assert(c != s.board.active);
        assert(t.tiles.len() == s.tiles.len());
        assert forall|i: int| 0 <= i < t.tiles.len() implies (#[trigger] t.tiles[i]).idx == i by {
            assert(s.tiles[i].idx == i);
        }
    }
}

/// A rotate command keeps the invariant and leaves the board alone.
pub proof fn lemma_rotate_keeps_invariant(s: EngineState)
    requires
        s.wf(),
    ensures
        s.rotate().wf(),
        s.rotate().board == s.board,
{
    let t = s.rotate();
    assert forall|i: int| 0 <= i < t.tiles.len() implies (#[trigger] t.tiles[i]).idx == i by {
        assert(s.tiles[i].idx == i);
    }
}

/// Passing time and the water step keep the invariant, the gaps and the
/// selection; a tile that the flow has locked stays locked.
pub proof fn lemma_tick_keeps_invariant(s: EngineState, delta: u32)
    requires
        s.wf(),
    ensures
        s.tick_water(delta).wf(),
        s.tick_water(delta).board.gaps == s.board.gaps,
        s.tick_water(delta).board.active == s.board.active,
        locks_kept(s, s.tick_water(delta)),
{
    let p = s.pass_time(delta);
    let t = p.update_water();
    assert(p.timer.wf());
    assert forall|i: int| 0 <= i < t.tiles.len() implies (#[trigger] t.tiles[i]).idx == i by {
        assert(s.tiles[i].idx == i);
    }
}

/// Every command keeps the invariant, the number of gaps and the size of
/// the grid, and unlocks no tile.
pub proof fn lemma_step_keeps_invariant(s: EngineState, command: Command)
    requires
        s.wf(),
    ensures
        s.step(command).wf(),
        s.step(command).board.gaps.len() == s.board.gaps.len(),
        s.step(command).board.size == s.board.size,
        locks_kept(s, s.step(command)),
{
    match command {
        Command::Select(d) => lemma_select_keeps_invariant(s, d),
        Command::Slide(d) => lemma_slide_keeps_invariant(s, d),
        Command::Rotate => lemma_rotate_keeps_invariant(s),
        Command::Tick(delta) => lemma_tick_keeps_invariant(s, delta),
    }
}

/// In every state that a well-formed puzzle reaches by any sequence of
/// commands, the invariant holds: in particular the selected tile is on
/// the grid and is not a gap.
pub proof fn lemma_reachable_states_are_well_formed(s: EngineState, commands: Seq<Command>)
    requires
        s.wf(),
    ensures
        s.run(commands).wf(),
        0 <= s.run(commands).board.active < s.run(commands).board.size,
        !s.run(commands).board.gaps.contains(s.run(commands).board.active),
    decreases commands.len(),
{
    if commands.len() > 0 {
        lemma_reachable_states_are_well_formed(s, commands.drop_last());
        lemma_step_keeps_invariant(s.run(commands.drop_last()), commands.last());
    }
}

/// The number of gaps is the same after any sequence of commands as
/// before it: a slide trades one gap for another, and no other command
/// touches the gaps.
pub proof fn lemma_gap_count_is_constant(s: EngineState, commands: Seq<Command>)
    requires
        s.wf(),
    ensures
        s.run(commands).board.gaps.len() == s.board.gaps.len(),
    decreases commands.len(),
{
    if commands.len() > 0 {
        lemma_gap_count_is_constant(s, commands.drop_last());
        lemma_reachable_states_are_well_formed(s, commands.drop_last());
        lemma_step_keeps_invariant(s.run(commands.drop_last()), commands.last());
    }
}

/// A tile that is locked stays locked, whatever commands follow: once
/// water has entered a tile, it can never be moved again.
pub proof fn lemma_locked_tiles_stay_locked(s: EngineState, commands: Seq<Command>)
    requires
        s.wf(),
    ensures
        s.run(commands).tiles.len() == s.tiles.len(),
        locks_kept(s, s.run(commands)),
    decreases commands.len(),
{
    if commands.len() > 0 {
        let before = s.run(commands.drop_last());
        lemma_locked_tiles_stay_locked(s, commands.drop_last());
        lemma_reachable_states_are_well_formed(s, commands.drop_last());
        lemma_step_keeps_invariant(before, commands.last());
        assert forall|i: int|
            0 <= i < s.tiles.len() && !(#[trigger] s.tiles[i]).movable implies !s.run(
            commands,
        ).tiles[i].movable by {
            assert(!before.tiles[i].movable);
        }
    }
}

/// Four rotate commands in a row leave the puzzle as it was.
pub proof fn lemma_four_rotations_restore(s: EngineState)
    requires
        s.wf(),
    ensures
        s.rotate().rotate().rotate().rotate() == s,
{
    let a = s.board.active;
    let r1 = s.rotate();
    let r2 = r1.rotate();
    let r3 = r2.rotate();
    let r4 = r3.rotate();
    if s.active_tile().movable {
        assert(r1.tiles[a] == s.tiles[a].turned());
        assert(r2.tiles[a] == s.tiles[a].turned().turned());
        assert(r3.tiles[a] == s.tiles[a].turned().turned().turned());
        assert(r4.tiles[a] == s.tiles[a]);
        assert(r4.tiles =~= s.tiles);
    }
}

/// A frame without input changes nothing: no arrow key, no selection and
/// no slide; no rotate key, no rotation; and while the timer completes no
/// interval, the water step changes nothing, so that only the time
/// gathered by the timer moves on.
pub proof fn lemma_no_input_no_change(s: EngineState, keys: ArrowKeys, delta: u32)
    requires
        keys.none_pressed(),
    ensures
        s.handle_selection(keys) == s,
        s.handle_shuffle(keys) == s,
        s.handle_rotation(false) == s,
        !s.timer.ticked(delta).finished ==> s.tick_water(delta) == s.pass_time(delta)
            && s.pass_time(delta).water_outcome() == WaterOutcome::Waiting,
        !s.timer.finished ==> s.update_water() == s,
{
}

} // verus!
