//! The water flow: a repeating timer and the step that moves the flow
//! along the pipes.

use crate::engine::PuzzleEngine;
use vstd::prelude::*;

verus! {

/// A repeating interval timer over whole time units (milliseconds by default).
#[derive(Clone, Copy, Debug, PartialEq, Eq, Structural)]
pub struct WaterTimer {
    /// Time gathered since the last completed interval.
    pub elapsed: u32,
    /// The length of an interval.
    pub period: u32,
    /// Whether the latest tick completed an interval.
    pub finished: bool,
}

impl WaterTimer {
    /// The timer's invariant: a positive period and less than one period gathered.
    pub open spec fn wf(self) -> bool {
        0 < self.period && self.elapsed < self.period
    }

    /// The timer at the start of a puzzle: an interval of 2000 units,
    /// nothing gathered.
    pub open spec fn fresh() -> WaterTimer {
        WaterTimer { elapsed: 0, period: 2000, finished: false }
    }

    /// The timer after `delta` more units: it has finished when the time
    /// gathered reaches the period, and keeps what lies beyond the last
    /// whole interval.
    pub open spec fn ticked(self, delta: u32) -> WaterTimer {
        WaterTimer {
            elapsed: ((self.elapsed + delta) % (self.period as int)) as u32,
            period: self.period,
            finished: self.elapsed + delta >= self.period,
        }
    }

    /// Makes the timer of a new puzzle.
    pub fn new() -> (r: WaterTimer)
        ensures
            r == WaterTimer::fresh(),
            r.wf(),
    {
        WaterTimer { elapsed: 0, period: 2000, finished: false }
    }

    /// Tells whether the latest tick completed an interval.
    pub fn just_finished(&self) -> (r: bool)
        ensures
            r == self.finished,
    {
        self.finished
    }

    /// Advances the timer by `delta` units.
    pub fn tick(&mut self, delta: u32)
        requires
            0 < old(self).period,
        ensures
            *final(self) == old(self).ticked(delta),
            final(self).wf(),
    {
        let total: u64 = self.elapsed as u64 + delta as u64;
        let period: u64 = self.period as u64;
        self.finished = total >= period;
        self.elapsed = (total % period) as u32;
    }
}

impl Default for WaterTimer {
    fn default() -> (r: WaterTimer)
        ensures
            r == WaterTimer::fresh(),
    {
        WaterTimer::new()
    }
}

/// Advances the water timer by the time that has passed since the last frame.
pub fn tick_water_timer(water_timer: &mut WaterTimer, delta: u32)
    requires
        0 < old(water_timer).period,
    ensures
        *final(water_timer) == old(water_timer).ticked(delta),
        final(water_timer).wf(),
{
    water_timer.tick(delta);
}

/// What a water step did.
#[derive(Clone, Copy, Debug, PartialEq, Eq, Structural)]
pub enum WaterOutcome {
    /// The timer has not completed an interval: nothing changed.
    Waiting,
    /// The pipe under the flow has no connection point where the flow
    /// enters: nothing changed, the flow waits for the pipe to be turned.
    Blocked,
    /// The flow entered the tile: its pipe is painted and the tile locked.
    Entered,
    /// The flow left the tile and now stands in the next one.
    Advanced,
    /// The flow would leave the grid: nothing changed.
    AtEdge,
}

/// Performs the water step of one frame.
///
/// Nothing happens unless the timer has just completed an interval and the
/// pipe under the flow has a connection point on the side where the flow
/// enters. Then a dry pipe is painted and its tile locked; a painted pipe
/// lets the flow out at its other end into the neighbouring tile, which
/// the flow enters from the facing side. A flow that would leave the grid
/// stays where it is.
pub fn update_water(engine: &mut PuzzleEngine) -> (outcome: WaterOutcome)
    requires
        old(engine).wf(),
    ensures
        final(engine).wf(),
        final(engine)@ == old(engine)@.update_water(),
        outcome == old(engine)@.water_outcome(),
        final(engine).board.gap_idxs == old(engine).board.gap_idxs,
        outcome != WaterOutcome::Entered && outcome != WaterOutcome::Advanced ==> *final(engine)
            == *old(engine),
{
    let water: i16 = engine.board.water_idx;
    let entry = engine.board.next_entry_point;
    let tile = engine.tiles[water as usize];
    if !engine.timer.just_finished() {
        return WaterOutcome::Waiting;
    }
    match tile.pipe.pipe_type.exit_from(entry) {
        None => WaterOutcome::Blocked,
        Some(exit) => {
            if !tile.pipe.painted {
                let mut wet = tile;
                wet.movable = false;
                wet.pipe.painted = true;
                engine.tiles.set(water as usize, wet);
                WaterOutcome::Entered
            } else {
                let target: i32 = engine.board.neighbour(water, exit);
                if 0 <= target && target < engine.board.size as i32 {
                    engine.board.next_entry_point = exit.get_oposite();
                    engine.board.next_water_idx = target as i16;
                    engine.board.water_idx = target as i16;
                    WaterOutcome::Advanced
                } else {
                    WaterOutcome::AtEdge
                }
            }
        },
    }
}

} // verus!
