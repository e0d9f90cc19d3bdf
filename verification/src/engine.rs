//! The puzzle engine: the board, its tiles and the water timer, with the
//! commands of the player and of the clock.

use crate::board::{
    index_of, lemma_index_set_contains, lemma_index_set_push, lemma_index_set_remove, Board,
    BoardState,
};
use crate::pipe::Point;
use crate::tile::{swap_pipes, ArrowKeys, Tile};
use crate::water::{tick_water_timer, update_water, WaterOutcome, WaterTimer};
use vstd::prelude::*;

verus! {

/// The whole puzzle as a mathematical value.
pub struct EngineState {
    pub board: BoardState,
    /// The tiles by index.
    pub tiles: Seq<Tile>,
    pub timer: WaterTimer,
}

impl EngineState {
    /// The puzzle's invariant: a well-formed board, one tile for every
    /// index of the grid, each knowing its index, and a well-formed timer.
    pub open spec fn wf(self) -> bool {
        &&& self.board.wf()
        &&& self.tiles.len() == self.board.size
        &&& forall|i: int| 0 <= i < self.tiles.len() ==> (#[trigger] self.tiles[i]).idx == i
        &&& self.timer.wf()
    }

    /// The selected tile.
    pub open spec fn active_tile(self) -> Tile {
        self.tiles[self.board.active]
    }

    /// The tile the flow is in.
    pub open spec fn water_tile(self) -> Tile {
        self.tiles[self.board.water]
    }

    /// Whether the pipe under the flow has a connection point on the side
    /// where the flow enters.
    pub open spec fn water_ready(self) -> bool {
        self.water_tile().pipe.pipe_type.connects(self.board.entry)
    }

    /// The side through which the flow leaves the tile it is in.
    pub open spec fn water_exit(self) -> Point {
        self.water_tile().pipe.pipe_type.exit_for(self.board.entry)
    }

    /// The index of the tile beyond the exit, whether or not it is on the grid.
    pub open spec fn water_target(self) -> int {
        self.board.water + self.board.delta(self.water_exit())
    }

    /// What the water step of a frame does in this state.
    pub open spec fn water_outcome(self) -> WaterOutcome {
        if !self.timer.finished {
            WaterOutcome::Waiting
        } else if !self.water_ready() {
            WaterOutcome::Blocked
        } else if !self.water_tile().pipe.painted {
            WaterOutcome::Entered
        } else if 0 <= self.water_target() < self.board.size {
            WaterOutcome::Advanced
        } else {
            WaterOutcome::AtEdge
        }
    }

    /// The puzzle after a selection command towards `d`.
    pub open spec fn select(self, d: Point) -> EngineState {
        EngineState { board: self.board.select(d), ..self }
    }

    /// Whether the selected tile may slide towards `d`: it is not locked
    /// and its neighbour there is a gap.
    pub open spec fn can_slide(self, d: Point) -> bool {
        self.active_tile().movable && self.board.gap_towards(d)
    }

    /// The puzzle after a slide command towards `d`: where the tile may
    /// slide, it changes places with the gap and takes its pipe along.
    pub open spec fn slide_toward(self, d: Point) -> EngineState {
        if self.can_slide(d) {
            EngineState {
                board: self.board.slide(d),
                tiles: swap_pipes(self.tiles, self.board.active, self.board.candidate(d)),
                ..self
            }
        } else {
            self
        }
    }

    /// The puzzle after a rotate command: the pipe of the selected tile
    /// makes a quarter turn, unless the tile is locked.
    pub open spec fn rotate(self) -> EngineState {
        if self.active_tile().movable {
            EngineState {
                tiles: self.tiles.update(self.board.active, self.active_tile().turned()),
                ..self
            }
        } else {
            self
        }
    }

    /// The puzzle after the selection step of a frame: one selection
    /// command for every arrow key that went down, in the order right,
    /// left, down, up.
    pub open spec fn handle_selection(self, keys: ArrowKeys) -> EngineState {
        let after_right = if keys.right {
            self.select(Point::Right)
        } else {
            self
        };
        let after_left = if keys.left {
            after_right.select(Point::Left)
        } else {
            after_right
        };
        let after_down = if keys.down {
            after_left.select(Point::Bottom)
        } else {
            after_left
        };
        if keys.up {
            after_down.select(Point::Top)
        } else {
            after_down
        }
    }

    /// The puzzle after the slide step of a frame: one slide command
    /// towards the direction that the keys give, if they give one.
    pub open spec fn handle_shuffle(self, keys: ArrowKeys) -> EngineState {
        match keys.slide_direction() {
            Some(d) => self.slide_toward(d),
            None => self,
        }
    }

    /// The puzzle after the rotation step of a frame: one rotate command
    /// if the rotate key went down.
    pub open spec fn handle_rotation(self, pressed: bool) -> EngineState {
        if pressed {
            self.rotate()
        } else {
            self
        }
    }

    /// The puzzle after `delta` time units have passed on the timer.
    pub open spec fn pass_time(self, delta: u32) -> EngineState {
        EngineState { timer: self.timer.ticked(delta), ..self }
    }

    /// The puzzle after `delta` time units and the water step that is then due.
    pub open spec fn tick_water(self, delta: u32) -> EngineState {
        self.pass_time(delta).update_water()
    }

    /// The puzzle after the water step of a frame.
    pub open spec fn update_water(self) -> EngineState {
        match self.water_outcome() {
            WaterOutcome::Entered => EngineState {
                tiles: self.tiles.update(self.board.water, self.water_tile().flooded()),
                ..self
            },
            WaterOutcome::Advanced => EngineState {
                board: BoardState {
                    entry: self.water_exit().opposite(),
                    next_water: self.water_target(),
                    water: self.water_target(),
                    ..self.board
                },
                ..self
            },
            _ => self,
        }
    }
}

/// The puzzle: one board, one tile for every index of its grid, and the
/// timer that paces the water.
#[derive(Clone, Debug, PartialEq, Eq)]
pub struct PuzzleEngine {
    pub board: Board,
    pub tiles: Vec<Tile>,
    pub timer: WaterTimer,
}

impl View for PuzzleEngine {
    type V = EngineState;

    open spec fn view(&self) -> EngineState {
        EngineState { board: self.board@, tiles: self.tiles@, timer: self.timer }
    }
}

/// Tells whether there is one tile for every index below `size`, each
/// knowing its index.
pub fn tiles_in_place(tiles: &Vec<Tile>, size: i16) -> (r: bool)
    ensures
        r == (tiles.len() == size && forall|i: int|
            0 <= i < tiles.len() ==> (#[trigger] tiles@[i]).idx == i),
{
    if size < 0 || tiles.len() != size as usize {
        return false;
    }
    let mut i: usize = 0;
    while i < tiles.len()
        invariant
            0 <= i <= tiles.len(),
            tiles.len() == size,
            forall|k: int| 0 <= k < i ==> (#[trigger] tiles@[k]).idx == k,
        decreases tiles.len() - i,
    {
        if tiles[i].idx != i as i16 {
            return false;
        }
        i += 1;
    }
    true
}

impl PuzzleEngine {
    /// The invariant of the puzzle as stored.
    pub open spec fn wf(&self) -> bool {
        &&& self.board.wf()
        &&& self@.wf()
    }

    /// Puts a board and its tiles together with a new timer. Returns `None`
    /// unless the board is well formed and there is one tile for every
    /// index of its grid, each knowing its index.
    pub fn new(board: Board, tiles: Vec<Tile>) -> (r: Option<PuzzleEngine>)
        ensures
            r is Some <==> (PuzzleEngine { board, tiles, timer: WaterTimer::fresh() }).wf(),
            r matches Some(engine) ==> engine == (PuzzleEngine {
                board,
                tiles,
                timer: WaterTimer::fresh(),
            }),
    {
        let engine = PuzzleEngine { board, tiles, timer: WaterTimer::new() };
        if engine.is_valid() {
            Some(engine)
        } else {
            None
        }
    }

    /// Tells whether the puzzle as stored meets its invariant.
    pub fn is_valid(&self) -> (r: bool)
        ensures
            r == self.wf(),
    {
        self.board.is_valid() && tiles_in_place(&self.tiles, self.board.size) && 0
            < self.timer.period && self.timer.elapsed < self.timer.period
    }

    /// Moves the selection one step towards `direction` when the neighbour
    /// there is on the grid and is not a gap; otherwise changes nothing.
    /// Returns whether the selection moved.
    pub fn select(&mut self, direction: Point) -> (moved: bool)
        requires
            old(self).wf(),
        ensures
            final(self).wf(),
            moved == old(self)@.board.can_select(direction),
            final(self)@ == old(self)@.select(direction),
            final(self).tiles == old(self).tiles,
            final(self).timer == old(self).timer,
            final(self).board.gap_idxs == old(self).board.gap_idxs,
            !moved ==> *final(self) == *old(self),
    {
        self.board.select(direction)
    }

    /// Tells whether the selected tile may slide towards `direction`: it is
    /// not locked and its neighbour there is a gap.
    pub fn can_slide(&self, direction: Point) -> (r: bool)
        requires
            self.wf(),
        ensures
            r == self@.can_slide(direction),
    {
        self.tiles[self.board.active_tile_idx as usize].movable && self.board.gap_towards(
            direction,
        )
    }

    /// Slides the selected tile into the gap towards `direction`, when it is
    /// not locked and there is a gap: the pipe moves with the tile, the
    /// place it leaves becomes the gap, and the selection follows the tile.
    /// Otherwise changes nothing. Returns whether the tile moved.
    pub fn slide_toward(&mut self, direction: Point) -> (moved: bool)
        requires
            old(self).wf(),
        ensures
            final(self).wf(),
            moved == old(self)@.can_slide(direction),
            final(self)@ == old(self)@.slide_toward(direction),
            final(self)@.board.gaps.len() == old(self)@.board.gaps.len(),
            !moved ==> *final(self) == *old(self),
    {
        let active: i16 = self.board.active_tile_idx;
        let tile = self.tiles[active as usize];
        if !tile.movable {
            return false;
        }
        let c: i32 = self.board.candidate(direction);
        if c < 0 || c >= self.board.size as i32 {
            return false;
        }
        let target: i16 = c as i16;
        proof {
            lemma_index_set_contains(self.board.gap_idxs@, target);
        }
        match index_of(&self.board.gap_idxs, target) {
            None => false,
            Some(k) => {
                let other = self.tiles[target as usize];
                proof {
                    let gaps = self.board.gap_idxs@;
                    lemma_index_set_remove(gaps, k as int);
                    lemma_index_set_push(gaps.remove(k as int), active);
                    lemma_index_set_contains(gaps.remove(k as int), active);
                }
                self.board.gap_idxs.remove(k);
                self.board.gap_idxs.push(active);
                self.board.active_tile_idx = target;
                let mut arrived = other;
                arrived.pipe = tile.pipe;
                let mut left = tile;
                left.pipe = other.pipe;
                self.tiles.set(active as usize, left);
                self.tiles.set(target as usize, arrived);
                proof {
                    assert(self.tiles@ =~= swap_pipes(old(self).tiles@, active as int, c as int));
                    assert(self@.board.gaps =~= old(self)@.board.slide(direction).gaps);
                }
                true
            },
        }
    }

    /// Turns the pipe of the selected tile a quarter turn clockwise, unless
    /// the tile is locked. Returns whether the pipe turned.
    pub fn rotate(&mut self) -> (turned: bool)
        requires
            old(self).wf(),
        ensures
            final(self).wf(),
            turned == old(self)@.active_tile().movable,
            final(self)@ == old(self)@.rotate(),
            final(self).board == old(self).board,
            !turned ==> *final(self) == *old(self),
    {
        let active: usize = self.board.active_tile_idx as usize;
        let mut tile = self.tiles[active];
        if !tile.movable {
            return false;
        }
        tile.pipe.rotate();
        self.tiles.set(active, tile);
        true
    }

    /// Tells whether the pipe under the flow has a connection point on the
    /// side where the flow enters.
    pub fn is_water_ready(&self) -> (r: bool)
        requires
            self.wf(),
        ensures
            r == self@.water_ready(),
    {
        let tile = self.tiles[self.board.water_idx as usize];
        tile.pipe.pipe_type.connects_to(self.board.next_entry_point)
    }

    /// Lets `delta` time units pass and performs the water step that is then due.
    pub fn tick_water(&mut self, delta: u32) -> (outcome: WaterOutcome)
        requires
            old(self).wf(),
        ensures
            final(self).wf(),
            final(self)@ == old(self)@.tick_water(delta),
            outcome == old(self)@.pass_time(delta).water_outcome(),
    {
        tick_water_timer(&mut self.timer, delta);
        update_water(self)
    }
}

} // verus!
