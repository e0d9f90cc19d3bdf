//! Tiles: a fixed place on the grid, the pipe that currently lies there and
//! whether the tile may still be moved.

use crate::engine::PuzzleEngine;
use crate::pipe::{Pipe, PipeType, Point};
use vstd::prelude::*;

verus! {

/// A place on the grid. The index never changes; the pipe changes place
/// when the tile slides, and `movable` turns false for good once water
/// has entered.
#[derive(Clone, Copy, Debug, PartialEq, Eq, Structural)]
pub struct Tile {
    pub idx: i16,
    pub movable: bool,
    pub pipe: Pipe,
}

impl Tile {
    /// A movable tile at `idx` with a dry pipe of the given shape.
    pub open spec fn fresh(idx: i16, pipe_type: PipeType) -> Tile {
        Tile { idx, movable: true, pipe: Pipe { pipe_type, painted: false } }
    }

    /// The tile with another pipe in place of its own.
    pub open spec fn with_pipe(self, pipe: Pipe) -> Tile {
        Tile { pipe, ..self }
    }

    /// The tile after its pipe has made a quarter turn clockwise.
    pub open spec fn turned(self) -> Tile {
        Tile { pipe: self.pipe.rotated(), ..self }
    }

    /// The tile after water has entered it: the pipe painted, the tile locked.
    pub open spec fn flooded(self) -> Tile {
        Tile {
            movable: false,
            pipe: Pipe { pipe_type: self.pipe.pipe_type, painted: true },
            ..self
        }
    }

    /// Makes a movable tile at `idx` with a dry pipe of the given shape.
    pub fn new(idx: i16, pipe_type: PipeType) -> (r: Tile)
        ensures
            r == Tile::fresh(idx, pipe_type),
    {
        Tile { idx, movable: true, pipe: Pipe::new(pipe_type) }
    }
}

/// Exchanges the pipes at places `a` and `b`.
pub open spec fn swap_pipes(tiles: Seq<Tile>, a: int, b: int) -> Seq<Tile> {
    tiles.update(a, tiles[a].with_pipe(tiles[b].pipe)).update(b, tiles[b].with_pipe(tiles[a].pipe))
}

/// Which arrow keys went down in the current frame.
#[derive(Clone, Copy, Debug, PartialEq, Eq, Structural)]
pub struct ArrowKeys {
    pub right: bool,
    pub left: bool,
    pub up: bool,
    pub down: bool,
}

impl ArrowKeys {
    /// Whether no arrow key went down.
    pub open spec fn none_pressed(self) -> bool {
        !self.right && !self.left && !self.up && !self.down
    }

    /// The direction of a slide command: of the keys that went down, down
    /// wins over up, up over left, and left over right.
    pub open spec fn slide_direction(self) -> Option<Point> {
        if self.down {
            Some(Point::Bottom)
        } else if self.up {
            Some(Point::Top)
        } else if self.left {
            Some(Point::Left)
        } else if self.right {
            Some(Point::Right)
        } else {
            None
        }
    }

    /// Makes the keys of a frame in which no arrow key went down.
    pub fn none() -> (r: ArrowKeys)
        ensures
            r.none_pressed(),
    {
        ArrowKeys { right: false, left: false, up: false, down: false }
    }

    /// Makes the keys of a frame in which only the arrow key towards
    /// `direction` went down.
    pub fn only(direction: Point) -> (r: ArrowKeys)
        ensures
            r.right == (direction == Point::Right),
            r.left == (direction == Point::Left),
            r.up == (direction == Point::Top),
            r.down == (direction == Point::Bottom),
            r.slide_direction() == Some(direction),
    {
        match direction {
            Point::Top => ArrowKeys { right: false, left: false, up: true, down: false },
            Point::Right => ArrowKeys { right: true, left: false, up: false, down: false },
            Point::Bottom => ArrowKeys { right: false, left: false, up: false, down: true },
            Point::Left => ArrowKeys { right: false, left: true, up: false, down: false },
        }
    }

    /// Returns the direction of the slide command that the keys give, if any.
    pub fn get_slide_direction(&self) -> (r: Option<Point>)
        ensures
            r == self.slide_direction(),
    {
        if self.down {
            Some(Point::Bottom)
        } else if self.up {
            Some(Point::Top)
        } else if self.left {
            Some(Point::Left)
        } else if self.right {
            Some(Point::Right)
        } else {
            None
        }
    }
}

/// Moves the selection for every arrow key that went down, in the order
/// right, left, down, up; each step starts from where the step before
/// left the selection. Without a key nothing changes.
pub fn handle_tile_selection(engine: &mut PuzzleEngine, keys: &ArrowKeys)
    requires
        old(engine).wf(),
    ensures
        final(engine).wf(),
        final(engine)@ == old(engine)@.handle_selection(*keys),
        final(engine).tiles == old(engine).tiles,
        final(engine).timer == old(engine).timer,
        final(engine).board.gap_idxs == old(engine).board.gap_idxs,
        keys.none_pressed() ==> *final(engine) == *old(engine),
{
    if keys.right {
        engine.select(Point::Right);
    }
    if keys.left {
        engine.select(Point::Left);
    }
    if keys.down {
        engine.select(Point::Bottom);
    }
    if keys.up {
        engine.select(Point::Top);
    }
}

/// Slides the selected tile towards the arrow key that went down, where
/// the tile is not locked and a gap lies there. Of several keys, down wins
/// over up, up over left, and left over right. Without a key nothing
/// changes.
pub fn handle_tile_shuffle(engine: &mut PuzzleEngine, keys: &ArrowKeys)
    requires
        old(engine).wf(),
    ensures
        final(engine).wf(),
        final(engine)@ == old(engine)@.handle_shuffle(*keys),
        final(engine)@.board.gaps.len() == old(engine)@.board.gaps.len(),
        keys.none_pressed() ==> *final(engine) == *old(engine),
{
    if !engine.tiles[engine.board.active_tile_idx as usize].movable {
        return;
    }
    match keys.get_slide_direction() {
        Some(direction) => {
            engine.slide_toward(direction);
        },
        None => {},
    }
}

/// Turns the pipe of the selected tile a quarter turn clockwise when the
/// rotate key went down and the tile is not locked; otherwise changes
/// nothing.
pub fn handle_tile_rotation(engine: &mut PuzzleEngine, pressed: bool)
    requires
        old(engine).wf(),
    ensures
        final(engine).wf(),
        final(engine)@ == old(engine)@.handle_rotation(pressed),
        final(engine).board == old(engine).board,
        !pressed ==> *final(engine) == *old(engine),
{
    if pressed {
        engine.rotate();
    }
}

} // verus!
