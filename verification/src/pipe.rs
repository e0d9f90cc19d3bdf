//! Pipe geometry: tile sides, pipe shapes, their connection points and
//! quarter-turn rotation.

use crate::chance::random_index;
use vstd::prelude::*;

verus! {

/// One of the four sides of a tile, where a pipe can connect to a neighbour.
#[derive(Clone, Copy, Debug, PartialEq, Eq, Structural)]
pub enum Point {
    Top,
    Right,
    Bottom,
    Left,
}

impl Point {
    /// The side facing this one: top and bottom, left and right.
    pub open spec fn opposite(self) -> Point {
        match self {
            Point::Top => Point::Bottom,
            Point::Right => Point::Left,
            Point::Bottom => Point::Top,
            Point::Left => Point::Right,
        }
    }

    /// The side reached by a quarter turn clockwise.
    pub open spec fn clockwise(self) -> Point {
        match self {
            Point::Top => Point::Right,
            Point::Right => Point::Bottom,
            Point::Bottom => Point::Left,
            Point::Left => Point::Top,
        }
    }

    /// The unit offset `(x, y)` from a tile's centre towards this side,
    /// with `y` growing upwards.
    pub open spec fn offset(self) -> (int, int) {
        match self {
            Point::Top => (0, 1),
            Point::Right => (1, 0),
            Point::Bottom => (0, -1),
            Point::Left => (-1, 0),
        }
    }

    /// Returns the unit offset from the tile's centre towards this side.
    pub fn get(&self) -> (r: (i8, i8))
        ensures
            (r.0 as int, r.1 as int) == self.offset(),
    {
        match self {
            Point::Top => (0, 1),
            Point::Bottom => (0, -1),
            Point::Left => (-1, 0),
            Point::Right => (1, 0),
        }
    }

    /// Returns the facing side.
    pub fn get_oposite(&self) -> (r: Point)
        ensures
            r == self.opposite(),
    {
        match self {
            Point::Top => Point::Bottom,
            Point::Right => Point::Left,
            Point::Bottom => Point::Top,
            Point::Left => Point::Right,
        }
    }

    /// Returns the side a quarter turn clockwise from this one.
    pub fn get_clockwise(&self) -> (r: Point)
        ensures
            r == self.clockwise(),
    {
        match self {
            Point::Top => Point::Right,
            Point::Right => Point::Bottom,
            Point::Bottom => Point::Left,
            Point::Left => Point::Top,
        }
    }
}

/// The shape of a pipe segment and its current orientation.
///
/// A straight pipe runs from the named side to the facing side; an elbow
/// runs from the named side to the side a quarter turn clockwise from it.
/// `Straight(Top)` and `Straight(Bottom)` cover the same two sides, as do
/// `Straight(Left)` and `Straight(Right)`: the parameter records the
/// rotation state, so that every family has four states.
#[derive(Clone, Copy, Debug, PartialEq, Eq, Structural)]
pub enum PipeType {
    Elbow(Point),
    Straight(Point),
}

impl PipeType {
    /// The side the shape is named after: the first of its two connection points.
    pub open spec fn first_end(self) -> Point {
        match self {
            PipeType::Elbow(d) => d,
            PipeType::Straight(d) => d,
        }
    }

    /// The second connection point: the facing side for a straight pipe,
    /// the next side clockwise for an elbow.
    pub open spec fn second_end(self) -> Point {
        match self {
            PipeType::Elbow(d) => d.clockwise(),
            PipeType::Straight(d) => d.opposite(),
        }
    }

    /// Whether one of the two connection points lies on side `p`.
    pub open spec fn connects(self, p: Point) -> bool {
        p == self.first_end() || p == self.second_end()
    }

    /// The connection point at the other end from `entry`. Meaningful when
    /// `self.connects(entry)`.
    pub open spec fn exit_for(self, entry: Point) -> Point {
        if entry == self.first_end() {
            self.second_end()
        } else {
            self.first_end()
        }
    }

    /// The shape after one quarter turn clockwise.
    pub open spec fn rotated(self) -> PipeType {
        match self {
            PipeType::Elbow(d) => PipeType::Elbow(d.clockwise()),
            PipeType::Straight(d) => PipeType::Straight(d.clockwise()),
        }
    }

    /// The polyline of the pipe as unit offsets from the tile's centre:
    /// first connection point, centre, second connection point.
    pub open spec fn points(self) -> Seq<(int, int)> {
        seq![self.first_end().offset(), (0, 0), self.second_end().offset()]
    }

    /// Every shape in every orientation, in a fixed order.
    pub open spec fn all() -> Seq<PipeType> {
        seq![
            PipeType::Straight(Point::Top),
            PipeType::Straight(Point::Right),
            PipeType::Straight(Point::Bottom),
            PipeType::Straight(Point::Left),
            PipeType::Elbow(Point::Top),
            PipeType::Elbow(Point::Right),
            PipeType::Elbow(Point::Bottom),
            PipeType::Elbow(Point::Left),
        ]
    }

    /// Whether a random draw can yield this shape: it is one of the shapes
    /// of the fixed order but the last.
    pub open spec fn drawable(self) -> bool {
        exists|i: int| 0 <= i < PipeType::all().len() - 1 && self == PipeType::all()[i]
    }

    /// Returns the two connection points, the named side first.
    pub fn ends(&self) -> (r: (Point, Point))
        ensures
            r.0 == self.first_end(),
            r.1 == self.second_end(),
    {
        match self {
            PipeType::Elbow(d) => (*d, d.get_clockwise()),
            PipeType::Straight(d) => (*d, d.get_oposite()),
        }
    }

    /// Tells whether the pipe has a connection point on side `p`.
    pub fn connects_to(&self, p: Point) -> (r: bool)
        ensures
            r == self.connects(p),
    {
        let (first, second) = self.ends();
        p == first || p == second
    }

    /// Returns where a flow that enters at `entry` leaves the pipe, or
    /// `None` when the pipe has no connection point at `entry`.
    pub fn exit_from(&self, entry: Point) -> (r: Option<Point>)
        ensures
            r == if self.connects(entry) {
                Some(self.exit_for(entry))
            } else {
                None
            },
    {
        let (first, second) = self.ends();
        if entry == first {
            Some(second)
        } else if entry == second {
            Some(first)
        } else {
            None
        }
    }

    /// Returns the polyline of the pipe: first connection point, centre,
    /// second connection point, each as a unit offset from the centre.
    pub fn get_points(&self) -> (r: Vec<(i8, i8)>)
        ensures
            r@.len() == 3,
            forall|i: int| 0 <= i < 3 ==> (r@[i].0 as int, r@[i].1 as int) == self.points()[i],
    {
        let (first, second) = self.ends();
        vec![first.get(), (0, 0), second.get()]
    }

    /// Returns the shape at position `idx` of the fixed order of all shapes.
    pub fn nth(idx: usize) -> (r: PipeType)
        requires
            idx < 8,
        ensures
            r == PipeType::all()[idx as int],
    {
        if idx == 0 {
            PipeType::Straight(Point::Top)
        } else if idx == 1 {
            PipeType::Straight(Point::Right)
        } else if idx == 2 {
            PipeType::Straight(Point::Bottom)
        } else if idx == 3 {
            PipeType::Straight(Point::Left)
        } else if idx == 4 {
            PipeType::Elbow(Point::Top)
        } else if idx == 5 {
            PipeType::Elbow(Point::Right)
        } else if idx == 6 {
            PipeType::Elbow(Point::Bottom)
        } else {
            PipeType::Elbow(Point::Left)
        }
    }

    /// Draws a shape at random. The draw never yields the last shape of
    /// the fixed order.
    pub fn random() -> (r: PipeType)
        ensures
            r.drawable(),
    {
        let random_idx: i16 = random_index(0, 7);
        PipeType::nth(random_idx as usize)
    }

    /// Returns the shape after one quarter turn clockwise.
    pub fn rotate(&self) -> (r: PipeType)
        ensures
            r == self.rotated(),
    {
        match self {
            PipeType::Straight(d) => PipeType::Straight(d.get_clockwise()),
            PipeType::Elbow(d) => PipeType::Elbow(d.get_clockwise()),
        }
    }
}

/// The pipe segment carried by a tile, with the mark that water has
/// entered it.
#[derive(Clone, Copy, Debug, PartialEq, Eq, Structural)]
pub struct Pipe {
    pub pipe_type: PipeType,
    pub painted: bool,
}

impl Pipe {
    /// The pipe after one quarter turn clockwise; the paint stays.
    pub open spec fn rotated(self) -> Pipe {
        Pipe { pipe_type: self.pipe_type.rotated(), painted: self.painted }
    }

    /// A dry pipe of the given shape.
    pub fn new(pipe_type: PipeType) -> (r: Pipe)
        ensures
            r == (Pipe { pipe_type, painted: false }),
    {
        Pipe { pipe_type, painted: false }
    }

    /// Turns the pipe a quarter turn clockwise.
    pub fn rotate(&mut self)
        ensures
            *final(self) == old(self).rotated(),
    {
        self.pipe_type = self.pipe_type.rotate();
    }
}

/// Taking the facing side twice gives back the side one started from, and
/// no side faces itself.
pub proof fn lemma_opposite_involution(p: Point)
    ensures
        p.opposite().opposite() == p,
        p.opposite() != p,
{
}

/// Four quarter turns bring every shape, and every pipe, back to where it
/// started; fewer than four do not.
pub proof fn lemma_rotate_cycle(p: Pipe)
    ensures
        p.pipe_type.rotated().rotated().rotated().rotated() == p.pipe_type,
        p.rotated().rotated().rotated().rotated() == p,
        p.pipe_type.rotated() != p.pipe_type,
        p.pipe_type.rotated().rotated() != p.pipe_type,
        p.pipe_type.rotated().rotated().rotated() != p.pipe_type,
{
}

/// The two connection points of a shape differ, so a flow that enters at
/// one of them leaves at the other, and entering at the exit leads back.
pub proof fn lemma_exit_is_other_end(t: PipeType, entry: Point)
    requires
        t.connects(entry),
    ensures
        t.first_end() != t.second_end(),
        t.connects(t.exit_for(entry)),
        t.exit_for(entry) != entry,
        t.exit_for(t.exit_for(entry)) == entry,
{
}

} // verus!
