//! The board: grid dimensions, the set of gaps, the selected tile and the
//! progress of the water flow.

use crate::chance::random_index;
use crate::pipe::{PipeType, Point};
use crate::tile::Tile;
use vstd::prelude::*;
use vstd::set_lib::{lemma_int_range, lemma_len_subset, set_int_range};

verus! {

/// The set of indices held by a list of gap indices.
pub open spec fn index_set(s: Seq<i16>) -> Set<int> {
    Set::new(|i: int| exists|k: int| 0 <= k < s.len() && s[k] == i)
}

/// An index is in the set exactly when the list contains it.
pub proof fn lemma_index_set_contains(s: Seq<i16>, x: i16)
    ensures
        index_set(s).contains(x as int) <==> s.contains(x),
{
    if s.contains(x) {
        let k = choose|k: int| 0 <= k < s.len() && s[k] == x;
        assert(s[k] == x as int);
    }
}

/// Appending an index to the list inserts it into the set.
pub proof fn lemma_index_set_push(s: Seq<i16>, x: i16)
    ensures
        index_set(s.push(x)) == index_set(s).insert(x as int),
{
    let t = s.push(x);
    assert forall|i: int| index_set(t).contains(i) <==> index_set(s).insert(x as int).contains(
        i,
    ) by {
        if index_set(t).contains(i) {
            let k = choose|k: int| 0 <= k < t.len() && t[k] == i;
            if k < s.len() {
                assert(s[k] == i);
            }
        }
        if index_set(s).contains(i) {
            let k = choose|k: int| 0 <= k < s.len() && s[k] == i;
            assert(t[k] == i);
        }
        if i == x as int {
            assert(t[s.len() as int] == i);
        }
    }
    assert(index_set(t) =~= index_set(s).insert(x as int));
}

/// Taking one index out of a list without repetitions removes it from the set.
pub proof fn lemma_index_set_remove(s: Seq<i16>, k: int)
    requires
        0 <= k < s.len(),
        s.no_duplicates(),
    ensures
        index_set(s.remove(k)) == index_set(s).remove(s[k] as int),
        s.remove(k).no_duplicates(),
{
    let t = s.remove(k);
    assert forall|i: int| index_set(t).contains(i) <==> index_set(s).remove(s[k] as int).contains(
        i,
    ) by {
        if index_set(t).contains(i) {
            let j = choose|j: int| 0 <= j < t.len() && t[j] == i;
            if j < k {
                assert(s[j] == i);
            } else {
                assert(s[j + 1] == i);
            }
        }
        if index_set(s).contains(i) && i != s[k] as int {
            let j = choose|j: int| 0 <= j < s.len() && s[j] == i;
            if j < k {
                assert(t[j] == i);
            } else {
                assert(t[j - 1] == i);
            }
        }
    }
    assert(index_set(t) =~= index_set(s).remove(s[k] as int));
    assert forall|i: int, j: int| 0 <= i < t.len() && 0 <= j < t.len() && i != j implies t[i]
        != t[j] by {
        let si = if i < k { i } else { i + 1 };
        let sj = if j < k { j } else { j + 1 };
        assert(t[i] == s[si] && t[j] == s[sj]);
    }
}

/// A list of indices below `n` holds a finite set of at most `n` indices,
/// and never more than the list is long.
pub proof fn lemma_index_set_bounded(s: Seq<i16>, n: int)
    requires
        forall|k: int| 0 <= k < s.len() ==> 0 <= #[trigger] s[k] < n,
    ensures
        index_set(s).finite(),
        index_set(s).len() <= n || s.len() == 0,
        index_set(s).len() <= s.len(),
        s.len() > 0 ==> index_set(s).len() >= 1,
    decreases s.len(),
{
    if s.len() == 0 {
        assert(index_set(s) =~= Set::<int>::empty());
    } else {
        let range = set_int_range(0, n);
        assert(0 <= s[0] < n);
        lemma_int_range(0, n);
        assert(index_set(s).subset_of(range)) by {
            assert forall|i: int| index_set(s).contains(i) implies range.contains(i) by {
                let k = choose|k: int| 0 <= k < s.len() && s[k] == i;
                assert(0 <= s[k] < n);
            }
        }
        lemma_len_subset(index_set(s), range);
        let t = s.drop_last();
        assert(forall|k: int| 0 <= k < t.len() ==> t[k] == s[k]);
        lemma_index_set_bounded(t, n);
        assert(t.push(s.last()) =~= s);
        lemma_index_set_push(t, s.last());
        assert(index_set(s).contains(s.last() as int));
    }
}

/// A list without repetitions holds as many indices as it is long.
pub proof fn lemma_index_set_len(s: Seq<i16>)
    requires
        s.no_duplicates(),
    ensures
        index_set(s).finite(),
        index_set(s).len() == s.len(),
    decreases s.len(),
{
    if s.len() == 0 {
        assert(index_set(s) =~= Set::<int>::empty());
    } else {
        let t = s.drop_last();
        lemma_index_set_len(t);
        assert(t.push(s.last()) =~= s);
        lemma_index_set_push(t, s.last());
        assert(!index_set(t).contains(s.last() as int)) by {
            if index_set(t).contains(s.last() as int) {
                let k = choose|k: int| 0 <= k < t.len() && t[k] == s.last() as int;
                assert(s[k] == s[s.len() - 1]);
            }
        }
    }
}

/// The board as a mathematical value.
pub struct BoardState {
    pub rows: int,
    pub cols: int,
    pub size: int,
    /// The indices that hold no tile.
    pub gaps: Set<int>,
    /// The index of the selected tile.
    pub active: int,
    /// The index of the tile the flow is in.
    pub water: int,
    /// The index of the tile the flow enters next.
    pub next_water: int,
    /// The side through which the flow enters the tile it is in.
    pub entry: Point,
}

impl BoardState {
    /// The board's invariant: a non-empty grid, at least one gap, all gaps
    /// on the grid, the selected tile on the grid and not a gap, and the
    /// flow on the grid.
    pub open spec fn wf(self) -> bool {
        &&& 0 < self.rows
        &&& 0 < self.cols
        &&& self.size == self.rows * self.cols
        &&& self.gaps.finite()
        &&& 1 <= self.gaps.len() <= self.size
        &&& forall|g: int| self.gaps.contains(g) ==> 0 <= g < self.size
        &&& 0 <= self.active < self.size
        &&& !self.gaps.contains(self.active)
        &&& 0 <= self.water < self.size
        &&& 0 <= self.next_water < self.size
    }

    /// The row and the column of the place `idx`, both counted from zero.
    pub open spec fn position(self, idx: int) -> (int, int) {
        (idx / self.cols, idx % self.cols)
    }

    /// The index offset of one step towards `d`: one to the left or right,
    /// a whole row up or down.
    pub open spec fn delta(self, d: Point) -> int {
        match d {
            Point::Left => -1,
            Point::Right => 1,
            Point::Top => -self.cols,
            Point::Bottom => self.cols,
        }
    }

    /// The index one step from the selected tile towards `d`.
    pub open spec fn candidate(self, d: Point) -> int {
        self.active + self.delta(d)
    }

    /// Whether the selection may move towards `d`: the neighbour is on the
    /// grid and is not a gap. Rows are not told apart, so a step left from
    /// the first column reaches the last column of the row above.
    pub open spec fn can_select(self, d: Point) -> bool {
        0 <= self.candidate(d) < self.size && !self.gaps.contains(self.candidate(d))
    }

    /// The board after a selection command towards `d`.
    pub open spec fn select(self, d: Point) -> BoardState {
        if self.can_select(d) {
            BoardState { active: self.candidate(d), ..self }
        } else {
            self
        }
    }

    /// Whether the neighbour of the selected tile towards `d` is a gap.
    pub open spec fn gap_towards(self, d: Point) -> bool {
        self.gaps.contains(self.candidate(d))
    }

    /// The board after the selected tile has moved into the gap towards
    /// `d`: the gap and the tile change places and the selection follows
    /// the tile.
    pub open spec fn slide(self, d: Point) -> BoardState {
        BoardState {
            gaps: self.gaps.remove(self.candidate(d)).insert(self.active),
            active: self.candidate(d),
            ..self
        }
    }
}

/// The grid, its gaps, the selection and the progress of the flow.
#[derive(Clone, Debug, PartialEq, Eq)]
pub struct Board {
    pub active_tile_idx: i16,
    pub water_idx: i16,
    pub next_water_idx: i16,
    pub next_entry_point: Point,
    pub size: i16,
    pub gap_idxs: Vec<i16>,
    pub cols: i16,
    pub rows: i16,
}

impl View for Board {
    type V = BoardState;

    open spec fn view(&self) -> BoardState {
        BoardState {
            rows: self.rows as int,
            cols: self.cols as int,
            size: self.size as int,
            gaps: index_set(self.gap_idxs@),
            active: self.active_tile_idx as int,
            water: self.water_idx as int,
            next_water: self.next_water_idx as int,
            entry: self.next_entry_point,
        }
    }
}

/// Returns the first position at which `v` holds `x`, or `None` when `v`
/// does not contain `x`.
pub fn index_of(v: &Vec<i16>, x: i16) -> (r: Option<usize>)
    ensures
        r is None <==> !v@.contains(x),
        r matches Some(k) ==> k < v.len() && v@[k as int] == x && forall|j: int|
            0 <= j < k ==> v@[j] != x,
{
    let mut i: usize = 0;
    while i < v.len()
        invariant
            0 <= i <= v.len(),
            forall|k: int| 0 <= k < i ==> v@[k] != x,
        decreases v.len() - i,
    {
        if v[i] == x {
            return Some(i);
        }
        i += 1;
    }
    None
}

/// Tells whether `v` contains `x`.
pub fn contains_index(v: &Vec<i16>, x: i16) -> (r: bool)
    ensures
        r == v@.contains(x),
        r == index_set(v@).contains(x as int),
{
    proof {
        lemma_index_set_contains(v@, x);
    }
    index_of(v, x).is_some()
}

/// Tells whether `v` holds no index twice and only indices of a grid of
/// `size` places.
pub fn is_gap_list(v: &Vec<i16>, size: i16) -> (r: bool)
    ensures
        r == (v@.no_duplicates() && forall|k: int| 0 <= k < v.len() ==> 0 <= #[trigger] v@[k] < size),
{
    let mut i: usize = 0;
    while i < v.len()
        invariant
            0 <= i <= v.len(),
            forall|k: int| 0 <= k < i ==> 0 <= #[trigger] v@[k] < size,
            forall|a: int, b: int| 0 <= a < b < i ==> v@[a] != v@[b],
        decreases v.len() - i,
    {
        let x: i16 = v[i];
        if x < 0 || x >= size {
            return false;
        }
        let mut j: usize = 0;
        while j < i
            invariant
                0 <= j <= i < v.len(),
                x == v@[i as int],
                forall|a: int| 0 <= a < j ==> v@[a] != x,
            decreases i - j,
        {
            if v[j] == x {
                assert(v@[j as int] == v@[i as int]);
                return false;
            }
            j += 1;
        }
        i += 1;
    }
    assert forall|a: int, b: int| 0 <= a < v.len() && 0 <= b < v.len() && a != b implies v@[a]
        != v@[b] by {
        if a < b {
            assert(v@[a] != v@[b]);
        } else {
            assert(v@[b] != v@[a]);
        }
    }
    true
}

impl Board {
    /// The invariant of the board as stored: the gap list holds no index
    /// twice, and the board it stands for is well formed.
    pub open spec fn wf(&self) -> bool {
        &&& self.gap_idxs@.no_duplicates()
        &&& self@.wf()
    }

    /// Which dimensions and gap draws make a board: at least two rows, so
    /// that the flow has a tile below the origin to head for, at least one
    /// column, a size that fits the index type, and at least one draw, each
    /// on the grid and none at the origin.
    pub open spec fn accepts(rows: i16, cols: i16, draws: Seq<i16>) -> bool {
        &&& 2 <= rows
        &&& 1 <= cols
        &&& rows * cols <= i16::MAX
        &&& 1 <= draws.len()
        &&& forall|k: int| 0 <= k < draws.len() ==> 1 <= #[trigger] draws[k] < rows * cols
    }

    /// The board at the start of a puzzle: the origin selected, the flow at
    /// the origin, entering from the top and heading for the tile below.
    pub open spec fn initial(rows: i16, cols: i16, draws: Seq<i16>) -> BoardState {
        BoardState {
            rows: rows as int,
            cols: cols as int,
            size: rows * cols,
            gaps: index_set(draws),
            active: 0,
            water: 0,
            next_water: cols as int,
            entry: Point::Top,
        }
    }

    /// Makes the starting board of a `rows` by `cols` puzzle whose gaps are
    /// the indices in `gap_draws`; an index drawn twice makes one gap.
    /// Returns `None` when the dimensions or a draw are not acceptable.
    pub fn new(rows: i16, cols: i16, gap_draws: &Vec<i16>) -> (r: Option<Board>)
        ensures
            r is Some <==> Board::accepts(rows, cols, gap_draws@),
            r matches Some(b) ==> b.wf() && b@ == Board::initial(rows, cols, gap_draws@),
    {
        if rows < 2 || cols < 1 {
            return None;
        }
        assert(rows * cols <= 32767 * 32767) by (nonlinear_arith)
            requires
                2 <= rows <= 32767,
                1 <= cols <= 32767,
        ;
        assert(cols < rows * cols) by (nonlinear_arith)
            requires
                2 <= rows,
                1 <= cols,
        ;
        let wide: i32 = (rows as i32) * (cols as i32);
        if wide > i16::MAX as i32 {
            return None;
        }
        let size: i16 = wide as i16;
        if gap_draws.len() == 0 {
            return None;
        }
        let mut gap_idxs: Vec<i16> = Vec::new();
        let mut i: usize = 0;
        assert(gap_draws@.take(0) =~= Seq::<i16>::empty());
        assert(index_set(Seq::<i16>::empty()) =~= index_set(gap_idxs@));
        while i < gap_draws.len()
            invariant
                0 <= i <= gap_draws.len(),
                size == rows * cols,
                gap_idxs@.no_duplicates(),
                index_set(gap_idxs@) == index_set(gap_draws@.take(i as int)),
                forall|k: int| 0 <= k < i ==> 1 <= #[trigger] gap_draws@[k] < size,
            decreases gap_draws.len() - i,
        {
            let draw: i16 = gap_draws[i];
            if draw < 1 || draw >= size {
                return None;
            }
            proof {
                assert(gap_draws@.take(i as int).push(draw) =~= gap_draws@.take(i + 1));
                lemma_index_set_push(gap_draws@.take(i as int), draw);
                lemma_index_set_push(gap_idxs@, draw);
            }
            if !contains_index(&gap_idxs, draw) {
                gap_idxs.push(draw);
            } else {
                assert(index_set(gap_idxs@).insert(draw as int) =~= index_set(gap_idxs@));
            }
            i += 1;
        }
        let board = Board {
            active_tile_idx: 0,
            water_idx: 0,
            next_water_idx: cols,
            next_entry_point: Point::Top,
            size,
            gap_idxs,
            cols,
            rows,
        };
        proof {
            assert(gap_draws@.take(gap_draws.len() as int) =~= gap_draws@);
            lemma_index_set_bounded(gap_draws@, size as int);
            assert(!board@.gaps.contains(0)) by {
                if board@.gaps.contains(0) {
                    let k = choose|k: int| 0 <= k < gap_draws@.len() && gap_draws@[k] == 0;
                    assert(1 <= gap_draws@[k]);
                }
            }
            assert forall|g: int| board@.gaps.contains(g) implies 0 <= g < board@.size by {
                let k = choose|k: int| 0 <= k < gap_draws@.len() && gap_draws@[k] == g;
                assert(1 <= gap_draws@[k] < size);
            }
        }
        Some(board)
    }

    /// Tells whether the board as stored meets its invariant.
    pub fn is_valid(&self) -> (r: bool)
        ensures
            r == self.wf(),
    {
        if self.rows < 1 || self.cols < 1 {
            return false;
        }
        assert(self.rows * self.cols <= 32767 * 32767) by (nonlinear_arith)
            requires
                1 <= self.rows <= 32767,
                1 <= self.cols <= 32767,
        ;
        if (self.rows as i32) * (self.cols as i32) != self.size as i32 {
            return false;
        }
        if !is_gap_list(&self.gap_idxs, self.size) {
            proof {
                if self.gap_idxs@.no_duplicates() {
                    let k = choose|k: int|
                        0 <= k < self.gap_idxs.len() && !(0 <= #[trigger] self.gap_idxs@[k]
                            < self.size);
                    assert(self@.gaps.contains(self.gap_idxs@[k] as int));
                }
            }
            return false;
        }
        proof {
            lemma_index_set_bounded(self.gap_idxs@, self.size as int);
            lemma_index_set_len(self.gap_idxs@);
            assert forall|g: int| self@.gaps.contains(g) implies 0 <= g < self@.size by {
                let k = choose|k: int| 0 <= k < self.gap_idxs@.len() && self.gap_idxs@[k] == g;
                assert(0 <= self.gap_idxs@[k] < self.size);
            }
        }
        if self.gap_idxs.len() == 0 {
            return false;
        }
        let size: i16 = self.size;
        let active: i16 = self.active_tile_idx;
        0 <= active && active < size && !self.is_gap(active) && 0 <= self.water_idx
            && self.water_idx < size && 0 <= self.next_water_idx && self.next_water_idx < size
    }

    /// Tells whether `idx` is a gap.
    pub fn is_gap(&self, idx: i16) -> (r: bool)
        ensures
            r == self@.gaps.contains(idx as int),
    {
        contains_index(&self.gap_idxs, idx)
    }

    /// Returns the row and the column of the place `idx`, both counted
    /// from zero.
    pub fn grid_position(&self, idx: i16) -> (r: (i16, i16))
        requires
            0 < self.cols,
            0 <= idx,
        ensures
            (r.0 as int, r.1 as int) == self@.position(idx as int),
    {
        (idx / self.cols, idx % self.cols)
    }

    /// Returns how many gaps the board has.
    pub fn gap_count(&self) -> (r: usize)
        requires
            self.wf(),
        ensures
            r == self@.gaps.len(),
    {
        proof {
            lemma_index_set_len(self.gap_idxs@);
        }
        self.gap_idxs.len()
    }

    /// Returns the index one step from `idx` towards `direction`, whether
    /// or not it is on the grid.
    pub fn neighbour(&self, idx: i16, direction: Point) -> (c: i32)
        ensures
            c == idx + self@.delta(direction),
    {
        let from: i32 = idx as i32;
        match direction {
            Point::Left => from - 1,
            Point::Right => from + 1,
            Point::Top => from - self.cols as i32,
            Point::Bottom => from + self.cols as i32,
        }
    }

    /// Returns the index one step from the selected tile towards `direction`,
    /// whether or not it is on the grid.
    pub fn candidate(&self, direction: Point) -> (c: i32)
        ensures
            c == self@.candidate(direction),
    {
        self.neighbour(self.active_tile_idx, direction)
    }

    /// Tells whether the selection may move towards `direction`.
    pub fn can_select(&self, direction: Point) -> (r: bool)
        ensures
            r == self@.can_select(direction),
    {
        let c: i32 = self.candidate(direction);
        0 <= c && c < self.size as i32 && !self.is_gap(c as i16)
    }

    /// Tells whether the neighbour of the selected tile towards `direction`
    /// is a gap.
    pub fn gap_towards(&self, direction: Point) -> (r: bool)
        ensures
            r == (i16::MIN <= self@.candidate(direction) <= i16::MAX && self@.gap_towards(
                direction,
            )),
            self.wf() ==> r == self@.gap_towards(direction),
    {
        let c: i32 = self.candidate(direction);
        i16::MIN as i32 <= c && c <= i16::MAX as i32 && self.is_gap(c as i16)
    }

    /// Moves the selection one step towards `direction` when the neighbour
    /// there is on the grid and is not a gap; otherwise leaves the board as
    /// it is. Returns whether the selection moved.
    pub fn select(&mut self, direction: Point) -> (moved: bool)
        ensures
            moved == old(self)@.can_select(direction),
            final(self)@ == old(self)@.select(direction),
            final(self).gap_idxs == old(self).gap_idxs,
            !moved ==> *final(self) == *old(self),
            old(self).wf() ==> final(self).wf(),
    {
        if self.can_select(direction) {
            let c: i32 = self.candidate(direction);
            self.active_tile_idx = c as i16;
            true
        } else {
            false
        }
    }
}

/// The number of rows of the standard board.
pub const BOARD_ROWS: i16 = 10;

/// The number of columns of the standard board.
pub const BOARD_COLS: i16 = 14;

/// The number of gap draws for the standard board: one short of two a row.
pub const GAP_DRAWS: usize = 19;

/// Draws `count` gap indices at random for a grid of `size` places, never
/// the first place and never the last.
pub fn draw_gaps(count: usize, size: i16) -> (draws: Vec<i16>)
    requires
        3 <= size,
    ensures
        draws.len() == count,
        forall|k: int| 0 <= k < draws.len() ==> 1 <= #[trigger] draws@[k] < size - 1,
{
    let mut idxs: Vec<i16> = Vec::new();
    let mut i: usize = 0;
    while i < count
        invariant
            0 <= i <= count,
            3 <= size,
            idxs.len() == i,
            forall|k: int| 0 <= k < idxs.len() ==> 1 <= #[trigger] idxs@[k] < size - 1,
        decreases count - i,
    {
        let num: i16 = random_index(1, size - 1);
        idxs.push(num);
        i += 1;
    }
    idxs
}

/// Makes the starting board of the standard puzzle, ten rows of fourteen
/// columns, with gaps drawn at random.
///
/// Whatever is drawn, the origin is selected and is not a gap, the flow
/// stands at the origin, enters from the top and heads for the tile below,
/// and there are between one and nineteen gaps, none of them at the first
/// or the last place of the grid.
pub fn init_board() -> (board: Board)
    ensures
        board.wf(),
        board@.rows == BOARD_ROWS,
        board@.cols == BOARD_COLS,
        board@.size == BOARD_ROWS * BOARD_COLS,
        board@.active == 0,
        board@.water == 0,
        board@.next_water == BOARD_COLS,
        board@.entry == Point::Top,
        1 <= board@.gaps.len() <= GAP_DRAWS,
        forall|g: int| board@.gaps.contains(g) ==> 1 <= g < BOARD_ROWS * BOARD_COLS - 1,
{
    let draws = draw_gaps(GAP_DRAWS, BOARD_ROWS * BOARD_COLS);
    let made = Board::new(BOARD_ROWS, BOARD_COLS, &draws);
    proof {
        lemma_index_set_bounded(draws@, BOARD_ROWS * BOARD_COLS - 1);
        assert forall|g: int| index_set(draws@).contains(g) implies 1 <= g < BOARD_ROWS
            * BOARD_COLS - 1 by {
            let k = choose|k: int| 0 <= k < draws@.len() && draws@[k] == g;
            assert(1 <= draws@[k] < BOARD_ROWS * BOARD_COLS - 1);
        }
    }
    made.unwrap()
}

/// Makes the tiles of a new puzzle, one for every index of the board's
/// grid: all movable, all dry, the origin with a straight pipe from the
/// top, every other tile with a pipe drawn at random.
pub fn spawn_tiles(board: &Board) -> (tiles: Vec<Tile>)
    ensures
        tiles.len() == if board.size > 0 {
            board.size as int
        } else {
            0
        },
        forall|i: int|
            0 <= i < tiles.len() ==> #[trigger] tiles@[i] == Tile::fresh(
                i as i16,
                tiles@[i].pipe.pipe_type,
            ),
        tiles.len() > 0 ==> tiles@[0].pipe.pipe_type == PipeType::Straight(Point::Top),
        forall|i: int| 1 <= i < tiles.len() ==> (#[trigger] tiles@[i]).pipe.pipe_type.drawable(),
{
    let mut tiles: Vec<Tile> = Vec::new();
    let mut tile_idx: i16 = 0;
    while tile_idx < board.size
        invariant
            0 <= tile_idx,
            tile_idx <= board.size || tile_idx == 0,
            tiles.len() == tile_idx,
            forall|i: int|
                0 <= i < tiles.len() ==> #[trigger] tiles@[i] == Tile::fresh(
                    i as i16,
                    tiles@[i].pipe.pipe_type,
                ),
            tiles.len() > 0 ==> tiles@[0].pipe.pipe_type == PipeType::Straight(Point::Top),
            forall|i: int|
                1 <= i < tiles.len() ==> (#[trigger] tiles@[i]).pipe.pipe_type.drawable(),
        decreases board.size - tile_idx,
    {
        let pipe_type = if tile_idx == 0 {
            PipeType::Straight(Point::Top)
        } else {
            PipeType::random()
        };
        tiles.push(Tile::new(tile_idx, pipe_type));
        tile_idx += 1;
    }
    tiles
}

} // verus!
