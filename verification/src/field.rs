//! The grid of cells: its mathematical model, and the container that holds
//! the cells and counts live neighbours on the torus.

use crate::error::{out_of_bounds_message, GameError};
use vstd::arithmetic::div_mod::{
    lemma_fundamental_div_mod, lemma_fundamental_div_mod_converse,
    lemma_mod_add_multiples_vanish, lemma_mod_bound, lemma_mod_multiples_vanish, lemma_mod_self_0,
    lemma_small_mod,
};
use vstd::prelude::*;

verus! {

/// What one cell adds to a count of live cells.
pub open spec fn live(alive: bool) -> nat {
    if alive {
        1
    } else {
        0
    }
}

/// The mathematical model of a grid: its dimensions and its cells in
/// row-major order, the cell at `(row, col)` standing at `row * width + col`.
pub ghost struct Grid {
    pub width: nat,
    pub height: nat,
    pub cells: Seq<bool>,
}

impl Grid {
    /// A grid has at least one row and one column, and one cell per position.
    pub open spec fn wf(self) -> bool {
        &&& self.width >= 1
        &&& self.height >= 1
        &&& self.cells.len() == self.width * self.height
    }

    /// Whether `(row, col)` names a cell of the grid.
    pub open spec fn in_bounds(self, row: int, col: int) -> bool {
        0 <= row < self.height && 0 <= col < self.width
    }

    /// The place of `(row, col)` in the row-major cell sequence.
    pub open spec fn index(self, row: int, col: int) -> int {
        row * self.width + col
    }

    /// The state of the cell at `(row, col)`.
    pub open spec fn alive(self, row: int, col: int) -> bool {
        self.cells[self.index(row, col)]
    }

    /// The grid of the given size in which every cell is dead.
    pub open spec fn dead(width: nat, height: nat) -> Grid {
        Grid { width, height, cells: Seq::new(width * height, |i: int| false) }
    }

    /// This grid with the cell at `(row, col)` put into the state `alive`.
    pub open spec fn set(self, row: int, col: int, alive: bool) -> Grid {
        Grid { cells: self.cells.update(self.index(row, col), alive), ..self }
    }

    /// This grid with the state of the cell at `(row, col)` inverted.
    pub open spec fn toggle(self, row: int, col: int) -> Grid {
        self.set(row, col, !self.alive(row, col))
    }

    /// This grid with its cells overwritten, in row-major order, by
    /// `samples`: cells past the end of `samples` keep their state, and
    /// samples past the last cell are not used.
    pub open spec fn refill(self, samples: Seq<bool>) -> Grid {
        Grid {
            cells: Seq::new(
                self.cells.len(),
                |i: int|
                    if i < samples.len() {
                        samples[i]
                    } else {
                        self.cells[i]
                    },
            ),
            ..self
        }
    }

    /// The state of the cell that `(row, col)` names on the torus: rows
    /// are taken modulo the height and columns modulo the width, so that
    /// the row above row 0 is the last row, and the column to the left of
    /// column 0 is the last column.
    pub open spec fn torus_alive(self, row: int, col: int) -> bool {
        self.alive(row % (self.height as int), col % (self.width as int))
    }

    /// The number of live cells among the eight neighbours of `(row, col)`
    /// on the torus. Every cell has eight neighbours; on a grid with fewer
    /// than three rows or columns some of them are the same cell, which
    /// then counts once for each neighbour that it is.
    pub open spec fn live_neighbors(self, row: int, col: int) -> nat {
        live(self.torus_alive(row - 1, col - 1)) + live(self.torus_alive(row - 1, col)) + live(
            self.torus_alive(row - 1, col + 1),
        ) + live(self.torus_alive(row, col - 1)) + live(self.torus_alive(row, col + 1)) + live(
            self.torus_alive(row + 1, col - 1),
        ) + live(self.torus_alive(row + 1, col)) + live(self.torus_alive(row + 1, col + 1))
    }

    /// The number of dead cells among the eight neighbours of `(row, col)`
    /// on the torus.
    pub open spec fn dead_neighbors(self, row: int, col: int) -> nat {
        live(!self.torus_alive(row - 1, col - 1)) + live(!self.torus_alive(row - 1, col)) + live(
            !self.torus_alive(row - 1, col + 1),
        ) + live(!self.torus_alive(row, col - 1)) + live(!self.torus_alive(row, col + 1)) + live(
            !self.torus_alive(row + 1, col - 1),
        ) + live(!self.torus_alive(row + 1, col)) + live(!self.torus_alive(row + 1, col + 1))
    }

    /// A position inside the grid has its place inside the cell sequence.
    pub proof fn lemma_index_in_range(self, row: int, col: int)
        requires
            self.wf(),
            self.in_bounds(row, col),
        ensures
            0 <= self.index(row, col) < self.cells.len(),
    {
        assert(0 <= row * self.width + col < self.width * self.height) by (nonlinear_arith)
            requires
                0 <= row < self.height,
                0 <= col < self.width,
        ;
    }

    /// The place of a position inside the grid gives the position back:
    /// its quotient by the width is the row, its remainder the column.
    pub proof fn lemma_index_parts(self, row: int, col: int)
        requires
            self.wf(),
            self.in_bounds(row, col),
        ensures
            self.index(row, col) / (self.width as int) == row,
            self.index(row, col) % (self.width as int) == col,
    {
        lemma_fundamental_div_mod_converse(self.index(row, col), self.width as int, row, col);
    }

    /// Two positions inside the grid with the same place in the cell
    /// sequence are the same position.
    pub proof fn lemma_index_injective(self, row: int, col: int, other_row: int, other_col: int)
        requires
            self.wf(),
            self.in_bounds(row, col),
            self.in_bounds(other_row, other_col),
            self.index(row, col) == self.index(other_row, other_col),
        ensures
            row == other_row,
            col == other_col,
    {
        assert(row == other_row && col == other_col) by (nonlinear_arith)
            requires
                0 <= col < self.width,
                0 <= other_col < self.width,
                row * self.width + col == other_row * self.width + other_col,
        ;
    }

    /// Reading a cell after writing it gives what was written, and every
    /// other cell of the grid reads as before.
    pub proof fn lemma_set_then_get(self, row: int, col: int, alive: bool)
        requires
            self.wf(),
            self.in_bounds(row, col),
        ensures
            self.set(row, col, alive).wf(),
            self.set(row, col, alive).alive(row, col) == alive,
            forall|r: int, c: int|
                self.in_bounds(r, c) && (r != row || c != col) ==> #[trigger] self.set(
                    row,
                    col,
                    alive,
                ).alive(r, c) == self.alive(r, c),
    {
        self.lemma_index_in_range(row, col);
        assert forall|r: int, c: int| self.in_bounds(r, c) && (r != row || c != col) implies (
        #[trigger] self.set(row, col, alive).alive(r, c)) == self.alive(r, c) by {
            self.lemma_index_in_range(r, c);
            if self.index(r, c) == self.index(row, col) {
                self.lemma_index_injective(r, c, row, col);
            }
        }
    }

    /// Inverting a cell makes it the opposite of what it was and leaves
    /// every other cell as it was; inverting it twice restores the grid.
    pub proof fn lemma_toggle_twice(self, row: int, col: int)
        requires
            self.wf(),
            self.in_bounds(row, col),
        ensures
            self.toggle(row, col).wf(),
            self.toggle(row, col).alive(row, col) == !self.alive(row, col),
            forall|r: int, c: int|
                self.in_bounds(r, c) && (r != row || c != col) ==> #[trigger] self.toggle(
                    row,
                    col,
                ).alive(r, c) == self.alive(r, c),
            self.toggle(row, col).toggle(row, col) == self,
    {
        self.lemma_index_in_range(row, col);
        self.lemma_set_then_get(row, col, !self.alive(row, col));
        assert(self.toggle(row, col).toggle(row, col).cells =~= self.cells);
    }

    /// In a grid of dead cells every cell reads as dead.
    pub proof fn lemma_dead_is_dead(width: nat, height: nat, row: int, col: int)
        requires
            width >= 1,
            height >= 1,
            0 <= row < height,
            0 <= col < width,
        ensures
            Grid::dead(width, height).wf(),
            !Grid::dead(width, height).alive(row, col),
            Grid::dead(width, height).live_neighbors(row, col) == 0,
    {
        let grid = Grid::dead(width, height);
        grid.lemma_index_in_range(row, col);
        grid.lemma_torus_in_bounds(row - 1, col - 1);
        grid.lemma_torus_in_bounds(row - 1, col);
        grid.lemma_torus_in_bounds(row - 1, col + 1);
        grid.lemma_torus_in_bounds(row, col - 1);
        grid.lemma_torus_in_bounds(row, col + 1);
        grid.lemma_torus_in_bounds(row + 1, col - 1);
        grid.lemma_torus_in_bounds(row + 1, col);
        grid.lemma_torus_in_bounds(row + 1, col + 1);
    }

    /// Every position names a cell of the grid on the torus.
    pub proof fn lemma_torus_in_bounds(self, row: int, col: int)
        requires
            self.wf(),
        ensures
            self.in_bounds(row % (self.height as int), col % (self.width as int)),
            0 <= self.index(row % (self.height as int), col % (self.width as int))
                < self.cells.len(),
    {
        lemma_mod_bound(row, self.height as int);
        lemma_mod_bound(col, self.width as int);
        self.lemma_index_in_range(row % (self.height as int), col % (self.width as int));
    }

    /// Of the eight neighbours of a cell, those that are not alive are
    /// dead: the live and the dead neighbours are eight together.
    pub proof fn lemma_live_and_dead_neighbors(self, row: int, col: int)
        ensures
            self.live_neighbors(row, col) + self.dead_neighbors(row, col) == 8,
            self.live_neighbors(row, col) <= 8,
    {
    }

    /// The positions of the eight neighbours of `(row, col)` on the torus,
    /// row by row from the upper left to the lower right.
    pub open spec fn neighbor_positions(self, row: int, col: int) -> Seq<(int, int)> {
        let h = self.height as int;
        let w = self.width as int;
        seq![
            ((row - 1) % h, (col - 1) % w),
            ((row - 1) % h, col % w),
            ((row - 1) % h, (col + 1) % w),
            (row % h, (col - 1) % w),
            (row % h, (col + 1) % w),
            ((row + 1) % h, (col - 1) % w),
            ((row + 1) % h, col % w),
            ((row + 1) % h, (col + 1) % w),
        ]
    }

    /// The number of live cells among the positions `positions[from..]`.
    pub open spec fn live_among(self, positions: Seq<(int, int)>, from: int) -> nat
        decreases positions.len() - from,
    {
        if 0 <= from < positions.len() {
            live(self.alive(positions[from].0, positions[from].1)) + self.live_among(
                positions,
                from + 1,
            )
        } else {
            0
        }
    }

    /// The neighbour count is the number of live cells among the eight
    /// neighbour positions, all of which lie inside the grid. On a grid
    /// with at least three rows and three columns these are eight
    /// different cells, none of them the cell itself, so that the count
    /// is eight less the number of dead cells around the cell; this holds
    /// at the corners and edges as well, where the neighbours lie across
    /// the edge.
    pub proof fn lemma_neighbors_are_distinct_cells(self, row: int, col: int)
        requires
            self.wf(),
            self.in_bounds(row, col),
        ensures
            self.neighbor_positions(row, col).len() == 8,
            forall|k: int|
                0 <= k < 8 ==> self.in_bounds(
                    (#[trigger] self.neighbor_positions(row, col)[k]).0,
                    self.neighbor_positions(row, col)[k].1,
                ),
            self.live_neighbors(row, col) == self.live_among(self.neighbor_positions(row, col), 0),
            self.width >= 3 && self.height >= 3 ==> self.neighbor_positions(
                row,
                col,
            ).no_duplicates() && !self.neighbor_positions(row, col).contains((row, col)),
    {
        let h = self.height as int;
        let w = self.width as int;
        let positions = self.neighbor_positions(row, col);
        lemma_ring_neighbors(row, h);
        lemma_ring_neighbors(col, w);
        reveal_with_fuel(Grid::live_among, 9);
        assert(self.live_neighbors(row, col) == self.live_among(positions, 0));
    }
}

/// On a ring of `n` places, the places before and after place `i`.
pub proof fn lemma_ring_neighbors(i: int, n: int)
    requires
        0 <= i < n,
    ensures
        i % n == i,
        (i - 1) % n == (if i == 0 {
            n - 1
        } else {
            i - 1
        }),
        (i + 1) % n == (if i + 1 == n {
            0
        } else {
            i + 1
        }),
{
    lemma_small_mod(i as nat, n as nat);
    if i == 0 {
        lemma_mod_add_multiples_vanish(-1, n);
        lemma_small_mod((n - 1) as nat, n as nat);
    } else {
        lemma_small_mod((i - 1) as nat, n as nat);
    }
    if i + 1 == n {
        lemma_mod_self_0(n);
    } else {
        lemma_small_mod((i + 1) as nat, n as nat);
    }
}

/// On a ring of `n` places, stepping from `i` and stepping from the place
/// that `i` names lead to the same place.
pub proof fn lemma_ring_step(i: int, n: int)
    requires
        0 < n,
    ensures
        0 <= i % n < n,
        (i % n) % n == i % n,
        ((i % n) - 1) % n == (i - 1) % n,
        ((i % n) + 1) % n == (i + 1) % n,
{
    lemma_mod_bound(i, n);
    lemma_fundamental_div_mod(i, n);
    lemma_small_mod((i % n) as nat, n as nat);
    lemma_mod_multiples_vanish(i / n, (i % n) - 1, n);
    lemma_mod_multiples_vanish(i / n, (i % n) + 1, n);
}

/// The place before `i` on a ring of `n` places.
fn ring_prev(i: usize, n: usize) -> (before: usize)
    requires
        i < n,
    ensures
        before == (i - 1) % (n as int),
        before < n,
{
    proof {
        lemma_ring_neighbors(i as int, n as int);
    }
    if i == 0 {
        n - 1
    } else {
        i - 1
    }
}

/// The place after `i` on a ring of `n` places.
fn ring_next(i: usize, n: usize) -> (after: usize)
    requires
        i < n,
    ensures
        after == (i + 1) % (n as int),
        after < n,
{
    proof {
        lemma_ring_neighbors(i as int, n as int);
    }
    if i + 1 == n {
        0
    } else {
        i + 1
    }
}

/// A fixed-size grid of cells, each dead or alive.
#[derive(Debug, PartialEq)]
pub struct Field {
    cells: Vec<bool>,
    width: usize,
    height: usize,
}

impl View for Field {
    type V = Grid;

    closed spec fn view(&self) -> Grid {
        Grid { width: self.width as nat, height: self.height as nat, cells: self.cells@ }
    }
}

impl Field {
    /// Every field holds a well-formed grid.
    #[verifier::type_invariant]
    pub open spec fn inv(self) -> bool {
        self@.wf()
    }

    /// Builds a grid of `width` columns and `height` rows with every cell dead.
    pub fn new(width: usize, height: usize) -> (field: Self)
        requires
            width >= 1,
            height >= 1,
            width * height <= usize::MAX,
        ensures
            field@ == Grid::dead(width as nat, height as nat),
    {
        let cells: Vec<bool> = vec![false; width * height];
        assert(cells@ =~= Seq::new((width * height) as nat, |i: int| false));
        Self { cells, width, height }
    }

    /// The number of columns.
    pub fn width(&self) -> (width: usize)
        ensures
            width == self@.width,
            self@.wf(),
    {
        proof {
            use_type_invariant(self);
        }
        self.width
    }

    /// The number of rows.
    pub fn height(&self) -> (height: usize)
        ensures
            height == self@.height,
            self@.wf(),
    {
        proof {
            use_type_invariant(self);
        }
        self.height
    }

    /// The cells in row-major order.
    pub fn cells(&self) -> (cells: &[bool])
        ensures
            cells@ == self@.cells,
            self@.wf(),
    {
        proof {
            use_type_invariant(self);
        }
        self.cells.as_slice()
    }

    /// The place of `(row, col)` in the cell sequence, or the error that
    /// names the position if it lies outside the grid.
    pub fn get_index(&self, row: usize, col: usize) -> (result: Result<usize, GameError>)
        ensures
            match result {
                Ok(index) => self@.in_bounds(row as int, col as int) && index == self@.index(
                    row as int,
                    col as int,
                ),
                Err(error) => !self@.in_bounds(row as int, col as int) && error@
                    == out_of_bounds_message(row as nat, col as nat, self@.height, self@.width),
            },
    {
        if row >= self.height || col >= self.width {
            return Err(GameError::out_of_bounds(row, col, self.height, self.width));
        }
        Ok(self.get_index_unchecked(row, col))
    }

    fn get_index_unchecked(&self, row: usize, col: usize) -> (index: usize)
        requires
            self@.in_bounds(row as int, col as int),
        ensures
            index == self@.index(row as int, col as int),
            index < self@.cells.len(),
    {
        proof {
            use_type_invariant(self);
            self@.lemma_index_in_range(row as int, col as int);
            assert(0 <= row * self.width) by (nonlinear_arith);
            assert(self@.cells.len() == self.cells.len());
        }
        row * self.width + col
    }

    /// The state of the cell at `(row, col)`, or the error that names the
    /// position if it lies outside the grid.
    pub fn get_cell(&self, row: usize, col: usize) -> (result: Result<bool, GameError>)
        ensures
            match result {
                Ok(alive) => self@.in_bounds(row as int, col as int) && alive == self@.alive(
                    row as int,
                    col as int,
                ),
                Err(error) => !self@.in_bounds(row as int, col as int) && error@
                    == out_of_bounds_message(row as nat, col as nat, self@.height, self@.width),
            },
    {
        match self.get_index(row, col) {
            Ok(index) => {
                proof {
                    use_type_invariant(self);
                    self@.lemma_index_in_range(row as int, col as int);
                }
                Ok(self.cells[index])
            },
            Err(error) => Err(error),
        }
    }

    /// The state of the cell at `(row, col)`, for a caller that knows the
    /// position to lie inside the grid.
    pub fn get_cell_unchecked(&self, row: usize, col: usize) -> (alive: bool)
        requires
            self@.in_bounds(row as int, col as int),
        ensures
            alive == self@.alive(row as int, col as int),
    {
        let index: usize = self.get_index_unchecked(row, col);
        self.cells[index]
    }

    /// Puts the cell at `(row, col)` into the state `alive`. A position
    /// outside the grid is reported, and the grid stays as it was.
    pub fn set_cell(&mut self, row: usize, col: usize, alive: bool) -> (result: Result<
        (),
        GameError,
    >)
        ensures
            match result {
                Ok(_) => old(self)@.in_bounds(row as int, col as int) && final(self)@ == old(
                    self,
                )@.set(row as int, col as int, alive),
                Err(error) => !old(self)@.in_bounds(row as int, col as int) && final(self)@ == old(
                    self,
                )@ && error@ == out_of_bounds_message(
                    row as nat,
                    col as nat,
                    old(self)@.height,
                    old(self)@.width,
                ),
            },
    {
        match self.get_index(row, col) {
            Ok(index) => {
                proof {
                    use_type_invariant(&*self);
                    self@.lemma_index_in_range(row as int, col as int);
                }
                self.cells[index] = alive;
                Ok(())
            },
            Err(error) => Err(error),
        }
    }

    /// Puts the cell at `(row, col)` into the state `alive`, for a caller
    /// that knows the position to lie inside the grid.
    pub fn set_cell_unchecked(&mut self, row: usize, col: usize, alive: bool)
        requires
            old(self)@.in_bounds(row as int, col as int),
        ensures
            final(self)@ == old(self)@.set(row as int, col as int, alive),
    {
        proof {
            use_type_invariant(&*self);
        }
        let index: usize = self.get_index_unchecked(row, col);
        self.cells[index] = alive;
    }

    /// Inverts the state of the cell at `(row, col)`. A position outside
    /// the grid is reported, and the grid stays as it was.
    pub fn toggle_cell(&mut self, row: usize, col: usize) -> (result: Result<(), GameError>)
        ensures
            match result {
                Ok(_) => old(self)@.in_bounds(row as int, col as int) && final(self)@ == old(
                    self,
                )@.toggle(row as int, col as int),
                Err(error) => !old(self)@.in_bounds(row as int, col as int) && final(self)@ == old(
                    self,
                )@ && error@ == out_of_bounds_message(
                    row as nat,
                    col as nat,
                    old(self)@.height,
                    old(self)@.width,
                ),
            },
    {
        match self.get_index(row, col) {
            Ok(index) => {
                proof {
                    use_type_invariant(&*self);
                    self@.lemma_index_in_range(row as int, col as int);
                }
                let alive: bool = self.cells[index];
                self.cells[index] = !alive;
                Ok(())
            },
            Err(error) => Err(error),
        }
    }

    /// Makes every cell dead.
    pub fn clear(&mut self)
        ensures
            final(self)@ == Grid::dead(old(self)@.width, old(self)@.height),
    {
        proof {
            use_type_invariant(&*self);
        }
        let len: usize = self.cells.len();
        let mut i: usize = 0;
        while i < len
            invariant
                i <= len,
                len == self.cells.len(),
                self.width == old(self).width,
                self.height == old(self).height,
                self@.wf(),
                forall|k: int| 0 <= k < i ==> !self.cells[k],
            decreases len - i,
        {
            self.cells[i] = false;
            i += 1;
        }
        assert(self.cells@ =~= Seq::new(old(self)@.width * old(self)@.height, |k: int| false));
    }

    /// Overwrites the cells, in row-major order, with `samples`, one
    /// sample per cell: cells past the end of `samples` keep their state,
    /// and samples past the last cell are not used. With samples drawn
    /// independently and evenly this randomizes the grid.
    pub fn randomize(&mut self, samples: &[bool])
        ensures
            final(self)@ == old(self)@.refill(samples@),
    {
        proof {
            use_type_invariant(&*self);
        }
        let len: usize = if samples.len() < self.cells.len() {
            samples.len()
        } else {
            self.cells.len()
        };
        let mut i: usize = 0;
        while i < len
            invariant
                i <= len,
                len <= samples@.len(),
                len <= self.cells.len(),
                self.cells.len() == old(self).cells.len(),
                self.width == old(self).width,
                self.height == old(self).height,
                self@.wf(),
                forall|k: int| 0 <= k < i ==> self.cells[k] == samples[k],
                forall|k: int| i <= k < self.cells.len() ==> self.cells[k] == old(self).cells[k],
            decreases len - i,
        {
            self.cells[i] = samples[i];
            i += 1;
        }
        assert(self.cells@ =~= old(self)@.refill(samples@).cells);
    }

    /// Counts the live cells among the eight neighbours of `(row, col)` on
    /// the torus. A position outside the grid stands for the cell that it
    /// names on the torus.
    pub fn count_live_neighbors(&self, row: usize, col: usize) -> (count: u8)
        ensures
            count == self@.live_neighbors(row as int, col as int),
            count <= 8,
    {
        proof {
            use_type_invariant(self);
            lemma_ring_step(row as int, self.height as int);
            lemma_ring_step(col as int, self.width as int);
        }
        let here: usize = row % self.height;
        let above: usize = ring_prev(here, self.height);
        let below: usize = ring_next(here, self.height);
        let at: usize = col % self.width;
        let left: usize = ring_prev(at, self.width);
        let right: usize = ring_next(at, self.width);
        let mut count: u8 = 0;
        if self.get_cell_unchecked(above, left) {
            count += 1;
        }
        if self.get_cell_unchecked(above, at) {
            count += 1;
        }
        if self.get_cell_unchecked(above, right) {
            count += 1;
        }
        if self.get_cell_unchecked(here, left) {
            count += 1;
        }
        if self.get_cell_unchecked(here, right) {
            count += 1;
        }
        if self.get_cell_unchecked(below, left) {
            count += 1;
        }
        if self.get_cell_unchecked(below, at) {
            count += 1;
        }
        if self.get_cell_unchecked(below, right) {
            count += 1;
        }
        count
    }
}

impl Clone for Field {
    fn clone(&self) -> (copy: Self)
        ensures
            copy@ == self@,
    {
        proof {
            use_type_invariant(self);
        }
        Self { cells: self.cells.clone(), width: self.width, height: self.height }
    }
}

} // verus!
