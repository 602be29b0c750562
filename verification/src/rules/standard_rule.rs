//! Conway's rule: a dead cell with exactly three live neighbours is born,
//! a live cell with two or three live neighbours survives, and every
//! other cell is dead in the next generation.

use crate::field::{Field, Grid};
use crate::rules::Rule;
use vstd::arithmetic::div_mod::{lemma_fundamental_div_mod, lemma_mod_bound};
use vstd::prelude::*;

verus! {

/// Whether a cell in the state `alive` with `neighbors` live neighbours is
/// alive in the next generation.
pub open spec fn next_state(alive: bool, neighbors: nat) -> bool {
    if alive {
        neighbors == 2 || neighbors == 3
    } else {
        neighbors == 3
    }
}

/// The generation that follows `grid`: every cell takes the state that
/// its own state and its live neighbours in `grid` give it.
pub open spec fn next_generation(grid: Grid) -> Grid {
    Grid {
        width: grid.width,
        height: grid.height,
        cells: Seq::new(
            grid.cells.len(),
            |i: int|
                next_state(
                    grid.cells[i],
                    grid.live_neighbors(i / (grid.width as int), i % (grid.width as int)),
                ),
        ),
    }
}

/// The next generation, cell by cell: the cell at `(row, col)` is alive
/// in it exactly if its state and its live neighbours in `grid` say so.
pub proof fn lemma_next_generation_cell(grid: Grid, row: int, col: int)
    requires
        grid.wf(),
        grid.in_bounds(row, col),
    ensures
        next_generation(grid).wf(),
        next_generation(grid).in_bounds(row, col),
        next_generation(grid).alive(row, col) == next_state(
            grid.alive(row, col),
            grid.live_neighbors(row, col),
        ),
{
    grid.lemma_index_in_range(row, col);
    grid.lemma_index_parts(row, col);
}

/// The next generation is a grid of the same dimensions, and it is
/// decided by the grid alone: equal grids have equal successors.
pub proof fn lemma_next_generation_is_a_function(grid: Grid, other: Grid)
    requires
        grid.wf(),
    ensures
        next_generation(grid).wf(),
        next_generation(grid).width == grid.width,
        next_generation(grid).height == grid.height,
        other == grid ==> next_generation(other) == next_generation(grid),
{
}

/// A grid without live cells has no live cells in the next generation.
pub proof fn lemma_dead_stays_dead(width: nat, height: nat)
    requires
        width >= 1,
        height >= 1,
    ensures
        next_generation(Grid::dead(width, height)) == Grid::dead(width, height),
{
    let grid = Grid::dead(width, height);
    let w = width as int;
    assert forall|i: int| 0 <= i < grid.cells.len() implies next_generation(grid).cells[i]
        == false by {
        lemma_fundamental_div_mod(i, w);
        lemma_mod_bound(i, w);
        assert(0 <= i / w < height) by (nonlinear_arith)
            requires
                0 <= i < width * height,
                w == width,
                w > 0,
                i == w * (i / w) + i % w,
                0 <= i % w < w,
        ;
        Grid::lemma_dead_is_dead(width, height, i / w, i % w);
    }
    assert(next_generation(grid).cells =~= grid.cells);
}

/// Conway's rule.
#[derive(Debug, Default, Clone, Copy)]
pub struct StandardRule;

impl StandardRule {
    /// The rule.
    pub fn new() -> Self {
        Self
    }
}

impl Rule for StandardRule {
    open spec fn next(&self, grid: Grid) -> Grid {
        next_generation(grid)
    }

    fn apply(&self, field: &Field) -> (next: Field)
        ensures
            next@ == next_generation(field@),
    {
        let width: usize = field.width();
        let height: usize = field.height();
        let ghost target = next_generation(field@);
        let mut next_field = field.clone();

        assert(0 * width == 0);
        for row in 0..height
            invariant
                field@.wf(),
                field@.width == width,
                field@.height == height,
                target == next_generation(field@),
                next_field@.width == width,
                next_field@.height == height,
                next_field@.cells.len() == target.cells.len(),
                forall|i: int| 0 <= i < row * width ==> next_field@.cells[i] == target.cells[i],
        {
            for col in 0..width
                invariant
                    row < height,
                    field@.wf(),
                    field@.width == width,
                    field@.height == height,
                    target == next_generation(field@),
                    next_field@.width == width,
                    next_field@.height == height,
                    next_field@.cells.len() == target.cells.len(),
                    forall|i: int|
                        0 <= i < row * width + col ==> next_field@.cells[i] == target.cells[i],
            {
                let live_neighbors: u8 = field.count_live_neighbors(row, col);
                let is_alive: bool = field.get_cell_unchecked(row, col);

                let next_state: bool = match (is_alive, live_neighbors) {
                    (true, 2) | (true, 3) => true,
                    (false, 3) => true,
                    _ => false,
                };

                proof {
                    lemma_next_generation_cell(field@, row as int, col as int);
                    field@.lemma_index_in_range(row as int, col as int);
                }
                next_field.set_cell_unchecked(row, col, next_state);
            }
            assert(row * width + width == (row + 1) * width) by (nonlinear_arith);
        }
        assert(height * width == width * height) by (nonlinear_arith);
        assert(next_field@.cells =~= target.cells);
        next_field
    }
}

} // verus!
