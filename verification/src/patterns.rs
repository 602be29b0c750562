//! Two well-known patterns and what Conway's rule makes of them: the
//! block, which stays as it is, and the blinker, which turns between
//! lying and standing.

use crate::field::{live, Grid};
use crate::rules::standard_rule::next_generation;
use vstd::prelude::*;

verus! {

/// The grid of the given size whose live cells are at the positions in
/// `live`.
pub open spec fn pattern(width: nat, height: nat, live: Set<(int, int)>) -> Grid {
    Grid {
        width,
        height,
        cells: Seq::new(
            width * height,
            |i: int| live.contains((i / (width as int), i % (width as int))),
        ),
    }
}

/// The grid that follows `grid` after `n` generations of Conway's rule.
pub open spec fn generations(grid: Grid, n: nat) -> Grid
    decreases n,
{
    if n == 0 {
        grid
    } else {
        next_generation(generations(grid, (n - 1) as nat))
    }
}

/// The block: two by two live cells in the middle of a grid of four by
/// four.
pub open spec fn block() -> Grid {
    pattern(4, 4, set![(1, 1), (1, 2), (2, 1), (2, 2)])
}

/// The blinker lying: three live cells side by side in the middle row of
/// a grid of five by five.
pub open spec fn blinker_lying() -> Grid {
    pattern(5, 5, set![(2, 1), (2, 2), (2, 3)])
}

/// The blinker standing: three live cells one above another in the
/// middle column of a grid of five by five.
pub open spec fn blinker_standing() -> Grid {
    pattern(5, 5, set![(1, 2), (2, 2), (3, 2)])
}

/// The block is a still life: Conway's rule leaves it as it is, however
/// many generations pass.
pub proof fn lemma_block_is_still(n: nat)
    ensures
        next_generation(block()) == block(),
        generations(block(), n) == block(),
    decreases n,
{
    assert(next_generation(block()).cells =~= block().cells);
    if n > 0 {
        lemma_block_is_still((n - 1) as nat);
    }
}

/// What Conway's rule makes of the cell at place `i` of either phase of
/// the blinker: the cell of the other phase at that place.
proof fn lemma_blinker_cell(i: int)
    requires
        0 <= i < 25,
    ensures
        next_generation(blinker_lying()).cells[i] == blinker_standing().cells[i],
        next_generation(blinker_standing()).cells[i] == blinker_lying().cells[i],
{
    let r = i / 5;
    let c = i % 5;
    assert(0 <= r < 5 && 0 <= c < 5 && i == 5 * r + c);
    assert(r % 5 == r && c % 5 == c);
    let up = (r - 1) % 5;
    let down = (r + 1) % 5;
    let left = (c - 1) % 5;
    let right = (c + 1) % 5;
    assert(up == if r == 0 { 4 } else { r - 1 });
    assert(down == if r == 4 { 0 } else { r + 1 });
    assert(left == if c == 0 { 4 } else { c - 1 });
    assert(right == if c == 4 { 0 } else { c + 1 });
    lemma_neighbors_by_place(blinker_lying(), r, c);
    lemma_neighbors_by_place(blinker_standing(), r, c);
    lemma_blinker_places(up * 5 + left);
    lemma_blinker_places(up * 5 + c);
    lemma_blinker_places(up * 5 + right);
    lemma_blinker_places(r * 5 + left);
    lemma_blinker_places(i);
    lemma_blinker_places(r * 5 + right);
    lemma_blinker_places(down * 5 + left);
    lemma_blinker_places(down * 5 + c);
    lemma_blinker_places(down * 5 + right);
}

/// The places of the live cells in the two phases of the blinker.
proof fn lemma_blinker_places(i: int)
    requires
        0 <= i < 25,
    ensures
        blinker_lying().cells[i] == (i == 11 || i == 12 || i == 13),
        blinker_standing().cells[i] == (i == 7 || i == 12 || i == 17),
{
    assert(0 <= i / 5 < 5 && 0 <= i % 5 < 5 && i == 5 * (i / 5) + i % 5);
}

/// The neighbour count of a cell of a grid of five by five, written with
/// the places of the neighbours in the cell sequence.
proof fn lemma_neighbors_by_place(grid: Grid, r: int, c: int)
    requires
        grid.width == 5,
        grid.height == 5,
        0 <= r < 5,
        0 <= c < 5,
    ensures
        grid.live_neighbors(r, c) == live(grid.cells[((r - 1) % 5) * 5 + (c - 1) % 5]) + live(
            grid.cells[((r - 1) % 5) * 5 + c],
        ) + live(grid.cells[((r - 1) % 5) * 5 + (c + 1) % 5]) + live(
            grid.cells[r * 5 + (c - 1) % 5],
        ) + live(grid.cells[r * 5 + (c + 1) % 5]) + live(
            grid.cells[((r + 1) % 5) * 5 + (c - 1) % 5],
        ) + live(grid.cells[((r + 1) % 5) * 5 + c]) + live(
            grid.cells[((r + 1) % 5) * 5 + (c + 1) % 5],
        ),
{
    assert(r % 5 == r && c % 5 == c);
}

/// Conway's rule turns the lying blinker into the standing one.
pub proof fn lemma_blinker_lying_stands_up()
    ensures
        next_generation(blinker_lying()) == blinker_standing(),
{
    let next = next_generation(blinker_lying());
    assert forall|i: int| 0 <= i < 25 implies next.cells[i] == blinker_standing().cells[i] by {
        lemma_blinker_cell(i);
    }
    assert(next.cells =~= blinker_standing().cells);
}

/// Conway's rule turns the standing blinker into the lying one.
pub proof fn lemma_blinker_standing_lies_down()
    ensures
        next_generation(blinker_standing()) == blinker_lying(),
{
    let next = next_generation(blinker_standing());
    assert forall|i: int| 0 <= i < 25 implies next.cells[i] == blinker_lying().cells[i] by {
        lemma_blinker_cell(i);
    }
    assert(next.cells =~= blinker_lying().cells);
}

/// The two phases of the blinker are different grids.
pub proof fn lemma_blinker_phases_differ()
    ensures
        blinker_standing() != blinker_lying(),
{
    lemma_blinker_places(7);
}

/// The blinker has period two: after one generation the lying blinker
/// stands, and after two it lies again.
pub proof fn lemma_blinker_has_period_two()
    ensures
        generations(blinker_lying(), 1) == blinker_standing(),
        generations(blinker_lying(), 2) == blinker_lying(),
{
    let lying = blinker_lying();
    lemma_blinker_lying_stands_up();
    lemma_blinker_standing_lies_down();
    assert(generations(lying, 0) == lying);
    assert(generations(lying, 1) == next_generation(generations(lying, 0)));
    assert(generations(lying, 2) == next_generation(generations(lying, 1)));
}

} // verus!
