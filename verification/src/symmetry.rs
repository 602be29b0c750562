//! Grids turned and mirrored: a cell keeps its number of live neighbours
//! when the whole pattern is reflected or rotated around it.

use crate::field::{lemma_ring_neighbors, Grid};
use vstd::arithmetic::div_mod::{lemma_fundamental_div_mod_converse, lemma_mod_bound};
use vstd::prelude::*;

verus! {

impl Grid {
    /// The grid mirrored left to right: the cell at `(row, col)` is the
    /// cell that stood at `(row, width - 1 - col)`.
    pub open spec fn mirror_columns(self) -> Grid {
        let w = self.width as int;
        Grid {
            width: self.width,
            height: self.height,
            cells: Seq::new(self.cells.len(), |i: int| self.alive(i / w, w - 1 - i % w)),
        }
    }

    /// The grid mirrored top to bottom: the cell at `(row, col)` is the
    /// cell that stood at `(height - 1 - row, col)`.
    pub open spec fn mirror_rows(self) -> Grid {
        let w = self.width as int;
        let h = self.height as int;
        Grid {
            width: self.width,
            height: self.height,
            cells: Seq::new(self.cells.len(), |i: int| self.alive(h - 1 - i / w, i % w)),
        }
    }

    /// The grid with rows and columns exchanged: the cell at `(row, col)`
    /// is the cell that stood at `(col, row)`.
    pub open spec fn transpose(self) -> Grid {
        let h = self.height as int;
        Grid {
            width: self.height,
            height: self.width,
            cells: Seq::new(self.cells.len(), |i: int| self.alive(i % h, i / h)),
        }
    }

    /// The grid turned by a quarter: the cell at `(row, col)` is the cell
    /// that stood at `(height - 1 - col, row)`.
    pub open spec fn quarter_turn(self) -> Grid {
        self.transpose().mirror_columns()
    }

    /// What the cells of the mirrored and the transposed grids are.
    pub proof fn lemma_mirrored_cells(self, row: int, col: int)
        requires
            self.wf(),
            self.in_bounds(row, col),
        ensures
            self.mirror_columns().wf(),
            self.mirror_rows().wf(),
            self.transpose().wf(),
            self.mirror_columns().in_bounds(row, col),
            self.mirror_rows().in_bounds(row, col),
            self.transpose().in_bounds(col, row),
            self.mirror_columns().alive(row, col) == self.alive(row, self.width - 1 - col),
            self.mirror_rows().alive(row, col) == self.alive(self.height - 1 - row, col),
            self.transpose().alive(col, row) == self.alive(row, col),
    {
        let w = self.width as int;
        let h = self.height as int;
        assert(w * h == h * w) by (nonlinear_arith);
        self.lemma_index_in_range(row, col);
        self.lemma_index_parts(row, col);
        let turned = self.transpose();
        turned.lemma_index_in_range(col, row);
        turned.lemma_index_parts(col, row);
    }

    /// What the cells of the grid turned by a quarter are.
    pub proof fn lemma_quarter_turn_cells(self, row: int, col: int)
        requires
            self.wf(),
            self.in_bounds(row, col),
        ensures
            self.quarter_turn().wf(),
            self.quarter_turn().width == self.height,
            self.quarter_turn().height == self.width,
            self.quarter_turn().in_bounds(col, self.height - 1 - row),
            self.quarter_turn().alive(col, self.height - 1 - row) == self.alive(row, col),
    {
        self.lemma_mirrored_cells(row, col);
        self.transpose().lemma_mirrored_cells(col, self.height - 1 - row);
    }

    /// A cell and its image in the grid mirrored left to right see the
    /// same neighbours, each on the other side.
    proof fn lemma_mirror_columns_neighbor(self, row: int, col: int, dr: int, dc: int)
        requires
            self.wf(),
            self.in_bounds(row, col),
            -1 <= dr <= 1,
            -1 <= dc <= 1,
        ensures
            self.mirror_columns().torus_alive(row + dr, self.width - 1 - col + dc)
                == self.torus_alive(row + dr, col - dc),
    {
        let w = self.width as int;
        let h = self.height as int;
        lemma_ring_neighbors(col, w);
        lemma_ring_neighbors(w - 1 - col, w);
        lemma_mod_bound(row + dr, h);
        lemma_mod_bound(col - dc, w);
        self.lemma_mirrored_cells((row + dr) % h, (w - 1 - col + dc) % w);
    }

    /// A cell and its image in the grid mirrored top to bottom see the
    /// same neighbours, each on the other side.
    proof fn lemma_mirror_rows_neighbor(self, row: int, col: int, dr: int, dc: int)
        requires
            self.wf(),
            self.in_bounds(row, col),
            -1 <= dr <= 1,
            -1 <= dc <= 1,
        ensures
            self.mirror_rows().torus_alive(self.height - 1 - row + dr, col + dc)
                == self.torus_alive(row - dr, col + dc),
    {
        let w = self.width as int;
        let h = self.height as int;
        lemma_ring_neighbors(row, h);
        lemma_ring_neighbors(h - 1 - row, h);
        lemma_mod_bound(row - dr, h);
        lemma_mod_bound(col + dc, w);
        self.lemma_mirrored_cells((h - 1 - row + dr) % h, (col + dc) % w);
    }

    /// A cell and its image in the transposed grid see the same
    /// neighbours, with rows and columns exchanged.
    proof fn lemma_transpose_neighbor(self, row: int, col: int, dr: int, dc: int)
        requires
            self.wf(),
            self.in_bounds(row, col),
            -1 <= dr <= 1,
            -1 <= dc <= 1,
        ensures
            self.transpose().torus_alive(col + dc, row + dr) == self.torus_alive(
                row + dr,
                col + dc,
            ),
    {
        let w = self.width as int;
        let h = self.height as int;
        lemma_mod_bound(row + dr, h);
        lemma_mod_bound(col + dc, w);
        self.lemma_mirrored_cells((row + dr) % h, (col + dc) % w);
    }

    /// Mirroring the grid left to right leaves the neighbour counts as
    /// they are: the image of a cell has as many live neighbours as the
    /// cell.
    pub proof fn lemma_mirror_columns_keeps_neighbors(self, row: int, col: int)
        requires
            self.wf(),
            self.in_bounds(row, col),
        ensures
            self.mirror_columns().live_neighbors(row, self.width - 1 - col)
                == self.live_neighbors(row, col),
    {
        self.lemma_mirror_columns_neighbor(row, col, -1, -1);
        self.lemma_mirror_columns_neighbor(row, col, -1, 0);
        self.lemma_mirror_columns_neighbor(row, col, -1, 1);
        self.lemma_mirror_columns_neighbor(row, col, 0, -1);
        self.lemma_mirror_columns_neighbor(row, col, 0, 1);
        self.lemma_mirror_columns_neighbor(row, col, 1, -1);
        self.lemma_mirror_columns_neighbor(row, col, 1, 0);
        self.lemma_mirror_columns_neighbor(row, col, 1, 1);
    }

    /// Mirroring the grid top to bottom leaves the neighbour counts as
    /// they are.
    pub proof fn lemma_mirror_rows_keeps_neighbors(self, row: int, col: int)
        requires
            self.wf(),
            self.in_bounds(row, col),
        ensures
            self.mirror_rows().live_neighbors(self.height - 1 - row, col) == self.live_neighbors(
                row,
                col,
            ),
    {
        self.lemma_mirror_rows_neighbor(row, col, -1, -1);
        self.lemma_mirror_rows_neighbor(row, col, -1, 0);
        self.lemma_mirror_rows_neighbor(row, col, -1, 1);
        self.lemma_mirror_rows_neighbor(row, col, 0, -1);
        self.lemma_mirror_rows_neighbor(row, col, 0, 1);
        self.lemma_mirror_rows_neighbor(row, col, 1, -1);
        self.lemma_mirror_rows_neighbor(row, col, 1, 0);
        self.lemma_mirror_rows_neighbor(row, col, 1, 1);
    }

    /// Exchanging rows and columns leaves the neighbour counts as they
    /// are.
    pub proof fn lemma_transpose_keeps_neighbors(self, row: int, col: int)
        requires
            self.wf(),
            self.in_bounds(row, col),
        ensures
            self.transpose().live_neighbors(col, row) == self.live_neighbors(row, col),
    {
        self.lemma_transpose_neighbor(row, col, -1, -1);
        self.lemma_transpose_neighbor(row, col, -1, 0);
        self.lemma_transpose_neighbor(row, col, -1, 1);
        self.lemma_transpose_neighbor(row, col, 0, -1);
        self.lemma_transpose_neighbor(row, col, 0, 1);
        self.lemma_transpose_neighbor(row, col, 1, -1);
        self.lemma_transpose_neighbor(row, col, 1, 0);
        self.lemma_transpose_neighbor(row, col, 1, 1);
    }

    /// Turning the grid by a quarter leaves the neighbour counts as they
    /// are.
    pub proof fn lemma_quarter_turn_keeps_neighbors(self, row: int, col: int)
        requires
            self.wf(),
            self.in_bounds(row, col),
        ensures
            self.quarter_turn().live_neighbors(col, self.height - 1 - row) == self.live_neighbors(
                row,
                col,
            ),
    {
        self.lemma_mirrored_cells(row, col);
        self.lemma_transpose_keeps_neighbors(row, col);
        self.transpose().lemma_mirror_columns_keeps_neighbors(col, row);
    }

    /// In a pattern that is its own mirror image or its own quarter
    /// turn, a cell and its image have the same number of live
    /// neighbours.
    pub proof fn lemma_symmetric_pattern(self, row: int, col: int)
        requires
            self.wf(),
            self.in_bounds(row, col),
        ensures
            self.mirror_columns() == self ==> self.live_neighbors(row, self.width - 1 - col)
                == self.live_neighbors(row, col),
            self.mirror_rows() == self ==> self.live_neighbors(self.height - 1 - row, col)
                == self.live_neighbors(row, col),
            self.transpose() == self ==> self.live_neighbors(col, row) == self.live_neighbors(
                row,
                col,
            ),
            self.quarter_turn() == self ==> self.live_neighbors(col, self.height - 1 - row)
                == self.live_neighbors(row, col),
    {
        self.lemma_mirror_columns_keeps_neighbors(row, col);
        self.lemma_mirror_rows_keeps_neighbors(row, col);
        self.lemma_transpose_keeps_neighbors(row, col);
        self.lemma_quarter_turn_keeps_neighbors(row, col);
    }
}

} // verus!
