//! The geometry of a rendered grid: where the grid lines run and which
//! square each cell fills. Drawing itself is left to the caller, who gets
//! the lines and squares as plain numbers.

use crate::constants::{ALIVE_COLOR, CELL_SIZE, DEAD_COLOR, GRID_COLOR};
use crate::field::{Field, Grid};
use vstd::prelude::*;
use vstd::string::StringExecFns;

verus! {

/// A straight line from `(x0, y0)` to `(x1, y1)`, in pixels.
#[derive(Debug, Clone, Copy, PartialEq, Eq)]
pub struct Line {
    pub x0: u32,
    pub y0: u32,
    pub x1: u32,
    pub y1: u32,
}

/// The filled rectangle of one cell: its upper left corner `(x, y)` and
/// its extent, in pixels, and whether the cell is alive.
#[derive(Debug, Clone, Copy, PartialEq, Eq)]
pub struct CellRect {
    pub x: u32,
    pub y: u32,
    pub width: u32,
    pub height: u32,
    pub alive: bool,
}

/// All that is drawn for one grid: first the grid lines, then the cells.
#[derive(Debug)]
pub struct Frame {
    pub lines: Vec<Line>,
    pub cells: Vec<CellRect>,
}

/// The settings of a renderer.
pub ghost struct Style {
    pub cell_size: nat,
    pub grid_color: Seq<char>,
    pub dead_color: Seq<char>,
    pub alive_color: Seq<char>,
}

impl Style {
    /// The settings that the constants of this crate give.
    pub open spec fn standard() -> Style {
        Style {
            cell_size: CELL_SIZE as nat,
            grid_color: GRID_COLOR@,
            dead_color: DEAD_COLOR@,
            alive_color: ALIVE_COLOR@,
        }
    }

    /// The colour that fills a cell in the state `alive`.
    pub open spec fn fill_color(self, alive: bool) -> Seq<char> {
        if alive {
            self.alive_color
        } else {
            self.dead_color
        }
    }

    /// Whether a grid of `width` columns and `height` rows can be laid
    /// out with pixel coordinates that fit in 32 bits.
    pub open spec fn fits(self, width: nat, height: nat) -> bool {
        &&& self.cell_size >= 1
        &&& width * self.cell_size <= u32::MAX
        &&& height * self.cell_size <= u32::MAX
    }

    /// The vertical grid line at the left of column `i`: column `width`
    /// gives the line that closes the grid on the right.
    pub open spec fn vertical_line(self, i: int, height: nat) -> Line {
        Line {
            x0: (i * self.cell_size) as u32,
            y0: 0,
            x1: (i * self.cell_size) as u32,
            y1: (height * self.cell_size) as u32,
        }
    }

    /// The horizontal grid line above row `j`: row `height` gives the
    /// line that closes the grid at the bottom.
    pub open spec fn horizontal_line(self, j: int, width: nat) -> Line {
        Line {
            x0: 0,
            y0: (j * self.cell_size) as u32,
            x1: (width * self.cell_size) as u32,
            y1: (j * self.cell_size) as u32,
        }
    }

    /// The grid lines of a grid of `width` columns and `height` rows: the
    /// `width + 1` vertical lines from left to right, then the
    /// `height + 1` horizontal lines from top to bottom.
    pub open spec fn grid_lines(self, width: nat, height: nat) -> Seq<Line> {
        Seq::new(width + 1, |i: int| self.vertical_line(i, height)) + Seq::new(
            height + 1,
            |j: int| self.horizontal_line(j, width),
        )
    }

    /// The rectangle of the cell at `(row, col)`: it leaves one pixel at
    /// its left and upper edge to the grid lines.
    pub open spec fn cell_rect(self, row: int, col: int, alive: bool) -> CellRect {
        CellRect {
            x: (col * self.cell_size + 1) as u32,
            y: (row * self.cell_size + 1) as u32,
            width: (self.cell_size - 1) as u32,
            height: (self.cell_size - 1) as u32,
            alive,
        }
    }

    /// The rectangles of all cells of `grid`, in row-major order.
    pub open spec fn cell_rects(self, grid: Grid) -> Seq<CellRect> {
        Seq::new(
            grid.cells.len(),
            |i: int|
                self.cell_rect(i / (grid.width as int), i % (grid.width as int), grid.cells[i]),
        )
    }
}

/// Lays a grid out for drawing.
#[derive(Debug)]
pub struct Renderer {
    cell_size: u32,
    grid_color: String,
    dead_color: String,
    alive_color: String,
}

impl View for Renderer {
    type V = Style;

    closed spec fn view(&self) -> Style {
        Style {
            cell_size: self.cell_size as nat,
            grid_color: self.grid_color@,
            dead_color: self.dead_color@,
            alive_color: self.alive_color@,
        }
    }
}

impl Default for Renderer {
    fn default() -> (renderer: Self)
        ensures
            renderer@ == Style::standard(),
    {
        Self {
            cell_size: CELL_SIZE,
            grid_color: String::from_str(GRID_COLOR),
            dead_color: String::from_str(DEAD_COLOR),
            alive_color: String::from_str(ALIVE_COLOR),
        }
    }
}

impl Renderer {
    /// A cell's square is at least one pixel wide.
    #[verifier::type_invariant]
    pub open spec fn inv(self) -> bool {
        self@.cell_size >= 1
    }

    /// A renderer with the standard settings.
    pub fn new() -> (renderer: Self)
        ensures
            renderer@ == Style::standard(),
    {
        Self::default()
    }

    /// The colour of the grid lines.
    pub fn grid_color(&self) -> (color: &str)
        ensures
            color@ == self@.grid_color,
    {
        self.grid_color.as_str()
    }

    /// The colour that fills a cell in the state `alive`.
    pub fn fill_color(&self, alive: bool) -> (color: &str)
        ensures
            color@ == self@.fill_color(alive),
    {
        if alive {
            self.alive_color.as_str()
        } else {
            self.dead_color.as_str()
        }
    }

    /// Lays out the whole of `field`: the grid lines, then the cells.
    pub fn render(&self, field: &Field) -> (frame: Frame)
        requires
            self@.fits(field@.width, field@.height),
        ensures
            frame.lines@ == self@.grid_lines(field@.width, field@.height),
            frame.cells@ == self@.cell_rects(field@),
    {
        let lines = self.draw_grid(field.width(), field.height());
        let cells = self.draw_cells(field);
        Frame { lines, cells }
    }

    /// Lays out the grid lines of a grid of `width` columns and `height`
    /// rows.
    pub fn draw_grid(&self, width: usize, height: usize) -> (lines: Vec<Line>)
        requires
            self@.fits(width as nat, height as nat),
        ensures
            lines@ == self@.grid_lines(width as nat, height as nat),
    {
        let ghost style = self@;
        proof {
            lemma_fits_bounds(style, width as nat, height as nat, width as int, height as int);
        }
        let bottom: u32 = height as u32 * self.cell_size;
        let right: u32 = width as u32 * self.cell_size;
        let mut lines: Vec<Line> = Vec::new();

        let mut i: usize = 0;
        while i < width
            invariant
                i <= width,
                style == self@,
                style.fits(width as nat, height as nat),
                bottom == height * style.cell_size,
                lines@ == Seq::new(i as nat, |k: int| style.vertical_line(k, height as nat)),
            decreases width - i,
        {
            proof {
                lemma_fits_bounds(style, width as nat, height as nat, i as int, 0);
            }
            let x: u32 = i as u32 * self.cell_size;
            lines.push(Line { x0: x, y0: 0, x1: x, y1: bottom });
            i += 1;
        }
        lines.push(Line { x0: right, y0: 0, x1: right, y1: bottom });

        let mut j: usize = 0;
        while j < height
            invariant
                j <= height,
                style == self@,
                style.fits(width as nat, height as nat),
                right == width * style.cell_size,
                lines@ == Seq::new(
                    (width + 1) as nat,
                    |k: int| style.vertical_line(k, height as nat),
                ) + Seq::new(j as nat, |k: int| style.horizontal_line(k, width as nat)),
            decreases height - j,
        {
            proof {
                lemma_fits_bounds(style, width as nat, height as nat, 0, j as int);
            }
            let y: u32 = j as u32 * self.cell_size;
            lines.push(Line { x0: 0, y0: y, x1: right, y1: y });
            j += 1;
        }
        lines.push(Line { x0: 0, y0: bottom, x1: right, y1: bottom });

        lines
    }

    /// Lays out the cells of `field`, in row-major order.
    pub fn draw_cells(&self, field: &Field) -> (rects: Vec<CellRect>)
        requires
            self@.fits(field@.width, field@.height),
        ensures
            rects@ == self@.cell_rects(field@),
    {
        let ghost style = self@;
        let width: usize = field.width();
        let height: usize = field.height();
        let cells = field.cells();
        let mut rects: Vec<CellRect> = Vec::new();

        assert(0 * width == 0);
        assert(cells@.len() == cells.len());
        for row in 0..height
            invariant
                style == self@,
                style.fits(width as nat, height as nat),
                field@.wf(),
                field@.width == width,
                field@.height == height,
                cells@ == field@.cells,
                cells@.len() <= usize::MAX,
                rects@.len() == row * width,
                forall|i: int| 0 <= i < row * width ==> rects@[i] == style.cell_rects(field@)[i],
        {
            for col in 0..width
                invariant
                    row < height,
                    style == self@,
                    style.fits(width as nat, height as nat),
                    field@.wf(),
                    field@.width == width,
                    field@.height == height,
                    cells@ == field@.cells,
                    cells@.len() <= usize::MAX,
                    rects@.len() == row * width + col,
                    forall|i: int|
                        0 <= i < row * width + col ==> rects@[i] == style.cell_rects(field@)[i],
            {
                proof {
                    field@.lemma_index_in_range(row as int, col as int);
                    field@.lemma_index_parts(row as int, col as int);
                    lemma_fits_bounds(
                        style,
                        width as nat,
                        height as nat,
                        col as int + 1,
                        row as int + 1,
                    );
                    assert(0 <= row * width) by (nonlinear_arith);
                    assert((col + 1) * self.cell_size == col * self.cell_size + self.cell_size)
                        by (nonlinear_arith);
                    assert((row + 1) * self.cell_size == row * self.cell_size + self.cell_size)
                        by (nonlinear_arith);
                }
                let idx: usize = row * width + col;
                let is_alive: bool = cells[idx];

                rects.push(
                    CellRect {
                        x: col as u32 * self.cell_size + 1,
                        y: row as u32 * self.cell_size + 1,
                        width: self.cell_size - 1,
                        height: self.cell_size - 1,
                        alive: is_alive,
                    },
                );
            }
            assert(row * width + width == (row + 1) * width) by (nonlinear_arith);
        }

        assert(height * width == width * height) by (nonlinear_arith);
        rects
    }
}

/// In a layout that fits, column `i` and row `j` lie at pixel coordinates
/// that fit in 32 bits, and so do the numbers of the columns and rows.
proof fn lemma_fits_bounds(style: Style, width: nat, height: nat, i: int, j: int)
    requires
        style.fits(width, height),
        0 <= i <= width,
        0 <= j <= height,
    ensures
        0 <= i <= i * style.cell_size <= width * style.cell_size <= u32::MAX,
        0 <= j <= j * style.cell_size <= height * style.cell_size <= u32::MAX,
{
    assert(i <= i * style.cell_size <= width * style.cell_size) by (nonlinear_arith)
        requires
            0 <= i <= width,
            style.cell_size >= 1,
    ;
    assert(j <= j * style.cell_size <= height * style.cell_size) by (nonlinear_arith)
        requires
            0 <= j <= height,
            style.cell_size >= 1,
    ;
}

} // verus!
