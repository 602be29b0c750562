//! Conway's Game of Life on a torus: a fixed-size grid whose edges wrap
//! around, advanced one generation at a time by a transition rule.

pub mod config;
pub mod constants;
pub mod creator;
pub mod error;
pub mod field;
pub mod patterns;
pub mod renderer;
pub mod rules;
pub mod symmetry;

use crate::field::{Field, Grid};
use crate::renderer::{Frame, Renderer, Style};
use crate::rules::standard_rule::{next_generation, StandardRule};
use crate::rules::Rule;
use vstd::prelude::*;

verus! {

/// The mathematical model of a running game: the current grid, the number
/// of generations since the grid was last set up, the rule that leads from
/// one generation to the next, and the settings with which it is drawn.
pub ghost struct Game {
    pub grid: Grid,
    pub generation: nat,
    pub rule: spec_fn(Grid) -> Grid,
    pub style: Style,
}

impl Game {
    /// A game holds a well-formed grid whose dimensions fit in 32 bits.
    pub open spec fn wf(self) -> bool {
        &&& self.grid.wf()
        &&& self.grid.width <= u32::MAX
        &&& self.grid.height <= u32::MAX
    }

    /// The game at its start: every cell dead, no generation counted,
    /// Conway's rule, and the standard settings for drawing.
    pub open spec fn start(width: nat, height: nat) -> Game {
        Game {
            grid: Grid::dead(width, height),
            generation: 0,
            rule: |grid: Grid| next_generation(grid),
            style: Style::standard(),
        }
    }

    /// The game one generation on: the rule has replaced the grid, and
    /// the generation is counted.
    pub open spec fn tick(self) -> Game {
        Game { grid: (self.rule)(self.grid), generation: self.generation + 1, ..self }
    }

    /// The game after a request to invert the cell at `(row, col)`: a
    /// position outside the grid changes nothing.
    pub open spec fn toggle_cell(self, row: int, col: int) -> Game {
        if self.grid.in_bounds(row, col) {
            Game { grid: self.grid.toggle(row, col), ..self }
        } else {
            self
        }
    }

    /// The game cleared: every cell dead, and the generations counted
    /// anew.
    pub open spec fn clear(self) -> Game {
        Game { grid: Grid::dead(self.grid.width, self.grid.height), generation: 0, ..self }
    }

    /// The game with its cells overwritten by `samples`, and the
    /// generations counted anew.
    pub open spec fn randomize(self, samples: Seq<bool>) -> Game {
        Game { grid: self.grid.refill(samples), generation: 0, ..self }
    }

    /// After a clear every cell reads as dead and no generation is
    /// counted; the dimensions, the rule and the settings stay.
    pub proof fn lemma_clear(self, row: int, col: int)
        requires
            self.wf(),
            self.grid.in_bounds(row, col),
        ensures
            self.clear().wf(),
            self.clear().generation == 0,
            !self.clear().grid.alive(row, col),
            self.clear().grid.width == self.grid.width,
            self.clear().grid.height == self.grid.height,
            self.clear().rule == self.rule,
            self.clear().style == self.style,
    {
        Grid::lemma_dead_is_dead(self.grid.width, self.grid.height, row, col);
    }

    /// A request to invert a cell outside the grid changes nothing; one
    /// for a cell inside inverts that cell alone and counts no
    /// generation, and a second one for the same cell restores the game.
    pub proof fn lemma_toggle_cell(self, row: int, col: int)
        requires
            self.wf(),
        ensures
            self.toggle_cell(row, col).wf(),
            self.toggle_cell(row, col).generation == self.generation,
            !self.grid.in_bounds(row, col) ==> self.toggle_cell(row, col) == self,
            self.grid.in_bounds(row, col) ==> self.toggle_cell(row, col).grid.alive(row, col)
                == !self.grid.alive(row, col),
            forall|r: int, c: int|
                self.grid.in_bounds(r, c) && (r != row || c != col) ==> #[trigger] self.toggle_cell(
                    row,
                    col,
                ).grid.alive(r, c) == self.grid.alive(r, c),
            self.toggle_cell(row, col).toggle_cell(row, col) == self,
    {
        if self.grid.in_bounds(row, col) {
            self.grid.lemma_toggle_twice(row, col);
        }
    }

    /// A tick counts one generation and leaves the rule and the settings
    /// as they are; a clear or a new filling starts the count again.
    pub proof fn lemma_generation(self, samples: Seq<bool>)
        ensures
            self.tick().generation == self.generation + 1,
            self.tick().rule == self.rule,
            self.tick().style == self.style,
            self.clear().generation == 0,
            self.randomize(samples).generation == 0,
    {
    }
}

/// The game: it owns the grid and the rule, and moves from one generation
/// to the next only when it is told to.
pub struct GameOfLife {
    field: Field,
    width: u32,
    height: u32,
    generation: u32,
    renderer: Renderer,
    rule: Box<dyn Rule>,
}

impl View for GameOfLife {
    type V = Game;

    closed spec fn view(&self) -> Game {
        Game {
            grid: self.field@,
            generation: self.generation as nat,
            rule: |grid: Grid| self.rule.next(grid),
            style: self.renderer@,
        }
    }
}

impl GameOfLife {
    /// The game's model is well-formed, and the dimensions that the game
    /// keeps beside the field are the field's own. `new` establishes
    /// this, and every operation keeps it.
    pub closed spec fn wf(&self) -> bool {
        &&& self@.wf()
        &&& self.width == self.field@.width
        &&& self.height == self.field@.height
    }

    /// A well-formed game has a well-formed model.
    pub proof fn lemma_wf_model(&self)
        requires
            self.wf(),
        ensures
            self@.wf(),
    {
    }

    /// Sets up a game on a grid of `width` columns and `height` rows, with
    /// every cell dead and with Conway's rule.
    pub fn new(width: u32, height: u32) -> (game: GameOfLife)
        requires
            width >= 1,
            height >= 1,
            width * height <= usize::MAX,
        ensures
            game@ == Game::start(width as nat, height as nat),
            game.wf(),
    {
        let field = Field::new(width as usize, height as usize);
        let game = GameOfLife {
            field,
            width,
            height,
            generation: 0,
            renderer: Renderer::new(),
            rule: Box::new(StandardRule::new()),
        };
        proof {
            use_type_invariant(&game.field);
            assert(game@.rule =~= Game::start(width as nat, height as nat).rule);
        }
        game
    }

    /// The number of columns.
    pub fn width(&self) -> (width: u32)
        requires
            self.wf(),
        ensures
            width == self@.grid.width,
    {
        self.width
    }

    /// The number of rows.
    pub fn height(&self) -> (height: u32)
        requires
            self.wf(),
        ensures
            height == self@.grid.height,
    {
        self.height
    }

    /// The number of generations since the grid was last set up.
    pub fn generation(&self) -> (generation: u32)
        ensures
            generation == self@.generation,
    {
        self.generation
    }

    /// The cells of the current generation in row-major order, to be read
    /// and not changed.
    pub fn cells(&self) -> (cells: &[bool])
        ensures
            cells@ == self@.grid.cells,
    {
        self.field.cells()
    }

    /// Moves the game on by one generation.
    pub fn tick(&mut self)
        requires
            old(self).wf(),
            old(self)@.generation < u32::MAX,
        ensures
            final(self).wf(),
            final(self)@ == old(self)@.tick(),
            final(self)@.grid.width == old(self)@.grid.width,
            final(self)@.grid.height == old(self)@.grid.height,
    {
        self.field = self.rule.apply(&self.field);
        self.generation += 1;
        proof {
            use_type_invariant(&self.field);
        }
    }

    /// Inverts the state of the cell at `(row, col)`. A position outside
    /// the grid is passed over in silence, and nothing changes.
    pub fn toggle_cell(&mut self, row: u32, col: u32)
        requires
            old(self).wf(),
        ensures
            final(self).wf(),
            final(self)@ == old(self)@.toggle_cell(row as int, col as int),
    {
        // A position outside the grid is no fault here: the error is dropped.
        let _ = self.field.toggle_cell(row as usize, col as usize);
        proof {
            use_type_invariant(&self.field);
        }
    }

    /// Makes every cell dead and counts the generations anew.
    pub fn clear(&mut self)
        requires
            old(self).wf(),
        ensures
            final(self).wf(),
            final(self)@ == old(self)@.clear(),
    {
        self.field.clear();
        self.generation = 0;
    }

    /// Overwrites the cells, in row-major order, with `samples`, one
    /// sample per cell, and counts the generations anew.
    pub fn randomize(&mut self, samples: &[bool])
        requires
            old(self).wf(),
        ensures
            final(self).wf(),
            final(self)@ == old(self)@.randomize(samples@),
    {
        self.field.randomize(samples);
        self.generation = 0;
    }

    /// Lays the current generation out for drawing.
    pub fn render(&self) -> (frame: Frame)
        requires
            self@.style.fits(self@.grid.width, self@.grid.height),
        ensures
            frame.lines@ == self@.style.grid_lines(self@.grid.width, self@.grid.height),
            frame.cells@ == self@.style.cell_rects(self@.grid),
    {
        self.renderer.render(&self.field)
    }
}

} // verus!
