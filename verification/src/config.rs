//! The two colours of a board that is shown as a table.

use vstd::prelude::*;

verus! {

/// The colour of a square: black for a live cell, white for a dead one.
#[derive(Debug, Clone, Copy, PartialEq, Eq, Structural)]
pub enum Color {
    Black,
    White,
}

} // verus!
