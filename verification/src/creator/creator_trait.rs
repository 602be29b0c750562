//! What every builder of a board's text offers.

use crate::config::Color;
use vstd::prelude::*;

verus! {

/// A way to write a board, given as rows of colours, as text.
pub trait Creator {
    /// The text of the board `vec`.
    fn builder(vec: Vec<Vec<Color>>) -> String;
}

} // verus!
