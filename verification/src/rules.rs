//! Transition rules: how one generation of the grid follows from the last.

pub mod standard_rule;

use crate::field::{Field, Grid};
use vstd::prelude::*;

verus! {

/// A rule that says which grid follows a given grid. A rule reads the
/// whole current generation and builds the next one beside it, so every
/// cell is judged against the same generation.
pub trait Rule {
    /// The grid that follows `grid` under this rule.
    spec fn next(&self, grid: Grid) -> Grid;

    /// Builds the generation that follows `field`. The field itself is
    /// left as it is, and the result has its dimensions.
    fn apply(&self, field: &Field) -> (next: Field)
        ensures
            next@ == self.next(field@),
            next@.width == field@.width,
            next@.height == field@.height,
    ;
}

/// Applying a rule is repeatable: whatever two applications of the rule to
/// the same field return, they return the same grid, with the dimensions
/// of the field. Nothing but the field decides the result, and the field
/// comes out of an application as it went in.
pub proof fn lemma_apply_is_repeatable<R: Rule>(rule: R, field: Field, first: Field, second: Field)
    requires
        first@ == rule.next(field@),
        second@ == rule.next(field@),
    ensures
        first@ == second@,
{
}

} // verus!
