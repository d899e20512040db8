//! The steps of a turn.
use vstd::prelude::*;

use crate::stack::priority::GetState;

verus! {

/// A step of a turn, which gives way to the next step.
///
/// The next step is meant to be a step over the same state; this trait does not bound it.
pub trait Step: GetState<<Self as Step>::State> + Sized {
    type State;
    type NextStep;

    fn next_step(self) -> Self::NextStep;
}

} // verus!
