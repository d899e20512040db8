use vstd::prelude::*;

use crate::validation::{StateFilter, StateFilterInput};

verus! {

/// A filter that takes any input as it is.
pub struct Using<T>(core::marker::PhantomData<T>);

impl<State, T: StateFilterInput> StateFilter<State, T> for Using<T> {
    type ValidOutput = T;
    type Error = core::convert::Infallible;

    open spec fn filter_spec(state: State, value: T) -> Result<T, core::convert::Infallible> {
        Ok(value)
    }

    fn filter(_state: &State, value: T) -> (r: Result<T, core::convert::Infallible>) {
        Ok(value)
    }
}

} // verus!
