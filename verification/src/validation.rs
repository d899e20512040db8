//! Validation of an input against a state, before an action runs on it.
use vstd::prelude::*;

verus! {

/// Marker for values that may be handed to a filter.
pub trait StateFilterInput {}

impl StateFilterInput for () {}

/// A filter that checks an input against a state and, when the input
/// passes, turns it into a valid output.
pub trait StateFilter<State, Input>: Sized {
    type ValidOutput;
    type Error;

    /// What filtering `value` against `state` yields.
    spec fn filter_spec(state: State, value: Input) -> Result<Self::ValidOutput, Self::Error>;

    fn filter(state: &State, value: Input) -> (r: Result<Self::ValidOutput, Self::Error>)
        ensures
            r == Self::filter_spec(*state, value),
    ;
}

/// Whether `value` passes the filter `F` on `state`.
pub open spec fn passes<State, Input, F: StateFilter<State, Input>>(state: State, value: Input) -> bool {
    F::filter_spec(state, value) is Ok
}

/// The filter that lets every input through unchanged.
impl<State, Input> StateFilter<State, Input> for () {
    type ValidOutput = Input;
    type Error = core::convert::Infallible;

    open spec fn filter_spec(state: State, value: Input) -> Result<Input, core::convert::Infallible> {
        Ok(value)
    }

    fn filter(state: &State, value: Input) -> (r: Result<Input, core::convert::Infallible>) {
        Ok(value)
    }
}

/// Splits the part `T` off an input, keeping the rest.
pub trait StateFilterInputConversion<T>: Sized {
    type Remainder;

    spec fn split_spec(self) -> (T, Self::Remainder);

    fn split_take(self) -> (r: (T, Self::Remainder))
        ensures
            r == self.split_spec(),
    ;
}

/// Puts a filtered value back together with the rest of an input.
pub trait StateFilterInputCombination<T>: Sized {
    type Combined;

    spec fn combine_spec(self, value: T) -> Self::Combined;

    fn combine(self, value: T) -> (r: Self::Combined)
        ensures
            r == self.combine_spec(value),
    ;
}

/// A whole input is its own part, with nothing left over.
impl<T: StateFilterInput> StateFilterInputConversion<T> for T {
    type Remainder = ();

    open spec fn split_spec(self) -> (T, ()) {
        (self, ())
    }

    fn split_take(self) -> (r: (T, ())) {
        (self, ())
    }
}

/// Nothing left over, combined with a value, is that value.
impl<T: StateFilterInput> StateFilterInputCombination<T> for () {
    type Combined = T;

    open spec fn combine_spec(self, value: T) -> T {
        value
    }

    fn combine(self, value: T) -> (r: T) {
        value
    }
}

/// The first part of a pair, with the second left over.
impl<T0: StateFilterInput, T1: StateFilterInput> StateFilterInputConversion<T0> for (T0, T1) {
    type Remainder = (T1,);

    open spec fn split_spec(self) -> (T0, (T1,)) {
        (self.0, (self.1,))
    }

    fn split_take(self) -> (r: (T0, (T1,))) {
        (self.0, (self.1,))
    }
}

/// A value put back behind what was left over of a pair.
impl<T: StateFilterInput, U: StateFilterInput> StateFilterInputCombination<(T,)> for (U,) {
    type Combined = (U, T);

    open spec fn combine_spec(self, value: (T,)) -> (U, T) {
        (self.0, value.0)
    }

    fn combine(self, value: (T,)) -> (r: (U, T)) {
        (self.0, value.0)
    }
}

/// A filter `Filter` applied to the part `Input` of a larger input.
pub struct Condition<Input, Filter>(core::marker::PhantomData<(Input, Filter)>);

/// Which of two chained conditions refused the input.
pub enum ConditionError<E0, E1> {
    First(E0),
    Second(E1),
}

/// Two conditions in a row: the first checks its part of the input and puts its valid
/// output back in; the second then checks its part of the result.
impl<
    State,
    InitialInput: StateFilterInput,
    Input0: StateFilterInput,
    Input1: StateFilterInput,
    F0: StateFilter<State, Input0>,
    F1: StateFilter<State, Input1>,
> StateFilter<State, InitialInput> for (Condition<Input0, F0>, Condition<Input1, F1>) where
    InitialInput: StateFilterInputConversion<Input0>,
    <InitialInput as StateFilterInputConversion<Input0>>::Remainder: StateFilterInputCombination<F0::ValidOutput>,
    <<InitialInput as StateFilterInputConversion<Input0>>::Remainder as StateFilterInputCombination<
        F0::ValidOutput,
    >>::Combined: StateFilterInputConversion<Input1>,
    <<<InitialInput as StateFilterInputConversion<Input0>>::Remainder as StateFilterInputCombination<
        F0::ValidOutput,
    >>::Combined as StateFilterInputConversion<Input1>>::Remainder: StateFilterInputCombination<F1::ValidOutput>,
 {
    type ValidOutput = <<<<InitialInput as StateFilterInputConversion<Input0>>::Remainder as StateFilterInputCombination<
        F0::ValidOutput,
    >>::Combined as StateFilterInputConversion<Input1>>::Remainder as StateFilterInputCombination<
        F1::ValidOutput,
    >>::Combined;
    type Error = ConditionError<F0::Error, F1::Error>;

    open spec fn filter_spec(state: State, value: InitialInput) -> Result<Self::ValidOutput, Self::Error> {
        let (input0, remainder0) = value.split_spec();
        match F0::filter_spec(state, input0) {
            Ok(valid0) => {
                let (input1, remainder1) = remainder0.combine_spec(valid0).split_spec();
                match F1::filter_spec(state, input1) {
                    Ok(valid1) => Ok(remainder1.combine_spec(valid1)),
                    Err(e) => Err(ConditionError::Second(e)),
                }
            },
            Err(e) => Err(ConditionError::First(e)),
        }
    }

    fn filter(state: &State, value: InitialInput) -> (r: Result<Self::ValidOutput, Self::Error>) {
        let (input0, remainder0) = value.split_take();
        match F0::filter(state, input0) {
            Ok(valid0) => {
                let (input1, remainder1) = remainder0.combine(valid0).split_take();
                match F1::filter(state, input1) {
                    Ok(valid1) => Ok(remainder1.combine(valid1)),
                    Err(e) => Err(ConditionError::Second(e)),
                }
            },
            Err(e) => Err(ConditionError::First(e)),
        }
    }
}

/// Three conditions in a row, each checking its part of what the one before it let through.
/// Which condition refused is told as with two: the first, or else which of the last two.
impl<
    State,
    InitialInput: StateFilterInput,
    Input0: StateFilterInput,
    Input1: StateFilterInput,
    Input2: StateFilterInput,
    F0: StateFilter<State, Input0>,
    F1: StateFilter<State, Input1>,
    F2: StateFilter<State, Input2>,
> StateFilter<State, InitialInput> for (Condition<Input0, F0>, Condition<Input1, F1>, Condition<Input2, F2>) where
    InitialInput: StateFilterInputConversion<Input0>,
    <InitialInput as StateFilterInputConversion<Input0>>::Remainder: StateFilterInputCombination<F0::ValidOutput>,
    <<InitialInput as StateFilterInputConversion<Input0>>::Remainder as StateFilterInputCombination<
        F0::ValidOutput,
    >>::Combined: StateFilterInputConversion<Input1>,
    <<<InitialInput as StateFilterInputConversion<Input0>>::Remainder as StateFilterInputCombination<
        F0::ValidOutput,
    >>::Combined as StateFilterInputConversion<Input1>>::Remainder: StateFilterInputCombination<F1::ValidOutput>,
    <<<<InitialInput as StateFilterInputConversion<Input0>>::Remainder as StateFilterInputCombination<
        F0::ValidOutput,
    >>::Combined as StateFilterInputConversion<Input1>>::Remainder as StateFilterInputCombination<
        F1::ValidOutput,
    >>::Combined: StateFilterInputConversion<Input2>,
    <<<<<InitialInput as StateFilterInputConversion<Input0>>::Remainder as StateFilterInputCombination<
        F0::ValidOutput,
    >>::Combined as StateFilterInputConversion<Input1>>::Remainder as StateFilterInputCombination<
        F1::ValidOutput,
    >>::Combined as StateFilterInputConversion<Input2>>::Remainder: StateFilterInputCombination<F2::ValidOutput>,
 {
    type ValidOutput = <<<<<<InitialInput as StateFilterInputConversion<Input0>>::Remainder as StateFilterInputCombination<
        F0::ValidOutput,
    >>::Combined as StateFilterInputConversion<Input1>>::Remainder as StateFilterInputCombination<
        F1::ValidOutput,
    >>::Combined as StateFilterInputConversion<Input2>>::Remainder as StateFilterInputCombination<
        F2::ValidOutput,
    >>::Combined;
    type Error = ConditionError<F0::Error, ConditionError<F1::Error, F2::Error>>;

    open spec fn filter_spec(state: State, value: InitialInput) -> Result<Self::ValidOutput, Self::Error> {
        let (input0, remainder0) = value.split_spec();
        match F0::filter_spec(state, input0) {
            Ok(valid0) => {
                let (input1, remainder1) = remainder0.combine_spec(valid0).split_spec();
                match F1::filter_spec(state, input1) {
                    Ok(valid1) => {
                        let (input2, remainder2) = remainder1.combine_spec(valid1).split_spec();
                        match F2::filter_spec(state, input2) {
                            Ok(valid2) => Ok(remainder2.combine_spec(valid2)),
                            Err(e) => Err(ConditionError::Second(ConditionError::Second(e))),
                        }
                    },
                    Err(e) => Err(ConditionError::Second(ConditionError::First(e))),
                }
            },
            Err(e) => Err(ConditionError::First(e)),
        }
    }

    fn filter(state: &State, value: InitialInput) -> (r: Result<Self::ValidOutput, Self::Error>) {
        let (input0, remainder0) = value.split_take();
        match F0::filter(state, input0) {
            Ok(valid0) => {
                let (input1, remainder1) = remainder0.combine(valid0).split_take();
                match F1::filter(state, input1) {
                    Ok(valid1) => {
                        let (input2, remainder2) = remainder1.combine(valid1).split_take();
                        match F2::filter(state, input2) {
                            Ok(valid2) => Ok(remainder2.combine(valid2)),
                            Err(e) => Err(ConditionError::Second(ConditionError::Second(e))),
                        }
                    },
                    Err(e) => Err(ConditionError::Second(ConditionError::First(e))),
                }
            },
            Err(e) => Err(ConditionError::First(e)),
        }
    }
}

/// Four conditions in a row, each checking its part of what the one before it let
/// through. The error tells which one refused: the first, or else which of the rest.
impl<
    State,
    InitialInput: StateFilterInput,
    Input0: StateFilterInput,
    Input1: StateFilterInput,
    Input2: StateFilterInput,
    Input3: StateFilterInput,
    F0: StateFilter<State, Input0>,
    F1: StateFilter<State, Input1>,
    F2: StateFilter<State, Input2>,
    F3: StateFilter<State, Input3>,
> StateFilter<State, InitialInput> for (Condition<Input0, F0>, Condition<Input1, F1>, Condition<Input2, F2>, Condition<Input3, F3>) where
    InitialInput: StateFilterInputConversion<Input0>,
    <InitialInput as StateFilterInputConversion<Input0>>::Remainder: StateFilterInputCombination<F0::ValidOutput>,
    <<InitialInput as StateFilterInputConversion<Input0>>::Remainder as StateFilterInputCombination<F0::ValidOutput>>::Combined: StateFilterInputConversion<Input1>,
    <<<InitialInput as StateFilterInputConversion<Input0>>::Remainder as StateFilterInputCombination<F0::ValidOutput>>::Combined as StateFilterInputConversion<Input1>>::Remainder: StateFilterInputCombination<F1::ValidOutput>,
    <<<<InitialInput as StateFilterInputConversion<Input0>>::Remainder as StateFilterInputCombination<F0::ValidOutput>>::Combined as StateFilterInputConversion<Input1>>::Remainder as StateFilterInputCombination<F1::ValidOutput>>::Combined: StateFilterInputConversion<Input2>,
    <<<<<InitialInput as StateFilterInputConversion<Input0>>::Remainder as StateFilterInputCombination<F0::ValidOutput>>::Combined as StateFilterInputConversion<Input1>>::Remainder as StateFilterInputCombination<F1::ValidOutput>>::Combined as StateFilterInputConversion<Input2>>::Remainder: StateFilterInputCombination<F2::ValidOutput>,
    <<<<<<InitialInput as StateFilterInputConversion<Input0>>::Remainder as StateFilterInputCombination<F0::ValidOutput>>::Combined as StateFilterInputConversion<Input1>>::Remainder as StateFilterInputCombination<F1::ValidOutput>>::Combined as StateFilterInputConversion<Input2>>::Remainder as StateFilterInputCombination<F2::ValidOutput>>::Combined: StateFilterInputConversion<Input3>,
    <<<<<<<InitialInput as StateFilterInputConversion<Input0>>::Remainder as StateFilterInputCombination<F0::ValidOutput>>::Combined as StateFilterInputConversion<Input1>>::Remainder as StateFilterInputCombination<F1::ValidOutput>>::Combined as StateFilterInputConversion<Input2>>::Remainder as StateFilterInputCombination<F2::ValidOutput>>::Combined as StateFilterInputConversion<Input3>>::Remainder: StateFilterInputCombination<F3::ValidOutput>,
 {
    type ValidOutput = <<<<<<<<InitialInput as StateFilterInputConversion<Input0>>::Remainder as StateFilterInputCombination<F0::ValidOutput>>::Combined as StateFilterInputConversion<Input1>>::Remainder as StateFilterInputCombination<F1::ValidOutput>>::Combined as StateFilterInputConversion<Input2>>::Remainder as StateFilterInputCombination<F2::ValidOutput>>::Combined as StateFilterInputConversion<Input3>>::Remainder as StateFilterInputCombination<F3::ValidOutput>>::Combined;
    type Error = ConditionError<F0::Error, ConditionError<F1::Error, ConditionError<F2::Error, F3::Error>>>;

    open spec fn filter_spec(state: State, value: InitialInput) -> Result<Self::ValidOutput, Self::Error> {
        let (input0, remainder0) = value.split_spec();
        match F0::filter_spec(state, input0) {
            Ok(valid0) => {
                let (input1, remainder1) = remainder0.combine_spec(valid0).split_spec();
                match F1::filter_spec(state, input1) {
                    Ok(valid1) => {
                        let (input2, remainder2) = remainder1.combine_spec(valid1).split_spec();
                        match F2::filter_spec(state, input2) {
                            Ok(valid2) => {
                                let (input3, remainder3) = remainder2.combine_spec(valid2).split_spec();
                                match F3::filter_spec(state, input3) {
                                    Ok(valid3) => Ok(remainder3.combine_spec(valid3)),
                                    Err(e) => Err(ConditionError::Second(ConditionError::Second(ConditionError::Second(e)))),
                                }
                            },
                            Err(e) => Err(ConditionError::Second(ConditionError::Second(ConditionError::First(e)))),
                        }
                    },
                    Err(e) => Err(ConditionError::Second(ConditionError::First(e))),
                }
            },
            Err(e) => Err(ConditionError::First(e)),
        }
    }

    fn filter(state: &State, value: InitialInput) -> (r: Result<Self::ValidOutput, Self::Error>) {
        let (input0, remainder0) = value.split_take();
        match F0::filter(state, input0) {
            Ok(valid0) => {
                let (input1, remainder1) = remainder0.combine(valid0).split_take();
                match F1::filter(state, input1) {
                    Ok(valid1) => {
                        let (input2, remainder2) = remainder1.combine(valid1).split_take();
                        match F2::filter(state, input2) {
                            Ok(valid2) => {
                                let (input3, remainder3) = remainder2.combine(valid2).split_take();
                                match F3::filter(state, input3) {
                                    Ok(valid3) => Ok(remainder3.combine(valid3)),
                                    Err(e) => Err(ConditionError::Second(ConditionError::Second(ConditionError::Second(e)))),
                                }
                            },
                            Err(e) => Err(ConditionError::Second(ConditionError::Second(ConditionError::First(e)))),
                        }
                    },
                    Err(e) => Err(ConditionError::Second(ConditionError::First(e))),
                }
            },
            Err(e) => Err(ConditionError::First(e)),
        }
    }
}

/// Five conditions in a row, each checking its part of what the one before it let
/// through. The error tells which one refused: the first, or else which of the rest.
impl<
    State,
    InitialInput: StateFilterInput,
    Input0: StateFilterInput,
    Input1: StateFilterInput,
    Input2: StateFilterInput,
    Input3: StateFilterInput,
    Input4: StateFilterInput,
    F0: StateFilter<State, Input0>,
    F1: StateFilter<State, Input1>,
    F2: StateFilter<State, Input2>,
    F3: StateFilter<State, Input3>,
    F4: StateFilter<State, Input4>,
> StateFilter<State, InitialInput> for (Condition<Input0, F0>, Condition<Input1, F1>, Condition<Input2, F2>, Condition<Input3, F3>, Condition<Input4, F4>) where
    InitialInput: StateFilterInputConversion<Input0>,
    <InitialInput as StateFilterInputConversion<Input0>>::Remainder: StateFilterInputCombination<F0::ValidOutput>,
    <<InitialInput as StateFilterInputConversion<Input0>>::Remainder as StateFilterInputCombination<F0::ValidOutput>>::Combined: StateFilterInputConversion<Input1>,
    <<<InitialInput as StateFilterInputConversion<Input0>>::Remainder as StateFilterInputCombination<F0::ValidOutput>>::Combined as StateFilterInputConversion<Input1>>::Remainder: StateFilterInputCombination<F1::ValidOutput>,
    <<<<InitialInput as StateFilterInputConversion<Input0>>::Remainder as StateFilterInputCombination<F0::ValidOutput>>::Combined as StateFilterInputConversion<Input1>>::Remainder as StateFilterInputCombination<F1::ValidOutput>>::Combined: StateFilterInputConversion<Input2>,
    <<<<<InitialInput as StateFilterInputConversion<Input0>>::Remainder as StateFilterInputCombination<F0::ValidOutput>>::Combined as StateFilterInputConversion<Input1>>::Remainder as StateFilterInputCombination<F1::ValidOutput>>::Combined as StateFilterInputConversion<Input2>>::Remainder: StateFilterInputCombination<F2::ValidOutput>,
    <<<<<<InitialInput as StateFilterInputConversion<Input0>>::Remainder as StateFilterInputCombination<F0::ValidOutput>>::Combined as StateFilterInputConversion<Input1>>::Remainder as StateFilterInputCombination<F1::ValidOutput>>::Combined as StateFilterInputConversion<Input2>>::Remainder as StateFilterInputCombination<F2::ValidOutput>>::Combined: StateFilterInputConversion<Input3>,
    <<<<<<<InitialInput as StateFilterInputConversion<Input0>>::Remainder as StateFilterInputCombination<F0::ValidOutput>>::Combined as StateFilterInputConversion<Input1>>::Remainder as StateFilterInputCombination<F1::ValidOutput>>::Combined as StateFilterInputConversion<Input2>>::Remainder as StateFilterInputCombination<F2::ValidOutput>>::Combined as StateFilterInputConversion<Input3>>::Remainder: StateFilterInputCombination<F3::ValidOutput>,
    <<<<<<<<InitialInput as StateFilterInputConversion<Input0>>::Remainder as StateFilterInputCombination<F0::ValidOutput>>::Combined as StateFilterInputConversion<Input1>>::Remainder as StateFilterInputCombination<F1::ValidOutput>>::Combined as StateFilterInputConversion<Input2>>::Remainder as StateFilterInputCombination<F2::ValidOutput>>::Combined as StateFilterInputConversion<Input3>>::Remainder as StateFilterInputCombination<F3::ValidOutput>>::Combined: StateFilterInputConversion<Input4>,
    <<<<<<<<<InitialInput as StateFilterInputConversion<Input0>>::Remainder as StateFilterInputCombination<F0::ValidOutput>>::Combined as StateFilterInputConversion<Input1>>::Remainder as StateFilterInputCombination<F1::ValidOutput>>::Combined as StateFilterInputConversion<Input2>>::Remainder as StateFilterInputCombination<F2::ValidOutput>>::Combined as StateFilterInputConversion<Input3>>::Remainder as StateFilterInputCombination<F3::ValidOutput>>::Combined as StateFilterInputConversion<Input4>>::Remainder: StateFilterInputCombination<F4::ValidOutput>,
 {
    type ValidOutput = <<<<<<<<<<InitialInput as StateFilterInputConversion<Input0>>::Remainder as StateFilterInputCombination<F0::ValidOutput>>::Combined as StateFilterInputConversion<Input1>>::Remainder as StateFilterInputCombination<F1::ValidOutput>>::Combined as StateFilterInputConversion<Input2>>::Remainder as StateFilterInputCombination<F2::ValidOutput>>::Combined as StateFilterInputConversion<Input3>>::Remainder as StateFilterInputCombination<F3::ValidOutput>>::Combined as StateFilterInputConversion<Input4>>::Remainder as StateFilterInputCombination<F4::ValidOutput>>::Combined;
    type Error = ConditionError<F0::Error, ConditionError<F1::Error, ConditionError<F2::Error, ConditionError<F3::Error, F4::Error>>>>;

    open spec fn filter_spec(state: State, value: InitialInput) -> Result<Self::ValidOutput, Self::Error> {
        let (input0, remainder0) = value.split_spec();
        match F0::filter_spec(state, input0) {
            Ok(valid0) => {
                let (input1, remainder1) = remainder0.combine_spec(valid0).split_spec();
                match F1::filter_spec(state, input1) {
                    Ok(valid1) => {
                        let (input2, remainder2) = remainder1.combine_spec(valid1).split_spec();
                        match F2::filter_spec(state, input2) {
                            Ok(valid2) => {
                                let (input3, remainder3) = remainder2.combine_spec(valid2).split_spec();
                                match F3::filter_spec(state, input3) {
                                    Ok(valid3) => {
                                        let (input4, remainder4) = remainder3.combine_spec(valid3).split_spec();
                                        match F4::filter_spec(state, input4) {
                                            Ok(valid4) => Ok(remainder4.combine_spec(valid4)),
                                            Err(e) => Err(ConditionError::Second(ConditionError::Second(ConditionError::Second(ConditionError::Second(e))))),
                                        }
                                    },
                                    Err(e) => Err(ConditionError::Second(ConditionError::Second(ConditionError::Second(ConditionError::First(e))))),
                                }
                            },
                            Err(e) => Err(ConditionError::Second(ConditionError::Second(ConditionError::First(e)))),
                        }
                    },
                    Err(e) => Err(ConditionError::Second(ConditionError::First(e))),
                }
            },
            Err(e) => Err(ConditionError::First(e)),
        }
    }

    fn filter(state: &State, value: InitialInput) -> (r: Result<Self::ValidOutput, Self::Error>) {
        let (input0, remainder0) = value.split_take();
        match F0::filter(state, input0) {
            Ok(valid0) => {
                let (input1, remainder1) = remainder0.combine(valid0).split_take();
                match F1::filter(state, input1) {
                    Ok(valid1) => {
                        let (input2, remainder2) = remainder1.combine(valid1).split_take();
                        match F2::filter(state, input2) {
                            Ok(valid2) => {
                                let (input3, remainder3) = remainder2.combine(valid2).split_take();
                                match F3::filter(state, input3) {
                                    Ok(valid3) => {
                                        let (input4, remainder4) = remainder3.combine(valid3).split_take();
                                        match F4::filter(state, input4) {
                                            Ok(valid4) => Ok(remainder4.combine(valid4)),
                                            Err(e) => Err(ConditionError::Second(ConditionError::Second(ConditionError::Second(ConditionError::Second(e))))),
                                        }
                                    },
                                    Err(e) => Err(ConditionError::Second(ConditionError::Second(ConditionError::Second(ConditionError::First(e))))),
                                }
                            },
                            Err(e) => Err(ConditionError::Second(ConditionError::Second(ConditionError::First(e)))),
                        }
                    },
                    Err(e) => Err(ConditionError::Second(ConditionError::First(e))),
                }
            },
            Err(e) => Err(ConditionError::First(e)),
        }
    }
}

/// Six conditions in a row, each checking its part of what the one before it let
/// through. The error tells which one refused: the first, or else which of the rest.
impl<
    State,
    InitialInput: StateFilterInput,
    Input0: StateFilterInput,
    Input1: StateFilterInput,
    Input2: StateFilterInput,
    Input3: StateFilterInput,
    Input4: StateFilterInput,
    Input5: StateFilterInput,
    F0: StateFilter<State, Input0>,
    F1: StateFilter<State, Input1>,
    F2: StateFilter<State, Input2>,
    F3: StateFilter<State, Input3>,
    F4: StateFilter<State, Input4>,
    F5: StateFilter<State, Input5>,
> StateFilter<State, InitialInput> for (Condition<Input0, F0>, Condition<Input1, F1>, Condition<Input2, F2>, Condition<Input3, F3>, Condition<Input4, F4>, Condition<Input5, F5>) where
    InitialInput: StateFilterInputConversion<Input0>,
    <InitialInput as StateFilterInputConversion<Input0>>::Remainder: StateFilterInputCombination<F0::ValidOutput>,
    <<InitialInput as StateFilterInputConversion<Input0>>::Remainder as StateFilterInputCombination<F0::ValidOutput>>::Combined: StateFilterInputConversion<Input1>,
    <<<InitialInput as StateFilterInputConversion<Input0>>::Remainder as StateFilterInputCombination<F0::ValidOutput>>::Combined as StateFilterInputConversion<Input1>>::Remainder: StateFilterInputCombination<F1::ValidOutput>,
    <<<<InitialInput as StateFilterInputConversion<Input0>>::Remainder as StateFilterInputCombination<F0::ValidOutput>>::Combined as StateFilterInputConversion<Input1>>::Remainder as StateFilterInputCombination<F1::ValidOutput>>::Combined: StateFilterInputConversion<Input2>,
    <<<<<InitialInput as StateFilterInputConversion<Input0>>::Remainder as StateFilterInputCombination<F0::ValidOutput>>::Combined as StateFilterInputConversion<Input1>>::Remainder as StateFilterInputCombination<F1::ValidOutput>>::Combined as StateFilterInputConversion<Input2>>::Remainder: StateFilterInputCombination<F2::ValidOutput>,
    <<<<<<InitialInput as StateFilterInputConversion<Input0>>::Remainder as StateFilterInputCombination<F0::ValidOutput>>::Combined as StateFilterInputConversion<Input1>>::Remainder as StateFilterInputCombination<F1::ValidOutput>>::Combined as StateFilterInputConversion<Input2>>::Remainder as StateFilterInputCombination<F2::ValidOutput>>::Combined: StateFilterInputConversion<Input3>,
    <<<<<<<InitialInput as StateFilterInputConversion<Input0>>::Remainder as StateFilterInputCombination<F0::ValidOutput>>::Combined as StateFilterInputConversion<Input1>>::Remainder as StateFilterInputCombination<F1::ValidOutput>>::Combined as StateFilterInputConversion<Input2>>::Remainder as StateFilterInputCombination<F2::ValidOutput>>::Combined as StateFilterInputConversion<Input3>>::Remainder: StateFilterInputCombination<F3::ValidOutput>,
    <<<<<<<<InitialInput as StateFilterInputConversion<Input0>>::Remainder as StateFilterInputCombination<F0::ValidOutput>>::Combined as StateFilterInputConversion<Input1>>::Remainder as StateFilterInputCombination<F1::ValidOutput>>::Combined as StateFilterInputConversion<Input2>>::Remainder as StateFilterInputCombination<F2::ValidOutput>>::Combined as StateFilterInputConversion<Input3>>::Remainder as StateFilterInputCombination<F3::ValidOutput>>::Combined: StateFilterInputConversion<Input4>,
    <<<<<<<<<InitialInput as StateFilterInputConversion<Input0>>::Remainder as StateFilterInputCombination<F0::ValidOutput>>::Combined as StateFilterInputConversion<Input1>>::Remainder as StateFilterInputCombination<F1::ValidOutput>>::Combined as StateFilterInputConversion<Input2>>::Remainder as StateFilterInputCombination<F2::ValidOutput>>::Combined as StateFilterInputConversion<Input3>>::Remainder as StateFilterInputCombination<F3::ValidOutput>>::Combined as StateFilterInputConversion<Input4>>::Remainder: StateFilterInputCombination<F4::ValidOutput>,
    <<<<<<<<<<InitialInput as StateFilterInputConversion<Input0>>::Remainder as StateFilterInputCombination<F0::ValidOutput>>::Combined as StateFilterInputConversion<Input1>>::Remainder as StateFilterInputCombination<F1::ValidOutput>>::Combined as StateFilterInputConversion<Input2>>::Remainder as StateFilterInputCombination<F2::ValidOutput>>::Combined as StateFilterInputConversion<Input3>>::Remainder as StateFilterInputCombination<F3::ValidOutput>>::Combined as StateFilterInputConversion<Input4>>::Remainder as StateFilterInputCombination<F4::ValidOutput>>::Combined: StateFilterInputConversion<Input5>,
    <<<<<<<<<<<InitialInput as StateFilterInputConversion<Input0>>::Remainder as StateFilterInputCombination<F0::ValidOutput>>::Combined as StateFilterInputConversion<Input1>>::Remainder as StateFilterInputCombination<F1::ValidOutput>>::Combined as StateFilterInputConversion<Input2>>::Remainder as StateFilterInputCombination<F2::ValidOutput>>::Combined as StateFilterInputConversion<Input3>>::Remainder as StateFilterInputCombination<F3::ValidOutput>>::Combined as StateFilterInputConversion<Input4>>::Remainder as StateFilterInputCombination<F4::ValidOutput>>::Combined as StateFilterInputConversion<Input5>>::Remainder: StateFilterInputCombination<F5::ValidOutput>,
 {
    type ValidOutput = <<<<<<<<<<<<InitialInput as StateFilterInputConversion<Input0>>::Remainder as StateFilterInputCombination<F0::ValidOutput>>::Combined as StateFilterInputConversion<Input1>>::Remainder as StateFilterInputCombination<F1::ValidOutput>>::Combined as StateFilterInputConversion<Input2>>::Remainder as StateFilterInputCombination<F2::ValidOutput>>::Combined as StateFilterInputConversion<Input3>>::Remainder as StateFilterInputCombination<F3::ValidOutput>>::Combined as StateFilterInputConversion<Input4>>::Remainder as StateFilterInputCombination<F4::ValidOutput>>::Combined as StateFilterInputConversion<Input5>>::Remainder as StateFilterInputCombination<F5::ValidOutput>>::Combined;
    type Error = ConditionError<F0::Error, ConditionError<F1::Error, ConditionError<F2::Error, ConditionError<F3::Error, ConditionError<F4::Error, F5::Error>>>>>;

    open spec fn filter_spec(state: State, value: InitialInput) -> Result<Self::ValidOutput, Self::Error> {
        let (input0, remainder0) = value.split_spec();
        match F0::filter_spec(state, input0) {
            Ok(valid0) => {
                let (input1, remainder1) = remainder0.combine_spec(valid0).split_spec();
                match F1::filter_spec(state, input1) {
                    Ok(valid1) => {
                        let (input2, remainder2) = remainder1.combine_spec(valid1).split_spec();
                        match F2::filter_spec(state, input2) {
                            Ok(valid2) => {
                                let (input3, remainder3) = remainder2.combine_spec(valid2).split_spec();
                                match F3::filter_spec(state, input3) {
                                    Ok(valid3) => {
                                        let (input4, remainder4) = remainder3.combine_spec(valid3).split_spec();
                                        match F4::filter_spec(state, input4) {
                                            Ok(valid4) => {
                                                let (input5, remainder5) = remainder4.combine_spec(valid4).split_spec();
                                                match F5::filter_spec(state, input5) {
                                                    Ok(valid5) => Ok(remainder5.combine_spec(valid5)),
                                                    Err(e) => Err(ConditionError::Second(ConditionError::Second(ConditionError::Second(ConditionError::Second(ConditionError::Second(e)))))),
                                                }
                                            },
                                            Err(e) => Err(ConditionError::Second(ConditionError::Second(ConditionError::Second(ConditionError::Second(ConditionError::First(e)))))),
                                        }
                                    },
                                    Err(e) => Err(ConditionError::Second(ConditionError::Second(ConditionError::Second(ConditionError::First(e))))),
                                }
                            },
                            Err(e) => Err(ConditionError::Second(ConditionError::Second(ConditionError::First(e)))),
                        }
                    },
                    Err(e) => Err(ConditionError::Second(ConditionError::First(e))),
                }
            },
            Err(e) => Err(ConditionError::First(e)),
        }
    }

    fn filter(state: &State, value: InitialInput) -> (r: Result<Self::ValidOutput, Self::Error>) {
        let (input0, remainder0) = value.split_take();
        match F0::filter(state, input0) {
            Ok(valid0) => {
                let (input1, remainder1) = remainder0.combine(valid0).split_take();
                match F1::filter(state, input1) {
                    Ok(valid1) => {
                        let (input2, remainder2) = remainder1.combine(valid1).split_take();
                        match F2::filter(state, input2) {
                            Ok(valid2) => {
                                let (input3, remainder3) = remainder2.combine(valid2).split_take();
                                match F3::filter(state, input3) {
                                    Ok(valid3) => {
                                        let (input4, remainder4) = remainder3.combine(valid3).split_take();
                                        match F4::filter(state, input4) {
                                            Ok(valid4) => {
                                                let (input5, remainder5) = remainder4.combine(valid4).split_take();
                                                match F5::filter(state, input5) {
                                                    Ok(valid5) => Ok(remainder5.combine(valid5)),
                                                    Err(e) => Err(ConditionError::Second(ConditionError::Second(ConditionError::Second(ConditionError::Second(ConditionError::Second(e)))))),
                                                }
                                            },
                                            Err(e) => Err(ConditionError::Second(ConditionError::Second(ConditionError::Second(ConditionError::Second(ConditionError::First(e)))))),
                                        }
                                    },
                                    Err(e) => Err(ConditionError::Second(ConditionError::Second(ConditionError::Second(ConditionError::First(e))))),
                                }
                            },
                            Err(e) => Err(ConditionError::Second(ConditionError::Second(ConditionError::First(e)))),
                        }
                    },
                    Err(e) => Err(ConditionError::Second(ConditionError::First(e))),
                }
            },
            Err(e) => Err(ConditionError::First(e)),
        }
    }
}

/// Seven conditions in a row, each checking its part of what the one before it let
/// through. The error tells which one refused: the first, or else which of the rest.
impl<
    State,
    InitialInput: StateFilterInput,
    Input0: StateFilterInput,
    Input1: StateFilterInput,
    Input2: StateFilterInput,
    Input3: StateFilterInput,
    Input4: StateFilterInput,
    Input5: StateFilterInput,
    Input6: StateFilterInput,
    F0: StateFilter<State, Input0>,
    F1: StateFilter<State, Input1>,
    F2: StateFilter<State, Input2>,
    F3: StateFilter<State, Input3>,
    F4: StateFilter<State, Input4>,
    F5: StateFilter<State, Input5>,
    F6: StateFilter<State, Input6>,
> StateFilter<State, InitialInput> for (Condition<Input0, F0>, Condition<Input1, F1>, Condition<Input2, F2>, Condition<Input3, F3>, Condition<Input4, F4>, Condition<Input5, F5>, Condition<Input6, F6>) where
    InitialInput: StateFilterInputConversion<Input0>,
    <InitialInput as StateFilterInputConversion<Input0>>::Remainder: StateFilterInputCombination<F0::ValidOutput>,
    <<InitialInput as StateFilterInputConversion<Input0>>::Remainder as StateFilterInputCombination<F0::ValidOutput>>::Combined: StateFilterInputConversion<Input1>,
    <<<InitialInput as StateFilterInputConversion<Input0>>::Remainder as StateFilterInputCombination<F0::ValidOutput>>::Combined as StateFilterInputConversion<Input1>>::Remainder: StateFilterInputCombination<F1::ValidOutput>,
    <<<<InitialInput as StateFilterInputConversion<Input0>>::Remainder as StateFilterInputCombination<F0::ValidOutput>>::Combined as StateFilterInputConversion<Input1>>::Remainder as StateFilterInputCombination<F1::ValidOutput>>::Combined: StateFilterInputConversion<Input2>,
    <<<<<InitialInput as StateFilterInputConversion<Input0>>::Remainder as StateFilterInputCombination<F0::ValidOutput>>::Combined as StateFilterInputConversion<Input1>>::Remainder as StateFilterInputCombination<F1::ValidOutput>>::Combined as StateFilterInputConversion<Input2>>::Remainder: StateFilterInputCombination<F2::ValidOutput>,
    <<<<<<InitialInput as StateFilterInputConversion<Input0>>::Remainder as StateFilterInputCombination<F0::ValidOutput>>::Combined as StateFilterInputConversion<Input1>>::Remainder as StateFilterInputCombination<F1::ValidOutput>>::Combined as StateFilterInputConversion<Input2>>::Remainder as StateFilterInputCombination<F2::ValidOutput>>::Combined: StateFilterInputConversion<Input3>,
    <<<<<<<InitialInput as StateFilterInputConversion<Input0>>::Remainder as StateFilterInputCombination<F0::ValidOutput>>::Combined as StateFilterInputConversion<Input1>>::Remainder as StateFilterInputCombination<F1::ValidOutput>>::Combined as StateFilterInputConversion<Input2>>::Remainder as StateFilterInputCombination<F2::ValidOutput>>::Combined as StateFilterInputConversion<Input3>>::Remainder: StateFilterInputCombination<F3::ValidOutput>,
    <<<<<<<<InitialInput as StateFilterInputConversion<Input0>>::Remainder as StateFilterInputCombination<F0::ValidOutput>>::Combined as StateFilterInputConversion<Input1>>::Remainder as StateFilterInputCombination<F1::ValidOutput>>::Combined as StateFilterInputConversion<Input2>>::Remainder as StateFilterInputCombination<F2::ValidOutput>>::Combined as StateFilterInputConversion<Input3>>::Remainder as StateFilterInputCombination<F3::ValidOutput>>::Combined: StateFilterInputConversion<Input4>,
    <<<<<<<<<InitialInput as StateFilterInputConversion<Input0>>::Remainder as StateFilterInputCombination<F0::ValidOutput>>::Combined as StateFilterInputConversion<Input1>>::Remainder as StateFilterInputCombination<F1::ValidOutput>>::Combined as StateFilterInputConversion<Input2>>::Remainder as StateFilterInputCombination<F2::ValidOutput>>::Combined as StateFilterInputConversion<Input3>>::Remainder as StateFilterInputCombination<F3::ValidOutput>>::Combined as StateFilterInputConversion<Input4>>::Remainder: StateFilterInputCombination<F4::ValidOutput>,
    <<<<<<<<<<InitialInput as StateFilterInputConversion<Input0>>::Remainder as StateFilterInputCombination<F0::ValidOutput>>::Combined as StateFilterInputConversion<Input1>>::Remainder as StateFilterInputCombination<F1::ValidOutput>>::Combined as StateFilterInputConversion<Input2>>::Remainder as StateFilterInputCombination<F2::ValidOutput>>::Combined as StateFilterInputConversion<Input3>>::Remainder as StateFilterInputCombination<F3::ValidOutput>>::Combined as StateFilterInputConversion<Input4>>::Remainder as StateFilterInputCombination<F4::ValidOutput>>::Combined: StateFilterInputConversion<Input5>,
    <<<<<<<<<<<InitialInput as StateFilterInputConversion<Input0>>::Remainder as StateFilterInputCombination<F0::ValidOutput>>::Combined as StateFilterInputConversion<Input1>>::Remainder as StateFilterInputCombination<F1::ValidOutput>>::Combined as StateFilterInputConversion<Input2>>::Remainder as StateFilterInputCombination<F2::ValidOutput>>::Combined as StateFilterInputConversion<Input3>>::Remainder as StateFilterInputCombination<F3::ValidOutput>>::Combined as StateFilterInputConversion<Input4>>::Remainder as StateFilterInputCombination<F4::ValidOutput>>::Combined as StateFilterInputConversion<Input5>>::Remainder: StateFilterInputCombination<F5::ValidOutput>,
    <<<<<<<<<<<<InitialInput as StateFilterInputConversion<Input0>>::Remainder as StateFilterInputCombination<F0::ValidOutput>>::Combined as StateFilterInputConversion<Input1>>::Remainder as StateFilterInputCombination<F1::ValidOutput>>::Combined as StateFilterInputConversion<Input2>>::Remainder as StateFilterInputCombination<F2::ValidOutput>>::Combined as StateFilterInputConversion<Input3>>::Remainder as StateFilterInputCombination<F3::ValidOutput>>::Combined as StateFilterInputConversion<Input4>>::Remainder as StateFilterInputCombination<F4::ValidOutput>>::Combined as StateFilterInputConversion<Input5>>::Remainder as StateFilterInputCombination<F5::ValidOutput>>::Combined: StateFilterInputConversion<Input6>,
    <<<<<<<<<<<<<InitialInput as StateFilterInputConversion<Input0>>::Remainder as StateFilterInputCombination<F0::ValidOutput>>::Combined as StateFilterInputConversion<Input1>>::Remainder as StateFilterInputCombination<F1::ValidOutput>>::Combined as StateFilterInputConversion<Input2>>::Remainder as StateFilterInputCombination<F2::ValidOutput>>::Combined as StateFilterInputConversion<Input3>>::Remainder as StateFilterInputCombination<F3::ValidOutput>>::Combined as StateFilterInputConversion<Input4>>::Remainder as StateFilterInputCombination<F4::ValidOutput>>::Combined as StateFilterInputConversion<Input5>>::Remainder as StateFilterInputCombination<F5::ValidOutput>>::Combined as StateFilterInputConversion<Input6>>::Remainder: StateFilterInputCombination<F6::ValidOutput>,
 {
    type ValidOutput = <<<<<<<<<<<<<<InitialInput as StateFilterInputConversion<Input0>>::Remainder as StateFilterInputCombination<F0::ValidOutput>>::Combined as StateFilterInputConversion<Input1>>::Remainder as StateFilterInputCombination<F1::ValidOutput>>::Combined as StateFilterInputConversion<Input2>>::Remainder as StateFilterInputCombination<F2::ValidOutput>>::Combined as StateFilterInputConversion<Input3>>::Remainder as StateFilterInputCombination<F3::ValidOutput>>::Combined as StateFilterInputConversion<Input4>>::Remainder as StateFilterInputCombination<F4::ValidOutput>>::Combined as StateFilterInputConversion<Input5>>::Remainder as StateFilterInputCombination<F5::ValidOutput>>::Combined as StateFilterInputConversion<Input6>>::Remainder as StateFilterInputCombination<F6::ValidOutput>>::Combined;
    type Error = ConditionError<F0::Error, ConditionError<F1::Error, ConditionError<F2::Error, ConditionError<F3::Error, ConditionError<F4::Error, ConditionError<F5::Error, F6::Error>>>>>>;

    open spec fn filter_spec(state: State, value: InitialInput) -> Result<Self::ValidOutput, Self::Error> {
        let (input0, remainder0) = value.split_spec();
        match F0::filter_spec(state, input0) {
            Ok(valid0) => {
                let (input1, remainder1) = remainder0.combine_spec(valid0).split_spec();
                match F1::filter_spec(state, input1) {
                    Ok(valid1) => {
                        let (input2, remainder2) = remainder1.combine_spec(valid1).split_spec();
                        match F2::filter_spec(state, input2) {
                            Ok(valid2) => {
                                let (input3, remainder3) = remainder2.combine_spec(valid2).split_spec();
                                match F3::filter_spec(state, input3) {
                                    Ok(valid3) => {
                                        let (input4, remainder4) = remainder3.combine_spec(valid3).split_spec();
                                        match F4::filter_spec(state, input4) {
                                            Ok(valid4) => {
                                                let (input5, remainder5) = remainder4.combine_spec(valid4).split_spec();
                                                match F5::filter_spec(state, input5) {
                                                    Ok(valid5) => {
                                                        let (input6, remainder6) = remainder5.combine_spec(valid5).split_spec();
                                                        match F6::filter_spec(state, input6) {
                                                            Ok(valid6) => Ok(remainder6.combine_spec(valid6)),
                                                            Err(e) => Err(ConditionError::Second(ConditionError::Second(ConditionError::Second(ConditionError::Second(ConditionError::Second(ConditionError::Second(e))))))),
                                                        }
                                                    },
                                                    Err(e) => Err(ConditionError::Second(ConditionError::Second(ConditionError::Second(ConditionError::Second(ConditionError::Second(ConditionError::First(e))))))),
                                                }
                                            },
                                            Err(e) => Err(ConditionError::Second(ConditionError::Second(ConditionError::Second(ConditionError::Second(ConditionError::First(e)))))),
                                        }
                                    },
                                    Err(e) => Err(ConditionError::Second(ConditionError::Second(ConditionError::Second(ConditionError::First(e))))),
                                }
                            },
                            Err(e) => Err(ConditionError::Second(ConditionError::Second(ConditionError::First(e)))),
                        }
                    },
                    Err(e) => Err(ConditionError::Second(ConditionError::First(e))),
                }
            },
            Err(e) => Err(ConditionError::First(e)),
        }
    }

    fn filter(state: &State, value: InitialInput) -> (r: Result<Self::ValidOutput, Self::Error>) {
        let (input0, remainder0) = value.split_take();
        match F0::filter(state, input0) {
            Ok(valid0) => {
                let (input1, remainder1) = remainder0.combine(valid0).split_take();
                match F1::filter(state, input1) {
                    Ok(valid1) => {
                        let (input2, remainder2) = remainder1.combine(valid1).split_take();
                        match F2::filter(state, input2) {
                            Ok(valid2) => {
                                let (input3, remainder3) = remainder2.combine(valid2).split_take();
                                match F3::filter(state, input3) {
                                    Ok(valid3) => {
                                        let (input4, remainder4) = remainder3.combine(valid3).split_take();
                                        match F4::filter(state, input4) {
                                            Ok(valid4) => {
                                                let (input5, remainder5) = remainder4.combine(valid4).split_take();
                                                match F5::filter(state, input5) {
                                                    Ok(valid5) => {
                                                        let (input6, remainder6) = remainder5.combine(valid5).split_take();
                                                        match F6::filter(state, input6) {
                                                            Ok(valid6) => Ok(remainder6.combine(valid6)),
                                                            Err(e) => Err(ConditionError::Second(ConditionError::Second(ConditionError::Second(ConditionError::Second(ConditionError::Second(ConditionError::Second(e))))))),
                                                        }
                                                    },
                                                    Err(e) => Err(ConditionError::Second(ConditionError::Second(ConditionError::Second(ConditionError::Second(ConditionError::Second(ConditionError::First(e))))))),
                                                }
                                            },
                                            Err(e) => Err(ConditionError::Second(ConditionError::Second(ConditionError::Second(ConditionError::Second(ConditionError::First(e)))))),
                                        }
                                    },
                                    Err(e) => Err(ConditionError::Second(ConditionError::Second(ConditionError::Second(ConditionError::First(e))))),
                                }
                            },
                            Err(e) => Err(ConditionError::Second(ConditionError::Second(ConditionError::First(e)))),
                        }
                    },
                    Err(e) => Err(ConditionError::Second(ConditionError::First(e))),
                }
            },
            Err(e) => Err(ConditionError::First(e)),
        }
    }
}

/// Eight conditions in a row, each checking its part of what the one before it let
/// through. The error tells which one refused: the first, or else which of the rest.
impl<
    State,
    InitialInput: StateFilterInput,
    Input0: StateFilterInput,
    Input1: StateFilterInput,
    Input2: StateFilterInput,
    Input3: StateFilterInput,
    Input4: StateFilterInput,
    Input5: StateFilterInput,
    Input6: StateFilterInput,
    Input7: StateFilterInput,
    F0: StateFilter<State, Input0>,
    F1: StateFilter<State, Input1>,
    F2: StateFilter<State, Input2>,
    F3: StateFilter<State, Input3>,
    F4: StateFilter<State, Input4>,
    F5: StateFilter<State, Input5>,
    F6: StateFilter<State, Input6>,
    F7: StateFilter<State, Input7>,
> StateFilter<State, InitialInput> for (Condition<Input0, F0>, Condition<Input1, F1>, Condition<Input2, F2>, Condition<Input3, F3>, Condition<Input4, F4>, Condition<Input5, F5>, Condition<Input6, F6>, Condition<Input7, F7>) where
    InitialInput: StateFilterInputConversion<Input0>,
    <InitialInput as StateFilterInputConversion<Input0>>::Remainder: StateFilterInputCombination<F0::ValidOutput>,
    <<InitialInput as StateFilterInputConversion<Input0>>::Remainder as StateFilterInputCombination<F0::ValidOutput>>::Combined: StateFilterInputConversion<Input1>,
    <<<InitialInput as StateFilterInputConversion<Input0>>::Remainder as StateFilterInputCombination<F0::ValidOutput>>::Combined as StateFilterInputConversion<Input1>>::Remainder: StateFilterInputCombination<F1::ValidOutput>,
    <<<<InitialInput as StateFilterInputConversion<Input0>>::Remainder as StateFilterInputCombination<F0::ValidOutput>>::Combined as StateFilterInputConversion<Input1>>::Remainder as StateFilterInputCombination<F1::ValidOutput>>::Combined: StateFilterInputConversion<Input2>,
    <<<<<InitialInput as StateFilterInputConversion<Input0>>::Remainder as StateFilterInputCombination<F0::ValidOutput>>::Combined as StateFilterInputConversion<Input1>>::Remainder as StateFilterInputCombination<F1::ValidOutput>>::Combined as StateFilterInputConversion<Input2>>::Remainder: StateFilterInputCombination<F2::ValidOutput>,
    <<<<<<InitialInput as StateFilterInputConversion<Input0>>::Remainder as StateFilterInputCombination<F0::ValidOutput>>::Combined as StateFilterInputConversion<Input1>>::Remainder as StateFilterInputCombination<F1::ValidOutput>>::Combined as StateFilterInputConversion<Input2>>::Remainder as StateFilterInputCombination<F2::ValidOutput>>::Combined: StateFilterInputConversion<Input3>,
    <<<<<<<InitialInput as StateFilterInputConversion<Input0>>::Remainder as StateFilterInputCombination<F0::ValidOutput>>::Combined as StateFilterInputConversion<Input1>>::Remainder as StateFilterInputCombination<F1::ValidOutput>>::Combined as StateFilterInputConversion<Input2>>::Remainder as StateFilterInputCombination<F2::ValidOutput>>::Combined as StateFilterInputConversion<Input3>>::Remainder: StateFilterInputCombination<F3::ValidOutput>,
    <<<<<<<<InitialInput as StateFilterInputConversion<Input0>>::Remainder as StateFilterInputCombination<F0::ValidOutput>>::Combined as StateFilterInputConversion<Input1>>::Remainder as StateFilterInputCombination<F1::ValidOutput>>::Combined as StateFilterInputConversion<Input2>>::Remainder as StateFilterInputCombination<F2::ValidOutput>>::Combined as StateFilterInputConversion<Input3>>::Remainder as StateFilterInputCombination<F3::ValidOutput>>::Combined: StateFilterInputConversion<Input4>,
    <<<<<<<<<InitialInput as StateFilterInputConversion<Input0>>::Remainder as StateFilterInputCombination<F0::ValidOutput>>::Combined as StateFilterInputConversion<Input1>>::Remainder as StateFilterInputCombination<F1::ValidOutput>>::Combined as StateFilterInputConversion<Input2>>::Remainder as StateFilterInputCombination<F2::ValidOutput>>::Combined as StateFilterInputConversion<Input3>>::Remainder as StateFilterInputCombination<F3::ValidOutput>>::Combined as StateFilterInputConversion<Input4>>::Remainder: StateFilterInputCombination<F4::ValidOutput>,
    <<<<<<<<<<InitialInput as StateFilterInputConversion<Input0>>::Remainder as StateFilterInputCombination<F0::ValidOutput>>::Combined as StateFilterInputConversion<Input1>>::Remainder as StateFilterInputCombination<F1::ValidOutput>>::Combined as StateFilterInputConversion<Input2>>::Remainder as StateFilterInputCombination<F2::ValidOutput>>::Combined as StateFilterInputConversion<Input3>>::Remainder as StateFilterInputCombination<F3::ValidOutput>>::Combined as StateFilterInputConversion<Input4>>::Remainder as StateFilterInputCombination<F4::ValidOutput>>::Combined: StateFilterInputConversion<Input5>,
    <<<<<<<<<<<InitialInput as StateFilterInputConversion<Input0>>::Remainder as StateFilterInputCombination<F0::ValidOutput>>::Combined as StateFilterInputConversion<Input1>>::Remainder as StateFilterInputCombination<F1::ValidOutput>>::Combined as StateFilterInputConversion<Input2>>::Remainder as StateFilterInputCombination<F2::ValidOutput>>::Combined as StateFilterInputConversion<Input3>>::Remainder as StateFilterInputCombination<F3::ValidOutput>>::Combined as StateFilterInputConversion<Input4>>::Remainder as StateFilterInputCombination<F4::ValidOutput>>::Combined as StateFilterInputConversion<Input5>>::Remainder: StateFilterInputCombination<F5::ValidOutput>,
    <<<<<<<<<<<<InitialInput as StateFilterInputConversion<Input0>>::Remainder as StateFilterInputCombination<F0::ValidOutput>>::Combined as StateFilterInputConversion<Input1>>::Remainder as StateFilterInputCombination<F1::ValidOutput>>::Combined as StateFilterInputConversion<Input2>>::Remainder as StateFilterInputCombination<F2::ValidOutput>>::Combined as StateFilterInputConversion<Input3>>::Remainder as StateFilterInputCombination<F3::ValidOutput>>::Combined as StateFilterInputConversion<Input4>>::Remainder as StateFilterInputCombination<F4::ValidOutput>>::Combined as StateFilterInputConversion<Input5>>::Remainder as StateFilterInputCombination<F5::ValidOutput>>::Combined: StateFilterInputConversion<Input6>,
    <<<<<<<<<<<<<InitialInput as StateFilterInputConversion<Input0>>::Remainder as StateFilterInputCombination<F0::ValidOutput>>::Combined as StateFilterInputConversion<Input1>>::Remainder as StateFilterInputCombination<F1::ValidOutput>>::Combined as StateFilterInputConversion<Input2>>::Remainder as StateFilterInputCombination<F2::ValidOutput>>::Combined as StateFilterInputConversion<Input3>>::Remainder as StateFilterInputCombination<F3::ValidOutput>>::Combined as StateFilterInputConversion<Input4>>::Remainder as StateFilterInputCombination<F4::ValidOutput>>::Combined as StateFilterInputConversion<Input5>>::Remainder as StateFilterInputCombination<F5::ValidOutput>>::Combined as StateFilterInputConversion<Input6>>::Remainder: StateFilterInputCombination<F6::ValidOutput>,
    <<<<<<<<<<<<<<InitialInput as StateFilterInputConversion<Input0>>::Remainder as StateFilterInputCombination<F0::ValidOutput>>::Combined as StateFilterInputConversion<Input1>>::Remainder as StateFilterInputCombination<F1::ValidOutput>>::Combined as StateFilterInputConversion<Input2>>::Remainder as StateFilterInputCombination<F2::ValidOutput>>::Combined as StateFilterInputConversion<Input3>>::Remainder as StateFilterInputCombination<F3::ValidOutput>>::Combined as StateFilterInputConversion<Input4>>::Remainder as StateFilterInputCombination<F4::ValidOutput>>::Combined as StateFilterInputConversion<Input5>>::Remainder as StateFilterInputCombination<F5::ValidOutput>>::Combined as StateFilterInputConversion<Input6>>::Remainder as StateFilterInputCombination<F6::ValidOutput>>::Combined: StateFilterInputConversion<Input7>,
    <<<<<<<<<<<<<<<InitialInput as StateFilterInputConversion<Input0>>::Remainder as StateFilterInputCombination<F0::ValidOutput>>::Combined as StateFilterInputConversion<Input1>>::Remainder as StateFilterInputCombination<F1::ValidOutput>>::Combined as StateFilterInputConversion<Input2>>::Remainder as StateFilterInputCombination<F2::ValidOutput>>::Combined as StateFilterInputConversion<Input3>>::Remainder as StateFilterInputCombination<F3::ValidOutput>>::Combined as StateFilterInputConversion<Input4>>::Remainder as StateFilterInputCombination<F4::ValidOutput>>::Combined as StateFilterInputConversion<Input5>>::Remainder as StateFilterInputCombination<F5::ValidOutput>>::Combined as StateFilterInputConversion<Input6>>::Remainder as StateFilterInputCombination<F6::ValidOutput>>::Combined as StateFilterInputConversion<Input7>>::Remainder: StateFilterInputCombination<F7::ValidOutput>,
 {
    type ValidOutput = <<<<<<<<<<<<<<<<InitialInput as StateFilterInputConversion<Input0>>::Remainder as StateFilterInputCombination<F0::ValidOutput>>::Combined as StateFilterInputConversion<Input1>>::Remainder as StateFilterInputCombination<F1::ValidOutput>>::Combined as StateFilterInputConversion<Input2>>::Remainder as StateFilterInputCombination<F2::ValidOutput>>::Combined as StateFilterInputConversion<Input3>>::Remainder as StateFilterInputCombination<F3::ValidOutput>>::Combined as StateFilterInputConversion<Input4>>::Remainder as StateFilterInputCombination<F4::ValidOutput>>::Combined as StateFilterInputConversion<Input5>>::Remainder as StateFilterInputCombination<F5::ValidOutput>>::Combined as StateFilterInputConversion<Input6>>::Remainder as StateFilterInputCombination<F6::ValidOutput>>::Combined as StateFilterInputConversion<Input7>>::Remainder as StateFilterInputCombination<F7::ValidOutput>>::Combined;
    type Error = ConditionError<F0::Error, ConditionError<F1::Error, ConditionError<F2::Error, ConditionError<F3::Error, ConditionError<F4::Error, ConditionError<F5::Error, ConditionError<F6::Error, F7::Error>>>>>>>;

    open spec fn filter_spec(state: State, value: InitialInput) -> Result<Self::ValidOutput, Self::Error> {
        let (input0, remainder0) = value.split_spec();
        match F0::filter_spec(state, input0) {
            Ok(valid0) => {
                let (input1, remainder1) = remainder0.combine_spec(valid0).split_spec();
                match F1::filter_spec(state, input1) {
                    Ok(valid1) => {
                        let (input2, remainder2) = remainder1.combine_spec(valid1).split_spec();
                        match F2::filter_spec(state, input2) {
                            Ok(valid2) => {
                                let (input3, remainder3) = remainder2.combine_spec(valid2).split_spec();
                                match F3::filter_spec(state, input3) {
                                    Ok(valid3) => {
                                        let (input4, remainder4) = remainder3.combine_spec(valid3).split_spec();
                                        match F4::filter_spec(state, input4) {
                                            Ok(valid4) => {
                                                let (input5, remainder5) = remainder4.combine_spec(valid4).split_spec();
                                                match F5::filter_spec(state, input5) {
                                                    Ok(valid5) => {
                                                        let (input6, remainder6) = remainder5.combine_spec(valid5).split_spec();
                                                        match F6::filter_spec(state, input6) {
                                                            Ok(valid6) => {
                                                                let (input7, remainder7) = remainder6.combine_spec(valid6).split_spec();
                                                                match F7::filter_spec(state, input7) {
                                                                    Ok(valid7) => Ok(remainder7.combine_spec(valid7)),
                                                                    Err(e) => Err(ConditionError::Second(ConditionError::Second(ConditionError::Second(ConditionError::Second(ConditionError::Second(ConditionError::Second(ConditionError::Second(e)))))))),
                                                                }
                                                            },
                                                            Err(e) => Err(ConditionError::Second(ConditionError::Second(ConditionError::Second(ConditionError::Second(ConditionError::Second(ConditionError::Second(ConditionError::First(e)))))))),
                                                        }
                                                    },
                                                    Err(e) => Err(ConditionError::Second(ConditionError::Second(ConditionError::Second(ConditionError::Second(ConditionError::Second(ConditionError::First(e))))))),
                                                }
                                            },
                                            Err(e) => Err(ConditionError::Second(ConditionError::Second(ConditionError::Second(ConditionError::Second(ConditionError::First(e)))))),
                                        }
                                    },
                                    Err(e) => Err(ConditionError::Second(ConditionError::Second(ConditionError::Second(ConditionError::First(e))))),
                                }
                            },
                            Err(e) => Err(ConditionError::Second(ConditionError::Second(ConditionError::First(e)))),
                        }
                    },
                    Err(e) => Err(ConditionError::Second(ConditionError::First(e))),
                }
            },
            Err(e) => Err(ConditionError::First(e)),
        }
    }

    fn filter(state: &State, value: InitialInput) -> (r: Result<Self::ValidOutput, Self::Error>) {
        let (input0, remainder0) = value.split_take();
        match F0::filter(state, input0) {
            Ok(valid0) => {
                let (input1, remainder1) = remainder0.combine(valid0).split_take();
                match F1::filter(state, input1) {
                    Ok(valid1) => {
                        let (input2, remainder2) = remainder1.combine(valid1).split_take();
                        match F2::filter(state, input2) {
                            Ok(valid2) => {
                                let (input3, remainder3) = remainder2.combine(valid2).split_take();
                                match F3::filter(state, input3) {
                                    Ok(valid3) => {
                                        let (input4, remainder4) = remainder3.combine(valid3).split_take();
                                        match F4::filter(state, input4) {
                                            Ok(valid4) => {
                                                let (input5, remainder5) = remainder4.combine(valid4).split_take();
                                                match F5::filter(state, input5) {
                                                    Ok(valid5) => {
                                                        let (input6, remainder6) = remainder5.combine(valid5).split_take();
                                                        match F6::filter(state, input6) {
                                                            Ok(valid6) => {
                                                                let (input7, remainder7) = remainder6.combine(valid6).split_take();
                                                                match F7::filter(state, input7) {
                                                                    Ok(valid7) => Ok(remainder7.combine(valid7)),
                                                                    Err(e) => Err(ConditionError::Second(ConditionError::Second(ConditionError::Second(ConditionError::Second(ConditionError::Second(ConditionError::Second(ConditionError::Second(e)))))))),
                                                                }
                                                            },
                                                            Err(e) => Err(ConditionError::Second(ConditionError::Second(ConditionError::Second(ConditionError::Second(ConditionError::Second(ConditionError::Second(ConditionError::First(e)))))))),
                                                        }
                                                    },
                                                    Err(e) => Err(ConditionError::Second(ConditionError::Second(ConditionError::Second(ConditionError::Second(ConditionError::Second(ConditionError::First(e))))))),
                                                }
                                            },
                                            Err(e) => Err(ConditionError::Second(ConditionError::Second(ConditionError::Second(ConditionError::Second(ConditionError::First(e)))))),
                                        }
                                    },
                                    Err(e) => Err(ConditionError::Second(ConditionError::Second(ConditionError::Second(ConditionError::First(e))))),
                                }
                            },
                            Err(e) => Err(ConditionError::Second(ConditionError::Second(ConditionError::First(e)))),
                        }
                    },
                    Err(e) => Err(ConditionError::Second(ConditionError::First(e))),
                }
            },
            Err(e) => Err(ConditionError::First(e)),
        }
    }
}

/// The values a filter expects, taken out together.
pub struct Expects<T>(T);

impl<T> Expects<T> {
    pub closed spec fn of(values: T) -> Self {
        Expects(values)
    }

    pub closed spec fn values(self) -> T {
        self.0
    }
}

impl<T> From<T> for Expects<(T,)> {
    fn from(value: T) -> (r: Self) {
        Expects((value,))
    }
}

impl<T> vstd::std_specs::convert::FromSpecImpl<T> for Expects<(T,)> {
    open spec fn obeys_from_spec() -> bool {
        true
    }

    open spec fn from_spec(value: T) -> Self {
        Expects::of((value,))
    }
}

impl<T> Expects<(T,)> {
    pub fn take(self) -> (r: T)
        ensures
            r == self.values().0,
    {
        self.0.0
    }
}

impl<T0, T1> From<(T0, T1)> for Expects<(T0, T1)> {
    fn from(value: (T0, T1)) -> (r: Self) {
        Expects((value.0, value.1))
    }
}

impl<T0, T1> vstd::std_specs::convert::FromSpecImpl<(T0, T1)> for Expects<(T0, T1)> {
    open spec fn obeys_from_spec() -> bool {
        true
    }

    open spec fn from_spec(value: (T0, T1)) -> Self {
        Expects::of(value)
    }
}

impl<T0, T1> Expects<(T0, T1)> {
    pub fn take(self) -> (r: (T0, T1))
        ensures
            r == self.values(),
    {
        (self.0.0, self.0.1)
    }
}

impl<T0, T1, T2> From<(T0, T1, T2)> for Expects<(T0, T1, T2)> {
    fn from(value: (T0, T1, T2)) -> (r: Self) {
        Expects((value.0, value.1, value.2))
    }
}

impl<T0, T1, T2> vstd::std_specs::convert::FromSpecImpl<(T0, T1, T2)> for Expects<(T0, T1, T2)> {
    open spec fn obeys_from_spec() -> bool {
        true
    }

    open spec fn from_spec(value: (T0, T1, T2)) -> Self {
        Expects::of(value)
    }
}

impl<T0, T1, T2> Expects<(T0, T1, T2)> {
    pub fn take(self) -> (r: (T0, T1, T2))
        ensures
            r == self.values(),
    {
        (self.0.0, self.0.1, self.0.2)
    }
}

impl<T0, T1, T2, T3> From<(T0, T1, T2, T3)> for Expects<(T0, T1, T2, T3)> {
    fn from(value: (T0, T1, T2, T3)) -> (r: Self) {
        Expects((value.0, value.1, value.2, value.3))
    }
}

impl<T0, T1, T2, T3> vstd::std_specs::convert::FromSpecImpl<(T0, T1, T2, T3)> for Expects<(T0, T1, T2, T3)> {
    open spec fn obeys_from_spec() -> bool {
        true
    }

    open spec fn from_spec(value: (T0, T1, T2, T3)) -> Self {
        Expects::of(value)
    }
}

impl<T0, T1, T2, T3> Expects<(T0, T1, T2, T3)> {
    pub fn take(self) -> (r: (T0, T1, T2, T3))
        ensures
            r == self.values(),
    {
        (self.0.0, self.0.1, self.0.2, self.0.3)
    }
}

impl<T0, T1, T2, T3, T4> From<(T0, T1, T2, T3, T4)> for Expects<(T0, T1, T2, T3, T4)> {
    fn from(value: (T0, T1, T2, T3, T4)) -> (r: Self) {
        Expects((value.0, value.1, value.2, value.3, value.4))
    }
}

impl<T0, T1, T2, T3, T4> vstd::std_specs::convert::FromSpecImpl<(T0, T1, T2, T3, T4)> for Expects<(T0, T1, T2, T3, T4)> {
    open spec fn obeys_from_spec() -> bool {
        true
    }

    open spec fn from_spec(value: (T0, T1, T2, T3, T4)) -> Self {
        Expects::of(value)
    }
}

impl<T0, T1, T2, T3, T4> Expects<(T0, T1, T2, T3, T4)> {
    pub fn take(self) -> (r: (T0, T1, T2, T3, T4))
        ensures
            r == self.values(),
    {
        (self.0.0, self.0.1, self.0.2, self.0.3, self.0.4)
    }
}

/// A state together with the valid output that its input passed the
/// filter with.
pub struct Validator<State, Input: StateFilterInput, Filter: StateFilter<State, Input>> {
    state: State,
    value: Filter::ValidOutput,
    _p: core::marker::PhantomData<(Input, Filter)>,
}

impl<State, Input: StateFilterInput, Filter: StateFilter<State, Input>> Validator<
    State,
    Input,
    Filter,
> {
    /// The validated state.
    pub closed spec fn state_spec(self) -> State {
        self.state
    }

    /// The valid output the input was turned into.
    pub closed spec fn value_spec(self) -> Filter::ValidOutput {
        self.value
    }

    /// Succeeds exactly when `input` passes `Filter` on `state`.
    pub fn try_new(state: State, input: Input) -> (r: Result<Self, Filter::Error>)
        ensures
            match Filter::filter_spec(state, input) {
                Ok(v) => r matches Ok(val) && val.state_spec() == state && val.value_spec() == v,
                Err(e) => r == Err::<Self, Filter::Error>(e),
            },
    {
        let value = Filter::filter(&state, input)?;
        Ok(Validator { state, value, _p: core::marker::PhantomData })
    }

    pub fn state(&self) -> (r: &State)
        ensures
            *r == self.state_spec(),
    {
        &self.state
    }

    pub fn valid_output(&self) -> (r: &Filter::ValidOutput)
        ensures
            *r == self.value_spec(),
    {
        &self.value
    }

    /// Runs `valid_action` on the validated state and output.
    pub fn execute<Action: ValidAction<State, Input, Filter = Filter>>(self, valid_action: Action) -> (r:
        Action::Output)
        requires
            valid_action.with_valid_input_requires(self.state_spec(), self.value_spec()),
        ensures
            valid_action.with_valid_input_ensures(self.state_spec(), self.value_spec(), r),
    {
        valid_action.with_valid_input(self.state, self.value)
    }
}

/// A name that identifies an action.
pub struct ActionID(&'static str);

impl ActionID {
    pub closed spec fn name(self) -> Seq<char> {
        self.0@
    }

    pub fn new(value: &'static str) -> (r: Self)
        ensures
            r.name() == value@,
    {
        ActionID(value)
    }
}

/// An action that may only run on an input that passed its filter.
pub trait ValidAction<State, Input: StateFilterInput>: Sized {
    type Filter: StateFilter<State, Input>;
    type Output;

    spec fn with_valid_input_requires(
        &self,
        state: State,
        valid: <Self::Filter as StateFilter<State, Input>>::ValidOutput,
    ) -> bool;

    spec fn with_valid_input_ensures(
        &self,
        state: State,
        valid: <Self::Filter as StateFilter<State, Input>>::ValidOutput,
        output: Self::Output,
    ) -> bool;

    fn with_valid_input(
        self,
        state: State,
        valid: <Self::Filter as StateFilter<State, Input>>::ValidOutput,
    ) -> (r: Self::Output)
        requires
            self.with_valid_input_requires(state, valid),
        ensures
            self.with_valid_input_ensures(state, valid, r),
    ;

    fn action_id() -> ActionID;
}

/// The candidate inputs of a state, not all of which need pass a filter.
pub struct CollectedInputs<State, Input> {
    inputs: Vec<Input>,
    _m: core::marker::PhantomData<State>,
}

impl<State, Input> CollectedInputs<State, Input> {
    pub closed spec fn inputs(self) -> Seq<Input> {
        self.inputs@
    }

    pub fn new(inputs: Vec<Input>) -> (r: Self)
        ensures
            r.inputs() == inputs@,
    {
        CollectedInputs { inputs, _m: core::marker::PhantomData }
    }

    /// Do all the inputs pass the filter?
    pub fn fits_all<F: StateFilter<State, Input>>(self, state: &State) -> (r: bool)
        ensures
            r == forall|i: int|
                0 <= i < self.inputs().len() ==> #[trigger] passes::<State, Input, F>(
                    *state,
                    self.inputs()[i],
                ),
    {
        let ghost orig = self.inputs@;
        let mut inputs = self.inputs;
        while inputs.len() > 0
            invariant
                orig == self.inputs(),
                inputs@ =~= orig.take(inputs@.len() as int),
                inputs@.len() <= orig.len(),
                forall|j: int|
                    inputs@.len() <= j < orig.len() ==> passes::<State, Input, F>(
                        *state,
                        #[trigger] orig[j],
                    ),
            decreases inputs.len(),
        {
            let ghost k = inputs@.len() - 1;
            let input = inputs.pop().unwrap();
            assert(input == orig[k]);
            if F::filter(state, input).is_err() {
                assert(!passes::<State, Input, F>(*state, orig[k]));
                return false;
            }
        }
        true
    }

    /// Does any of the inputs pass the filter?
    pub fn fits_any<F: StateFilter<State, Input>>(self, state: &State) -> (r: bool)
        ensures
            r == exists|i: int|
                0 <= i < self.inputs().len() && #[trigger] passes::<State, Input, F>(
                    *state,
                    self.inputs()[i],
                ),
    {
        let ghost orig = self.inputs@;
        let mut inputs = self.inputs;
        while inputs.len() > 0
            invariant
                orig == self.inputs(),
                inputs@ =~= orig.take(inputs@.len() as int),
                inputs@.len() <= orig.len(),
                forall|j: int|
                    inputs@.len() <= j < orig.len() ==> !passes::<State, Input, F>(
                        *state,
                        #[trigger] orig[j],
                    ),
            decreases inputs.len(),
        {
            let ghost k = inputs@.len() - 1;
            let input = inputs.pop().unwrap();
            assert(input == orig[k]);
            if F::filter(state, input).is_ok() {
                assert(passes::<State, Input, F>(*state, orig[k]));
                return true;
            }
        }
        false
    }
}

/// When all of some inputs pass a filter, any of them does, unless there are none; and no
/// input at all passes none.
pub proof fn lemma_fits_all_and_any<State, Input, F: StateFilter<State, Input>>(state: State, inputs: Seq<Input>)
    ensures
        inputs.len() > 0 && (forall|i: int| 0 <= i < inputs.len() ==> #[trigger] passes::<State, Input, F>(state, inputs[i]))
            ==> exists|i: int| 0 <= i < inputs.len() && #[trigger] passes::<State, Input, F>(state, inputs[i]),
        inputs.len() == 0 ==> !exists|i: int| 0 <= i < inputs.len() && #[trigger] passes::<State, Input, F>(state, inputs[i]),
{
    if inputs.len() > 0 && (forall|i: int| 0 <= i < inputs.len() ==> #[trigger] passes::<State, Input, F>(state, inputs[i])) {
        assert(passes::<State, Input, F>(state, inputs[0]));
    }
}

/// Collects the candidate inputs of a state from a starting value.
pub trait InputCollector<State, Input> {
    fn collect_inputs(state: &State, value: Input) -> CollectedInputs<State, Input>;
}

} // verus!
