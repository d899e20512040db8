//! A state that remembers the actions taken on it.
use vstd::prelude::*;

use crate::validation::{StateFilter, StateFilterInput, ValidAction, Validator};

verus! {

/// Records what happened.
pub trait ActionHistory {
    type History;

    /// The records, oldest first.
    spec fn entries(&self) -> Seq<Self::History>;

    fn push(&mut self, history: Self::History)
        ensures
            final(self).entries() == old(self).entries().push(history),
    ;
}

/// A list of records is a history.
impl<T> ActionHistory for Vec<T> {
    type History = T;

    open spec fn entries(&self) -> Seq<T> {
        self@
    }

    fn push(&mut self, history: T) {
        Vec::push(self, history);
    }
}

/// What an action records about itself before it runs.
pub trait ActionInfo<State, Input, Info> {
    fn info(&self, state: &State, input: &Input) -> Info;
}

/// A state together with its history.
pub struct HistoricalContext<History: ActionHistory, State> {
    history: History,
    state: State,
}

impl<History: ActionHistory, State> HistoricalContext<History, State> {
    pub closed spec fn history_spec(self) -> History {
        self.history
    }

    pub closed spec fn state_spec(self) -> State {
        self.state
    }

    pub fn new(history: History, state: State) -> (r: Self)
        ensures
            r.history_spec() == history,
            r.state_spec() == state,
    {
        HistoricalContext { history, state }
    }

    /// Checks `input` against the state with `Filter`.
    pub fn validate<Input: StateFilterInput, Filter: StateFilter<State, Input>>(self, input: Input) -> (r: Result<
        ValidContext<History, State, Input, Filter>,
        Filter::Error,
    >)
        ensures
            match Filter::filter_spec(self.state_spec(), input) {
                Ok(valid) => r matches Ok(context) && context.history_spec() == self.history_spec()
                    && context.validator_spec().state_spec() == self.state_spec()
                    && context.validator_spec().value_spec() == valid,
                Err(error) => r == Err::<ValidContext<History, State, Input, Filter>, Filter::Error>(error),
            },
    {
        let HistoricalContext { history, state } = self;
        match Validator::try_new(state, input) {
            Ok(validator) => Ok(ValidContext { history, validator }),
            Err(error) => Err(error),
        }
    }
}

/// A state whose input passed a filter, together with its history.
pub struct ValidContext<History: ActionHistory, State, Input: StateFilterInput, Filter: StateFilter<State, Input>> {
    history: History,
    validator: Validator<State, Input, Filter>,
}

impl<History: ActionHistory, State, Input: StateFilterInput, Filter: StateFilter<State, Input>> ValidContext<
    History,
    State,
    Input,
    Filter,
> {
    pub closed spec fn history_spec(self) -> History {
        self.history
    }

    pub closed spec fn validator_spec(self) -> Validator<State, Input, Filter> {
        self.validator
    }

    /// Records what `action` says of itself, then runs it.
    pub fn action<Action: ValidAction<State, Input, Filter = Filter> + ActionInfo<
        State,
        Filter::ValidOutput,
        History::History,
    >>(self, action: Action) -> (r: HistoricalContext<History, Action::Output>)
        requires
            action.with_valid_input_requires(self.validator_spec().state_spec(), self.validator_spec().value_spec()),
        ensures
            action.with_valid_input_ensures(
                self.validator_spec().state_spec(),
                self.validator_spec().value_spec(),
                r.state_spec(),
            ),
            exists|info: History::History|
                call_ensures(
                    Action::info,
                    (&action, &self.validator_spec().state_spec(), &self.validator_spec().value_spec()),
                    info,
                ) && r.history_spec().entries() == self.history_spec().entries().push(info),
    {
        let ValidContext { mut history, validator } = self;
        let info = action.info(validator.state(), validator.valid_output());
        assert(call_ensures(Action::info, (&action, &validator.state_spec(), &validator.value_spec()), info));
        let ghost before = history.entries();
        history.push(info);
        assert(history.entries() == before.push(info));
        assert(before == self.history_spec().entries());
        assert(validator == self.validator_spec());
        assert(call_ensures(Action::info, (&action, &self.validator_spec().state_spec(), &self.validator_spec().value_spec()), info));
        let output = validator.execute(action);
        HistoricalContext::new(history, output)
    }
}

} // verus!
