use vstd::prelude::*;

use crate::context::{ActionHistory, ActionInfo};
use crate::identifications::{MutID, ValidCardID};
use crate::validation::{StateFilter, StateFilterInput, ValidAction, Validator};

verus! {

/// Starts a command on a checked card.
pub struct CardCommandManager<F> {
    card_id: ValidCardID<F>,
}

impl<F> CardCommandManager<F> {
    pub closed spec fn card_id_spec(self) -> ValidCardID<F> {
        self.card_id
    }

    pub fn new(card_id: ValidCardID<F>) -> (r: Self)
        ensures
            r.card_id_spec() == card_id,
    {
        CardCommandManager { card_id }
    }

    /// The command will record into `history`.
    pub fn with_history<History: ActionHistory>(self, history: History) -> (r: CardCommandManagerWithHistory<
        F,
        History,
    >)
        ensures
            r.card_id_spec() == self.card_id_spec(),
            r.history_spec() == history,
    {
        CardCommandManagerWithHistory { card_id: self.card_id, history }
    }
}

/// A command on a checked card, with the history it records into.
pub struct CardCommandManagerWithHistory<F, History: ActionHistory> {
    card_id: ValidCardID<F>,
    history: History,
}

impl<F, History: ActionHistory> CardCommandManagerWithHistory<F, History> {
    pub closed spec fn card_id_spec(self) -> ValidCardID<F> {
        self.card_id
    }

    pub closed spec fn history_spec(self) -> History {
        self.history
    }

    /// Checks the card, allowed to mutate, against `state` with `Filter`.
    pub fn validate<State, Filter: StateFilter<State, MutID<ValidCardID<F>>>>(self, state: State) -> (r: Result<
        CardCommand<History, State, MutID<ValidCardID<F>>, Filter>,
        Filter::Error,
    >)
        ensures
            match Filter::filter_spec(state, MutID::of(self.card_id_spec())) {
                Ok(valid) => r matches Ok(command) && command.history_spec() == self.history_spec()
                    && command.validator_spec().state_spec() == state
                    && command.validator_spec().value_spec() == valid,
                Err(error) => r == Err::<CardCommand<History, State, MutID<ValidCardID<F>>, Filter>, Filter::Error>(
                    error,
                ),
            },
    {
        let CardCommandManagerWithHistory { card_id, history } = self;
        match Validator::try_new(state, MutID::new(card_id)) {
            Ok(validator) => Ok(CardCommand { history, validator }),
            Err(error) => Err(error),
        }
    }

    /// Checks the input that `get_input` makes of the card against `state` with `Filter`.
    pub fn validate_with_input<State, Input: StateFilterInput, Filter: StateFilter<State, Input>>(
        self,
        state: State,
        get_input: impl FnOnce(MutID<ValidCardID<F>>) -> Input,
    ) -> (r: Result<CardCommand<History, State, Input, Filter>, Filter::Error>)
        requires
            get_input.requires((MutID::of(self.card_id_spec()),)),
        ensures
            exists|input: Input|
                get_input.ensures((MutID::of(self.card_id_spec()),), input) && match Filter::filter_spec(
                    state,
                    input,
                ) {
                    Ok(valid) => r matches Ok(command) && command.history_spec() == self.history_spec()
                        && command.validator_spec().state_spec() == state
                        && command.validator_spec().value_spec() == valid,
                    Err(error) => r == Err::<CardCommand<History, State, Input, Filter>, Filter::Error>(error),
                },
    {
        let CardCommandManagerWithHistory { card_id, history } = self;
        let input = get_input(MutID::new(card_id));
        match Validator::try_new(state, input) {
            Ok(validator) => Ok(CardCommand { history, validator }),
            Err(error) => Err(error),
        }
    }
}

/// A checked input for a card's action, and the history it records into.
pub struct CardCommand<History: ActionHistory, State, Input: StateFilterInput, Filter: StateFilter<State, Input>> {
    history: History,
    validator: Validator<State, Input, Filter>,
}

impl<History: ActionHistory, State, Input: StateFilterInput, Filter: StateFilter<State, Input>> CardCommand<
    History,
    State,
    Input,
    Filter,
> {
    pub closed spec fn history_spec(self) -> History {
        self.history
    }

    pub closed spec fn validator_spec(self) -> Validator<State, Input, Filter> {
        self.validator
    }

    /// Records what `action` says of itself, then runs it.
    pub fn execute<Action: ValidAction<State, Input, Filter = Filter> + ActionInfo<
        State,
        Filter::ValidOutput,
        History::History,
    >>(self, action: Action) -> (r: Action::Output)
        requires
            action.with_valid_input_requires(self.validator_spec().state_spec(), self.validator_spec().value_spec()),
        ensures
            action.with_valid_input_ensures(self.validator_spec().state_spec(), self.validator_spec().value_spec(), r),
    {
        let CardCommand { mut history, validator } = self;
        let info = action.info(validator.state(), validator.valid_output());
        history.push(info);
        validator.execute(action)
    }
}

} // verus!
