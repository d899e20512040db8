//! Commands: an identifier, a history to record into, and a check before an action runs.
use vstd::prelude::*;

use crate::context::{ActionHistory, ActionInfo};
use crate::identifications::MutID;
use crate::validation::{StateFilter, StateFilterInput, ValidAction, Validator};

verus! {

/// Starts a command on the thing that `id` identifies.
pub struct CommandManager<ID> {
    id: ID,
}

impl<ID> CommandManager<ID> {
    pub closed spec fn id_spec(self) -> ID {
        self.id
    }

    pub fn new(id: ID) -> (r: Self)
        ensures
            r.id_spec() == id,
    {
        CommandManager { id }
    }

    /// The command will record into `history`.
    pub fn with_history<'a, History: ActionHistory>(self, history: &'a mut History) -> (r: CommandManagerWithHistory<
        'a,
        ID,
        History,
    >)
        ensures
            r.id_spec() == self.id_spec(),
            *r.history_ref() == *old(history),
            *final(history) == *final(r.history_ref()),
    {
        CommandManagerWithHistory { id: self.id, history }
    }
}

/// A command that knows where to record.
pub struct CommandManagerWithHistory<'a, ID, History: ActionHistory> {
    id: ID,
    history: &'a mut History,
}

impl<'a, ID, History: ActionHistory> CommandManagerWithHistory<'a, ID, History> {
    pub closed spec fn id_spec(self) -> ID {
        self.id
    }

    pub closed spec fn history_ref(self) -> &'a mut History {
        self.history
    }

    /// Checks the identifier, allowed to mutate, against `state` with `Filter`.
    pub fn validate<State, Filter: StateFilter<State, MutID<ID>>>(self, state: State) -> (r: Result<
        Command<'a, History, State, MutID<ID>, Filter>,
        Filter::Error,
    >)
        ensures
            match Filter::filter_spec(state, MutID::of(self.id_spec())) {
                Ok(valid) => r matches Ok(command) && command.validator_spec().state_spec() == state
                    && command.validator_spec().value_spec() == valid
                    && *command.history_ref() == *old(self.history_ref())
                    && *final(self.history_ref()) == *final(command.history_ref()),
                Err(error) => r == Err::<Command<'a, History, State, MutID<ID>, Filter>, Filter::Error>(error)
                    && *final(self.history_ref()) == *old(self.history_ref()),
            },
    {
        let CommandManagerWithHistory { id, history } = self;
        match Validator::try_new(state, MutID::new(id)) {
            Ok(validator) => Ok(Command { history, validator }),
            Err(error) => Err(error),
        }
    }

    /// Checks the input that `get_input` makes of the identifier against `state` with `Filter`.
    pub fn validate_with_input<State, Input: StateFilterInput, Filter: StateFilter<State, Input>>(
        self,
        state: State,
        get_input: impl FnOnce(MutID<ID>) -> Input,
    ) -> (r: Result<Command<'a, History, State, Input, Filter>, Filter::Error>)
        requires
            get_input.requires((MutID::of(self.id_spec()),)),
        ensures
            exists|input: Input|
                get_input.ensures((MutID::of(self.id_spec()),), input) && match Filter::filter_spec(state, input) {
                    Ok(valid) => r matches Ok(command) && command.validator_spec().state_spec() == state
                        && command.validator_spec().value_spec() == valid
                        && *command.history_ref() == *old(self.history_ref())
                        && *final(self.history_ref()) == *final(command.history_ref()),
                    Err(error) => r == Err::<Command<'a, History, State, Input, Filter>, Filter::Error>(error)
                        && *final(self.history_ref()) == *old(self.history_ref()),
                },
    {
        let CommandManagerWithHistory { id, history } = self;
        let mut_id = MutID::new(id);
        let input = get_input(mut_id);
        match Validator::try_new(state, input) {
            Ok(validator) => Ok(Command { history, validator }),
            Err(error) => Err(error),
        }
    }
}

/// A checked input, ready for an action, and the history it records into.
pub struct Command<'a, History: ActionHistory, State, Input: StateFilterInput, Filter: StateFilter<State, Input>> {
    history: &'a mut History,
    validator: Validator<State, Input, Filter>,
}

impl<'a, History: ActionHistory, State, Input: StateFilterInput, Filter: StateFilter<State, Input>> Command<
    'a,
    History,
    State,
    Input,
    Filter,
> {
    pub closed spec fn history_ref(self) -> &'a mut History {
        self.history
    }

    pub closed spec fn validator_spec(self) -> Validator<State, Input, Filter> {
        self.validator
    }

    /// Records what `action` says of itself, then runs it.
    pub fn execute<Action: ValidAction<State, Input, Filter = Filter> + ActionInfo<
        State,
        Filter::ValidOutput,
        History::History,
    >>(self, action: Action) -> (r: Action::Output)
        requires
            action.with_valid_input_requires(self.validator_spec().state_spec(), self.validator_spec().value_spec()),
        ensures
            action.with_valid_input_ensures(self.validator_spec().state_spec(), self.validator_spec().value_spec(), r),
            exists|info: History::History|
                call_ensures(
                    Action::info,
                    (&action, &self.validator_spec().state_spec(), &self.validator_spec().value_spec()),
                    info,
                ) && final(self.history_ref()).entries() == old(self.history_ref()).entries().push(info),
    {
        let Command { history, validator } = self;
        let info = action.info(validator.state(), validator.valid_output());
        assert(call_ensures(Action::info, (&action, &validator.state_spec(), &validator.value_spec()), info));
        let ghost before = history.entries();
        history.push(info);
        assert(history.entries() == before.push(info));
        assert(before == old(self.history_ref()).entries());
        assert(validator == self.validator_spec());
        assert(call_ensures(Action::info, (&action, &self.validator_spec().state_spec(), &self.validator_spec().value_spec()), info));
        validator.execute(action)
    }
}

} // verus!
