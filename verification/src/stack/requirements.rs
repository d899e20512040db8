//! What an action needs before it can resolve.
use vstd::prelude::*;

use crate::stack::actions::{ActionSource, IncitingAction, IncitingActionInfo, StackAction};
use crate::stack::priority::{Priority, PriorityMut, PriorityStack};
use crate::validation::{CollectedInputs, StateFilter, passes};

verus! {

/// The inputs that an action may be given, and the filter they must pass.
pub trait ActionRequirement<State, Input> {
    /// Satisfies the requirement.
    type Filter: StateFilter<State, Input>;

    /// All the possible inputs for the requirement in `state`.
    spec fn candidates(state: State) -> Set<Input>;

    /// All the possible inputs for the requirement (but they need not pass the filter).
    fn collect_inputs(state: &State) -> (r: CollectedInputs<State, Input>)
        ensures
            r.inputs().to_set() == Self::candidates(*state),
    ;
}

/// No requirement: there is no input to choose.
impl<State> ActionRequirement<State, ()> for () {
    type Filter = ();

    open spec fn candidates(state: State) -> Set<()> {
        Set::empty()
    }

    fn collect_inputs(_state: &State) -> (r: CollectedInputs<State, ()>) {
        let r = CollectedInputs::new(Vec::new());
        assert(r.inputs().to_set() =~= Set::empty());
        r
    }
}

/// Whether some candidate input of the requirement `R` passes its filter in `state`.
pub open spec fn requirement_fits<State, Input, R: ActionRequirement<State, Input>>(
    state: State,
) -> bool {
    exists|x: Input| #[trigger] R::candidates(state).contains(x) && passes::<State, Input, R::Filter>(state, x)
}

/// An action together with the value its requirement was fulfilled with.
pub struct FulfilledAction<Action: ActionSource, Value> {
    action: Action,
    source: Action::Source,
    value: Value,
}

impl<Action: ActionSource, Value> FulfilledAction<Action, Value> {
    pub closed spec fn action_spec(self) -> Action {
        self.action
    }

    pub closed spec fn source_value(self) -> Action::Source {
        self.source
    }

    pub closed spec fn value_spec(self) -> Value {
        self.value
    }

    pub fn new(action: Action, source: Action::Source, value: Value) -> (r: Self)
        ensures
            r.action_spec() == action,
            r.source_value() == source,
            r.value_spec() == value,
    {
        FulfilledAction { action, source, value }
    }

    pub fn take_action(self) -> (r: Action)
        ensures
            r == self.action_spec(),
    {
        self.action
    }

    pub fn source(&self) -> (r: &Action::Source)
        ensures
            *r == self.source_value(),
    {
        &self.source
    }

    pub fn value(&self) -> (r: &Value)
        ensures
            *r == self.value_spec(),
    {
        &self.value
    }
}

impl<Action: ActionSource, Value> ActionSource for FulfilledAction<Action, Value> {
    type Source = Action::Source;

    closed spec fn source_spec(&self) -> Action::Source {
        self.action.source_spec()
    }

    fn source(&self) -> (r: &Action::Source) {
        self.action.source()
    }
}

/// An action waiting for an input that fulfils its requirement.
pub struct RequirementAction<Priority, Input, Action> {
    priority: Priority,
    action: Action,
    _m: core::marker::PhantomData<Input>,
}

impl<Priority, Input, Action> RequirementAction<Priority, Input, Action> {
    pub closed spec fn priority_spec(self) -> Priority {
        self.priority
    }

    pub closed spec fn action_spec(self) -> Action {
        self.action
    }

    pub fn priority(&self) -> (r: &Priority)
        ensures
            *r == self.priority_spec(),
    {
        &self.priority
    }

    pub fn action(&self) -> (r: &Action)
        ensures
            *r == self.action_spec(),
    {
        &self.action
    }
}

/// The result of [`RequirementAction::try_new`] for an inciting action.
pub open spec fn try_new_outcome<State, Input, Action: IncitingAction<State, Input>>(
    priority: Priority<State>,
    action: Action,
    r: Result<
        RequirementAction<Priority<State>, Input, Action>,
        TryNewRequirementActionError<Priority<State>, Action>,
    >,
) -> bool {
    if requirement_fits::<Priority<State>, Input, Action::Requirement>(priority) {
        r matches Ok(ra) && ra.priority_spec() == priority && ra.action_spec() == action
    } else {
        r matches Err(e) && e.priority == priority && e.action == action
    }
}

/// The result of [`RequirementAction::try_new`] for a stacked action.
pub open spec fn try_new_stack_outcome<State, Input, IA: IncitingActionInfo<State>, Action: StackAction<State, Input, IA>>(
    priority: PriorityStack<State, IA>,
    action: Action,
    r: Result<
        RequirementAction<PriorityStack<State, IA>, Input, Action>,
        TryNewRequirementActionError<PriorityStack<State, IA>, Action>,
    >,
) -> bool {
    if requirement_fits::<PriorityStack<State, IA>, Input, Action::Requirement>(priority) {
        r matches Ok(ra) && ra.priority_spec() == priority && ra.action_spec() == action
    } else {
        r matches Err(e) && e.priority == priority && e.action == action
    }
}

proof fn lemma_fits_any_is_fits<State, Input, R: ActionRequirement<State, Input>>(
    state: State,
    inputs: Seq<Input>,
)
    requires
        inputs.to_set() == R::candidates(state),
    ensures
        (exists|i: int| 0 <= i < inputs.len() && #[trigger] passes::<State, Input, R::Filter>(state, inputs[i]))
            == requirement_fits::<State, Input, R>(state),
{
    if exists|i: int| 0 <= i < inputs.len() && #[trigger] passes::<State, Input, R::Filter>(state, inputs[i]) {
        let i = choose|i: int| 0 <= i < inputs.len() && #[trigger] passes::<State, Input, R::Filter>(state, inputs[i]);
        assert(inputs.to_set().contains(inputs[i]));
    }
    if requirement_fits::<State, Input, R>(state) {
        let x = choose|x: Input| #[trigger] R::candidates(state).contains(x) && passes::<State, Input, R::Filter>(state, x);
        assert(inputs.to_set().contains(x));
        let i = choose|i: int| 0 <= i < inputs.len() && inputs[i] == x;
        assert(passes::<State, Input, R::Filter>(state, inputs[i]));
    }
}

impl<State, Input, Action: IncitingAction<State, Input>> RequirementAction<Priority<State>, Input, Action> {
    /// Succeeds when some input of the current state fulfils the requirement.
    pub fn try_new(priority: Priority<State>, action: Action) -> (r: Result<
        RequirementAction<Priority<State>, Input, Action>,
        TryNewRequirementActionError<Priority<State>, Action>,
    >)
        ensures
            try_new_outcome(priority, action, r),
    {
        let collected_inputs = <Action::Requirement as ActionRequirement<Priority<State>, Input>>::collect_inputs(&priority);
        proof {
            lemma_fits_any_is_fits::<Priority<State>, Input, Action::Requirement>(priority, collected_inputs.inputs());
        }
        if collected_inputs.fits_any::<<Action::Requirement as ActionRequirement<Priority<State>, Input>>::Filter>(&priority) {
            Ok(RequirementAction { priority, action, _m: core::marker::PhantomData })
        } else {
            Err(TryNewRequirementActionError { priority, action })
        }
    }

    /// Resolves the action with `value` if it passes the requirement's filter.
    pub fn select(self, value: Input) -> (r: Result<
        Action::Resolved,
        RequirementActionSelectionError<
            Self,
            <<Action::Requirement as ActionRequirement<Priority<State>, Input>>::Filter as StateFilter<Priority<State>, Input>>::Error,
        >,
    >)
        requires
            <<Action::Requirement as ActionRequirement<Priority<State>, Input>>::Filter as StateFilter<Priority<State>, Input>>::filter_spec(self.priority_spec(), value) matches Ok(v)
                ==> self.action_spec().resolve_requires(self.priority_spec(), v),
        ensures
            match <<Action::Requirement as ActionRequirement<Priority<State>, Input>>::Filter as StateFilter<Priority<State>, Input>>::filter_spec(self.priority_spec(), value) {
                Ok(v) => r matches Ok(res) && self.action_spec().resolve_ensures(self.priority_spec(), v, res),
                Err(e) => r matches Err(err) && err.action_spec() == self && err.error_spec() == e,
            },
    {
        let result = <<Action::Requirement as ActionRequirement<Priority<State>, Input>>::Filter as StateFilter<Priority<State>, Input>>::filter(&self.priority, value);
        match result {
            Ok(input) => {
                let RequirementAction { priority, action, _m } = self;
                Ok(action.resolve(PriorityMut::<Priority<State>>::new(priority), input))
            },
            Err(error) => Err(RequirementActionSelectionError { action: self, error }),
        }
    }
}

impl<State, Input, IA: IncitingActionInfo<State>, Action: StackAction<State, Input, IA>> RequirementAction<PriorityStack<State, IA>, Input, Action> {
    /// Succeeds when some input of the current state fulfils the requirement.
    pub fn try_new(priority: PriorityStack<State, IA>, action: Action) -> (r: Result<
        RequirementAction<PriorityStack<State, IA>, Input, Action>,
        TryNewRequirementActionError<PriorityStack<State, IA>, Action>,
    >)
        ensures
            try_new_stack_outcome(priority, action, r),
    {
        let collected_inputs = <Action::Requirement as ActionRequirement<PriorityStack<State, IA>, Input>>::collect_inputs(&priority);
        proof {
            lemma_fits_any_is_fits::<PriorityStack<State, IA>, Input, Action::Requirement>(priority, collected_inputs.inputs());
        }
        if collected_inputs.fits_any::<<Action::Requirement as ActionRequirement<PriorityStack<State, IA>, Input>>::Filter>(&priority) {
            Ok(RequirementAction { priority, action, _m: core::marker::PhantomData })
        } else {
            Err(TryNewRequirementActionError { priority, action })
        }
    }

    /// Resolves the action with `value` if it passes the requirement's filter.
    pub fn select(self, value: Input) -> (r: Result<
        Action::Resolved,
        RequirementActionSelectionError<
            Self,
            <<Action::Requirement as ActionRequirement<PriorityStack<State, IA>, Input>>::Filter as StateFilter<PriorityStack<State, IA>, Input>>::Error,
        >,
    >)
        requires
            <<Action::Requirement as ActionRequirement<PriorityStack<State, IA>, Input>>::Filter as StateFilter<PriorityStack<State, IA>, Input>>::filter_spec(self.priority_spec(), value) matches Ok(v)
                ==> self.action_spec().resolve_requires(self.priority_spec(), v),
        ensures
            match <<Action::Requirement as ActionRequirement<PriorityStack<State, IA>, Input>>::Filter as StateFilter<PriorityStack<State, IA>, Input>>::filter_spec(self.priority_spec(), value) {
                Ok(v) => r matches Ok(res) && self.action_spec().resolve_ensures(self.priority_spec(), v, res),
                Err(e) => r matches Err(err) && err.action_spec() == self && err.error_spec() == e,
            },
    {
        let result = <<Action::Requirement as ActionRequirement<PriorityStack<State, IA>, Input>>::Filter as StateFilter<PriorityStack<State, IA>, Input>>::filter(&self.priority, value);
        match result {
            Ok(input) => {
                let RequirementAction { priority, action, _m } = self;
                Ok(action.resolve(PriorityMut::<PriorityStack<State, IA>>::new(priority), input))
            },
            Err(error) => Err(RequirementActionSelectionError { action: self, error }),
        }
    }
}

/// No input of the current state fulfils the requirement of the action.
pub struct TryNewRequirementActionError<Priority, Action> {
    pub priority: Priority,
    pub action: Action,
}

/// The value selected for an action did not pass its requirement's filter.
pub struct RequirementActionSelectionError<Action, E> {
    action: Action,
    error: E,
}

impl<Action, E> RequirementActionSelectionError<Action, E> {
    pub closed spec fn action_spec(self) -> Action {
        self.action
    }

    pub closed spec fn error_spec(self) -> E {
        self.error
    }

    pub fn take_requirement_action(self) -> (r: Action)
        ensures
            r == self.action_spec(),
    {
        self.action
    }

    pub fn take_all(self) -> (r: (Action, E))
        ensures
            r == (self.action_spec(), self.error_spec()),
    {
        (self.action, self.error)
    }

    pub fn error(&self) -> (r: &E)
        ensures
            *r == self.error_spec(),
    {
        &self.error
    }
}

} // verus!
