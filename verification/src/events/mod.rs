//! Events, the listeners that answer them, and the actions they set off.
pub mod event_action_id;
pub mod priority;


pub use event_action_id::{EventActionID, EventActionIDBuilder};
pub use priority::EventPriorityStack;


use vstd::prelude::*;

use crate::identifications::{FilterSupertype, SourceCardID};
use crate::stack::NonEmptyInput;
use crate::stack::actions::{ActionSource, IncitingAction, IncitingActionInfo, StackAction};
use crate::stack::priority::{Priority, PriorityMut, PriorityStack};
use crate::validation::{StateFilter, StateFilterInput, ValidAction, passes};

verus! {

/// Something that happens in a state of type `State`.
pub trait Event<State>: Sized {
    /// What the listeners' actions are given when the event happens.
    type Input: Clone + StateFilterInput;
    /// What may be stacked upon the actions this event sets off.
    type Stackable;
}

/// Answers an event with an action.
pub trait EventListener<State, Ev: Event<State>>: Clone + StateFilterInput {
    /// The event is answered only if the listener passes this filter.
    type Filter: StateFilter<State, Self>;
    /// What the listener answers with.
    type Action: ValidAction<PriorityMut<State>, Ev::Input>;

    /// The action to execute when its event is triggered.
    fn action(
        &self,
        state: &State,
        event: &Ev,
        value: <Self::Filter as StateFilter<State, Self>>::ValidOutput,
    ) -> Self::Action;
}

/// A listener that a card can set up.
pub trait EventListenerConstructor<State, Ev: Event<State>>: EventListener<State, Ev> {
    type Input;

    fn new_listener(source_card_id: SourceCardID, input: Self::Input) -> Self;
}

/// Something that listeners can be added to.
pub trait AddEventListener<State, Ev: Event<State>> {
    type Listener: EventListener<State, Ev>;

    /// The listeners, in the order they were added.
    spec fn listeners_spec(&self) -> Seq<Self::Listener>;

    fn add_listener(&mut self, listener: Self::Listener)
        ensures
            final(self).listeners_spec() == old(self).listeners_spec().push(listener),
    ;
}

/// The listeners of one event, in the order they were added.
pub struct EventManager<State, Ev, Listener> {
    events: Vec<Listener>,
    _p: core::marker::PhantomData<(State, Ev)>,
}

impl<State, Ev, Listener: Clone> Clone for EventManager<State, Ev, Listener> {
    /// A copy of each listener, in the same order.
    fn clone(&self) -> (r: Self)
        ensures
            r@.len() == self@.len(),
            forall|i: int| 0 <= i < self@.len() ==> cloned::<Listener>(#[trigger] self@[i], r@[i]),
    {
        EventManager { events: self.events.clone(), _p: core::marker::PhantomData }
    }
}

impl<State, Ev, Listener> View for EventManager<State, Ev, Listener> {
    type V = Seq<Listener>;

    closed spec fn view(&self) -> Seq<Listener> {
        self.events@
    }
}

impl<State, Ev, Listener> Default for EventManager<State, Ev, Listener> {
    fn default() -> (r: Self)
        ensures
            r@ == Seq::<Listener>::empty(),
    {
        EventManager { events: Vec::new(), _p: core::marker::PhantomData }
    }
}

impl<State, Ev, Listener> EventManager<State, Ev, Listener> {
    /// A manager without listeners.
    pub fn empty() -> (r: Self)
        ensures
            r@ == Seq::<Listener>::empty(),
    {
        EventManager { events: Vec::new(), _p: core::marker::PhantomData }
    }

    /// How many listeners there are.
    pub fn count(&self) -> (r: usize)
        ensures
            r == self@.len(),
    {
        self.events.len()
    }

    pub(crate) fn new(events: Vec<Listener>) -> (r: Self)
        ensures
            r@ == events@,
    {
        EventManager { events, _p: core::marker::PhantomData }
    }

    /// The listener at `index`, if there is one.
    pub fn get(&self, index: usize) -> (r: Option<&Listener>)
        ensures
            index < self@.len() ==> r == Some(&self@[index as int]),
            index >= self@.len() ==> r is None,
    {
        if index < self.events.len() {
            Some(&self.events[index])
        } else {
            None
        }
    }
}

/// `listener` passes its filter on `state`, and the action it answers `event` with is
/// `action`, which takes the input `event_input`.
pub open spec fn listener_yields<State, Ev: Event<State>, L: EventListener<State, Ev>>(
    state: PriorityMut<State>,
    event: Ev,
    event_input: Ev::Input,
    listener: L,
    action: L::Action,
) -> bool {
    exists|copy: L|
        #![trigger L::Filter::filter_spec(state@, copy)]
        cloned(listener, copy) && match L::Filter::filter_spec(state@, copy) {
            Ok(valid) => call_ensures(L::action, (&listener, &state@, &event, valid), action) && exists|
                input: Ev::Input,
            |
                #![trigger cloned(event_input, input)]
                cloned(event_input, input) && passes::<
                    PriorityMut<State>,
                    Ev::Input,
                    <L::Action as ValidAction<PriorityMut<State>, Ev::Input>>::Filter,
                >(state, input),
            Err(_) => false,
        }
}

/// `listener` does not answer `event`: it fails its filter on `state`, or its action does
/// not take the input `event_input`.
pub open spec fn listener_declines<State, Ev: Event<State>, L: EventListener<State, Ev>>(
    state: PriorityMut<State>,
    event: Ev,
    event_input: Ev::Input,
    listener: L,
) -> bool {
    exists|copy: L|
        #![trigger L::Filter::filter_spec(state@, copy)]
        cloned(listener, copy) && match L::Filter::filter_spec(state@, copy) {
            Ok(valid) => exists|action: L::Action, input: Ev::Input|
                #![trigger cloned(event_input, input), call_ensures(L::action, (&listener, &state@, &event, valid), action)]
                call_ensures(L::action, (&listener, &state@, &event, valid), action) && cloned(
                    event_input,
                    input,
                ) && !passes::<
                    PriorityMut<State>,
                    Ev::Input,
                    <L::Action as ValidAction<PriorityMut<State>, Ev::Input>>::Filter,
                >(state, input),
            Err(_) => true,
        }
}

/// `actions` are the answers of `listeners` to `event`, in the listeners' order, with a
/// listener left out exactly when it declines.
pub open spec fn collected<State, Ev: Event<State>, L: EventListener<State, Ev>>(
    listeners: Seq<L>,
    state: PriorityMut<State>,
    event: Ev,
    event_input: Ev::Input,
    actions: Seq<L::Action>,
) -> bool
    decreases listeners.len(),
{
    if listeners.len() == 0 {
        actions.len() == 0
    } else {
        ||| actions.len() > 0 && listener_yields(state, event, event_input, listeners.last(), actions.last())
            && collected(listeners.drop_last(), state, event, event_input, actions.drop_last())
        ||| listener_declines(state, event, event_input, listeners.last()) && collected(
            listeners.drop_last(),
            state,
            event,
            event_input,
            actions,
        )
    }
}

/// Collecting answers never yields more actions than there are listeners.
pub proof fn lemma_collected_len<State, Ev: Event<State>, L: EventListener<State, Ev>>(
    listeners: Seq<L>,
    state: PriorityMut<State>,
    event: Ev,
    event_input: Ev::Input,
    actions: Seq<L::Action>,
)
    requires
        collected(listeners, state, event, event_input, actions),
    ensures
        actions.len() <= listeners.len(),
    decreases listeners.len(),
{
    if listeners.len() > 0 {
        if actions.len() > 0 && listener_yields(state, event, event_input, listeners.last(), actions.last())
            && collected(listeners.drop_last(), state, event, event_input, actions.drop_last()) {
            lemma_collected_len(listeners.drop_last(), state, event, event_input, actions.drop_last());
        } else {
            lemma_collected_len(listeners.drop_last(), state, event, event_input, actions);
        }
    }
}

/// Every collected action takes the event's input: when an action is collected, the filter of
/// the listeners' actions passes on the state with a copy of the event input. So when no copy
/// of the input passes that filter, nothing is collected.
pub proof fn lemma_collected_actions_take_the_input<State, Ev: Event<State>, L: EventListener<State, Ev>>(
    listeners: Seq<L>,
    state: PriorityMut<State>,
    event: Ev,
    event_input: Ev::Input,
    actions: Seq<L::Action>,
)
    requires
        collected(listeners, state, event, event_input, actions),
    ensures
        actions.len() > 0 ==> exists|input: Ev::Input|
            #![trigger cloned(event_input, input)]
            cloned(event_input, input) && passes::<
                PriorityMut<State>,
                Ev::Input,
                <L::Action as ValidAction<PriorityMut<State>, Ev::Input>>::Filter,
            >(state, input),
        (forall|input: Ev::Input|
            #![trigger cloned(event_input, input)]
            cloned(event_input, input) ==> !passes::<
                PriorityMut<State>,
                Ev::Input,
                <L::Action as ValidAction<PriorityMut<State>, Ev::Input>>::Filter,
            >(state, input)) ==> actions.len() == 0,
    decreases listeners.len(),
{
    if listeners.len() > 0 {
        let rest = listeners.drop_last();
        if actions.len() > 0 && listener_yields(state, event, event_input, listeners.last(), actions.last())
            && collected(rest, state, event, event_input, actions.drop_last()) {
            let copy = choose|copy: L|
                #![trigger L::Filter::filter_spec(state@, copy)]
                cloned(listeners.last(), copy) && match L::Filter::filter_spec(state@, copy) {
                    Ok(valid) => call_ensures(L::action, (&listeners.last(), &state@, &event, valid), actions.last()) && exists|
                        input: Ev::Input,
                    |
                        #![trigger cloned(event_input, input)]
                        cloned(event_input, input) && passes::<
                            PriorityMut<State>,
                            Ev::Input,
                            <L::Action as ValidAction<PriorityMut<State>, Ev::Input>>::Filter,
                        >(state, input),
                    Err(_) => false,
                };
            assert(L::Filter::filter_spec(state@, copy) is Ok);
        } else {
            lemma_collected_actions_take_the_input(rest, state, event, event_input, actions);
        }
    }
}

/// One of `listeners` yields `action` for `event`.
pub open spec fn yielded_by_some<State, Ev: Event<State>, L: EventListener<State, Ev>>(
    listeners: Seq<L>,
    state: PriorityMut<State>,
    event: Ev,
    event_input: Ev::Input,
    action: L::Action,
) -> bool {
    exists|i: int| 0 <= i < listeners.len() && #[trigger] listener_yields(state, event, event_input, listeners[i], action)
}

/// An event is answered only by listeners that pass their filter: each collected action was
/// yielded by one of the listeners.
pub proof fn lemma_collected_from_passing_listeners<State, Ev: Event<State>, L: EventListener<State, Ev>>(
    listeners: Seq<L>,
    state: PriorityMut<State>,
    event: Ev,
    event_input: Ev::Input,
    actions: Seq<L::Action>,
)
    requires
        collected(listeners, state, event, event_input, actions),
    ensures
        forall|k: int| 0 <= k < actions.len() ==> #[trigger] yielded_by_some(listeners, state, event, event_input, actions[k]),
    decreases listeners.len(),
{
    if listeners.len() > 0 {
        let rest = listeners.drop_last();
        if actions.len() > 0 && listener_yields(state, event, event_input, listeners.last(), actions.last())
            && collected(rest, state, event, event_input, actions.drop_last()) {
            lemma_collected_from_passing_listeners(rest, state, event, event_input, actions.drop_last());
            assert forall|k: int| 0 <= k < actions.len() implies #[trigger] yielded_by_some(listeners, state, event, event_input, actions[k]) by {
                if k == actions.len() - 1 {
                    assert(listener_yields(state, event, event_input, listeners[listeners.len() - 1], actions[k]));
                } else {
                    assert(actions[k] == actions.drop_last()[k]);
                    assert(yielded_by_some(rest, state, event, event_input, actions.drop_last()[k]));
                    let i = choose|i: int|
                        0 <= i < rest.len() && #[trigger] listener_yields(state, event, event_input, rest[i], actions.drop_last()[k]);
                    assert(listeners[i] == rest[i]);
                }
            }
        } else {
            lemma_collected_from_passing_listeners(rest, state, event, event_input, actions);
            assert forall|k: int| 0 <= k < actions.len() implies #[trigger] yielded_by_some(listeners, state, event, event_input, actions[k]) by {
                assert(yielded_by_some(rest, state, event, event_input, actions[k]));
                let i = choose|i: int|
                    0 <= i < rest.len() && #[trigger] listener_yields(state, event, event_input, rest[i], actions[k]);
                assert(listeners[i] == rest[i]);
            }
        }
    }
}

/// Without listeners, an event sets off no action.
pub proof fn lemma_no_listeners_no_actions<State, Ev: Event<State>, L: EventListener<State, Ev>>(
    state: PriorityMut<State>,
    event: Ev,
    event_input: Ev::Input,
    actions: Seq<L::Action>,
)
    requires
        collected(Seq::<L>::empty(), state, event, event_input, actions),
    ensures
        actions.len() == 0,
{
}

/// The answers of the listeners to an event.
pub struct CollectedActions<State, Ev: Event<State>, Action> {
    pub(crate) event: Ev,
    pub(crate) event_input: Ev::Input,
    pub(crate) actions: Vec<Action>,
    pub(crate) _p: core::marker::PhantomData<State>,
}

impl<State, Ev: Event<State>, L: EventListener<State, Ev>> EventManager<State, Ev, L> {
    /// Adds `listener` after the others.
    pub fn add_listener(&mut self, listener: L)
        ensures
            final(self)@ == old(self)@.push(listener),
    {
        self.events.push(listener);
    }

    /// The answers of the listeners to `event` with the input `event_input`.
    pub(crate) fn collect_actions(&self, state: &PriorityMut<State>, event: Ev, event_input: Ev::Input) -> (r:
        CollectedActions<State, Ev, L::Action>)
        ensures
            r.event == event,
            r.event_input == event_input,
            collected(self@, *state, event, event_input, r.actions@),
    {
        let mut actions: Vec<L::Action> = Vec::new();
        let mut i: usize = 0;
        while i < self.events.len()
            invariant
                i <= self.events@.len(),
                collected(self.events@.take(i as int), *state, event, event_input, actions@),
            decreases self.events@.len() - i,
        {
            let listener = &self.events[i];
            let ghost prefix = self.events@.take(i as int);
            assert(self.events@.take(i + 1).drop_last() =~= prefix);
            assert(self.events@.take(i + 1).last() == *listener);
            let copy = listener.clone();
            match L::Filter::filter(state.priority(), copy) {
                Ok(valid) => {
                    let action = listener.action(state.priority(), &event, valid);
                    assert(call_ensures(L::action, (listener, &state@, &event, valid), action));
                    let input = event_input.clone();
                    assert(cloned(event_input, input));
                    let passed = match <L::Action as ValidAction<PriorityMut<State>, Ev::Input>>::Filter::filter(state, input) {
                        Ok(_) => true,
                        Err(_) => false,
                    };
                    if passed {
                        let ghost before = actions@;
                        actions.push(action);
                        assert(actions@.drop_last() =~= before);
                        assert(listener_yields(*state, event, event_input, *listener, action));
                    } else {
                        assert(listener_declines(*state, event, event_input, *listener));
                    }
                },
                Err(_) => {
                    assert(listener_declines(*state, event, event_input, *listener));
                },
            }
            i = i + 1;
        }
        assert(self.events@.take(self.events@.len() as int) =~= self.events@);
        CollectedActions { event, event_input, actions, _p: core::marker::PhantomData }
    }
}

impl<State, Ev: Event<State>, L: EventListener<State, Ev>> AddEventListener<State, Ev> for EventManager<
    State,
    Ev,
    L,
> {
    type Listener = L;

    closed spec fn listeners_spec(&self) -> Seq<L> {
        self@
    }

    fn add_listener(&mut self, listener: L) {
        self.events.push(listener);
    }
}

/// Identifies one of the actions that an event set off at once.
#[derive(Debug, Clone, Copy, Hash, PartialEq, Eq, Structural)]
pub struct SimultaneousActionID(usize);

impl View for SimultaneousActionID {
    type V = usize;

    closed spec fn view(&self) -> usize {
        self.0
    }
}

impl SimultaneousActionID {
    pub(crate) fn new(index: usize) -> (r: Self)
        ensures
            r@ == index,
    {
        SimultaneousActionID(index)
    }

    /// The position of the action among those set off at once.
    pub fn index(&self) -> (r: usize)
        ensures
            r == self@,
    {
        self.0
    }
}

/// An identifier of a simultaneous action that was checked by the filter `F`.
pub struct ValidSimultaneousActionID<F>(SimultaneousActionID, core::marker::PhantomData<F>);

impl<F> View for ValidSimultaneousActionID<F> {
    type V = SimultaneousActionID;

    closed spec fn view(&self) -> SimultaneousActionID {
        self.0
    }
}

impl<F> NonEmptyInput for ValidSimultaneousActionID<F> {}

impl<F> ValidSimultaneousActionID<F> {
    pub closed spec fn of(id: SimultaneousActionID) -> Self {
        ValidSimultaneousActionID(id, core::marker::PhantomData)
    }

    /// A checked identifier is determined by the identifier it holds.
    pub proof fn lemma_of(v: Self, id: SimultaneousActionID)
        ensures
            Self::of(v@) == v,
            Self::of(id)@ == id,
    {
    }

    pub(crate) fn new(id: SimultaneousActionID) -> (r: Self)
        ensures
            r == Self::of(id),
            r@ == id,
    {
        ValidSimultaneousActionID(id, core::marker::PhantomData)
    }

    pub fn id(&self) -> (r: SimultaneousActionID)
        ensures
            r == self@,
    {
        self.0
    }

    /// The same identifier, as checked by a filter whose checks `F` includes.
    pub fn into_filter<NewF>(self) -> (r: ValidSimultaneousActionID<NewF>) where F: FilterSupertype<NewF>
        ensures
            r@ == self@,
    {
        ValidSimultaneousActionID(self.0, core::marker::PhantomData)
    }
}

impl<F> From<ValidSimultaneousActionID<F>> for SimultaneousActionID {
    fn from(valid_id: ValidSimultaneousActionID<F>) -> (r: SimultaneousActionID) {
        valid_id.0
    }
}

impl<F> vstd::std_specs::convert::FromSpecImpl<ValidSimultaneousActionID<F>> for SimultaneousActionID {
    open spec fn obeys_from_spec() -> bool {
        true
    }

    open spec fn from_spec(v: ValidSimultaneousActionID<F>) -> SimultaneousActionID {
        v@
    }
}

/// The actions that an event set off at once, waiting to be put in order.
pub struct SimultaneousActionManager<State, Ev: Event<State>, Action> {
    state: State,
    event: Ev,
    event_input: Ev::Input,
    actions: Vec<Action>,
}

impl<State, Ev: Event<State>, Action> SimultaneousActionManager<State, Ev, Action> {
    pub closed spec fn state_spec(self) -> State {
        self.state
    }

    pub closed spec fn event_spec(self) -> Ev {
        self.event
    }

    pub closed spec fn event_input_spec(self) -> Ev::Input {
        self.event_input
    }

    /// The actions, by their identifiers.
    pub closed spec fn actions_spec(self) -> Seq<Action> {
        self.actions@
    }

    pub(crate) fn new(state: State, collected: CollectedActions<State, Ev, Action>) -> (r: Self)
        ensures
            r.state_spec() == state,
            r.event_spec() == collected.event,
            r.event_input_spec() == collected.event_input,
            r.actions_spec() == collected.actions@,
    {
        let CollectedActions { event, event_input, actions, _p } = collected;
        SimultaneousActionManager { state, event, event_input, actions }
    }

    /// The checked identifier of `id`, if it identifies one of the actions.
    pub fn verify(&self, id: SimultaneousActionID) -> (r: Option<ValidSimultaneousActionID<()>>)
        ensures
            id@ < self.actions_spec().len() ==> r == Some(ValidSimultaneousActionID::<()>::of(id)),
            id@ >= self.actions_spec().len() ==> r is None,
            r matches Some(v) ==> v@ == id,
    {
        if id.index() < self.actions.len() {
            Some(ValidSimultaneousActionID::new(id))
        } else {
            None
        }
    }

    /// How many actions there are.
    pub fn simultaneous_action_count(&self) -> (r: usize)
        ensures
            r == self.actions_spec().len(),
    {
        self.actions.len()
    }

    /// The identifiers of the actions.
    pub fn simultaneous_action_ids(&self) -> (r: Vec<ValidSimultaneousActionID<()>>)
        ensures
            r@.len() == self.actions_spec().len(),
            forall|i: int| 0 <= i < r@.len() ==> (#[trigger] r@[i])@@ == i,
    {
        let mut r: Vec<ValidSimultaneousActionID<()>> = Vec::new();
        let mut i: usize = 0;
        while i < self.actions.len()
            invariant
                i <= self.actions@.len(),
                r@.len() == i,
                forall|j: int| 0 <= j < i ==> (#[trigger] r@[j])@@ == j,
            decreases self.actions@.len() - i,
        {
            r.push(ValidSimultaneousActionID::new(SimultaneousActionID::new(i)));
            i = i + 1;
        }
        r
    }

    /// The identifiers of the actions that are still to be put in order.
    pub fn unresolved_simultaneous_action_ids(&self) -> (r: Vec<ValidSimultaneousActionID<()>>)
        ensures
            r@.len() == self.actions_spec().len(),
            forall|i: int| 0 <= i < r@.len() ==> (#[trigger] r@[i])@@ == i,
    {
        self.simultaneous_action_ids()
    }

    /// The actions, each in a slot of its own.
    fn take_actions(self) -> (r: (State, Ev, Ev::Input, Vec<Option<Action>>))
        ensures
            r.0 == self.state_spec(),
            r.1 == self.event_spec(),
            r.2 == self.event_input_spec(),
            r.3@.len() == self.actions_spec().len(),
            forall|i: int| 0 <= i < r.3@.len() ==> #[trigger] r.3@[i] == Some(self.actions_spec()[i]),
    {
        let SimultaneousActionManager { state, event, event_input, mut actions } = self;
        let ghost all = actions@;
        let mut slots: Vec<Option<Action>> = Vec::new();
        while actions.len() > 0
            invariant
                slots@.len() + actions@.len() == all.len(),
                actions@ == all.subrange(slots@.len() as int, all.len() as int),
                forall|i: int| 0 <= i < slots@.len() ==> #[trigger] slots@[i] == Some(all[i]),
            decreases actions@.len(),
        {
            let action = actions.remove(0);
            slots.push(Some(action));
            assert(actions@ =~= all.subrange(slots@.len() as int, all.len() as int));
        }
        (state, event, event_input, slots)
    }
}

/// An action that an event set off, with the input of the event.
pub struct EventAction<EventState, Ev: Event<EventState>, Action> {
    event_input: Ev::Input,
    action: Action,
    _p: core::marker::PhantomData<EventState>,
}

/// How an action that an event set off resolved.
pub enum EventActionResolution<State, Output, Error> {
    /// The action ran, with this outcome.
    Resolved(Output),
    /// The input no longer passed the action's filter: the state is handed back.
    Fizzled {
        state: State,
        /// Why did it fizzle?
        error: Error,
    },
}

impl<EventState, Ev: Event<EventState>, Action> EventAction<EventState, Ev, Action> {
    pub closed spec fn of(event_input: Ev::Input, action: Action) -> Self {
        EventAction { event_input, action, _p: core::marker::PhantomData }
    }

    pub closed spec fn event_input_spec(self) -> Ev::Input {
        self.event_input
    }

    pub closed spec fn action_spec(self) -> Action {
        self.action
    }

    pub(crate) fn new(event_input: Ev::Input, action: Action) -> (r: Self)
        ensures
            r == Self::of(event_input, action),
            r.event_input_spec() == event_input,
            r.action_spec() == action,
    {
        EventAction { event_input, action, _p: core::marker::PhantomData }
    }
}

impl<EventState, Ev: Event<EventState>, Action: ValidAction<PriorityMut<EventState>, Ev::Input>> EventAction<
    EventState,
    Ev,
    Action,
> {
    /// The action may run on `priority`, whenever its input passes its filter there.
    pub open spec fn resolvable(self, priority: EventState) -> bool {
        forall|valid: <Action::Filter as StateFilter<PriorityMut<EventState>, Ev::Input>>::ValidOutput|
            Action::Filter::filter_spec(PriorityMut::of(priority), self.event_input_spec()) == Ok::<
                <Action::Filter as StateFilter<PriorityMut<EventState>, Ev::Input>>::ValidOutput,
                <Action::Filter as StateFilter<PriorityMut<EventState>, Ev::Input>>::Error,
            >(valid) ==> #[trigger] self.action_spec().with_valid_input_requires(PriorityMut::of(priority), valid)
    }

    /// `r` is how the action resolves on `priority`: it runs when its input passes its
    /// filter there, and fizzles with the filter's error otherwise.
    pub open spec fn resolution(
        self,
        priority: EventState,
        r: EventActionResolution<
            PriorityMut<EventState>,
            Action::Output,
            <Action::Filter as StateFilter<PriorityMut<EventState>, Ev::Input>>::Error,
        >,
    ) -> bool {
        match Action::Filter::filter_spec(PriorityMut::of(priority), self.event_input_spec()) {
            Ok(valid) => r matches EventActionResolution::Resolved(output)
                && self.action_spec().with_valid_input_ensures(PriorityMut::of(priority), valid, output),
            Err(error) => r == EventActionResolution::<
                PriorityMut<EventState>,
                Action::Output,
                <Action::Filter as StateFilter<PriorityMut<EventState>, Ev::Input>>::Error,
            >::Fizzled { state: PriorityMut::of(priority), error },
        }
    }

    fn resolve_with(self, priority: PriorityMut<EventState>) -> (r: EventActionResolution<
        PriorityMut<EventState>,
        Action::Output,
        <Action::Filter as StateFilter<PriorityMut<EventState>, Ev::Input>>::Error,
    >)
        requires
            self.resolvable(priority@),
        ensures
            self.resolution(priority@, r),
    {
        proof {
            PriorityMut::lemma_of(priority, priority@);
        }
        let ghost this = self;
        let EventAction { event_input, action, _p } = self;
        match Action::Filter::filter(&priority, event_input) {
            Ok(valid) => {
                assert(this.action_spec().with_valid_input_requires(PriorityMut::of(priority@), valid));
                EventActionResolution::Resolved(action.with_valid_input(priority, valid))
            },
            Err(error) => EventActionResolution::Fizzled { state: priority, error },
        }
    }
}

impl<EventState, Ev: Event<EventState>, Action> ActionSource for EventAction<EventState, Ev, Action> {
    /// The input of the event that set the action off.
    type Source = Ev::Input;

    closed spec fn source_spec(&self) -> Ev::Input {
        self.event_input
    }

    fn source(&self) -> (r: &Ev::Input) {
        &self.event_input
    }
}

impl<
    State,
    Ev: Event<Priority<State>>,
    Action: ValidAction<PriorityMut<Priority<State>>, Ev::Input>,
> IncitingActionInfo<State> for EventAction<Priority<State>, Ev, Action> {
    type Resolved = EventActionResolution<
        PriorityMut<Priority<State>>,
        Action::Output,
        <Action::Filter as StateFilter<PriorityMut<Priority<State>>, Ev::Input>>::Error,
    >;
    type Stackable = Ev::Stackable;
}

impl<
    State,
    Ev: Event<Priority<State>>,
    Action: ValidAction<PriorityMut<Priority<State>>, Ev::Input>,
> IncitingAction<State, ()> for EventAction<Priority<State>, Ev, Action> {
    type Requirement = ();

    open spec fn resolve_requires(&self, priority: Priority<State>, input: ()) -> bool {
        self.resolvable(priority)
    }

    open spec fn resolve_ensures(
        &self,
        priority: Priority<State>,
        input: (),
        resolved: EventActionResolution<
            PriorityMut<Priority<State>>,
            Action::Output,
            <Action::Filter as StateFilter<PriorityMut<Priority<State>>, Ev::Input>>::Error,
        >,
    ) -> bool {
        self.resolution(priority, resolved)
    }

    fn resolve(self, priority: PriorityMut<Priority<State>>, input: ()) -> (r: EventActionResolution<
        PriorityMut<Priority<State>>,
        Action::Output,
        <Action::Filter as StateFilter<PriorityMut<Priority<State>>, Ev::Input>>::Error,
    >) {
        self.resolve_with(priority)
    }
}

impl<
    State,
    IA: IncitingActionInfo<State>,
    Ev: Event<PriorityStack<State, IA>>,
    Action: ValidAction<PriorityMut<PriorityStack<State, IA>>, Ev::Input>,
> IncitingActionInfo<State> for EventAction<PriorityStack<State, IA>, Ev, Action> {
    type Resolved = EventActionResolution<
        PriorityMut<PriorityStack<State, IA>>,
        Action::Output,
        <Action::Filter as StateFilter<PriorityMut<PriorityStack<State, IA>>, Ev::Input>>::Error,
    >;
    type Stackable = Ev::Stackable;
}

impl<
    State,
    IA: IncitingActionInfo<State>,
    Ev: Event<PriorityStack<State, IA>>,
    Action: ValidAction<PriorityMut<PriorityStack<State, IA>>, Ev::Input>,
> StackAction<State, (), IA> for EventAction<PriorityStack<State, IA>, Ev, Action> {
    type Requirement = ();
    type Resolved = EventActionResolution<
        PriorityMut<PriorityStack<State, IA>>,
        Action::Output,
        <Action::Filter as StateFilter<PriorityMut<PriorityStack<State, IA>>, Ev::Input>>::Error,
    >;

    open spec fn resolve_requires(&self, priority: PriorityStack<State, IA>, input: ()) -> bool {
        self.resolvable(priority)
    }

    open spec fn resolve_ensures(
        &self,
        priority: PriorityStack<State, IA>,
        input: (),
        resolved: EventActionResolution<
            PriorityMut<PriorityStack<State, IA>>,
            Action::Output,
            <Action::Filter as StateFilter<PriorityMut<PriorityStack<State, IA>>, Ev::Input>>::Error,
        >,
    ) -> bool {
        self.resolution(priority, resolved)
    }

    fn resolve(self, priority: PriorityMut<PriorityStack<State, IA>>, input: ()) -> (r: EventActionResolution<
        PriorityMut<PriorityStack<State, IA>>,
        Action::Output,
        <Action::Filter as StateFilter<PriorityMut<PriorityStack<State, IA>>, Ev::Input>>::Error,
    >) {
        self.resolve_with(priority)
    }
}

/// One action that an event set off, waiting to be put on the stack.
pub struct SingleAction<State, Ev: Event<State>, Action> {
    state: State,
    event_action: EventAction<State, Ev, Action>,
}

impl<State, Ev: Event<State>, Action> SingleAction<State, Ev, Action> {
    pub closed spec fn state_spec(self) -> State {
        self.state
    }

    pub closed spec fn event_action_spec(self) -> EventAction<State, Ev, Action> {
        self.event_action
    }

    pub(crate) fn new(state: State, event_action: EventAction<State, Ev, Action>) -> (r: Self)
        ensures
            r.state_spec() == state,
            r.event_action_spec() == event_action,
    {
        SingleAction { state, event_action }
    }
}

impl<
    State,
    Ev: Event<Priority<State>>,
    Action: ValidAction<PriorityMut<Priority<State>>, Ev::Input>,
> SingleAction<Priority<State>, Ev, Action> {
    /// Starts a stack with the action at its bottom.
    pub fn resolve(self) -> (r: PriorityStack<State, EventAction<Priority<State>, Ev, Action>>)
        ensures
            r@.state == self.state_spec()@,
            r@.inciting_action == self.event_action_spec(),
            r@.stack == Seq::<Ev::Stackable>::empty(),
    {
        self.state.stack(self.event_action)
    }
}

/// A state that holds the listeners of the event `Ev` while the stack is empty.
pub trait GetEventManager<Ev: Event<Priority<Self>>>: Sized {
    type Listener: EventListener<Priority<Self>, Ev>;

    spec fn event_manager_spec(&self) -> EventManager<Priority<Self>, Ev, Self::Listener>;

    fn event_manager(&self) -> (r: EventManager<Priority<Self>, Ev, Self::Listener>)
        ensures
            r == self.event_manager_spec(),
    ;
}

/// A state that holds the listeners of the event `Ev` while a stack is on it.
pub trait GetStackEventManager<Ev: Event<PriorityStack<Self, IA>>, IA: IncitingActionInfo<Self>>: Sized {
    type Listener: EventListener<PriorityStack<Self, IA>, Ev>;

    spec fn stack_event_manager_spec(&self) -> EventManager<PriorityStack<Self, IA>, Ev, Self::Listener>;

    fn stack_event_manager(&self) -> (r: EventManager<PriorityStack<Self, IA>, Ev, Self::Listener>)
        ensures
            r == self.stack_event_manager_spec(),
    ;
}

/// An event that happened, before its listeners answered it.
pub struct TriggeredEvent<State, Ev: Event<State>> {
    state: State,
    event: Ev,
    input: Ev::Input,
}

impl<State, Ev: Event<State>> TriggeredEvent<State, Ev> {
    pub closed spec fn state_spec(self) -> State {
        self.state
    }

    pub closed spec fn event_spec(self) -> Ev {
        self.event
    }

    pub closed spec fn event_input_spec(self) -> Ev::Input {
        self.input
    }

    pub fn state(&self) -> (r: &State)
        ensures
            *r == self.state_spec(),
    {
        &self.state
    }

    pub fn event(&self) -> (r: &Ev)
        ensures
            *r == self.event_spec(),
    {
        &self.event
    }

    pub fn event_input(&self) -> (r: &Ev::Input)
        ensures
            *r == self.event_input_spec(),
    {
        &self.input
    }
}

/// What the listeners of an event did while the stack was empty.
pub enum TriggeredEventResolution<State: GetEventManager<Ev>, Ev: Event<Priority<State>>> {
    /// No listener answered: the state is handed back.
    NoActions(State),
    /// One listener answered: its action starts the stack.
    Action(PriorityStack<State, EventAction<Priority<State>, Ev, <State::Listener as EventListener<Priority<State>, Ev>>::Action>>),
    /// Several listeners answered: their actions must be put in order.
    SimultaneousActions(SimultaneousActionManager<Priority<State>, Ev, <State::Listener as EventListener<Priority<State>, Ev>>::Action>),
}

/// `r` is what the listeners that `state` holds make of `event` with the input `input`:
/// the state when none answers, a stack started by the one action when one answers, and
/// the actions to put in order when several answer.
pub open spec fn triggered_outcome<State: GetEventManager<Ev>, Ev: Event<Priority<State>>>(
    state: Priority<State>,
    event: Ev,
    input: Ev::Input,
    r: TriggeredEventResolution<State, Ev>,
) -> bool {
    exists|actions: Seq<<State::Listener as EventListener<Priority<State>, Ev>>::Action>|
        #![trigger collected(state@.event_manager_spec()@, PriorityMut::of(state), event, input, actions)]
        collected(state@.event_manager_spec()@, PriorityMut::of(state), event, input, actions) && {
            &&& actions.len() == 0 ==> r == TriggeredEventResolution::<State, Ev>::NoActions(state@)
            &&& actions.len() == 1 ==> (r matches TriggeredEventResolution::Action(stack)
                && stack@.state == state@
                && stack@.inciting_action == EventAction::<Priority<State>, Ev, _>::of(input, actions[0])
                && stack@.stack.len() == 0)
            &&& actions.len() > 1 ==> (r matches TriggeredEventResolution::SimultaneousActions(manager)
                && manager.state_spec() == state && manager.event_spec() == event
                && manager.event_input_spec() == input && manager.actions_spec() == actions)
        }
}

impl<State: GetEventManager<Ev>, Ev: Event<Priority<State>>> TriggeredEvent<Priority<State>, Ev> {
    pub fn new(state: Priority<State>, event: Ev, input: Ev::Input) -> (r: Self)
        ensures
            r.state_spec() == state,
            r.event_spec() == event,
            r.event_input_spec() == input,
    {
        TriggeredEvent { state, event, input }
    }

    /// Lets the listeners answer the event.
    pub fn collect(self) -> (r: TriggeredEventResolution<State, Ev>)
        ensures
            triggered_outcome(self.state_spec(), self.event_spec(), self.event_input_spec(), r),
    {
        let TriggeredEvent { state, event, input } = self;
        let event_manager = state.state().event_manager();
        let priority_mut = PriorityMut::<Priority<State>>::new(state);
        let answers = event_manager.collect_actions(&priority_mut, event, input);
        let ghost actions = answers.actions@;
        proof {
            PriorityMut::lemma_of(priority_mut, state);
        }
        let manager = SimultaneousActionManager::new(priority_mut.take_priority(), answers);
        let count = manager.simultaneous_action_count();
        let r = if count == 0 {
            TriggeredEventResolution::NoActions(manager.state.take_state())
        } else if count == 1 {
            let (state, _event, input, mut slots) = manager.take_actions();
            let action = slots.pop().unwrap().unwrap();
            TriggeredEventResolution::Action(state.stack(EventAction::new(input, action)))
        } else {
            TriggeredEventResolution::SimultaneousActions(manager)
        };
        assert(collected(self.state_spec()@.event_manager_spec()@, PriorityMut::of(self.state_spec()), self.event_spec(), self.event_input_spec(), actions));
        r
    }
}

/// What the listeners of an event did while a stack was on the state.
pub enum TriggeredStackEventResolution<
    State: GetStackEventManager<Ev, IA>,
    Ev: Event<PriorityStack<State, IA>>,
    IA: IncitingActionInfo<State>,
> {
    /// No actions were added to the stack.
    NoActions(PriorityStack<State, IA>),
    /// A single action was added to the stack.
    Action(PriorityStack<State, IA>),
    /// Multiple actions need to be added to the stack at once, handle such a case.
    SimultaneousActions(SimultaneousActionManager<PriorityStack<State, IA>, Ev, <State::Listener as EventListener<PriorityStack<State, IA>, Ev>>::Action>),
}

/// `stackable` is what the action `action`, set off with a copy of `input`, becomes on
/// the stack.
pub open spec fn stacked_from<
    State,
    IA: IncitingActionInfo<State>,
    Ev: Event<PriorityStack<State, IA>>,
    Action,
>(stackable: IA::Stackable, input: Ev::Input, action: Action) -> bool where
    EventAction<PriorityStack<State, IA>, Ev, Action>: Into<IA::Stackable>,
 {
    exists|copy: Ev::Input|
        #![trigger cloned(input, copy)]
        cloned(input, copy) && call_ensures(
            <EventAction<PriorityStack<State, IA>, Ev, Action> as Into<IA::Stackable>>::into,
            (EventAction::<PriorityStack<State, IA>, Ev, Action>::of(copy, action),),
            stackable,
        )
}

/// `r` is what the listeners that the state of `stack` holds make of `event` with the
/// input `input`: the same stack when none answers, the stack with the one action on top
/// when one answers, and the actions to put in order when several answer.
pub open spec fn triggered_stack_outcome<
    State: GetStackEventManager<Ev, IA>,
    Ev: Event<PriorityStack<State, IA>>,
    IA: IncitingActionInfo<State>,
>(
    stack: PriorityStack<State, IA>,
    event: Ev,
    input: Ev::Input,
    r: TriggeredStackEventResolution<State, Ev, IA>,
) -> bool where
    EventAction<PriorityStack<State, IA>, Ev, <State::Listener as EventListener<PriorityStack<State, IA>, Ev>>::Action>: Into<IA::Stackable>,
 {
    exists|actions: Seq<<State::Listener as EventListener<PriorityStack<State, IA>, Ev>>::Action>|
        #![trigger collected(stack@.state.stack_event_manager_spec()@, PriorityMut::of(stack), event, input, actions)]
        collected(stack@.state.stack_event_manager_spec()@, PriorityMut::of(stack), event, input, actions) && {
            &&& actions.len() == 0 ==> r == TriggeredStackEventResolution::<State, Ev, IA>::NoActions(stack)
            &&& actions.len() == 1 ==> (r matches TriggeredStackEventResolution::Action(after)
                && after@.state == stack@.state
                && after@.inciting_action == stack@.inciting_action
                && after@.stack.len() == stack@.stack.len() + 1
                && after@.stack.drop_last() == stack@.stack
                && call_ensures(
                    <EventAction<PriorityStack<State, IA>, Ev, _> as Into<IA::Stackable>>::into,
                    (EventAction::<PriorityStack<State, IA>, Ev, _>::of(input, actions[0]),),
                    after@.stack.last(),
                ))
            &&& actions.len() > 1 ==> (r matches TriggeredStackEventResolution::SimultaneousActions(manager)
                && manager.state_spec() == stack && manager.event_spec() == event
                && manager.event_input_spec() == input && manager.actions_spec() == actions)
        }
}

impl<
    State: GetStackEventManager<Ev, IA>,
    Ev: Event<PriorityStack<State, IA>>,
    IA: IncitingActionInfo<State>,
> TriggeredEvent<PriorityStack<State, IA>, Ev> where
    EventAction<PriorityStack<State, IA>, Ev, <State::Listener as EventListener<PriorityStack<State, IA>, Ev>>::Action>: Into<IA::Stackable>,
 {
    pub fn new(state: PriorityStack<State, IA>, event: Ev, input: Ev::Input) -> (r: Self)
        ensures
            r.state_spec() == state,
            r.event_spec() == event,
            r.event_input_spec() == input,
    {
        TriggeredEvent { state, event, input }
    }

    /// Lets the listeners answer the event.
    pub fn collect(self) -> (r: TriggeredStackEventResolution<State, Ev, IA>)
        ensures
            triggered_stack_outcome(self.state_spec(), self.event_spec(), self.event_input_spec(), r),
    {
        let TriggeredEvent { state, event, input } = self;
        let event_manager = state.state().stack_event_manager();
        let priority_mut = PriorityMut::<PriorityStack<State, IA>>::new(state);
        let answers = event_manager.collect_actions(&priority_mut, event, input);
        let ghost actions = answers.actions@;
        proof {
            PriorityMut::lemma_of(priority_mut, state);
        }
        let manager = SimultaneousActionManager::new(priority_mut.take_priority(), answers);
        let count = manager.simultaneous_action_count();
        let r = if count == 0 {
            TriggeredStackEventResolution::NoActions(manager.state)
        } else if count == 1 {
            let (state, _event, input, mut slots) = manager.take_actions();
            let action = slots.pop().unwrap().unwrap();
            let stackable = EventAction::new(input, action).into();
            let after = state.stack(stackable);
            assert(after@.stack.drop_last() =~= state@.stack);
            TriggeredStackEventResolution::Action(after)
        } else {
            TriggeredStackEventResolution::SimultaneousActions(manager)
        };
        assert(collected(self.state_spec()@.state.stack_event_manager_spec()@, PriorityMut::of(self.state_spec()), self.event_spec(), self.event_input_spec(), actions));
        r
    }
}

/// Why the simultaneous actions could not be put on the stack; the manager is handed back.
pub enum ResolveSimultaneousActionsError<State, Ev: Event<State>, Action> {
    /// The order does not name each action exactly once.
    NotAllActionsAreOrdered(SimultaneousActionManager<State, Ev, Action>),
}

/// The numbers of the identifiers in `order`.
pub open spec fn order_indices(order: Seq<ValidSimultaneousActionID<()>>) -> Seq<usize> {
    order.map_values(|id: ValidSimultaneousActionID<()>| id@@)
}

/// `s` with each run of equal neighbours cut down to one.
pub open spec fn dedup_consecutive(s: Seq<usize>) -> Seq<usize>
    decreases s.len(),
{
    if s.len() == 0 {
        s
    } else {
        let rest = dedup_consecutive(s.drop_last());
        if rest.len() > 0 && rest.last() == s.last() {
            rest
        } else {
            rest.push(s.last())
        }
    }
}

/// `order` names each of the actions `0..count` and nothing more.
pub open spec fn orders_all(order: Seq<usize>, count: nat) -> bool {
    &&& order.len() == count
    &&& forall|k: usize| k < count ==> #[trigger] order.contains(k)
}

/// `after` is `before` with one action on top for each entry of `order`, taken from
/// `actions`: the last entry of `order` lowest, the first entry on top.
pub open spec fn stacked_in_order<
    State,
    IA: IncitingActionInfo<State>,
    Ev: Event<PriorityStack<State, IA>>,
    Action,
>(
    before: Seq<IA::Stackable>,
    after: Seq<IA::Stackable>,
    input: Ev::Input,
    actions: Seq<Action>,
    order: Seq<usize>,
) -> bool where EventAction<PriorityStack<State, IA>, Ev, Action>: Into<IA::Stackable> {
    &&& after.len() == before.len() + order.len()
    &&& after.subrange(0, before.len() as int) == before
    &&& forall|j: int|
        0 <= j < order.len() ==> #[trigger] stacked_from::<State, IA, Ev, Action>(
            after[before.len() + j],
            input,
            actions[order[order.len() - 1 - j] as int],
        )
}

/// The first entry of the order ends on top of the stack.
pub proof fn lemma_first_in_order_on_top<
    State,
    IA: IncitingActionInfo<State>,
    Ev: Event<PriorityStack<State, IA>>,
    Action,
>(
    before: Seq<IA::Stackable>,
    after: Seq<IA::Stackable>,
    input: Ev::Input,
    actions: Seq<Action>,
    order: Seq<usize>,
) where EventAction<PriorityStack<State, IA>, Ev, Action>: Into<IA::Stackable>
    requires
        stacked_in_order::<State, IA, Ev, Action>(before, after, input, actions, order),
        order.len() > 0,
    ensures
        stacked_from::<State, IA, Ev, Action>(after.last(), input, actions[order[0] as int]),
        stacked_from::<State, IA, Ev, Action>(after[before.len() as int], input, actions[order.last() as int]),
{
    let j = order.len() - 1;
    assert(stacked_from::<State, IA, Ev, Action>(after[before.len() + j], input, actions[order[order.len() - 1 - j] as int]));
    let first: int = 0;
    assert(stacked_from::<State, IA, Ev, Action>(after[before.len() + first], input, actions[order[order.len() - 1 - first] as int]));
}

/// Neighbours of `s` are never equal.
pub open spec fn no_equal_neighbours(s: Seq<usize>) -> bool {
    forall|i: int| 0 <= i < s.len() - 1 ==> #[trigger] s[i] != s[i + 1]
}

/// Cutting runs down leaves no equal neighbours, and cutting down again changes nothing: an
/// order with repeated neighbours resolves like the order with each run cut down to one.
pub proof fn lemma_dedup_consecutive_idempotent(s: Seq<usize>)
    ensures
        no_equal_neighbours(dedup_consecutive(s)),
        dedup_consecutive(dedup_consecutive(s)) == dedup_consecutive(s),
    decreases s.len(),
{
    if s.len() > 0 {
        lemma_dedup_consecutive_idempotent(s.drop_last());
    }
    lemma_dedup_of_no_equal_neighbours(dedup_consecutive(s));
}

/// A sequence without equal neighbours is left as it is.
proof fn lemma_dedup_of_no_equal_neighbours(s: Seq<usize>)
    requires
        no_equal_neighbours(s),
    ensures
        dedup_consecutive(s) == s,
    decreases s.len(),
{
    if s.len() > 0 {
        let rest = s.drop_last();
        assert(no_equal_neighbours(rest)) by {
            assert forall|i: int| 0 <= i < rest.len() - 1 implies #[trigger] rest[i] != rest[i + 1] by {
                assert(s[i] != s[i + 1]);
            }
        }
        lemma_dedup_of_no_equal_neighbours(rest);
        if rest.len() > 0 {
            assert(s[rest.len() - 1] != s[rest.len() as int]);
        }
        assert(rest.push(s.last()) =~= s);
    }
}

/// An order that names each of `count` actions once names no action twice, and nothing else.
pub proof fn lemma_orders_all_is_permutation(order: Seq<usize>, count: nat)
    requires
        orders_all(order, count),
        count <= usize::MAX,
    ensures
        order.no_duplicates(),
        forall|i: int| 0 <= i < order.len() ==> order[i] < count,
{
    let wide = order.map_values(|x: usize| x as int);
    let range = vstd::set_lib::set_int_range(0, count as int);
    vstd::set_lib::lemma_int_range(0, count as int);
    assert forall|x: int| range.contains(x) implies wide.to_set().contains(x) by {
        assert(order.contains(x as usize));
        let i = choose|i: int| 0 <= i < order.len() && order[i] == x as usize;
        assert(wide[i] == x);
    }
    vstd::seq_lib::seq_to_set_is_finite(wide);
    vstd::set_lib::lemma_len_subset(range, wide.to_set());
    wide.lemma_cardinality_of_set();
    wide.lemma_no_dup_set_cardinality();
    assert forall|i: int| 0 <= i < order.len() implies order[i] < count by {
        if order[i] >= count {
            let bigger = range.insert(wide[i]);
            assert(bigger.subset_of(wide.to_set()));
            vstd::set_lib::lemma_len_subset(bigger, wide.to_set());
        }
    }
    assert forall|i: int, j: int| 0 <= i < order.len() && 0 <= j < order.len() && i != j implies order[i] != order[j] by {
        assert(wide[i] != wide[j]);
    }
}

/// The numbers of `order`, with each run of equal neighbours cut down to one.
fn dedup_order(order: &Vec<ValidSimultaneousActionID<()>>) -> (r: Vec<usize>)
    ensures
        r@ == dedup_consecutive(order_indices(order@)),
{
    let ghost all = order_indices(order@);
    let mut r: Vec<usize> = Vec::new();
    let mut i: usize = 0;
    while i < order.len()
        invariant
            i <= order@.len(),
            all == order_indices(order@),
            r@ == dedup_consecutive(all.take(i as int)),
        decreases order@.len() - i,
    {
        let index = order[i].id().index();
        assert(all.take(i + 1).drop_last() =~= all.take(i as int));
        assert(all.take(i + 1).last() == index);
        let len = r.len();
        if len == 0 || r[len - 1] != index {
            r.push(index);
        }
        i = i + 1;
    }
    assert(all.take(order@.len() as int) =~= all);
    r
}

/// Whether `order` names each of the actions `0..count`.
fn names_each(order: &Vec<usize>, count: usize) -> (r: bool)
    ensures
        r == orders_all(order@, count as nat),
{
    if order.len() != count {
        return false;
    }
    let mut k: usize = 0;
    while k < count
        invariant
            k <= count,
            order@.len() == count,
            forall|m: usize| m < k ==> #[trigger] order@.contains(m),
        decreases count - k,
    {
        let mut found = false;
        let mut i: usize = 0;
        while i < order.len()
            invariant
                i <= order@.len(),
                found <==> exists|j: int| 0 <= j < i && order@[j] == k,
            decreases order@.len() - i,
        {
            if order[i] == k {
                found = true;
            }
            i = i + 1;
        }
        if !found {
            assert(!order@.contains(k));
            return false;
        }
        k = k + 1;
    }
    true
}

impl<
    State,
    IA: IncitingActionInfo<State>,
    Ev: Event<PriorityStack<State, IA>>,
    Action,
> SimultaneousActionManager<PriorityStack<State, IA>, Ev, Action> where
    EventAction<PriorityStack<State, IA>, Ev, Action>: Into<IA::Stackable>,
 {
    /// Puts the actions on the stack in `order`, which must name each action once (runs of
    /// the same identifier count once). The first element is put on the stack last.
    pub fn resolve(self, order: Vec<ValidSimultaneousActionID<()>>) -> (r: Result<
        PriorityStack<State, IA>,
        ResolveSimultaneousActionsError<PriorityStack<State, IA>, Ev, Action>,
    >)
        ensures
            !orders_all(dedup_consecutive(order_indices(order@)), self.actions_spec().len()) ==> r
                == Err::<
                PriorityStack<State, IA>,
                ResolveSimultaneousActionsError<PriorityStack<State, IA>, Ev, Action>,
            >(ResolveSimultaneousActionsError::NotAllActionsAreOrdered(self)),
            orders_all(dedup_consecutive(order_indices(order@)), self.actions_spec().len()) ==> (r matches Ok(stack)
                && stack@.state == self.state_spec()@.state
                && stack@.inciting_action == self.state_spec()@.inciting_action
                && stacked_in_order::<State, IA, Ev, Action>(
                    self.state_spec()@.stack,
                    stack@.stack,
                    self.event_input_spec(),
                    self.actions_spec(),
                    dedup_consecutive(order_indices(order@)),
                )),
    {
        let ids = dedup_order(&order);
        let count = self.actions.len();
        if !names_each(&ids, count) {
            return Err(ResolveSimultaneousActionsError::NotAllActionsAreOrdered(self));
        }
        proof {
            lemma_orders_all_is_permutation(ids@, count as nat);
        }
        let ghost actions = self.actions@;
        let ghost before = self.state@.stack;
        let (state, _event, input, mut slots) = self.take_actions();
        let mut stack = state;
        let mut j: usize = 0;
        while j < count
            invariant
                j <= count,
                ids@.len() == count,
                ids@.no_duplicates(),
                forall|i: int| 0 <= i < count ==> ids@[i] < count,
                actions.len() == count,
                slots@.len() == count,
                forall|k: int|
                    0 <= k < count ==> #[trigger] slots@[k] == (if (exists|m: int|
                        count - j <= m < count && ids@[m] == k) {
                        None
                    } else {
                        Some(actions[k])
                    }),
                stack@.state == state@.state,
                stack@.inciting_action == state@.inciting_action,
                before == state@.stack,
                stack@.stack.len() == before.len() + j,
                stack@.stack.subrange(0, before.len() as int) == before,
                forall|jj: int|
                    0 <= jj < j ==> #[trigger] stacked_from::<State, IA, Ev, Action>(
                        stack@.stack[before.len() + jj],
                        input,
                        actions[ids@[count - 1 - jj] as int],
                    ),
            decreases count - j,
        {
            let id = ids[count - 1 - j];
            proof {
                assert(!exists|m: int| count - j <= m < count && ids@[m] == id);
                assert(slots@[id as int] == Some(actions[id as int]));
            }
            let slot = &mut slots[id];
            let action = slot.take().unwrap();
            let copy = input.clone();
            let event_action = EventAction::new(copy, action);
            let stackable = event_action.into();
            assert(cloned(input, copy));
            assert(call_ensures(
                <EventAction<PriorityStack<State, IA>, Ev, Action> as Into<IA::Stackable>>::into,
                (EventAction::<PriorityStack<State, IA>, Ev, Action>::of(copy, action),),
                stackable,
            ));
            let ghost old_stack = stack@.stack;
            stack = stack.stack(stackable);
            proof {
                assert(stacked_from::<State, IA, Ev, Action>(stackable, input, actions[id as int]));
                assert forall|k: int| 0 <= k < count implies #[trigger] slots@[k] == (if (exists|m: int|
                    count - (j + 1) <= m < count && ids@[m] == k) {
                    None
                } else {
                    Some(actions[k])
                }) by {
                    if k == id {
                        assert(ids@[count - 1 - j] == k);
                    } else {
                        if exists|m: int| count - (j + 1) <= m < count && ids@[m] == k {
                            let m = choose|m: int| count - (j + 1) <= m < count && ids@[m] == k;
                            assert(m != count - 1 - j);
                        }
                    }
                }
                assert(stack@.stack.subrange(0, before.len() as int) =~= old_stack.subrange(0, before.len() as int));
                assert forall|jj: int| 0 <= jj < j + 1 implies #[trigger] stacked_from::<State, IA, Ev, Action>(
                    stack@.stack[before.len() + jj],
                    input,
                    actions[ids@[count - 1 - jj] as int],
                ) by {
                    if jj < j {
                        assert(stack@.stack[before.len() + jj] == old_stack[before.len() + jj]);
                    }
                }
            }
            j = j + 1;
        }
        Ok(stack)
    }
}

impl<
    State: GetStackEventManager<Ev, EventAction<Priority<State>, Ev, Action>>,
    Ev: Event<Priority<State>> + Event<
        PriorityStack<State, EventAction<Priority<State>, Ev, Action>>,
        Input = <Ev as Event<Priority<State>>>::Input,
    >,
    Action: ValidAction<PriorityMut<Priority<State>>, <Ev as Event<Priority<State>>>::Input>,
> SimultaneousActionManager<Priority<State>, Ev, Action> where
    EventAction<
        PriorityStack<State, EventAction<Priority<State>, Ev, Action>>,
        Ev,
        <State::Listener as EventListener<
            PriorityStack<State, EventAction<Priority<State>, Ev, Action>>,
            Ev,
        >>::Action,
    >: Into<<Ev as Event<Priority<State>>>::Stackable>,
 {
    /// Starts the stack with the action `inciting_action_id` alone, and lets the listeners
    /// answer the event again on that stack; the other actions are dropped.
    pub fn stack_inciting(self, inciting_action_id: ValidSimultaneousActionID<()>) -> (r:
        TriggeredStackEventResolution<State, Ev, EventAction<Priority<State>, Ev, Action>>)
        requires
            inciting_action_id@@ < self.actions_spec().len(),
        ensures
            exists|stack: PriorityStack<State, EventAction<Priority<State>, Ev, Action>>, copy: <Ev as Event<Priority<State>>>::Input|
                #![trigger cloned(self.event_input_spec(), copy), triggered_stack_outcome(stack, self.event_spec(), self.event_input_spec(), r)]
                cloned(self.event_input_spec(), copy)
                && stack@.state == self.state_spec()@
                && stack@.inciting_action == EventAction::<Priority<State>, Ev, Action>::of(
                    copy,
                    self.actions_spec()[inciting_action_id@@ as int],
                )
                && stack@.stack.len() == 0
                && triggered_stack_outcome(stack, self.event_spec(), self.event_input_spec(), r),
    {
        let ghost actions = self.actions@;
        let id = inciting_action_id.id().index();
        let (state, event, input, mut slots) = self.take_actions();
        let slot = &mut slots[id];
        let action = slot.take().unwrap();
        let copy = input.clone();
        let stack = state.stack(EventAction::new(copy, action));
        let triggered = TriggeredEvent::<PriorityStack<State, EventAction<Priority<State>, Ev, Action>>, Ev>::new(stack, event, input);
        let r = triggered.collect();
        assert(cloned(self.event_input_spec(), copy));
        r
    }
}

} // verus!
