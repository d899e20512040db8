use vstd::prelude::*;

use crate::cards::{CardID, CardManager, EventManagerID, EventManagerIndex};
use crate::events::{
    CollectedActions, Event, EventListener, EventManager, SimultaneousActionManager,
};
use crate::stack::priority::Priority;
use crate::validation::StateFilter;

verus! {

/// A state, about to be asked about the events of its cards.
pub struct EventCommand<State> {
    state: State,
}

impl<State> EventCommand<State> {
    pub closed spec fn state_spec(self) -> State {
        self.state
    }

    pub fn new(state: State) -> (r: Self)
        ensures
            r.state_spec() == state,
    {
        EventCommand { state }
    }

    pub fn state(&self) -> (r: &State)
        ensures
            *r == self.state_spec(),
    {
        &self.state
    }

    pub fn take_state(self) -> (r: State)
        ensures
            r == self.state_spec(),
    {
        self.state
    }
}

/// The positions of the listeners that `card_id` added, as the card manager records them.
pub open spec fn card_listener_positions<EvM, LI>(card_manager: CardManager<EvM, LI>, card_id: CardID) -> Seq<
    (EventManagerID, EventManagerIndex),
> {
    let events = card_manager.event_tracker_spec().events_spec();
    if events.contains_key(card_id@) {
        events[card_id@].map_values(|e: crate::cards::manager::TrackedListener<LI>| (e.1, e.2))
    } else {
        Seq::empty()
    }
}

/// The listener at `index` of `listeners`, on a copy of it, passes its filter on `state`
/// (`passed`) or fails it (`!passed`).
pub open spec fn listener_filter_result<State, Ev: Event<State>, L: EventListener<State, Ev>>(
    state: State,
    listeners: Seq<L>,
    index: int,
    passed: bool,
) -> bool {
    exists|copy: L|
        #![trigger L::Filter::filter_spec(state, copy)]
        cloned(listeners[index], copy) && (L::Filter::filter_spec(state, copy) is Ok) == passed
}

/// `listener`, on a copy of it, passes its filter on `state` and answers `event` with
/// `action`.
pub open spec fn listener_answers<State, Ev: Event<State>, L: EventListener<State, Ev>>(
    state: State,
    event: Ev,
    listener: L,
    action: L::Action,
) -> bool {
    exists|copy: L|
        #![trigger L::Filter::filter_spec(state, copy)]
        cloned(listener, copy) && match L::Filter::filter_spec(state, copy) {
            Ok(valid) => call_ensures(L::action, (&listener, &state, &event, valid), action),
            Err(_) => false,
        }
}

/// `listener`, on a copy of it, fails its filter on `state`.
pub open spec fn listener_refuses<State, Ev: Event<State>, L: EventListener<State, Ev>>(
    state: State,
    listener: L,
) -> bool {
    exists|copy: L|
        #![trigger L::Filter::filter_spec(state, copy)]
        cloned(listener, copy) && L::Filter::filter_spec(state, copy) is Err
}

/// `actions` are the answers to `event` of the listeners at `positions` of `listeners`, in
/// order: positions past the end are passed over, and so is a listener that refuses.
pub open spec fn answers_at<State, Ev: Event<State>, L: EventListener<State, Ev>>(
    positions: Seq<(EventManagerID, EventManagerIndex)>,
    listeners: Seq<L>,
    state: State,
    event: Ev,
    actions: Seq<L::Action>,
) -> bool
    decreases positions.len(),
{
    if positions.len() == 0 {
        actions.len() == 0
    } else {
        let index = positions.last().1@ as int;
        let rest = positions.drop_last();
        if index < listeners.len() {
            ||| actions.len() > 0 && listener_answers(state, event, listeners[index], actions.last())
                && answers_at(rest, listeners, state, event, actions.drop_last())
            ||| listener_refuses(state, listeners[index]) && answers_at(rest, listeners, state, event, actions)
        } else {
            answers_at(rest, listeners, state, event, actions)
        }
    }
}

/// Every listener at the recorded positions is asked, the first one included: there are never
/// more actions than positions, and when each position holds a listener that does not refuse,
/// there is one action per position, each the answer of the listener there, in order.
pub proof fn lemma_each_recorded_listener_answers<State, Ev: Event<State>, L: EventListener<State, Ev>>(
    positions: Seq<(EventManagerID, EventManagerIndex)>,
    listeners: Seq<L>,
    state: State,
    event: Ev,
    actions: Seq<L::Action>,
)
    requires
        answers_at(positions, listeners, state, event, actions),
    ensures
        actions.len() <= positions.len(),
        (forall|j: int|
            0 <= j < positions.len() ==> (#[trigger] positions[j]).1@ < listeners.len() && !listener_refuses(
                state,
                listeners[positions[j].1@ as int],
            )) ==> actions.len() == positions.len() && forall|j: int|
            0 <= j < actions.len() ==> listener_answers(state, event, listeners[positions[j].1@ as int], #[trigger] actions[j]),
    decreases positions.len(),
{
    if positions.len() > 0 {
        let index = positions.last().1@ as int;
        let rest = positions.drop_last();
        let all_pass = forall|j: int|
            0 <= j < positions.len() ==> (#[trigger] positions[j]).1@ < listeners.len() && !listener_refuses(
                state,
                listeners[positions[j].1@ as int],
            );
        if index < listeners.len() && actions.len() > 0 && listener_answers(state, event, listeners[index], actions.last())
            && answers_at(rest, listeners, state, event, actions.drop_last()) {
            lemma_each_recorded_listener_answers(rest, listeners, state, event, actions.drop_last());
            if all_pass {
                assert forall|j: int|
                    0 <= j < rest.len() implies (#[trigger] rest[j]).1@ < listeners.len() && !listener_refuses(
                        state,
                        listeners[rest[j].1@ as int],
                    ) by {
                    assert(rest[j] == positions[j]);
                }
                assert forall|j: int|
                    0 <= j < actions.len() implies listener_answers(state, event, listeners[positions[j].1@ as int], #[trigger] actions[j]) by {
                    if j < actions.len() - 1 {
                        assert(actions[j] == actions.drop_last()[j]);
                        assert(rest[j] == positions[j]);
                    }
                }
            }
        } else {
            if index < listeners.len() {
                assert(listener_refuses(state, listeners[index]));
                assert(answers_at(rest, listeners, state, event, actions));
            }
            lemma_each_recorded_listener_answers(rest, listeners, state, event, actions);
            if all_pass {
                assert(positions[positions.len() - 1].1@ < listeners.len());
                assert(!listener_refuses(state, listeners[index]));
            }
        }
    }
}

/// Whether a listener that a card added answers an event.
pub trait EventForCardExists<State, Ev: Event<State>, L: EventListener<State, Ev>, EvM, LI = ()> {
    /// The state that is asked.
    spec fn queried_state(&self) -> State;

    fn event_for_card_exists<GetCardManager, GetEventManager>(
        &self,
        card_id: CardID,
        event: &Ev,
        get_card_manager: GetCardManager,
        get_event_manager: GetEventManager,
    ) -> bool where
        GetCardManager: for<'b> Fn(&'b State) -> &'b CardManager<EvM, LI>,
        GetEventManager: for<'b> Fn(&'b EvM) -> &'b EventManager<State, Ev, L>,

        requires
            get_card_manager.requires((&self.queried_state(),)),
            forall|card_manager: &CardManager<EvM, LI>|
                get_card_manager.ensures((&self.queried_state(),), card_manager) ==> get_event_manager.requires(
                    (&card_manager.event_manager_spec(),),
                ),
    ;
}

/// The actions that the listeners a card added answer an event with.
pub trait EventsForCard<State, Ev: Event<State>, L: EventListener<State, Ev>, EvM, LI = ()>: Sized {
    /// The state that is asked.
    spec fn queried_state(self) -> State;

    fn events_for_card<GetCardManager, GetEventManager>(
        self,
        card_id: CardID,
        event: Ev,
        event_input: Ev::Input,
        get_card_manager: GetCardManager,
        get_event_manager: GetEventManager,
    ) -> Result<SimultaneousActionManager<State, Ev, L::Action>, NoEventsFound<State>> where
        GetCardManager: for<'b> Fn(&'b State) -> &'b CardManager<EvM, LI>,
        GetEventManager: for<'b> Fn(&'b EvM) -> &'b EventManager<State, Ev, L>,

        requires
            get_card_manager.requires((&self.queried_state(),)),
            forall|card_manager: &CardManager<EvM, LI>|
                get_card_manager.ensures((&self.queried_state(),), card_manager) ==> get_event_manager.requires(
                    (&card_manager.event_manager_spec(),),
                ),
    ;
}

impl<'a, S, Ev: Event<Priority<S>>, L: EventListener<Priority<S>, Ev>, EvM, LI> EventForCardExists<
    Priority<S>,
    Ev,
    L,
    EvM,
    LI,
> for EventCommand<&'a Priority<S>> {
    open spec fn queried_state(&self) -> Priority<S> {
        *self.state_spec()
    }

    /// Some listener that `card_id` added passes its filter; listeners at positions the
    /// event manager does not have are passed over.
    fn event_for_card_exists<GetCardManager, GetEventManager>(
        &self,
        card_id: CardID,
        event: &Ev,
        get_card_manager: GetCardManager,
        get_event_manager: GetEventManager,
    ) -> (r: bool) where
        GetCardManager: for<'b> Fn(&'b Priority<S>) -> &'b CardManager<EvM, LI>,
        GetEventManager: for<'b> Fn(&'b EvM) -> &'b EventManager<Priority<S>, Ev, L>,

        ensures
            exists|card_manager: &CardManager<EvM, LI>, event_manager: &EventManager<Priority<S>, Ev, L>|
                get_card_manager.ensures((self.state_spec(),), card_manager) && get_event_manager.ensures(
                    (&card_manager.event_manager_spec(),),
                    event_manager,
                ) && {
                    let positions = card_listener_positions(*card_manager, card_id);
                    &&& r ==> exists|k: int|
                        0 <= k < positions.len() && positions[k].1@ < event_manager@.len()
                            && #[trigger] listener_filter_result(*self.state_spec(), event_manager@, positions[k].1@ as int, true)
                    &&& !r ==> forall|k: int|
                        0 <= k < positions.len() && positions[k].1@ < event_manager@.len()
                            ==> #[trigger] listener_filter_result(*self.state_spec(), event_manager@, positions[k].1@ as int, false)
                },
    {
        let card_manager = get_card_manager(self.state);
        let event_manager = get_event_manager(card_manager.event_manager());
        let ghost positions = card_listener_positions(*card_manager, card_id);
        match card_manager.event_tracker().events_for_card(card_id) {
            Some(indexes) => {
                proof {
                    assert(indexes@ =~= positions);
                }
                let mut i: usize = 0;
                while i < indexes.len()
                    invariant
                        i <= indexes@.len(),
                        indexes@ == positions,
                        positions == card_listener_positions(*card_manager, card_id),
                        get_card_manager.ensures((self.state_spec(),), card_manager),
                        get_event_manager.ensures((&card_manager.event_manager_spec(),), event_manager),
                        forall|k: int|
                            0 <= k < i && positions[k].1@ < event_manager@.len()
                                ==> #[trigger] listener_filter_result(*self.state_spec(), event_manager@, positions[k].1@ as int, false),
                    decreases indexes@.len() - i,
                {
                    let index = indexes[i].1.index();
                    match event_manager.get(index) {
                        Some(listener) => {
                            let copy = listener.clone();
                            let passed = match L::Filter::filter(self.state, copy) {
                                Ok(_) => true,
                                Err(_) => false,
                            };
                            assert(listener_filter_result(*self.state_spec(), event_manager@, index as int, passed));
                            if passed {
                                assert(positions[i as int].1@ == index);
                                assert(listener_filter_result(*self.state_spec(), event_manager@, positions[i as int].1@ as int, true));
                                assert(exists|k: int|
                                    0 <= k < positions.len() && positions[k].1@ < event_manager@.len()
                                        && #[trigger] listener_filter_result(*self.state_spec(), event_manager@, positions[k].1@ as int, true));
                                return true;
                            }
                        },
                        None => {},
                    }
                    i = i + 1;
                }
                false
            },
            None => false,
        }
    }
}

impl<S, Ev: Event<Priority<S>>, L: EventListener<Priority<S>, Ev>, EvM, LI> EventsForCard<
    Priority<S>,
    Ev,
    L,
    EvM,
    LI,
> for EventCommand<Priority<S>> {
    open spec fn queried_state(self) -> Priority<S> {
        self.state_spec()
    }

    /// The actions of the listeners that `card_id` added and that pass their filter, in the
    /// order the card added them; refused when the card added no listener.
    fn events_for_card<GetCardManager, GetEventManager>(
        self,
        card_id: CardID,
        event: Ev,
        event_input: Ev::Input,
        get_card_manager: GetCardManager,
        get_event_manager: GetEventManager,
    ) -> (r: Result<SimultaneousActionManager<Priority<S>, Ev, L::Action>, NoEventsFound<Priority<S>>>) where
        GetCardManager: for<'b> Fn(&'b Priority<S>) -> &'b CardManager<EvM, LI>,
        GetEventManager: for<'b> Fn(&'b EvM) -> &'b EventManager<Priority<S>, Ev, L>,

        ensures
            exists|card_manager: &CardManager<EvM, LI>|
                get_card_manager.ensures((&self.state_spec(),), card_manager) && {
                    &&& !card_manager.event_tracker_spec().events_spec().contains_key(card_id@) ==> (r matches Err(
                        error,
                    ) && error.state_spec() == self.state_spec())
                    &&& card_manager.event_tracker_spec().events_spec().contains_key(card_id@) ==> (r matches Ok(
                        manager,
                    ) && manager.state_spec() == self.state_spec() && manager.event_spec() == event
                        && manager.event_input_spec() == event_input
                        && exists|event_manager: &EventManager<Priority<S>, Ev, L>|
                        get_event_manager.ensures((&card_manager.event_manager_spec(),), event_manager)
                            && answers_at(
                            card_listener_positions(*card_manager, card_id),
                            event_manager@,
                            self.state_spec(),
                            event,
                            manager.actions_spec(),
                        ))
                },
    {
        let ghost state = self.state;
        let EventCommand { state } = self;
        let card_manager = get_card_manager(&state);
        let ghost positions = card_listener_positions(*card_manager, card_id);
        match card_manager.event_tracker().events_for_card(card_id) {
            Some(indexes) => {
                let event_manager = get_event_manager(card_manager.event_manager());
                proof {
                    assert(indexes@ =~= positions);
                }
                let mut actions: Vec<L::Action> = Vec::new();
                let mut i: usize = 0;
                while i < indexes.len()
                    invariant
                        i <= indexes@.len(),
                        indexes@ == positions,
                        answers_at(positions.take(i as int), event_manager@, state, event, actions@),
                    decreases indexes@.len() - i,
                {
                    let index = indexes[i].1.index();
                    assert(positions.take(i + 1).drop_last() =~= positions.take(i as int));
                    assert(positions.take(i + 1).last() == positions[i as int]);
                    match event_manager.get(index) {
                        Some(listener) => {
                            let copy = listener.clone();
                            match L::Filter::filter(&state, copy) {
                                Ok(valid) => {
                                    let action = listener.action(&state, &event, valid);
                                    assert(call_ensures(L::action, (listener, &state, &event, valid), action));
                                    let ghost before = actions@;
                                    actions.push(action);
                                    assert(actions@.drop_last() =~= before);
                                    assert(listener_answers(state, event, *listener, action));
                                },
                                Err(_) => {
                                    assert(listener_refuses::<Priority<S>, Ev, L>(state, *listener));
                                },
                            }
                        },
                        None => {},
                    }
                    i = i + 1;
                }
                assert(positions.take(indexes@.len() as int) =~= positions);
                let collected = CollectedActions { event, event_input, actions, _p: core::marker::PhantomData };
                Ok(SimultaneousActionManager::new(state, collected))
            },
            None => Err(NoEventsFound { state }),
        }
    }
}

/// The card added no listener; the state is handed back.
pub struct NoEventsFound<State> {
    pub(crate) state: State,
}

impl<State> NoEventsFound<State> {
    pub closed spec fn state_spec(self) -> State {
        self.state
    }

    pub fn take_state(self) -> (r: State)
        ensures
            r == self.state_spec(),
    {
        self.state
    }
}

} // verus!
