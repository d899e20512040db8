use vstd::prelude::*;

use crate::events::{Event, EventAction, EventListener, GetEventManager};
use crate::stack::priority::{Priority, PriorityStack, PriorityStackView};

verus! {

/// A stack started by an action that an event set off while the stack was empty.
pub struct EventPriorityStack<State: GetEventManager<Ev>, Ev: Event<Priority<State>>>(
    PriorityStack<State, EventAction<Priority<State>, Ev, <State::Listener as EventListener<Priority<State>, Ev>>::Action>>,
);

impl<State: GetEventManager<Ev>, Ev: Event<Priority<State>>> View for EventPriorityStack<State, Ev> {
    type V = PriorityStackView<
        State,
        EventAction<Priority<State>, Ev, <State::Listener as EventListener<Priority<State>, Ev>>::Action>,
        Ev::Stackable,
    >;

    closed spec fn view(&self) -> Self::V {
        self.0@
    }
}

impl<State: GetEventManager<Ev>, Ev: Event<Priority<State>>> EventPriorityStack<State, Ev> {
    pub fn new(
        stack: PriorityStack<State, EventAction<Priority<State>, Ev, <State::Listener as EventListener<Priority<State>, Ev>>::Action>>,
    ) -> (r: Self)
        ensures
            r@ == stack@,
    {
        EventPriorityStack(stack)
    }

    /// Puts `stack_action` on top of the stack.
    pub fn stack(self, stack_action: Ev::Stackable) -> (r: Self)
        ensures
            r@.state == self@.state,
            r@.inciting_action == self@.inciting_action,
            r@.stack == self@.stack.push(stack_action),
    {
        EventPriorityStack(self.0.stack(stack_action))
    }

    pub fn priority(&self) -> (r: &Priority<State>)
        ensures
            r@ == self@.state,
    {
        self.0.priority()
    }

    pub fn state(&self) -> (r: &State)
        ensures
            *r == self@.state,
    {
        self.0.state()
    }
}

} // verus!
