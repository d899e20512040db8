use vstd::prelude::*;

verus! {

/// Identifies an action that an event triggers.
#[derive(Debug, Clone, Copy, Hash, PartialEq, Eq, Structural)]
pub struct EventActionID(usize);

impl View for EventActionID {
    type V = usize;

    closed spec fn view(&self) -> usize {
        self.0
    }
}

impl EventActionID {
    pub(crate) fn new(value: usize) -> (r: Self)
        ensures
            r@ == value,
    {
        EventActionID(value)
    }

    /// The number of this identifier.
    pub fn value(&self) -> (r: usize)
        ensures
            r == self@,
    {
        self.0
    }
}

/// Hands out event action identifiers, each once.
pub struct EventActionIDBuilder {
    next_value: usize,
}

impl View for EventActionIDBuilder {
    type V = usize;

    /// The identifier handed out next.
    closed spec fn view(&self) -> usize {
        self.next_value
    }
}

impl Clone for EventActionIDBuilder {
    /// A builder that hands out the same identifiers next.
    fn clone(&self) -> (r: Self)
        ensures
            r@ == self@,
    {
        EventActionIDBuilder { next_value: self.next_value }
    }
}

impl Default for EventActionIDBuilder {
    fn default() -> (r: Self)
        ensures
            r@ == 0,
    {
        EventActionIDBuilder { next_value: 0 }
    }
}

impl EventActionIDBuilder {
    pub fn build(&mut self) -> (r: EventActionID)
        requires
            old(self)@ < usize::MAX,
        ensures
            r@ == old(self)@,
            final(self)@ == old(self)@ + 1,
    {
        let event_action_id = EventActionID(self.next_value);
        self.next_value = self.next_value + 1;
        event_action_id
    }
}

} // verus!
