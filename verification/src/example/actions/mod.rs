//! The actions of the game.
pub mod deal_damage;
pub mod heal;

use vstd::prelude::*;

use crate::example::actions::deal_damage::DealDamage;
use crate::example::actions::heal::Heal;
use crate::example::game::{Game, GetStateMut};
use crate::example::identifications::CharacterID;
use crate::example::stack::{Action, StackAction};
use crate::stack::actions::{ActionSource, IncitingAction, IncitingActionInfo};
use crate::stack::priority::{GetState, Priority, PriorityMut, PriorityStack};

verus! {

/// Starts a stack that heals its source and, before that, damages it.
pub struct StackDamageAndHeal {
    source: CharacterID,
}

impl StackDamageAndHeal {
    pub fn new(source: CharacterID) -> (r: Self)
        ensures
            r.source_spec() == source,
    {
        StackDamageAndHeal { source }
    }
}

impl ActionSource for StackDamageAndHeal {
    type Source = CharacterID;

    closed spec fn source_spec(&self) -> CharacterID {
        self.source
    }

    fn source(&self) -> (r: &CharacterID) {
        &self.source
    }
}

impl<State: GetStateMut<Game>> IncitingAction<State, ()> for StackDamageAndHeal {
    type Requirement = ();

    open spec fn resolve_requires(&self, priority: Priority<State>, input: ()) -> bool {
        true
    }

    /// A stack on the same state, with a heal of one as its inciting action
    /// and a damage of one stacked upon it, both from this action's source.
    open spec fn resolve_ensures(
        &self,
        priority: Priority<State>,
        input: (),
        resolved: PriorityStack<State, Heal>,
    ) -> bool {
        &&& resolved@.state == priority@
        &&& resolved@.inciting_action.source_spec() == self.source_spec()
        &&& resolved@.inciting_action.amount_spec() == 1
        &&& resolved@.stack.len() == 1
        &&& resolved@.stack[0] matches StackAction::Action(Action::DealDamage(d))
        &&& d.source_spec() == self.source_spec()
        &&& d.damage_spec() == 1
    }

    fn resolve(self, priority: PriorityMut<Priority<State>>, input: ()) -> (r: PriorityStack<State, Heal>) {
        let priority = priority.stack(Heal::new(self.source, 1));
        let priority = priority.stack(
            StackAction::Action(Action::DealDamage(DealDamage::new(self.source, 1))),
        );
        priority.take_priority()
    }
}

impl<State: GetStateMut<Game>> IncitingActionInfo<State> for StackDamageAndHeal {
    type Resolved = PriorityStack<State, Heal>;
    type Stackable = StackAction;
}

} // verus!
