//! What the game puts on its stack.
use vstd::prelude::*;

use crate::example::actions::deal_damage::DealDamage;
use crate::example::actions::heal::Heal;
use crate::example::game::{Game, GetStateMut};
use crate::example::identifications::CharacterID;
use crate::example::resolvers::{NoInput, NoRequirement};
use crate::stack::actions::{ActionSource, IncitingActionInfo};
use crate::stack::priority::{GetState, PriorityMut, PriorityStack};

verus! {

broadcast use vstd::std_specs::hash::group_hash_axioms;

/// An action of the game.
pub enum Action {
    DealDamage(DealDamage),
    Heal(Heal),
}

impl From<DealDamage> for Action {
    fn from(deal_damage: DealDamage) -> (r: Self) {
        Action::DealDamage(deal_damage)
    }
}

impl vstd::std_specs::convert::FromSpecImpl<DealDamage> for Action {
    open spec fn obeys_from_spec() -> bool {
        true
    }

    open spec fn from_spec(v: DealDamage) -> Action {
        Action::DealDamage(v)
    }
}

impl From<Heal> for Action {
    fn from(heal: Heal) -> (r: Self) {
        Action::Heal(heal)
    }
}

impl vstd::std_specs::convert::FromSpecImpl<Heal> for Action {
    open spec fn obeys_from_spec() -> bool {
        true
    }

    open spec fn from_spec(v: Heal) -> Action {
        Action::Heal(v)
    }
}

/// An action that starts a stack.
pub enum IncitingAction {
    Action(Action),
}

impl From<Action> for IncitingAction {
    fn from(action: Action) -> (r: Self) {
        IncitingAction::Action(action)
    }
}

impl vstd::std_specs::convert::FromSpecImpl<Action> for IncitingAction {
    open spec fn obeys_from_spec() -> bool {
        true
    }

    open spec fn from_spec(v: Action) -> IncitingAction {
        IncitingAction::Action(v)
    }
}

/// An action that is put on a stack.
pub enum StackAction {
    Action(Action),
    RemoveCharacters(RemoveCharacters),
}

impl From<Action> for StackAction {
    fn from(action: Action) -> (r: Self) {
        StackAction::Action(action)
    }
}

impl vstd::std_specs::convert::FromSpecImpl<Action> for StackAction {
    open spec fn obeys_from_spec() -> bool {
        true
    }

    open spec fn from_spec(v: Action) -> StackAction {
        StackAction::Action(v)
    }
}

/// Removes the first two characters of the game.
pub struct RemoveCharacters(CharacterID);

impl Default for RemoveCharacters {
    fn default() -> (r: Self)
        ensures
            r.source_spec()@ == 0,
    {
        RemoveCharacters(CharacterID::new(0))
    }
}

impl ActionSource for RemoveCharacters {
    type Source = CharacterID;

    closed spec fn source_spec(&self) -> CharacterID {
        self.0
    }

    fn source(&self) -> (r: &CharacterID) {
        &self.0
    }
}

impl<State: GetStateMut<Game>, IA: IncitingActionInfo<State>> crate::stack::actions::StackAction<
    State,
    NoInput,
    IA,
> for RemoveCharacters {
    type Requirement = NoRequirement;
    type Resolved = PriorityStack<State, IA>;

    open spec fn resolve_requires(&self, priority: PriorityStack<State, IA>, input: NoInput) -> bool {
        &&& priority@.state.state_spec().characters_spec().contains_key(0)
        &&& priority@.state.state_spec().characters_spec().contains_key(1)
    }

    /// The same stack, with the characters 0 and 1 gone from the game.
    open spec fn resolve_ensures(
        &self,
        priority: PriorityStack<State, IA>,
        input: NoInput,
        resolved: PriorityStack<State, IA>,
    ) -> bool {
        &&& resolved@.inciting_action == priority@.inciting_action
        &&& resolved@.stack == priority@.stack
        &&& resolved@.state == priority@.state.with_state(resolved@.state.state_spec())
        &&& resolved@.state.state_spec().characters_spec()
            == priority@.state.state_spec().characters_spec().remove(0).remove(1)
    }

    fn resolve(self, priority: PriorityMut<PriorityStack<State, IA>>, input: NoInput) -> (r: PriorityStack<State, IA>) {
        let mut priority = priority;
        remove_first_characters(priority.state_mut());
        priority.take_priority()
    }
}

/// Removes the characters 0 and 1.
fn remove_first_characters<S: GetStateMut<Game>>(state: &mut S)
    requires
        old(state).state_spec().characters_spec().contains_key(0),
        old(state).state_spec().characters_spec().contains_key(1),
    ensures
        *final(state) == old(state).with_state(final(state).state_spec()),
        final(state).state_spec().characters_spec() == old(state).state_spec().characters_spec().remove(0).remove(1),
{
    let game = state.state_mut();
    game.characters.remove(&0usize).unwrap();
    game.characters.remove(&1usize).unwrap();
    proof {
        old(state).lemma_with_state(*game);
    }
}

} // verus!
