use vstd::prelude::*;

use crate::example::game::{Character, Game, GetStateMut};
use crate::example::identifications::CharacterID;
use crate::example::requirements::TargetCharacter;
use crate::example::stack::StackAction as GameStackAction;
use crate::stack::actions::{ActionSource, IncitingAction, IncitingActionInfo, StackAction};
use crate::stack::priority::{GetState, Priority, PriorityMut, PriorityStack};

verus! {

broadcast use vstd::std_specs::hash::group_hash_axioms;

/// The game after the character `target` healed by `amount`.
pub open spec fn game_after_heal(before: Game, after: Game, target: CharacterID, amount: usize) -> bool {
    after.characters_spec() == before.characters_spec().insert(
        target@,
        Character { health: (before.characters_spec()[target@].health + amount) as usize },
    )
}

/// Whether healing `target` by `amount` in `game` keeps its health within bounds.
pub open spec fn can_heal(game: Game, target: CharacterID, amount: usize) -> bool {
    &&& game.characters_spec().contains_key(target@)
    &&& game.characters_spec()[target@].health + amount <= usize::MAX
}

/// Healing a character by the damage it took, when the damage did not exceed its health,
/// gives it back the health it had.
pub proof fn lemma_heal_undoes_damage(before: Game, damaged: Game, healed: Game, target: CharacterID, amount: usize)
    requires
        before.characters_spec().contains_key(target@),
        amount <= before.characters_spec()[target@].health,
        crate::example::actions::deal_damage::game_after_damage(before, damaged, target, amount),
        game_after_heal(damaged, healed, target, amount),
    ensures
        healed.characters_spec() == before.characters_spec(),
{
    assert(healed.characters_spec() =~= before.characters_spec());
}

/// Healing raises the target's health by exactly the amount, when that stays within bounds,
/// and changes no other character.
pub proof fn lemma_heal_adds_the_amount(before: Game, after: Game, target: CharacterID, amount: usize)
    requires
        can_heal(before, target, amount),
        game_after_heal(before, after, target, amount),
    ensures
        after.characters_spec().dom() == before.characters_spec().dom(),
        after.characters_spec()[target@].health == before.characters_spec()[target@].health + amount,
        forall|c: usize|
            c != target@ && #[trigger] before.characters_spec().contains_key(c) ==> after.characters_spec()[c]
                == before.characters_spec()[c],
{
    assert(after.characters_spec().dom() =~= before.characters_spec().dom());
}

/// Heals a target character.
pub struct Heal {
    source: CharacterID,
    amount: usize,
}

impl Heal {
    pub closed spec fn amount_spec(self) -> usize {
        self.amount
    }

    pub fn new(source: CharacterID, amount: usize) -> (r: Self)
        ensures
            r.source_spec() == source,
            r.amount_spec() == amount,
    {
        Heal { source, amount }
    }

    /// Raises the health of `target` by the amount.
    fn heal_target<S: GetStateMut<Game>>(&self, state: &mut S, target: CharacterID)
        requires
            can_heal(old(state).state_spec(), target, self.amount_spec()),
        ensures
            *final(state) == old(state).with_state(final(state).state_spec()),
            game_after_heal(old(state).state_spec(), final(state).state_spec(), target, self.amount_spec()),
    {
        let game = state.state_mut();
        let health = game.characters.get(&target.value()).unwrap().health;
        game.characters.insert(target.value(), Character { health: health + self.amount });
        proof {
            old(state).lemma_with_state(*game);
        }
    }
}

impl ActionSource for Heal {
    type Source = CharacterID;

    closed spec fn source_spec(&self) -> CharacterID {
        self.source
    }

    fn source(&self) -> (r: &CharacterID) {
        &self.source
    }
}

impl<State: GetStateMut<Game>> IncitingAction<State, CharacterID> for Heal {
    type Requirement = TargetCharacter;

    open spec fn resolve_requires(&self, priority: Priority<State>, input: CharacterID) -> bool {
        can_heal(priority@.state_spec(), input, self.amount_spec())
    }

    open spec fn resolve_ensures(
        &self,
        priority: Priority<State>,
        input: CharacterID,
        resolved: Priority<State>,
    ) -> bool {
        &&& resolved@ == priority@.with_state(resolved@.state_spec())
        &&& game_after_heal(priority@.state_spec(), resolved@.state_spec(), input, self.amount_spec())
    }

    fn resolve(self, priority: PriorityMut<Priority<State>>, input: CharacterID) -> (r: Priority<State>) {
        let mut priority = priority;
        self.heal_target(priority.state_mut(), input);
        priority.take_priority()
    }
}

impl<State: GetState<Game>> IncitingActionInfo<State> for Heal {
    type Resolved = Priority<State>;
    type Stackable = GameStackAction;
}

impl<State: GetStateMut<Game>, IA: IncitingActionInfo<State>> StackAction<State, CharacterID, IA> for Heal {
    type Requirement = TargetCharacter;
    type Resolved = PriorityStack<State, IA>;

    open spec fn resolve_requires(&self, priority: PriorityStack<State, IA>, input: CharacterID) -> bool {
        can_heal(priority@.state.state_spec(), input, self.amount_spec())
    }

    open spec fn resolve_ensures(
        &self,
        priority: PriorityStack<State, IA>,
        input: CharacterID,
        resolved: PriorityStack<State, IA>,
    ) -> bool {
        &&& resolved@.inciting_action == priority@.inciting_action
        &&& resolved@.stack == priority@.stack
        &&& resolved@.state == priority@.state.with_state(resolved@.state.state_spec())
        &&& game_after_heal(priority@.state.state_spec(), resolved@.state.state_spec(), input, self.amount_spec())
    }

    fn resolve(self, priority: PriorityMut<PriorityStack<State, IA>>, input: CharacterID) -> (r: PriorityStack<State, IA>) {
        let mut priority = priority;
        self.heal_target(priority.state_mut(), input);
        priority.take_priority()
    }
}

} // verus!
