use vstd::prelude::*;

use crate::example::game::{Character, Game, GetStateMut};
use crate::example::identifications::CharacterID;
use crate::example::requirements::TargetCharacter;
use crate::example::stack::StackAction as GameStackAction;
use crate::stack::actions::{ActionSource, IncitingAction, IncitingActionInfo, StackAction};
use crate::stack::priority::{GetState, Priority, PriorityMut, PriorityStack};

verus! {

broadcast use vstd::std_specs::hash::group_hash_axioms;

/// The health left after taking `damage`; it never drops below zero.
pub open spec fn damaged_health(health: usize, damage: usize) -> usize {
    if health < damage {
        0
    } else {
        (health - damage) as usize
    }
}

/// The game after the character `target` took `damage`.
pub open spec fn game_after_damage(before: Game, after: Game, target: CharacterID, damage: usize) -> bool {
    after.characters_spec() == before.characters_spec().insert(
        target@,
        Character { health: damaged_health(before.characters_spec()[target@].health, damage) },
    )
}

/// Damage takes away health, but never more than the target has left: after `damage`
/// on a target with health `h`, its health is `h - min(h, damage)`, so damage at least as
/// large as the health leaves it at zero. No other character changes.
pub proof fn lemma_damage_is_capped_at_the_health_left(before: Game, after: Game, target: CharacterID, damage: usize)
    requires
        before.characters_spec().contains_key(target@),
        game_after_damage(before, after, target, damage),
    ensures
        after.characters_spec().dom() == before.characters_spec().dom(),
        damage >= before.characters_spec()[target@].health ==> after.characters_spec()[target@].health == 0,
        damage < before.characters_spec()[target@].health ==> after.characters_spec()[target@].health + damage
            == before.characters_spec()[target@].health,
        after.characters_spec()[target@].health <= before.characters_spec()[target@].health,
        forall|c: usize|
            c != target@ && #[trigger] before.characters_spec().contains_key(c) ==> after.characters_spec()[c]
                == before.characters_spec()[c],
{
    assert(after.characters_spec().dom() =~= before.characters_spec().dom());
}

/// Deals damage to a target character.
pub struct DealDamage {
    source: CharacterID,
    damage: usize,
}

impl DealDamage {
    pub closed spec fn damage_spec(self) -> usize {
        self.damage
    }

    pub fn new(source: CharacterID, damage: usize) -> (r: Self)
        ensures
            r.source_spec() == source,
            r.damage_spec() == damage,
    {
        DealDamage { source, damage }
    }

    /// Lowers the health of `target` by the damage, down to zero at least.
    fn damage_target<S: GetStateMut<Game>>(&self, state: &mut S, target: CharacterID)
        requires
            old(state).state_spec().characters_spec().contains_key(target@),
        ensures
            *final(state) == old(state).with_state(final(state).state_spec()),
            game_after_damage(old(state).state_spec(), final(state).state_spec(), target, self.damage_spec()),
    {
        let game = state.state_mut();
        let health = game.characters.get(&target.value()).unwrap().health;
        let reduced = if health < self.damage { 0 } else { health - self.damage };
        game.characters.insert(target.value(), Character { health: reduced });
        proof {
            old(state).lemma_with_state(*game);
        }
    }
}

impl ActionSource for DealDamage {
    type Source = CharacterID;

    closed spec fn source_spec(&self) -> CharacterID {
        self.source
    }

    fn source(&self) -> (r: &CharacterID) {
        &self.source
    }
}

impl<State: GetStateMut<Game>> IncitingAction<State, CharacterID> for DealDamage {
    type Requirement = TargetCharacter;

    open spec fn resolve_requires(&self, priority: Priority<State>, input: CharacterID) -> bool {
        priority@.state_spec().characters_spec().contains_key(input@)
    }

    open spec fn resolve_ensures(
        &self,
        priority: Priority<State>,
        input: CharacterID,
        resolved: Priority<State>,
    ) -> bool {
        &&& resolved@ == priority@.with_state(resolved@.state_spec())
        &&& game_after_damage(priority@.state_spec(), resolved@.state_spec(), input, self.damage_spec())
    }

    fn resolve(self, priority: PriorityMut<Priority<State>>, input: CharacterID) -> (r: Priority<State>) {
        let mut priority = priority;
        self.damage_target(priority.state_mut(), input);
        priority.take_priority()
    }
}

impl<State: GetState<Game>> IncitingActionInfo<State> for DealDamage {
    type Resolved = Priority<State>;
    type Stackable = GameStackAction;
}

impl<State: GetStateMut<Game>, IA: IncitingActionInfo<State>> StackAction<State, CharacterID, IA> for DealDamage {
    type Requirement = TargetCharacter;
    type Resolved = PriorityStack<State, IA>;

    open spec fn resolve_requires(&self, priority: PriorityStack<State, IA>, input: CharacterID) -> bool {
        priority@.state.state_spec().characters_spec().contains_key(input@)
    }

    open spec fn resolve_ensures(
        &self,
        priority: PriorityStack<State, IA>,
        input: CharacterID,
        resolved: PriorityStack<State, IA>,
    ) -> bool {
        &&& resolved@.inciting_action == priority@.inciting_action
        &&& resolved@.stack == priority@.stack
        &&& resolved@.state == priority@.state.with_state(resolved@.state.state_spec())
        &&& game_after_damage(priority@.state.state_spec(), resolved@.state.state_spec(), input, self.damage_spec())
    }

    fn resolve(self, priority: PriorityMut<PriorityStack<State, IA>>, input: CharacterID) -> (r: PriorityStack<State, IA>) {
        let mut priority = priority;
        self.damage_target(priority.state_mut(), input);
        priority.take_priority()
    }
}

} // verus!
