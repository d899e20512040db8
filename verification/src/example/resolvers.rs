//! Resolves the actions of the game's stack.
use vstd::prelude::*;

use crate::example::actions::deal_damage::DealDamage;
use crate::example::actions::heal::Heal;
use crate::example::game::{Game, GetStateMut};
use crate::example::identifications::CharacterID;
use crate::example::requirements::TargetCharacter;
use crate::example::stack::{Action, RemoveCharacters, StackAction};
use crate::stack::actions::IncitingActionInfo;
use crate::stack::priority::{PriorityMut, PriorityStack, Resolve, StackResolver};
use crate::stack::requirements::{ActionRequirement, RequirementAction, requirement_fits};
use crate::validation::CollectedInputs;

verus! {

/// Resolves the stack of the game.
pub struct Resolver;

/// The input of an action that takes none.
pub struct NoInput;

/// The requirement of an action that takes no input.
pub struct NoRequirement;

impl<State> ActionRequirement<State, NoInput> for NoRequirement {
    type Filter = ();

    open spec fn candidates(state: State) -> Set<NoInput> {
        Set::empty()
    }

    fn collect_inputs(_state: &State) -> (r: CollectedInputs<State, NoInput>) {
        let r = CollectedInputs::new(Vec::new());
        assert(r.inputs().to_set() =~= Set::<NoInput>::empty());
        r
    }
}

/// Where the resolution of a stack stops to wait for a target.
pub enum HaltStack<Priority> {
    DealDamageRequirement(RequirementAction<Priority, CharacterID, DealDamage>),
    HealRequirement(RequirementAction<Priority, CharacterID, Heal>),
}

impl<State: GetStateMut<Game>, IA: IncitingActionInfo<State, Stackable = StackAction>> StackResolver<
    State,
    IA,
> for Resolver {
    type HaltStack = HaltStack<PriorityStack<State, IA>>;

    open spec fn resolve_stack_requires(&self, priority: PriorityStack<State, IA>, action: StackAction) -> bool {
        action matches StackAction::RemoveCharacters(rc) ==> <RemoveCharacters as crate::stack::actions::StackAction<
            State,
            NoInput,
            IA,
        >>::resolve_requires(&rc, priority, NoInput)
    }

    /// A damage or a heal waits for its target when the game has one and is
    /// dropped otherwise; removing characters resolves at once.
    open spec fn resolve_stack_ensures(
        &self,
        priority: PriorityStack<State, IA>,
        action: StackAction,
        resolved: Resolve<PriorityStack<State, IA>, HaltStack<PriorityStack<State, IA>>>,
    ) -> bool {
        match action {
            StackAction::Action(Action::DealDamage(d)) => if requirement_fits::<
                PriorityStack<State, IA>,
                CharacterID,
                TargetCharacter,
            >(priority) {
                resolved matches Resolve::Halt(HaltStack::DealDamageRequirement(req))
                    && req.priority_spec() == priority && req.action_spec() == d
            } else {
                resolved matches Resolve::Continue(p) && p == priority
            },
            StackAction::Action(Action::Heal(h)) => if requirement_fits::<
                PriorityStack<State, IA>,
                CharacterID,
                TargetCharacter,
            >(priority) {
                resolved matches Resolve::Halt(HaltStack::HealRequirement(req))
                    && req.priority_spec() == priority && req.action_spec() == h
            } else {
                resolved matches Resolve::Continue(p) && p == priority
            },
            StackAction::RemoveCharacters(rc) => resolved matches Resolve::Continue(p)
                && <RemoveCharacters as crate::stack::actions::StackAction<
                State,
                NoInput,
                IA,
            >>::resolve_ensures(&rc, priority, NoInput, p),
        }
    }

    fn resolve_stack(&mut self, priority: PriorityMut<PriorityStack<State, IA>>, action: StackAction) -> (r: Resolve<
        PriorityStack<State, IA>,
        HaltStack<PriorityStack<State, IA>>,
    >) {
        match action {
            StackAction::Action(action) => match action {
                Action::DealDamage(deal_damage) => {
                    match RequirementAction::<PriorityStack<State, IA>, CharacterID, DealDamage>::try_new(
                        priority.take_priority(),
                        deal_damage,
                    ) {
                        Ok(requirement) => Resolve::Halt(HaltStack::DealDamageRequirement(requirement)),
                        Err(e) => Resolve::Continue(e.priority),
                    }
                },
                Action::Heal(heal) => {
                    match RequirementAction::<PriorityStack<State, IA>, CharacterID, Heal>::try_new(
                        priority.take_priority(),
                        heal,
                    ) {
                        Ok(requirement) => Resolve::Halt(HaltStack::HealRequirement(requirement)),
                        Err(e) => Resolve::Continue(e.priority),
                    }
                },
            },
            StackAction::RemoveCharacters(remove_characters) => {
                Resolve::Continue(
                    <RemoveCharacters as crate::stack::actions::StackAction<
                        State,
                        NoInput,
                        IA,
                    >>::resolve(remove_characters, priority, NoInput),
                )
            },
        }
    }
}

} // verus!
