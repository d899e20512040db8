//! The kinds of action that the stack holds.
use vstd::prelude::*;

use crate::stack::priority::{Priority, PriorityMut, PriorityStack};
use crate::stack::requirements::ActionRequirement;
use crate::validation::StateFilter;

verus! {

/// An action that knows where it comes from.
pub trait ActionSource: Sized {
    /// Where this action originates from.
    type Source;

    spec fn source_spec(&self) -> Self::Source;

    /// Where this action originates from.
    fn source(&self) -> (r: &Self::Source)
        ensures
            *r == self.source_spec(),
    ;
}

/// What an inciting action resolves to, and what may be stacked upon it.
pub trait IncitingActionInfo<State> {
    /// The resolution of this inciting action.
    type Resolved;
    /// Can be stacked upon this inciting action.
    type Stackable;
}

/// An action that must be put on an empty stack.
pub trait IncitingAction<State, Input>: IncitingActionInfo<State> + ActionSource {
    /// Must be satisfied before this action can be resolved.
    type Requirement: ActionRequirement<Priority<State>, Input>;

    spec fn resolve_requires(
        &self,
        priority: Priority<State>,
        input: <<Self::Requirement as ActionRequirement<
            Priority<State>,
            Input,
        >>::Filter as StateFilter<Priority<State>, Input>>::ValidOutput,
    ) -> bool;

    spec fn resolve_ensures(
        &self,
        priority: Priority<State>,
        input: <<Self::Requirement as ActionRequirement<
            Priority<State>,
            Input,
        >>::Filter as StateFilter<Priority<State>, Input>>::ValidOutput,
        resolved: Self::Resolved,
    ) -> bool;

    fn resolve(
        self,
        priority: PriorityMut<Priority<State>>,
        input: <<Self::Requirement as ActionRequirement<
            Priority<State>,
            Input,
        >>::Filter as StateFilter<Priority<State>, Input>>::ValidOutput,
    ) -> (r: Self::Resolved)
        requires
            self.resolve_requires(priority@, input),
        ensures
            self.resolve_ensures(priority@, input, r),
    ;
}

/// An action that must be put on a stack that already has an inciting action.
pub trait StackAction<State, Input, IncitingAction: IncitingActionInfo<State>>: ActionSource {
    /// Must be satisfied before this action can be resolved.
    type Requirement: ActionRequirement<PriorityStack<State, IncitingAction>, Input>;
    /// The resolution of this action.
    type Resolved;

    spec fn resolve_requires(
        &self,
        priority: PriorityStack<State, IncitingAction>,
        input: <<Self::Requirement as ActionRequirement<
            PriorityStack<State, IncitingAction>,
            Input,
        >>::Filter as StateFilter<PriorityStack<State, IncitingAction>, Input>>::ValidOutput,
    ) -> bool;

    spec fn resolve_ensures(
        &self,
        priority: PriorityStack<State, IncitingAction>,
        input: <<Self::Requirement as ActionRequirement<
            PriorityStack<State, IncitingAction>,
            Input,
        >>::Filter as StateFilter<PriorityStack<State, IncitingAction>, Input>>::ValidOutput,
        resolved: Self::Resolved,
    ) -> bool;

    fn resolve(
        self,
        priority: PriorityMut<PriorityStack<State, IncitingAction>>,
        input: <<Self::Requirement as ActionRequirement<
            PriorityStack<State, IncitingAction>,
            Input,
        >>::Filter as StateFilter<PriorityStack<State, IncitingAction>, Input>>::ValidOutput,
    ) -> (r: Self::Resolved)
        requires
            self.resolve_requires(priority@, input),
        ensures
            self.resolve_ensures(priority@, input, r),
    ;
}

} // verus!
