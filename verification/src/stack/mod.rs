//! The action stack: one inciting action with the actions stacked on it.
pub mod actions;
pub mod priority;
pub mod requirements;

use vstd::prelude::*;

verus! {

/// An inciting action together with the actions stacked upon it, the last
/// of which resolves first.
pub struct Stack<State, IncitingAction: actions::IncitingActionInfo<State>> {
    inciting_action: IncitingAction,
    stack: Vec<IncitingAction::Stackable>,
}

impl<State, IncitingAction: actions::IncitingActionInfo<State> + Clone> Clone for Stack<State, IncitingAction> where
    IncitingAction::Stackable: Clone,
 {
    /// A copy of the inciting action and of each stacked action.
    fn clone(&self) -> (r: Self)
        ensures
            cloned(self@.inciting_action, r@.inciting_action),
            r@.stack.len() == self@.stack.len(),
            forall|i: int| 0 <= i < self@.stack.len() ==> cloned(#[trigger] self@.stack[i], r@.stack[i]),
    {
        Stack { inciting_action: self.inciting_action.clone(), stack: self.stack.clone() }
    }
}

/// What a [`Stack`] holds.
pub struct StackView<I, S> {
    pub inciting_action: I,
    pub stack: Seq<S>,
}

impl<State, IncitingAction: actions::IncitingActionInfo<State>> View for Stack<
    State,
    IncitingAction,
> {
    type V = StackView<IncitingAction, IncitingAction::Stackable>;

    closed spec fn view(&self) -> Self::V {
        StackView { inciting_action: self.inciting_action, stack: self.stack@ }
    }
}

impl<State, IncitingAction: actions::IncitingActionInfo<State>> Stack<State, IncitingAction> {
    pub(crate) fn new(inciting_action: IncitingAction) -> (r: Self)
        ensures
            r@.inciting_action == inciting_action,
            r@.stack == Seq::<IncitingAction::Stackable>::empty(),
    {
        Stack { inciting_action, stack: Vec::new() }
    }

    pub fn inciting_action(&self) -> (r: &IncitingAction)
        ensures
            *r == self@.inciting_action,
    {
        &self.inciting_action
    }

    /// The stacked actions, the first stacked first.
    pub fn full_stack(&self) -> (r: &[IncitingAction::Stackable])
        ensures
            r@ == self@.stack,
    {
        self.stack.as_slice()
    }

    pub fn take_inciting_action(self) -> (r: IncitingAction)
        ensures
            r == self@.inciting_action,
    {
        self.inciting_action
    }

    /// Puts `stack` on top of the stack.
    pub fn stack(&mut self, stack: IncitingAction::Stackable)
        ensures
            final(self)@.inciting_action == old(self)@.inciting_action,
            final(self)@.stack == old(self)@.stack.push(stack),
    {
        self.stack.push(stack)
    }

    /// Takes the top action off the stack, if there is one.
    pub fn pop(&mut self) -> (r: Option<IncitingAction::Stackable>)
        ensures
            final(self)@.inciting_action == old(self)@.inciting_action,
            old(self)@.stack.len() == 0 ==> r is None && final(self)@.stack == old(self)@.stack,
            old(self)@.stack.len() > 0 ==> r == Some(old(self)@.stack.last())
                && final(self)@.stack == old(self)@.stack.drop_last(),
    {
        self.stack.pop()
    }

    /// The same stack, seen from another state that stacks the same kind of actions.
    pub fn into_state<NewState>(self) -> (r: Stack<NewState, IncitingAction>) where
        IncitingAction: actions::IncitingActionInfo<
            NewState,
            Stackable = <IncitingAction as actions::IncitingActionInfo<State>>::Stackable,
        >,

        ensures
            r@.inciting_action == self@.inciting_action,
            r@.stack == self@.stack,
    {
        Stack { stack: self.stack, inciting_action: self.inciting_action }
    }
}

/// Putting an action on a stack and taking the top one off again gives that action back and
/// leaves the stack as it was.
pub proof fn lemma_pop_undoes_stack<S>(stack: Seq<S>, action: S)
    ensures
        stack.push(action).len() > 0,
        stack.push(action).last() == action,
        stack.push(action).drop_last() == stack,
{
    assert(stack.push(action).drop_last() =~= stack);
}

/// Marks an empty input, to tell it apart from non-empty ones in generic code.
pub trait EmptyInput: Sized {
    fn empty() -> Self;
}

impl EmptyInput for () {
    fn empty() -> Self {
    }
}

/// Marks a non-empty input, to tell it apart from empty ones in generic code.
pub trait NonEmptyInput {}

} // verus!
