//! Who may act: the game state alone, or the game state with a stack on it.
use vstd::prelude::*;

use crate::stack::actions::{IncitingAction, IncitingActionInfo};
use crate::stack::requirements::{
    RequirementAction, TryNewRequirementActionError, try_new_outcome,
};
use crate::stack::{NonEmptyInput, Stack, StackView};

verus! {

/// Read access to an inner state.
pub trait GetState<State> {
    spec fn state_spec(&self) -> State;

    fn state(&self) -> (r: &State)
        ensures
            *r == self.state_spec(),
    ;
}

/// The game state while the stack is empty.
pub struct Priority<State> {
    state: State,
}

impl<State: Clone> Clone for Priority<State> {
    fn clone(&self) -> (r: Self)
        ensures
            cloned(self@, r@),
    {
        Priority { state: self.state.clone() }
    }
}

impl<State> View for Priority<State> {
    type V = State;

    closed spec fn view(&self) -> State {
        self.state
    }
}

impl<State> Priority<State> {
    pub fn new(state: State) -> (r: Self)
        ensures
            r@ == state,
    {
        Priority { state }
    }

    pub fn state(&self) -> (r: &State)
        ensures
            *r == self@,
    {
        &self.state
    }

    pub fn take_state(self) -> (r: State)
        ensures
            r == self@,
    {
        self.state
    }

    /// Starts a stack with `inciting_action` at its bottom.
    pub fn stack<IA: IncitingActionInfo<State>>(self, inciting_action: IA) -> (r: PriorityStack<
        State,
        IA,
    >)
        ensures
            r@.state == self@,
            r@.inciting_action == inciting_action,
            r@.stack == Seq::<IA::Stackable>::empty(),
    {
        PriorityStack::new(self, inciting_action)
    }

    pub fn into_state<NewState>(self) -> (r: Priority<NewState>) where State: Into<NewState>
        ensures
            call_ensures(State::into, (self@,), r@),
    {
        Priority::new(self.state.into())
    }
}

impl<State: GetState<InnerState>, InnerState> GetState<InnerState> for Priority<State> {
    open spec fn state_spec(&self) -> InnerState {
        self@.state_spec()
    }

    fn state(&self) -> (r: &InnerState) {
        self.state.state()
    }
}

/// A priority that an action resolving right now may change.
pub struct PriorityMut<Priority> {
    priority: Priority,
}

impl<P> View for PriorityMut<P> {
    type V = P;

    closed spec fn view(&self) -> P {
        self.priority
    }
}

impl<P> PriorityMut<P> {
    /// The priority that holds `priority`.
    pub closed spec fn of(priority: P) -> Self {
        PriorityMut { priority }
    }

    /// A priority is determined by what it holds.
    pub proof fn lemma_of(pm: Self, priority: P)
        ensures
            Self::of(pm@) == pm,
            Self::of(priority)@ == priority,
    {
    }

    pub fn priority(&self) -> (r: &P)
        ensures
            *r == self@,
    {
        &self.priority
    }

    pub fn priority_mut(&mut self) -> (r: &mut P)
        ensures
            *r == old(self)@,
            final(self)@ == *final(r),
    {
        &mut self.priority
    }

    pub fn take_priority(self) -> (r: P)
        ensures
            r == self@,
    {
        self.priority
    }
}

impl<State> PriorityMut<Priority<State>> {
    pub fn new(priority: Priority<State>) -> (r: Self)
        ensures
            r@ == priority,
    {
        PriorityMut { priority }
    }

    pub fn take_state(self) -> (r: State)
        ensures
            r == self@@,
    {
        self.priority.state
    }

    pub fn state(&self) -> (r: &State)
        ensures
            *r == self@@,
    {
        self.priority.state()
    }

    pub fn state_mut(&mut self) -> (r: &mut State)
        ensures
            *r == old(self)@@,
            final(self)@@ == *final(r),
    {
        &mut self.priority.state
    }

    /// Starts a stack with `inciting_action` at its bottom.
    pub fn stack<IA: IncitingActionInfo<State>>(self, inciting_action: IA) -> (r: PriorityMut<
        PriorityStack<State, IA>,
    >)
        ensures
            r@@.state == self@@,
            r@@.inciting_action == inciting_action,
            r@@.stack == Seq::<IA::Stackable>::empty(),
    {
        PriorityMut::<PriorityStack<State, IA>>::new(self.priority.stack(inciting_action))
    }

    pub fn into_state<NewState>(self) -> (r: PriorityMut<Priority<NewState>>) where
        State: Into<NewState>,

        ensures
            call_ensures(State::into, (self@@,), r@@),
    {
        PriorityMut::<Priority<NewState>>::new(self.priority.into_state())
    }
}

impl<State, IA: IncitingActionInfo<State>> PriorityMut<PriorityStack<State, IA>> {
    pub fn new(priority: PriorityStack<State, IA>) -> (r: Self)
        ensures
            r@ == priority,
    {
        PriorityMut { priority }
    }

    pub fn state_mut(&mut self) -> (r: &mut State)
        ensures
            *r == old(self)@@.state,
            final(self)@@.state == *final(r),
            final(self)@@.inciting_action == old(self)@@.inciting_action,
            final(self)@@.stack == old(self)@@.stack,
    {
        &mut self.priority.priority.state
    }

    /// The same priority over another state; see [`PriorityStack::into_state`].
    pub fn into_state<NewState, NewIA: IncitingActionInfo<NewState>>(self) -> (r: PriorityMut<PriorityStack<NewState, NewIA>>) where
        State: Into<NewState>,
        IA: Into<NewIA>,
        IA::Stackable: Into<NewIA::Stackable>,

        ensures
            call_ensures(State::into, (self@@.state,), r@@.state),
            call_ensures(IA::into, (self@@.inciting_action,), r@@.inciting_action),
            r@@.stack.len() == self@@.stack.len(),
            forall|i: int|
                0 <= i < r@@.stack.len() ==> call_ensures(
                    <IA::Stackable as Into<NewIA::Stackable>>::into,
                    (self@@.stack[i],),
                    #[trigger] r@@.stack[i],
                ),
    {
        PriorityMut::<PriorityStack<NewState, NewIA>>::new(self.priority.into_state())
    }

    /// Puts `stack_action` on top of the stack.
    pub fn stack(self, stack_action: IA::Stackable) -> (r: Self)
        ensures
            r@@.state == self@@.state,
            r@@.inciting_action == self@@.inciting_action,
            r@@.stack == self@@.stack.push(stack_action),
    {
        let PriorityMut { priority } = self;
        PriorityMut { priority: priority.stack(stack_action) }
    }
}

impl<State: GetState<InnerState>, InnerState> GetState<InnerState> for PriorityMut<State> {
    open spec fn state_spec(&self) -> InnerState {
        self@.state_spec()
    }

    fn state(&self) -> (r: &InnerState) {
        self.priority.state()
    }
}

/// The game state with a stack on it.
pub struct PriorityStack<State, IncitingAction: IncitingActionInfo<State>> {
    priority: Priority<State>,
    stack: Stack<State, IncitingAction>,
}

impl<State: Clone, IA: IncitingActionInfo<State> + Clone> Clone for PriorityStack<State, IA> where
    IA::Stackable: Clone,
 {
    /// A copy of the state, of the inciting action and of each stacked action.
    fn clone(&self) -> (r: Self)
        ensures
            cloned(self@.state, r@.state),
            cloned(self@.inciting_action, r@.inciting_action),
            r@.stack.len() == self@.stack.len(),
            forall|i: int| 0 <= i < self@.stack.len() ==> cloned(#[trigger] self@.stack[i], r@.stack[i]),
    {
        PriorityStack { priority: self.priority.clone(), stack: self.stack.clone() }
    }
}

/// What a [`PriorityStack`] holds.
pub struct PriorityStackView<State, I, S> {
    pub state: State,
    pub inciting_action: I,
    pub stack: Seq<S>,
}

impl<State, IA: IncitingActionInfo<State>> View for PriorityStack<State, IA> {
    type V = PriorityStackView<State, IA, IA::Stackable>;

    closed spec fn view(&self) -> Self::V {
        PriorityStackView {
            state: self.priority.state,
            inciting_action: self.stack@.inciting_action,
            stack: self.stack@.stack,
        }
    }
}

impl<State, IA: IncitingActionInfo<State>> PriorityStack<State, IA> {
    pub(crate) fn new(priority: Priority<State>, inciting_action: IA) -> (r: Self)
        ensures
            r@.state == priority@,
            r@.inciting_action == inciting_action,
            r@.stack == Seq::<IA::Stackable>::empty(),
    {
        PriorityStack { priority, stack: Stack::new(inciting_action) }
    }

    pub fn from_stack(priority: Priority<State>, stack: Stack<State, IA>) -> (r: Self)
        ensures
            r@.state == priority@,
            r@.inciting_action == stack@.inciting_action,
            r@.stack == stack@.stack,
    {
        PriorityStack { priority, stack }
    }

    pub fn take_contents(self) -> (r: (State, Stack<State, IA>))
        ensures
            r.0 == self@.state,
            r.1@.inciting_action == self@.inciting_action,
            r.1@.stack == self@.stack,
    {
        (self.priority.state, self.stack)
    }

    pub fn priority(&self) -> (r: &Priority<State>)
        ensures
            r@ == self@.state,
    {
        &self.priority
    }

    pub fn state(&self) -> (r: &State)
        ensures
            *r == self@.state,
    {
        self.priority.state()
    }

    /// How many actions are stacked; the inciting action does not count.
    pub fn stack_count(&self) -> (r: usize)
        ensures
            r == self@.stack.len(),
    {
        self.stack.stack.len()
    }

    /// Puts `stack_action` on top of the stack.
    pub fn stack(self, stack_action: IA::Stackable) -> (r: Self)
        ensures
            r@.state == self@.state,
            r@.inciting_action == self@.inciting_action,
            r@.stack == self@.stack.push(stack_action),
    {
        let mut this = self;
        this.stack.stack(stack_action);
        this
    }

    /// The same stack over another state: the state, the inciting action and each stacked
    /// action are converted, in order.
    pub fn into_state<NewState, NewIA: IncitingActionInfo<NewState>>(self) -> (r: PriorityStack<NewState, NewIA>) where
        State: Into<NewState>,
        IA: Into<NewIA>,
        IA::Stackable: Into<NewIA::Stackable>,

        ensures
            call_ensures(State::into, (self@.state,), r@.state),
            call_ensures(IA::into, (self@.inciting_action,), r@.inciting_action),
            r@.stack.len() == self@.stack.len(),
            forall|i: int|
                0 <= i < r@.stack.len() ==> call_ensures(
                    <IA::Stackable as Into<NewIA::Stackable>>::into,
                    (self@.stack[i],),
                    #[trigger] r@.stack[i],
                ),
    {
        let PriorityStack { priority, stack } = self;
        let Stack { inciting_action, stack: mut items } = stack;
        let ghost all = items@;
        let mut converted: Vec<NewIA::Stackable> = Vec::new();
        while items.len() > 0
            invariant
                converted@.len() + items@.len() == all.len(),
                items@ == all.subrange(converted@.len() as int, all.len() as int),
                forall|i: int|
                    0 <= i < converted@.len() ==> call_ensures(
                        <IA::Stackable as Into<NewIA::Stackable>>::into,
                        (all[i],),
                        #[trigger] converted@[i],
                    ),
            decreases items@.len(),
        {
            let item = items.remove(0);
            let ghost k = converted@.len() as int;
            assert(item == all[k]);
            let new_item = item.into();
            converted.push(new_item);
            assert(items@ =~= all.subrange(converted@.len() as int, all.len() as int));
            assert(call_ensures(<IA::Stackable as Into<NewIA::Stackable>>::into, (all[k],), converted@[k]));
        }
        let state = priority.take_state().into();
        let inciting_action = inciting_action.into();
        PriorityStack { priority: Priority::new(state), stack: Stack { inciting_action, stack: converted } }
    }
}

impl<State: GetState<InnerState>, InnerState, IA: IncitingActionInfo<State>> GetState<InnerState> for PriorityStack<
    State,
    IA,
> {
    open spec fn state_spec(&self) -> InnerState {
        self@.state.state_spec()
    }

    fn state(&self) -> (r: &InnerState) {
        self.priority.state.state()
    }
}

/// Resolves a stack one action at a time.
pub trait Resolver<
    State,
    Input,
    IA: IncitingAction<State, Input>,
    R: IncitingResolver<State, Input, IA> + StackResolver<State, IA>,
>: Sized {
    spec fn resolve_next_requires(self, resolver: R) -> bool;

    spec fn resolve_next_ensures(
        self,
        resolver: R,
        resolved: ResolveStack<Self, R::Resolved, R::HaltStack>,
    ) -> bool;

    fn resolve_next(
        self,
        resolver: &mut R,
    ) -> (r: ResolveStack<Self, R::Resolved, R::HaltStack>)
        requires
            self.resolve_next_requires(*old(resolver)),
        ensures
            self.resolve_next_ensures(*old(resolver), r),
    ;
}

/// The stack once its top action was taken off.
pub open spec fn popped<State, IA: IncitingActionInfo<State>>(
    before: PriorityStackView<State, IA, IA::Stackable>,
    after: PriorityStack<State, IA>,
) -> bool {
    &&& after@.state == before.state
    &&& after@.inciting_action == before.inciting_action
    &&& after@.stack == before.stack.drop_last()
}

/// Whether `p` holds the state `state`.
pub open spec fn holds_state<State>(p: Priority<State>, state: State) -> bool {
    p@ == state
}

/// What must hold before the next action of `stack` resolves with `resolver`.
pub open spec fn resolve_next_pre<
    State,
    Input,
    IA: IncitingAction<State, Input>,
    R: IncitingResolver<State, Input, IA> + StackResolver<State, IA>,
>(stack: PriorityStackView<State, IA, IA::Stackable>, resolver: R) -> bool {
    &&& stack.stack.len() > 0 ==> forall|p: PriorityStack<State, IA>|
        #[trigger] popped(stack, p) ==> resolver.resolve_stack_requires(p, stack.stack.last())
    &&& stack.stack.len() == 0 ==> forall|p: Priority<State>|
        #[trigger] holds_state(p, stack.state) ==> resolver.resolve_inciting_requires(p, stack.inciting_action)
}

/// What resolving the next action of `stack` with `resolver` leads to: the top
/// of a non-empty stack is handed to the resolver with the rest of the
/// stack; an empty stack hands its inciting action over.
pub open spec fn resolve_next_post<
    State,
    Input,
    IA: IncitingAction<State, Input>,
    R: IncitingResolver<State, Input, IA> + StackResolver<State, IA>,
>(
    stack: PriorityStackView<State, IA, IA::Stackable>,
    resolver: R,
    r: ResolveStack<PriorityStack<State, IA>, R::Resolved, R::HaltStack>,
) -> bool {
    &&& stack.stack.len() > 0 ==> exists|p: PriorityStack<State, IA>|
        #[trigger] popped(stack, p) && match r {
            ResolveStack::Next(next) => resolver.resolve_stack_ensures(
                p,
                stack.stack.last(),
                Resolve::Continue(next),
            ),
            ResolveStack::Halt(halt) => resolver.resolve_stack_ensures(
                p,
                stack.stack.last(),
                Resolve::Halt(halt),
            ),
            ResolveStack::Complete(_) => false,
        }
    &&& stack.stack.len() == 0 ==> exists|p: Priority<State>|
        #[trigger] holds_state(p, stack.state) && match r {
            ResolveStack::Complete(data) => resolver.resolve_inciting_ensures(
                p,
                stack.inciting_action,
                data,
            ),
            _ => false,
        }
}

impl<
    State,
    Input,
    IA: IncitingAction<State, Input>,
    R: IncitingResolver<State, Input, IA> + StackResolver<State, IA>,
> Resolver<State, Input, IA, R> for PriorityStack<State, IA> {
    open spec fn resolve_next_requires(self, resolver: R) -> bool {
        resolve_next_pre::<State, Input, IA, R>(self@, resolver)
    }

    open spec fn resolve_next_ensures(
        self,
        resolver: R,
        resolved: ResolveStack<Self, R::Resolved, R::HaltStack>,
    ) -> bool {
        resolve_next_post::<State, Input, IA, R>(self@, resolver, resolved)
    }

    /// Resolves the top of the stack, or the inciting action once the stack is empty.
    fn resolve_next(self, resolver: &mut R) -> (r: ResolveStack<Self, R::Resolved, R::HaltStack>) {
        let ghost before = self@;
        let mut this = self;
        if let Some(action) = this.stack.pop() {
            assert(popped(before, this));
            let r = resolver.resolve_stack(PriorityMut::<PriorityStack<State, IA>>::new(this), action);
            match r {
                Resolve::Continue(priority) => ResolveStack::Next(priority),
                Resolve::Halt(data) => ResolveStack::Halt(data),
            }
        } else {
            let PriorityStack { priority, stack } = this;
            let inciting_action = stack.take_inciting_action();
            assert(priority@ == before.state);
            assert(inciting_action == before.inciting_action);
            let pm = PriorityMut::<Priority<State>>::new(priority);
            assert(holds_state(pm@, before.state));
            ResolveStack::Complete(resolver.resolve_inciting(pm, inciting_action))
        }
    }
}

/// Resolves an inciting action once nothing is stacked upon it.
pub trait IncitingResolver<State, Input, IA: IncitingAction<State, Input>> {
    type Resolved;

    spec fn resolve_inciting_requires(&self, priority: Priority<State>, action: IA) -> bool;

    spec fn resolve_inciting_ensures(
        &self,
        priority: Priority<State>,
        action: IA,
        resolved: Self::Resolved,
    ) -> bool;

    fn resolve_inciting(&mut self, priority: PriorityMut<Priority<State>>, action: IA) -> (r:
        Self::Resolved)
        requires
            old(self).resolve_inciting_requires(priority@, action),
        ensures
            old(self).resolve_inciting_ensures(priority@, action, r),
    ;
}

/// An inciting action that takes no input resolves at once.
impl<
    State,
    IA: IncitingAction<State, (), Requirement = ()>,
    R: StackResolver<State, IA>,
> IncitingResolver<State, (), IA> for R {
    type Resolved = IA::Resolved;

    open spec fn resolve_inciting_requires(&self, priority: Priority<State>, action: IA) -> bool {
        action.resolve_requires(priority, ())
    }

    open spec fn resolve_inciting_ensures(
        &self,
        priority: Priority<State>,
        action: IA,
        resolved: IA::Resolved,
    ) -> bool {
        action.resolve_ensures(priority, (), resolved)
    }

    fn resolve_inciting(&mut self, priority: PriorityMut<Priority<State>>, action: IA) -> (r:
        IA::Resolved) {
        action.resolve(priority, ())
    }
}

/// An inciting action that takes an input waits for its requirement.
impl<
    State,
    Input: NonEmptyInput,
    IA: IncitingAction<State, Input>,
    R: StackResolver<State, IA>,
> IncitingResolver<State, Input, IA> for R {
    type Resolved = Result<
        RequirementAction<Priority<State>, Input, IA>,
        TryNewRequirementActionError<Priority<State>, IA>,
    >;

    open spec fn resolve_inciting_requires(&self, priority: Priority<State>, action: IA) -> bool {
        true
    }

    open spec fn resolve_inciting_ensures(
        &self,
        priority: Priority<State>,
        action: IA,
        resolved: Self::Resolved,
    ) -> bool {
        try_new_outcome::<State, Input, IA>(priority, action, resolved)
    }

    fn resolve_inciting(&mut self, priority: PriorityMut<Priority<State>>, action: IA) -> (r:
        Self::Resolved) {
        RequirementAction::<Priority<State>, Input, IA>::try_new(priority.take_priority(), action)
    }
}

/// Resolves the action on top of a stack.
pub trait StackResolver<State, IA: IncitingActionInfo<State>> {
    type HaltStack;

    spec fn resolve_stack_requires(&self, priority: PriorityStack<State, IA>, action: IA::Stackable) -> bool;

    spec fn resolve_stack_ensures(
        &self,
        priority: PriorityStack<State, IA>,
        action: IA::Stackable,
        resolved: Resolve<PriorityStack<State, IA>, Self::HaltStack>,
    ) -> bool;

    fn resolve_stack(
        &mut self,
        priority: PriorityMut<PriorityStack<State, IA>>,
        action: IA::Stackable,
    ) -> (r: Resolve<PriorityStack<State, IA>, Self::HaltStack>)
        requires
            old(self).resolve_stack_requires(priority@, action),
        ensures
            old(self).resolve_stack_ensures(priority@, action, r),
    ;
}

/// What resolving the top of a stack leads to.
pub enum Resolve<Priority, Halt> {
    Continue(Priority),
    Halt(Halt),
}

/// A stack that resolves on continues.
impl<State, Halt, IA: IncitingActionInfo<State>> From<PriorityStack<State, IA>> for Resolve<PriorityStack<State, IA>, Halt> {
    fn from(priority: PriorityStack<State, IA>) -> (r: Self) {
        Resolve::Continue(priority)
    }
}

impl<State, Halt, IA: IncitingActionInfo<State>> vstd::std_specs::convert::FromSpecImpl<PriorityStack<State, IA>> for Resolve<PriorityStack<State, IA>, Halt> {
    open spec fn obeys_from_spec() -> bool {
        true
    }

    open spec fn from_spec(priority: PriorityStack<State, IA>) -> Self {
        Resolve::Continue(priority)
    }
}

/// What one step of resolving a stack leads to.
pub enum ResolveStack<Priority, Data, Halt> {
    Next(Priority),
    Complete(Data),
    Halt(Halt),
}

/// What resolving a whole stack leads to.
pub enum ResolveStackFully<Data, Broken> {
    Complete(Data),
    Broken(Broken),
}

/// A priority handed back together with the error that stopped it.
pub struct PriorityError<Priority, Error> {
    pub priority: Priority,
    pub error: Error,
}

} // verus!
