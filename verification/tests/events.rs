use card_game::events::{
    Event, EventActionResolution, EventListener, EventManager, GetEventManager,
    GetStackEventManager, ResolveSimultaneousActionsError, TriggeredEvent,
    TriggeredEventResolution, TriggeredStackEventResolution,
};
use card_game::stack::actions::{IncitingAction, IncitingActionInfo, StackAction};
use card_game::stack::priority::{Priority, PriorityMut, PriorityStack};
use card_game::validation::{ActionID, StateFilter, StateFilterInput, ValidAction};

struct Game;
struct Summoned;
#[derive(Clone)]
struct SummonedListenerWhileInBattleZone;

#[test]
fn t() {
    let event_manager_0 = EventManager::<Game, Summoned, SummonedListenerWhileInBattleZone>::empty();
    assert_eq!(event_manager_0.count(), 0);
}

#[derive(Clone)]
struct Tick;

#[derive(Clone, Debug, PartialEq)]
struct TickInput;
impl StateFilterInput for TickInput {}

#[derive(Clone)]
struct Counter {
    threshold: u32,
    amount: u32,
}
impl StateFilterInput for Counter {}

struct AtLeast;

#[derive(Debug, PartialEq)]
struct BelowThreshold;

struct AddCounter {
    amount: u32,
}

impl<S> ValidAction<S, TickInput> for AddCounter {
    type Filter = ();
    type Output = u32;
    fn with_valid_input_requires(&self, _state: S, _valid: TickInput) -> bool {
        true
    }
    fn with_valid_input_ensures(&self, _state: S, _valid: TickInput, output: u32) -> bool {
        output == self.amount
    }
    fn with_valid_input(self, _state: S, _valid: TickInput) -> u32 {
        self.amount
    }
    fn action_id() -> ActionID {
        ActionID::new("add_counter")
    }
}

struct Inc;
impl IncitingActionInfo<Board> for Inc {
    type Resolved = ();
    type Stackable = StackItem;
}

struct StackItem(card_game::events::EventAction<PriorityStack<Board, Inc>, Tick, AddCounter>);
impl From<card_game::events::EventAction<PriorityStack<Board, Inc>, Tick, AddCounter>> for StackItem {
    fn from(action: card_game::events::EventAction<PriorityStack<Board, Inc>, Tick, AddCounter>) -> Self {
        StackItem(action)
    }
}

#[derive(Clone)]
struct Board {
    counters: u32,
    listeners: EventManager<Priority<Board>, Tick, Counter>,
    stack_listeners: EventManager<PriorityStack<Board, Inc>, Tick, Counter>,
}

impl Event<Priority<Board>> for Tick {
    type Input = TickInput;
    type Stackable = ();
}
impl Event<PriorityStack<Board, Inc>> for Tick {
    type Input = TickInput;
    type Stackable = StackItem;
}

impl StateFilter<Priority<Board>, Counter> for AtLeast {
    type ValidOutput = Counter;
    type Error = BelowThreshold;
    fn filter_spec(state: Priority<Board>, value: Counter) -> Result<Counter, BelowThreshold> {
        Self::filter(&state, value)
    }
    fn filter(state: &Priority<Board>, value: Counter) -> Result<Counter, BelowThreshold> {
        if state.state().counters >= value.threshold {
            Ok(value)
        } else {
            Err(BelowThreshold)
        }
    }
}
impl StateFilter<PriorityStack<Board, Inc>, Counter> for AtLeast {
    type ValidOutput = Counter;
    type Error = BelowThreshold;
    fn filter_spec(state: PriorityStack<Board, Inc>, value: Counter) -> Result<Counter, BelowThreshold> {
        Self::filter(&state, value)
    }
    fn filter(state: &PriorityStack<Board, Inc>, value: Counter) -> Result<Counter, BelowThreshold> {
        if state.state().counters >= value.threshold {
            Ok(value)
        } else {
            Err(BelowThreshold)
        }
    }
}

impl EventListener<Priority<Board>, Tick> for Counter {
    type Filter = AtLeast;
    type Action = AddCounter;
    fn action(&self, _state: &Priority<Board>, _event: &Tick, value: Counter) -> AddCounter {
        AddCounter { amount: value.amount }
    }
}
impl EventListener<PriorityStack<Board, Inc>, Tick> for Counter {
    type Filter = AtLeast;
    type Action = AddCounter;
    fn action(&self, _state: &PriorityStack<Board, Inc>, _event: &Tick, value: Counter) -> AddCounter {
        AddCounter { amount: value.amount }
    }
}

impl GetEventManager<Tick> for Board {
    type Listener = Counter;
    fn event_manager_spec(&self) -> EventManager<Priority<Board>, Tick, Counter> {
        self.listeners.clone()
    }
    fn event_manager(&self) -> EventManager<Priority<Board>, Tick, Counter> {
        self.listeners.clone()
    }
}
impl GetStackEventManager<Tick, Inc> for Board {
    type Listener = Counter;
    fn stack_event_manager_spec(&self) -> EventManager<PriorityStack<Board, Inc>, Tick, Counter> {
        self.stack_listeners.clone()
    }
    fn stack_event_manager(&self) -> EventManager<PriorityStack<Board, Inc>, Tick, Counter> {
        self.stack_listeners.clone()
    }
}

fn board(counters: u32, listeners: &[(u32, u32)]) -> Board {
    let mut priority_listeners = EventManager::empty();
    let mut stack_listeners = EventManager::empty();
    for (threshold, amount) in listeners {
        priority_listeners.add_listener(Counter { threshold: *threshold, amount: *amount });
        stack_listeners.add_listener(Counter { threshold: *threshold, amount: *amount });
    }
    Board { counters, listeners: priority_listeners, stack_listeners }
}

fn amount_on_top(stack: &mut card_game::stack::Stack<Board, Inc>, board: &Board) -> u32 {
    let StackItem(action) = stack.pop().unwrap();
    let priority = Priority::new(board.clone()).stack(Inc);
    match <card_game::events::EventAction<PriorityStack<Board, Inc>, Tick, AddCounter> as StackAction<Board, (), Inc>>::resolve(
        action,
        PriorityMut::<PriorityStack<Board, Inc>>::new(priority),
        (),
    ) {
        EventActionResolution::Resolved(amount) => amount,
        EventActionResolution::Fizzled { .. } => panic!("the action takes any input"),
    }
}

#[test]
fn no_listener_answers() {
    let state = Priority::new(board(0, &[(5, 1)]));
    match TriggeredEvent::<Priority<Board>, Tick>::new(state, Tick, TickInput).collect() {
        TriggeredEventResolution::NoActions(board) => assert_eq!(board.counters, 0),
        _ => panic!("the listener is below its threshold"),
    }
}

#[test]
fn one_listener_starts_the_stack() {
    let state = Priority::new(board(3, &[(5, 1), (2, 7)]));
    match TriggeredEvent::<Priority<Board>, Tick>::new(state, Tick, TickInput).collect() {
        TriggeredEventResolution::Action(stack) => {
            assert_eq!(stack.stack_count(), 0);
            let (board, stack) = stack.take_contents();
            let action = stack.take_inciting_action();
            let resolution = <card_game::events::EventAction<Priority<Board>, Tick, AddCounter> as IncitingAction<Board, ()>>::resolve(
                action,
                PriorityMut::<Priority<Board>>::new(Priority::new(board)),
                (),
            );
            match resolution {
                EventActionResolution::Resolved(amount) => assert_eq!(amount, 7),
                EventActionResolution::Fizzled { .. } => panic!("the action takes any input"),
            }
        }
        _ => panic!("exactly one listener passes"),
    }
}

#[test]
fn several_listeners_wait_for_an_order() {
    let state = Priority::new(board(3, &[(0, 10), (1, 20), (9, 30)]));
    match TriggeredEvent::<Priority<Board>, Tick>::new(state, Tick, TickInput).collect() {
        TriggeredEventResolution::SimultaneousActions(manager) => {
            assert_eq!(manager.simultaneous_action_count(), 2);
            let ids = manager.simultaneous_action_ids();
            assert_eq!(ids.len(), 2);
            assert_eq!(ids[0].id().index(), 0);
            assert_eq!(ids[1].id().index(), 1);
            assert!(manager.verify(ids[1].id()).is_some());
        }
        _ => panic!("two listeners pass"),
    }
}

fn stacked_manager(
    counters: u32,
) -> card_game::events::SimultaneousActionManager<PriorityStack<Board, Inc>, Tick, AddCounter> {
    let b = board(counters, &[(0, 10), (1, 20)]);
    let stack = Priority::new(b).stack(Inc);
    match TriggeredEvent::<PriorityStack<Board, Inc>, Tick>::new(stack, Tick, TickInput).collect() {
        TriggeredStackEventResolution::SimultaneousActions(manager) => manager,
        _ => panic!("two listeners pass"),
    }
}

#[test]
fn first_in_order_ends_on_top() {
    let manager = stacked_manager(3);
    let ids = manager.simultaneous_action_ids();
    let order = vec![ids[1].id(), ids[0].id()];
    let order = order
        .into_iter()
        .map(|id| manager.verify(id).unwrap())
        .collect::<Vec<_>>();
    let stack = match manager.resolve(order) {
        Ok(stack) => stack,
        Err(_) => panic!("the order names each action once"),
    };
    assert_eq!(stack.stack_count(), 2);
    let (board, mut stack) = stack.take_contents();
    assert_eq!(amount_on_top(&mut stack, &board), 20);
    assert_eq!(amount_on_top(&mut stack, &board), 10);
    assert!(stack.pop().is_none());
}

#[test]
fn repeated_neighbours_count_once() {
    let manager = stacked_manager(3);
    let ids = manager.simultaneous_action_ids();
    let raw = vec![ids[0].id(), ids[0].id(), ids[1].id()];
    let order = raw
        .into_iter()
        .map(|id| manager.verify(id).unwrap())
        .collect::<Vec<_>>();
    let stack = match manager.resolve(order) {
        Ok(stack) => stack,
        Err(_) => panic!("runs count once"),
    };
    let (board, mut stack) = stack.take_contents();
    assert_eq!(amount_on_top(&mut stack, &board), 10);
    assert_eq!(amount_on_top(&mut stack, &board), 20);
}

#[test]
fn an_incomplete_order_is_refused() {
    let manager = stacked_manager(3);
    let ids = manager.simultaneous_action_ids();
    let order = vec![manager.verify(ids[0].id()).unwrap()];
    match manager.resolve(order) {
        Ok(_) => panic!("an action is missing from the order"),
        Err(ResolveSimultaneousActionsError::NotAllActionsAreOrdered(manager)) => {
            assert_eq!(manager.simultaneous_action_count(), 2);
        }
    }
}

#[test]
fn the_stack_sees_its_own_listeners() {
    let b = board(0, &[(0, 10), (1, 20)]);
    let stack = Priority::new(b).stack(Inc);
    match TriggeredEvent::<PriorityStack<Board, Inc>, Tick>::new(stack, Tick, TickInput).collect() {
        TriggeredStackEventResolution::Action(stack) => {
            assert_eq!(stack.stack_count(), 1);
            let (board, mut stack) = stack.take_contents();
            assert_eq!(amount_on_top(&mut stack, &board), 10);
        }
        _ => panic!("one listener passes"),
    }
}
